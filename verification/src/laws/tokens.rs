//! What holds of the text of a token.
use vstd::prelude::*;

use crate::token;

verus! {

/// The number of six bits that a sign of the standard base64 alphabet stands for.
pub open spec fn sign_number(c: char) -> int {
    if 'A' <= c <= 'Z' {
        c as int - 'A' as int
    } else if 'a' <= c <= 'z' {
        c as int - 'a' as int + 26
    } else if '0' <= c <= '9' {
        c as int - '0' as int + 52
    } else if c == '+' {
        62
    } else if c == '/' {
        63
    } else {
        -1
    }
}

/// Each number of six bits has the sign that stands for it.
pub proof fn law_sign_numbers(n: int)
    requires
        0 <= n < 64,
    ensures
        sign_number(token::base64_symbol(n)) == n,
{
}

/// A number of twenty-four bits is put together from its four numbers of six bits.
proof fn lemma_bits_add_up(n: int)
    requires
        0 <= n < 0x1000000,
    ensures
        n == n / 262144 * 262144 + n / 4096 % 64 * 4096 + n / 64 % 64 * 64 + n % 64,
        0 <= n / 262144 < 64,
{
    assert(n / 4096 == n / 262144 * 64 + n / 4096 % 64);
    assert(n / 64 == n / 4096 * 64 + n / 64 % 64);
}

/// The numbers of the signs of a group are the bits that the group stands for.
proof fn lemma_group_numbers(n: int)
    requires
        0 <= n < 0x1000000,
    ensures
        ({
            let g = token::base64_group(n);
            &&& g.len() == 4
            &&& sign_number(g[0]) == n / 262144
            &&& sign_number(g[1]) == n / 4096 % 64
            &&& sign_number(g[2]) == n / 64 % 64
            &&& sign_number(g[3]) == n % 64
            &&& n == sign_number(g[0]) * 262144 + sign_number(g[1]) * 4096 + sign_number(g[2]) * 64
                + sign_number(g[3])
        }),
{
    lemma_bits_add_up(n);
    law_sign_numbers(n / 262144);
    law_sign_numbers(n / 4096 % 64);
    law_sign_numbers(n / 64 % 64);
    law_sign_numbers(n % 64);
}

/// `t` is so many `signs`, and padding signs up to four, whose bits put
/// together are those of `n`.
pub open spec fn holds_bits(t: Seq<char>, signs: int, n: int) -> bool {
    let numbers = t.map_values(|c: char| sign_number(c));
    &&& t.len() == 4
    &&& forall|i: int| 0 <= i < signs ==> #[trigger] numbers[i] >= 0
    &&& forall|i: int| signs <= i < 4 ==> #[trigger] t[i] == '='
    &&& n == numbers[0] * 262144 + numbers[1] * 4096 + (if signs > 2 {
        numbers[2] * 64
    } else {
        0
    }) + (if signs > 3 {
        numbers[3]
    } else {
        0
    })
}

/// Three bytes are four signs whose bits, put together, are those of the bytes.
pub proof fn law_three_bytes_are_four_signs(x: u8, y: u8, z: u8)
    ensures
        holds_bits(token::base64_text(seq![x, y, z]), 4, x * 65536 + y * 256 + z),
{
    let bytes = seq![x, y, z];
    let n = x * 65536 + y * 256 + z;
    lemma_group_numbers(n);
    let t = token::base64_text(bytes);
    let g = token::base64_group(n);
    assert(t =~= g) by {
        assert(bytes.skip(3) =~= Seq::<u8>::empty());
        law_no_bytes_are_no_text();
    }
    let numbers = t.map_values(|c: char| sign_number(c));
    assert(numbers[0] == sign_number(g[0]) && numbers[1] == sign_number(g[1]));
    assert(numbers[2] == sign_number(g[2]) && numbers[3] == sign_number(g[3]));
}

/// Two bytes are three signs and a padding sign, and the bits beyond the bytes are
/// zero.
pub proof fn law_two_bytes_are_three_signs(x: u8, y: u8)
    ensures
        holds_bits(token::base64_text(seq![x, y]), 3, x * 65536 + y * 256),
{
    let n = x * 65536 + y * 256;
    lemma_group_numbers(n);
    let t = token::base64_text(seq![x, y]);
    let g = token::base64_group(n);
    assert(t == g.take(3) + seq!['=']);
    assert(t[0] == g[0] && t[1] == g[1] && t[2] == g[2] && t[3] == '=');
}

/// One byte is two signs and two padding signs, and the bits beyond the byte are
/// zero.
pub proof fn law_one_byte_is_two_signs(x: u8)
    ensures
        holds_bits(token::base64_text(seq![x]), 2, x * 65536),
{
    let n = x * 65536;
    lemma_group_numbers(n);
    let t = token::base64_text(seq![x]);
    let g = token::base64_group(n);
    assert(t == g.take(2) + seq!['=', '=']);
    assert(t[0] == g[0] && t[1] == g[1] && t[2] == '=' && t[3] == '=');
}

/// No bytes are no text.
pub proof fn law_no_bytes_are_no_text()
    ensures
        token::base64_text(Seq::<u8>::empty()) == Seq::<char>::empty(),
{
}

/// The text of bytes in whole groups of three, and others after them, is the text
/// of the first followed by that of the others.
pub proof fn law_token_text_joins(a: Seq<u8>, b: Seq<u8>)
    requires
        a.len() % 3 == 0,
    ensures
        token::base64_text(a + b) == token::base64_text(a) + token::base64_text(b),
    decreases a.len(),
{
    if a.len() == 0 {
        assert(a + b =~= b);
        assert(token::base64_text(a) =~= Seq::<char>::empty());
    } else {
        law_token_text_joins(a.skip(3), b);
        assert((a + b).skip(3) =~= a.skip(3) + b);
        assert((a + b)[0] == a[0] && (a + b)[1] == a[1] && (a + b)[2] == a[2]);
        assert(token::base64_text(a + b) =~= token::base64_text(a) + token::base64_text(b));
    }
}

} // verus!
