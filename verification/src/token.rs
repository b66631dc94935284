//! The text of a Negotiate token: base64 in the standard alphabet, with canonical
//! padding (RFC 4648).
use base64::Engine;
use vstd::prelude::*;

verus! {

/// The symbol that stands for `n`, a number of six bits.
pub open spec fn base64_symbol(n: int) -> char {
    if n < 26 {
        ('A' as int + n) as char
    } else if n < 52 {
        ('a' as int + (n - 26)) as char
    } else if n < 62 {
        ('0' as int + (n - 52)) as char
    } else if n == 62 {
        '+'
    } else {
        '/'
    }
}

/// The four symbols that stand for `n`, a number of twenty-four bits.
pub open spec fn base64_group(n: int) -> Seq<char> {
    seq![
        base64_symbol(n / 262144),
        base64_symbol(n / 4096 % 64),
        base64_symbol(n / 64 % 64),
        base64_symbol(n % 64),
    ]
}

/// The text that stands for `bytes`: four symbols for each three bytes. One or two
/// bytes at the end are filled up with zero bits to two or three symbols, and
/// these with padding signs to four.
pub open spec fn base64_text(bytes: Seq<u8>) -> Seq<char>
    decreases bytes.len(),
{
    if bytes.len() == 0 {
        Seq::empty()
    } else if bytes.len() == 1 {
        base64_group(bytes[0] * 65536).take(2) + seq!['=', '=']
    } else if bytes.len() == 2 {
        base64_group(bytes[0] * 65536 + bytes[1] * 256).take(3) + seq!['=']
    } else {
        base64_group(bytes[0] * 65536 + bytes[1] * 256 + bytes[2]) + base64_text(bytes.skip(3))
    }
}

/// The bytes that `text` stands for, or `None` where it stands for none.
pub open spec fn base64_decoded(text: Seq<char>) -> Option<Seq<u8>> {
    if exists|bytes: Seq<u8>| base64_text(bytes) == text {
        Some(choose|bytes: Seq<u8>| base64_text(bytes) == text)
    } else {
        None
    }
}

/// Symbols of different numbers differ, and none is the padding sign.
proof fn lemma_symbols_differ(m: int, n: int)
    requires
        0 <= m < 64,
        0 <= n < 64,
    ensures
        base64_symbol(m) == base64_symbol(n) ==> m == n,
        base64_symbol(m) != '=',
{
}

/// A number of twenty-four bits, put together from its four numbers of six bits.
proof fn lemma_six_bits(n: int)
    requires
        0 <= n < 0x1000000,
    ensures
        0 <= n / 262144 < 64,
        n / 4096 == n / 262144 * 64 + n / 4096 % 64,
        n / 64 == n / 4096 * 64 + n / 64 % 64,
        n == n / 64 * 64 + n % 64,
{
}

/// Groups that share their first symbols agree on the bits of these.
proof fn lemma_groups_differ(m: int, n: int)
    requires
        0 <= m < 0x1000000,
        0 <= n < 0x1000000,
    ensures
        ({
            let a = base64_group(m);
            let b = base64_group(n);
            &&& a[0] == b[0] && a[1] == b[1] ==> m / 4096 == n / 4096
            &&& a[0] == b[0] && a[1] == b[1] && a[2] == b[2] ==> m / 64 == n / 64
            &&& a[0] == b[0] && a[1] == b[1] && a[2] == b[2] && a[3] == b[3] ==> m == n
            &&& a[2] != '='
            &&& a[3] != '='
        }),
{
    lemma_six_bits(m);
    lemma_six_bits(n);
    let (m0, m1, m2, m3) = (m / 262144, m / 4096 % 64, m / 64 % 64, m % 64);
    let (n0, n1, n2, n3) = (n / 262144, n / 4096 % 64, n / 64 % 64, n % 64);
    lemma_symbols_differ(m0, n0);
    lemma_symbols_differ(m1, n1);
    lemma_symbols_differ(m2, n2);
    lemma_symbols_differ(m3, n3);
}

/// The number whose group the text of `bytes` begins with.
spec fn leading_bits(bytes: Seq<u8>) -> int {
    if bytes.len() == 1 {
        bytes[0] * 65536
    } else if bytes.len() == 2 {
        bytes[0] * 65536 + bytes[1] * 256
    } else {
        bytes[0] * 65536 + bytes[1] * 256 + bytes[2]
    }
}

/// How the text of `bytes` begins, and where its padding signs stand.
proof fn lemma_text_begins(bytes: Seq<u8>)
    requires
        bytes.len() > 0,
    ensures
        ({
            let text = base64_text(bytes);
            let group = base64_group(leading_bits(bytes));
            &&& text.len() >= 4
            &&& text[0] == group[0]
            &&& text[1] == group[1]
            &&& bytes.len() == 1 <==> text[2] == '='
            &&& bytes.len() > 1 ==> text[2] == group[2]
            &&& bytes.len() <= 2 <==> text[3] == '='
            &&& bytes.len() > 2 ==> text[3] == group[3] && text.skip(4) == base64_text(
                bytes.skip(3),
            )
        }),
{
    lemma_groups_differ(leading_bits(bytes), leading_bits(bytes));
    if bytes.len() > 2 {
        assert(base64_text(bytes).skip(4) =~= base64_text(bytes.skip(3)));
    }
}

/// The bits of up to three bytes determine the bytes.
proof fn lemma_bits_differ(a: Seq<u8>, b: Seq<u8>)
    requires
        a.len() > 0,
        b.len() > 0,
        a.len() == b.len() || a.len() > 2 && b.len() > 2,
    ensures
        a.len() == 1 && leading_bits(a) / 4096 == leading_bits(b) / 4096 ==> a[0] == b[0],
        a.len() == 2 && leading_bits(a) / 64 == leading_bits(b) / 64 ==> a[0] == b[0] && a[1]
            == b[1],
        a.len() > 2 && leading_bits(a) == leading_bits(b) ==> a[0] == b[0] && a[1] == b[1] && a[2]
            == b[2],
{
}

/// Bytes with the same text begin alike, and what follows their first three bytes
/// has the same text.
proof fn lemma_same_text_begins_alike(a: Seq<u8>, b: Seq<u8>)
    requires
        a.len() > 0,
        b.len() > 0,
        base64_text(a) == base64_text(b),
    ensures
        a.len() == b.len() || a.len() > 2 && b.len() > 2,
        a[0] == b[0],
        a.len() > 1 ==> a[1] == b[1],
        a.len() > 2 ==> a[2] == b[2] && base64_text(a.skip(3)) == base64_text(b.skip(3)),
{
    lemma_text_begins(a);
    lemma_text_begins(b);
    lemma_groups_differ(leading_bits(a), leading_bits(b));
    lemma_bits_differ(a, b);
}

/// Different bytes have different texts.
pub proof fn lemma_texts_differ(a: Seq<u8>, b: Seq<u8>)
    requires
        base64_text(a) == base64_text(b),
    ensures
        a == b,
    decreases a.len(),
{
    if a.len() == 0 || b.len() == 0 {
        assert(base64_text(Seq::<u8>::empty()).len() == 0);
        if a.len() > 0 {
            lemma_text_begins(a);
        }
        if b.len() > 0 {
            lemma_text_begins(b);
        }
        assert(a =~= b);
    } else {
        lemma_same_text_begins_alike(a, b);
        if a.len() > 2 {
            lemma_texts_differ(a.skip(3), b.skip(3));
            assert(a =~= seq![a[0], a[1], a[2]] + a.skip(3));
            assert(b =~= seq![b[0], b[1], b[2]] + b.skip(3));
        }
    }
}

/// The error of a base64 decoder.
#[verifier::external_type_specification]
#[verifier::external_body]
pub struct ExDecodeError(base64::DecodeError);

/// Calls `base64::Engine::decode` on the engine
/// `base64::engine::general_purpose::STANDARD`.
///
/// Claimed of it: it accepts the texts that stand for some bytes in the standard
/// alphabet, padded canonically and without stray bits in the last symbol, and no
/// others; what it returns are these bytes.
#[verifier::external_body]
fn decode_base64(text: &str) -> (r: Result<Vec<u8>, base64::DecodeError>)
    ensures
        match r {
            Ok(bytes) => base64_text(bytes@) == text@,
            Err(_) => forall|bytes: Seq<u8>| #[trigger] base64_text(bytes) != text@,
        },
{
    base64::engine::general_purpose::STANDARD.decode(text.as_bytes())
}

/// Decodes the text of a Negotiate token; `None` where it is no base64.
pub fn decode_token(text: &str) -> (r: Option<Vec<u8>>)
    ensures
        r.deep_view() == base64_decoded(text@),
{
    match decode_base64(text) {
        Ok(bytes) => {
            proof {
                let chosen = choose|b: Seq<u8>| base64_text(b) == text@;
                lemma_texts_differ(bytes@, chosen);
            }
            Some(bytes)
        },
        Err(_) => None,
    }
}

} // verus!
