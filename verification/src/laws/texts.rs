//! What holds of texts: case, blankness and numerals.
use vstd::arithmetic::div_mod::lemma_mod_breakdown;
use vstd::arithmetic::power::{lemma_pow_positive, pow};
use vstd::prelude::*;

use crate::text;

verus! {

/// `a` and `b` are one character, or the capital and the small form of one ASCII
/// letter.
pub open spec fn one_letter(a: char, b: char) -> bool {
    ||| a == b
    ||| 'A' <= a <= 'Z' && b as int == a as int + 32
    ||| 'A' <= b <= 'Z' && a as int == b as int + 32
}

/// Two texts are the same up to case exactly where they are equally long and, at
/// every position, hold one character or the two forms of one ASCII letter.
pub proof fn law_case_variants(a: Seq<char>, b: Seq<char>)
    ensures
        text::same_ignoring_case(a, b) <==> a.len() == b.len() && forall|i: int|
            0 <= i < a.len() ==> one_letter(#[trigger] a[i], b[i]),
{
    if a.len() == b.len() {
        if forall|i: int| 0 <= i < a.len() ==> one_letter(#[trigger] a[i], b[i]) {
            assert forall|i: int| 0 <= i < a.len() implies text::ascii_lower(#[trigger] a[i])
                == text::ascii_lower(b[i]) by {
                assert(one_letter(a[i], b[i]));
            }
        }
    }
}

/// Only ASCII capitals have another small letter, and it stands 32 code points
/// further; a small letter is its own.
pub proof fn law_lower_case(c: char)
    ensures
        'A' <= c <= 'Z' ==> text::ascii_lower(c) as int == c as int + 32,
        !('A' <= c <= 'Z') ==> text::ascii_lower(c) == c,
        text::ascii_lower(text::ascii_lower(c)) == text::ascii_lower(c),
{
}

/// White space is the characters that Unicode gives this property, and no others.
pub proof fn law_white_space(c: char)
    ensures
        text::is_white_space(c) <==> set![
            '\u{9}', '\u{A}', '\u{B}', '\u{C}', '\u{D}', ' ', '\u{85}', '\u{A0}', '\u{1680}',
            '\u{2000}', '\u{2001}', '\u{2002}', '\u{2003}', '\u{2004}', '\u{2005}', '\u{2006}',
            '\u{2007}', '\u{2008}', '\u{2009}', '\u{200A}', '\u{2028}', '\u{2029}', '\u{202F}',
            '\u{205F}', '\u{3000}',
        ].contains(c),
{
}

/// The empty text is blank; a text is blank exactly where both its parts are; and
/// a single character is blank exactly where it is white space. So one character
/// that is no white space, wherever it stands, makes a text not blank.
pub proof fn law_blankness(a: Seq<char>, b: Seq<char>, c: char)
    ensures
        text::is_blank_text(Seq::empty()),
        text::is_blank_text(a + b) <==> text::is_blank_text(a) && text::is_blank_text(b),
        text::is_blank_text(seq![c]) <==> text::is_white_space(c),
        text::is_blank_text(a + seq![c] + b) ==> text::is_white_space(c),
{
    let whole = a + b;
    if text::is_blank_text(whole) {
        assert forall|i: int| 0 <= i < a.len() implies text::is_white_space(#[trigger] a[i]) by {
            assert(whole[i] == a[i]);
        }
        assert forall|i: int| 0 <= i < b.len() implies text::is_white_space(#[trigger] b[i]) by {
            assert(whole[a.len() + i] == b[i]);
        }
    }
    if text::is_blank_text(seq![c]) {
        assert(seq![c][0] == c);
    }
    if text::is_blank_text(a + seq![c] + b) {
        assert((a + seq![c] + b)[a.len() as int] == c);
    }
}

/// The number that a decimal numeral stands for.
pub open spec fn decimal_value(s: Seq<char>) -> int
    decreases s.len(),
{
    if s.len() == 0 {
        0
    } else {
        decimal_value(s.drop_last()) * 10 + (s.last() as int - '0' as int)
    }
}

/// The decimal numeral of a number stands for it, is made of digits and has no
/// leading zero.
pub proof fn law_decimal_numeral(n: nat)
    ensures
        decimal_value(text::decimal_numeral(n)) == n,
        text::decimal_numeral(n).len() > 0,
        forall|i: int|
            0 <= i < text::decimal_numeral(n).len() ==> '0' <= #[trigger] text::decimal_numeral(
                n,
            )[i] <= '9',
        text::decimal_numeral(n).len() > 1 ==> text::decimal_numeral(n)[0] != '0',
    decreases n,
{
    reveal_strlit("0123456789abcdef");
    let s = text::decimal_numeral(n);
    let last = n % 10;
    assert(text::digit_char(last as int) as int == '0' as int + last);
    if n < 10 {
        assert(s.drop_last() =~= Seq::empty());
        reveal_with_fuel(decimal_value, 2);
    } else {
        law_decimal_numeral(n / 10);
        let shorter = text::decimal_numeral(n / 10);
        assert(s.drop_last() =~= shorter);
        assert(s[0] == shorter[0]);
        if n / 10 >= 10 {
            law_decimal_numeral(n / 100);
            assert(n / 10 / 10 == n / 100);
            assert(shorter.len() > 1);
        } else {
            assert(text::digit_char((n / 10) as int) as int == '0' as int + n / 10);
        }
    }
}

/// The number that a hexadecimal digit stands for.
pub open spec fn hex_digit_value(c: char) -> int {
    if c <= '9' {
        c as int - '0' as int
    } else {
        c as int - 'a' as int + 10
    }
}

/// The number that a hexadecimal numeral stands for.
pub open spec fn hex_value(s: Seq<char>) -> int
    decreases s.len(),
{
    if s.len() == 0 {
        0
    } else {
        hex_value(s.drop_last()) * 16 + hex_digit_value(s.last())
    }
}

/// The hexadecimal numeral of `n` in `width` digits has just these many, each a
/// digit or a small letter, and stands for what is left of `n` in that width.
pub proof fn law_hex_numeral(n: nat, width: nat)
    ensures
        text::hex_numeral(n, width).len() == width,
        hex_value(text::hex_numeral(n, width)) == n as int % pow(16, width),
        forall|i: int|
            0 <= i < width ==> {
                let c = #[trigger] text::hex_numeral(n, width)[i];
                '0' <= c <= '9' || 'a' <= c <= 'f'
            },
    decreases width,
{
    reveal(pow);
    if width > 0 {
        let less = (width - 1) as nat;
        law_hex_numeral(n / 16, less);
        reveal_strlit("0123456789abcdef");
        let s = text::hex_numeral(n, width);
        let last = n % 16;
        assert(s.drop_last() =~= text::hex_numeral(n / 16, less));
        assert(s.last() == text::digit_char(last as int));
        assert(hex_digit_value(text::digit_char(last as int)) == last);
        lemma_pow_positive(16, less);
        lemma_mod_breakdown(n as int, 16, pow(16, less));
    }
}

} // verus!
