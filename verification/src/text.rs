//! Text as sequences of characters: case folding, blankness, searching and
//! number formatting, each with the mathematical statement it is held to.
use vstd::prelude::*;

verus! {

/// `c` with an ASCII capital letter turned into its small letter.
pub open spec fn ascii_lower(c: char) -> char {
    if 'A' <= c <= 'Z' {
        (c as u32 + 32) as char
    } else {
        c
    }
}

/// The two texts are the same up to the case of ASCII letters.
pub open spec fn same_ignoring_case(a: Seq<char>, b: Seq<char>) -> bool {
    &&& a.len() == b.len()
    &&& forall|i: int| 0 <= i < a.len() ==> ascii_lower(#[trigger] a[i]) == ascii_lower(b[i])
}

/// `c` has the Unicode property `White_Space`.
pub open spec fn is_white_space(c: char) -> bool {
    let n = c as u32;
    ||| 0x9 <= n <= 0xD
    ||| n == 0x20
    ||| n == 0x85
    ||| n == 0xA0
    ||| n == 0x1680
    ||| 0x2000 <= n <= 0x200A
    ||| n == 0x2028
    ||| n == 0x2029
    ||| n == 0x202F
    ||| n == 0x205F
    ||| n == 0x3000
}

/// Nothing is left of `s` once white space is trimmed from both its ends.
pub open spec fn is_blank_text(s: Seq<char>) -> bool {
    forall|i: int| 0 <= i < s.len() ==> is_white_space(#[trigger] s[i])
}

/// The characters of `s`, in order.
pub fn chars_of(s: &str) -> (r: Vec<char>)
    ensures
        r@ == s@,
{
    let mut out: Vec<char> = Vec::new();
    for c in it: s.chars()
        invariant
            it.seq() == s@,
            out@ == s@.take(it.index() as int),
    {
        out.push(c);
    }
    out
}

/// The small letter of an ASCII capital letter; any other character itself.
pub fn to_ascii_lower(c: char) -> (r: char)
    ensures
        r == ascii_lower(c),
{
    if 'A' <= c && c <= 'Z' {
        (c as u8 + 32) as char
    } else {
        c
    }
}

/// Whether two texts are equal up to the case of ASCII letters.
pub fn eq_ignore_ascii_case(a: &str, b: &str) -> (r: bool)
    ensures
        r == same_ignoring_case(a@, b@),
{
    let xs = chars_of(a);
    let ys = chars_of(b);
    if xs.len() != ys.len() {
        return false;
    }
    let mut i: usize = 0;
    while i < xs.len()
        invariant
            xs@ == a@,
            ys@ == b@,
            xs.len() == ys.len(),
            i <= xs.len(),
            forall|j: int| 0 <= j < i ==> ascii_lower(#[trigger] xs@[j]) == ascii_lower(ys@[j]),
        decreases xs.len() - i,
    {
        if to_ascii_lower(xs[i]) != to_ascii_lower(ys[i]) {
            return false;
        }
        i += 1;
    }
    true
}

/// Whether two texts are equal.
pub fn eq_text(a: &str, b: &str) -> (r: bool)
    ensures
        r == (a@ == b@),
{
    let xs = chars_of(a);
    let ys = chars_of(b);
    if xs.len() != ys.len() {
        return false;
    }
    let mut i: usize = 0;
    while i < xs.len()
        invariant
            xs@ == a@,
            ys@ == b@,
            xs.len() == ys.len(),
            i <= xs.len(),
            xs@.take(i as int) == ys@.take(i as int),
        decreases xs.len() - i,
    {
        if xs[i] != ys[i] {
            return false;
        }
        i += 1;
    }
    assert(xs@ == xs@.take(i as int));
    assert(ys@ == ys@.take(i as int));
    true
}

/// Whether trimming white space from both ends of `s` leaves nothing.
pub fn is_blank(s: &str) -> (r: bool)
    ensures
        r == is_blank_text(s@),
{
    let xs = chars_of(s);
    let mut i: usize = 0;
    while i < xs.len()
        invariant
            xs@ == s@,
            i <= xs.len(),
            forall|j: int| 0 <= j < i ==> is_white_space(#[trigger] xs@[j]),
        decreases xs.len() - i,
    {
        let n: u32 = xs[i] as u32;
        let white = (0x9 <= n && n <= 0xD) || n == 0x20 || n == 0x85 || n == 0xA0 || n == 0x1680 || (
        0x2000 <= n && n <= 0x200A) || n == 0x2028 || n == 0x2029 || n == 0x202F || n == 0x205F || n
            == 0x3000;
        if !white {
            return false;
        }
        i += 1;
    }
    true
}

/// The digit that stands for `d`, in any base up to sixteen.
pub open spec fn digit_char(d: int) -> char {
    "0123456789abcdef"@[d]
}

/// The decimal numeral of `n`, without leading zeros.
pub open spec fn decimal_numeral(n: nat) -> Seq<char>
    decreases n,
{
    if n < 10 {
        seq![digit_char(n as int)]
    } else {
        decimal_numeral(n / 10).push(digit_char((n % 10) as int))
    }
}

/// The last `width` digits of the hexadecimal numeral of `n`, with leading
/// zeros where `n` has fewer.
pub open spec fn hex_numeral(n: nat, width: nat) -> Seq<char>
    decreases width,
{
    if width == 0 {
        Seq::empty()
    } else {
        hex_numeral(n / 16, (width - 1) as nat).push(digit_char((n % 16) as int))
    }
}

/// The digit that stands for `d`, as a text of its own.
fn digit(d: usize) -> (r: &'static str)
    requires
        d < 16,
    ensures
        r@ == seq![digit_char(d as int)],
{
    proof {
        reveal_strlit("0123456789abcdef");
    }
    "0123456789abcdef".substring_char(d, d + 1)
}

/// `n` in decimal.
pub fn decimal(n: usize) -> (r: String)
    ensures
        r@ == decimal_numeral(n as nat),
    decreases n,
{
    if n < 10 {
        digit(n).to_owned()
    } else {
        let mut r = decimal(n / 10);
        r.append(digit(n % 10));
        r
    }
}

/// The numeral whose digits are `digits`, the last one first.
spec fn numeral_of(digits: Seq<usize>) -> Seq<char> {
    Seq::new(digits.len(), |i: int| digit_char(digits[digits.len() - 1 - i] as int))
}

/// The last `width` hexadecimal digits of `n`.
pub fn hex(n: u32, width: usize) -> (r: String)
    ensures
        r@ == hex_numeral(n as nat, width as nat),
{
    let mut digits: Vec<usize> = Vec::new();
    let mut rest: u32 = n;
    while digits.len() < width
        invariant
            digits.len() <= width,
            forall|i: int| 0 <= i < digits.len() ==> #[trigger] digits@[i] < 16,
            hex_numeral(n as nat, width as nat) == hex_numeral(
                rest as nat,
                (width - digits.len()) as nat,
            ) + numeral_of(digits@),
        decreases width - digits.len(),
    {
        let ghost before = digits@;
        digits.push((rest % 16) as usize);
        assert(numeral_of(digits@) =~= seq![digit_char((rest % 16) as int)] + numeral_of(before));
        rest = rest / 16;
    }
    let mut r = String::new();
    let mut left: usize = digits.len();
    while left > 0
        invariant
            left <= digits.len(),
            forall|i: int| 0 <= i < digits.len() ==> #[trigger] digits@[i] < 16,
            r@ == numeral_of(digits@).take(digits.len() - left),
        decreases left,
    {
        left -= 1;
        r.append(digit(digits[left]));
    }
    r
}

} // verus!
