//! The request headers: finding `Authorization` and taking the `Negotiate` scheme
//! (RFC 4559) off it.
use vstd::prelude::*;

use crate::text;

verus! {

/// The headers as pairs of a name and a value.
pub open spec fn header_pairs(headers: Seq<(String, String)>) -> Seq<(Seq<char>, Seq<char>)> {
    headers.map_values(|h: (String, String)| (h.0@, h.1@))
}

/// The first header named `target`, in any case, stands at `i`.
pub open spec fn is_first_named(
    headers: Seq<(Seq<char>, Seq<char>)>,
    target: Seq<char>,
    i: int,
) -> bool {
    &&& 0 <= i < headers.len()
    &&& text::same_ignoring_case(headers[i].0, target)
    &&& forall|j: int|
        0 <= j < i ==> !text::same_ignoring_case((#[trigger] headers[j]).0, target)
}

/// The value of the first header named `target`, in any case.
pub open spec fn header_value(
    headers: Seq<(Seq<char>, Seq<char>)>,
    target: Seq<char>,
) -> Option<Seq<char>> {
    if exists|i: int| is_first_named(headers, target, i) {
        Some(headers[choose|i: int| is_first_named(headers, target, i)].1)
    } else {
        None
    }
}

/// What follows the scheme `Negotiate`, in any case, and one space at the head
/// of `value`.
pub open spec fn after_negotiate(value: Seq<char>) -> Option<Seq<char>> {
    if value.len() >= 10 && text::same_ignoring_case(value.take(9), "Negotiate"@) && value[9]
        == ' ' {
        Some(value.skip(10))
    } else {
        None
    }
}

/// The text of the Negotiate token that the headers carry. There is none where
/// no header is named `Authorization`, where the first such header is of another
/// scheme, and where nothing follows the scheme.
pub open spec fn negotiate_text(headers: Seq<(Seq<char>, Seq<char>)>) -> Option<Seq<char>> {
    match header_value(headers, "authorization"@) {
        Some(value) => match after_negotiate(value) {
            Some(token) => if token.len() == 0 {
                None
            } else {
                Some(token)
            },
            None => None,
        },
        None => None,
    }
}

/// Looks up the value of the first header named `target`, in any case.
pub fn lookup_header<'a>(headers: &'a [(String, String)], target: &str) -> (r: Option<&'a str>)
    ensures
        r.deep_view() == header_value(header_pairs(headers@), target@),
{
    let ghost pairs = header_pairs(headers@);
    let mut i: usize = 0;
    while i < headers.len()
        invariant
            i <= headers.len(),
            pairs == header_pairs(headers@),
            forall|j: int|
                0 <= j < i ==> !text::same_ignoring_case((#[trigger] pairs[j]).0, target@),
        decreases headers.len() - i,
    {
        if text::eq_ignore_ascii_case(headers[i].0.as_str(), target) {
            proof {
                assert(is_first_named(pairs, target@, i as int));
                assert(i == choose|c: int| is_first_named(pairs, target@, c));
            }
            return Some(headers[i].1.as_str());
        }
        i += 1;
    }
    None
}

/// Strips a case-insensitive `Negotiate ` scheme prefix (RFC 4559).
pub fn strip_negotiate_prefix(value: &str) -> (r: Option<&str>)
    ensures
        r.deep_view() == after_negotiate(value@),
{
    proof {
        reveal_strlit("Negotiate");
    }
    let len: usize = value.unicode_len();
    if len < 10 {
        return None;
    }
    let scheme = value.substring_char(0, 9);
    if !text::eq_ignore_ascii_case(scheme, "Negotiate") || value.get_char(9) != ' ' {
        return None;
    }
    Some(value.substring_char(10, len))
}

/// Finds the text of the Negotiate token that the headers carry, if any.
pub fn find_negotiate<'a>(headers: &'a [(String, String)]) -> (r: Option<&'a str>)
    ensures
        r.deep_view() == negotiate_text(header_pairs(headers@)),
{
    let auth = match lookup_header(headers, "authorization") {
        Some(auth) => auth,
        None => return None,
    };
    let token = match strip_negotiate_prefix(auth) {
        Some(token) => token,
        None => return None,
    };
    if token.is_empty() {
        return None;
    }
    Some(token)
}

} // verus!
