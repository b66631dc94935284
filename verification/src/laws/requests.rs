//! What holds of a request: which header decides and what is done for its value.
use vstd::prelude::*;

use super::texts::{law_case_variants, one_letter};
use crate::gss;
use crate::headers;
use crate::identity::ResolutionOutcome;
use crate::plugin;
use crate::plugin::{PluginModel, StepModel};
use crate::text;
use crate::token;

verus! {

/// A request is read as it is: one pair for each header, its name and its value.
pub proof fn law_headers_are_read(headers: Seq<(String, String)>)
    ensures
        headers::header_pairs(headers).len() == headers.len(),
        forall|i: int|
            0 <= i < headers.len() ==> #[trigger] headers::header_pairs(headers)[i] == (
                headers[i].0@,
                headers[i].1@,
            ),
{
}

/// Where no header is of the name, in any case, there is no value; where one is,
/// the value is that of the first.
pub proof fn law_header_value(headers: Seq<(Seq<char>, Seq<char>)>, target: Seq<char>, i: int)
    requires
        0 <= i <= headers.len(),
        forall|j: int|
            0 <= j < i ==> !text::same_ignoring_case((#[trigger] headers[j]).0, target),
        i < headers.len() ==> text::same_ignoring_case(headers[i].0, target),
    ensures
        headers::header_value(headers, target) == if i < headers.len() {
            Some(headers[i].1)
        } else {
            None
        },
{
    if i < headers.len() {
        assert(headers::is_first_named(headers, target, i));
        let c = choose|c: int| headers::is_first_named(headers, target, c);
        assert(headers::is_first_named(headers, target, c));
        assert(c == i);
    }
}

/// A header whose name is not a case variant of the target makes no difference,
/// wherever it stands: one of another length, and one that holds another letter
/// somewhere.
pub proof fn law_other_headers_do_not_decide(
    before: Seq<(Seq<char>, Seq<char>)>,
    other: (Seq<char>, Seq<char>),
    after: Seq<(Seq<char>, Seq<char>)>,
    target: Seq<char>,
)
    requires
        other.0.len() != target.len() || exists|i: int|
            0 <= i < target.len() && !one_letter(#[trigger] other.0[i], target[i]),
    ensures
        headers::header_value(before.push(other) + after, target) == headers::header_value(
            before + after,
            target,
        ),
{
    law_case_variants(other.0, target);
    let with = before.push(other) + after;
    let without = before + after;
    let n = before.len() as int;
    let i = first_of(without, target, 0);
    lemma_first_of(without, target, 0);
    law_header_value(without, target, i);
    let k = if i < n {
        i
    } else {
        i + 1
    };
    assert forall|j: int| 0 <= j < k implies !text::same_ignoring_case(
        (#[trigger] with[j]).0,
        target,
    ) by {
        if j < n {
            assert(with[j] == without[j]);
        } else if j > n {
            assert(with[j] == without[j - 1]);
        }
    }
    if i < without.len() {
        assert(with[k] == without[i]);
    }
    law_header_value(with, target, k);
}

/// Where the first header named `target` stands from `from` on; the length, where
/// there is none.
spec fn first_of(headers: Seq<(Seq<char>, Seq<char>)>, target: Seq<char>, from: int) -> int
    decreases headers.len() - from,
{
    if from >= headers.len() || text::same_ignoring_case(headers[from].0, target) {
        from
    } else {
        first_of(headers, target, from + 1)
    }
}

/// `first_of` finds the first header of the name.
proof fn lemma_first_of(headers: Seq<(Seq<char>, Seq<char>)>, target: Seq<char>, from: int)
    requires
        0 <= from <= headers.len(),
    ensures
        ({
            let i = first_of(headers, target, from);
            &&& from <= i <= headers.len()
            &&& i < headers.len() ==> text::same_ignoring_case(headers[i].0, target)
            &&& forall|j: int|
                from <= j < i ==> !text::same_ignoring_case((#[trigger] headers[j]).0, target)
        }),
    decreases headers.len() - from,
{
    if from < headers.len() && !text::same_ignoring_case(headers[from].0, target) {
        lemma_first_of(headers, target, from + 1);
    }
}

/// A value of the scheme Negotiate, in any case, a space and some text carries
/// just this text, base64 or not; with nothing after the space it carries none.
pub proof fn law_token_text_is_carried(
    headers: Seq<(Seq<char>, Seq<char>)>,
    scheme: Seq<char>,
    text: Seq<char>,
)
    requires
        text::same_ignoring_case(scheme, "Negotiate"@),
        headers::header_value(headers, "authorization"@) == Some(scheme + " "@ + text),
    ensures
        text.len() > 0 ==> headers::negotiate_text(headers) == Some(text),
        text.len() == 0 ==> headers::negotiate_text(headers) is None,
{
    super::law_negotiate_scheme(scheme, text, scheme + " "@ + text);
}

/// A request falls through exactly where it has no Authorization header, or the
/// value of its first one is not the scheme Negotiate, in any case, a space and at
/// least one character more.
pub proof fn law_falls_through_exactly(
    plugin: PluginModel,
    headers: Seq<(Seq<char>, Seq<char>)>,
)
    ensures
        plugin::resolve_step(plugin, headers) == StepModel::Finished(ResolutionOutcome::Absent)
            <==> match headers::header_value(headers, "authorization"@) {
            None => true,
            Some(value) => value.len() <= 10 || value[9] != ' ' || !text::same_ignoring_case(
                value.take(9),
                "Negotiate"@,
            ),
        },
{
    if let Some(value) = headers::header_value(headers, "authorization"@) {
        super::law_negotiate_scheme(value.take(9), value.skip(10), value);
    }
}

/// A request with a Negotiate value that does not fall through has its token put
/// through the accept for the configured service where the text is that of some
/// bytes, and is refused as malformed where it is not.
pub proof fn law_token_decides(
    plugin: PluginModel,
    headers: Seq<(Seq<char>, Seq<char>)>,
    scheme: Seq<char>,
    text: Seq<char>,
    bytes: Seq<u8>,
)
    requires
        text::same_ignoring_case(scheme, "Negotiate"@),
        text.len() > 0,
        headers::header_value(headers, "authorization"@) == Some(scheme + " "@ + text),
    ensures
        text == token::base64_text(bytes) ==> plugin::resolve_step(plugin, headers)
            == StepModel::Accept(gss::accept_start(plugin.service_name, bytes)),
        (forall|b: Seq<u8>| #[trigger] token::base64_text(b) != text) ==> plugin::resolve_step(
            plugin,
            headers,
        ) == StepModel::Finished(
            ResolutionOutcome::Invalid("malformed Negotiate token (base64)"@),
        ),
{
    law_token_text_is_carried(headers, scheme, text);
    super::law_token_has_one_text(text, bytes);
    super::law_malformed_token_is_refused(plugin, headers, text);
}

/// A decoded token is put through the accept for the configured service; one that
/// could not be decoded is refused as malformed.
pub proof fn law_decoded_token_is_accepted(plugin: PluginModel, bytes: Seq<u8>)
    ensures
        plugin::token_step(plugin, Some(bytes)) == StepModel::Accept(
            gss::accept_start(plugin.service_name, bytes),
        ),
        plugin::token_step(plugin, None) == StepModel::Finished(
            ResolutionOutcome::Invalid("malformed Negotiate token (base64)"@),
        ),
{
}

/// Of a plugin only the configured service bears on what is done for a request.
pub proof fn law_only_the_service_bears(
    a: PluginModel,
    b: PluginModel,
    headers: Seq<(Seq<char>, Seq<char>)>,
)
    requires
        a.service_name == b.service_name,
    ensures
        plugin::resolve_step(a, headers) == plugin::resolve_step(b, headers),
{
}

} // verus!
