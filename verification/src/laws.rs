//! What holds of the library as a whole, stated over the models that the
//! contracts of its functions use.
pub mod accept;
pub mod configs;
pub mod identities;
pub mod loading;
pub mod order;
pub mod requests;
pub mod texts;
pub mod tokens;
pub mod views;

use vstd::prelude::*;

use crate::attributes;
use crate::config;
use crate::config::{ConfigFields, ConfigModel};
use crate::gss;
use crate::gss::{AcceptModel, EventModel, GssOutcome};
use crate::headers;
use crate::identity::ResolutionOutcome;
use crate::plugin;
use crate::plugin::{PluginModel, StepModel};
use crate::text;
use crate::token;

verus! {

/// A principal is its local part, `@` and its realm put together again; the
/// realm is not empty and holds no `@`. A principal without a realm is its local
/// part, and then holds no `@` or ends in one.
pub proof fn law_principal_rejoins(principal: Seq<char>)
    ensures
        match gss::principal_parts(principal) {
            (user, Some(realm)) => {
                &&& principal == user + "@"@ + realm
                &&& realm.len() > 0
                &&& !realm.contains('@')
            },
            (user, None) => {
                &&& user == principal
                &&& !principal.contains('@') || principal.last() == '@'
            },
        },
{
    if principal.contains('@') && principal.last() != '@' {
        lemma_has_last_at_sign(principal, principal.len() as int);
        let i = choose|i: int| gss::is_last_at_sign(principal, i);
        reveal_strlit("@");
        let realm = principal.skip(i + 1);
        assert(forall|j: int| 0 <= j < realm.len() ==> #[trigger] realm[j] != '@');
    }
}

/// Where the first `n` characters hold an `@` and the others do not, one of them
/// is the last `@`.
proof fn lemma_has_last_at_sign(principal: Seq<char>, n: int)
    requires
        0 <= n <= principal.len(),
        principal.contains('@'),
        forall|j: int| n <= j < principal.len() ==> #[trigger] principal[j] != '@',
    ensures
        exists|i: int| gss::is_last_at_sign(principal, i),
    decreases n,
{
    if n == 0 {
        assert(principal[principal.index_of('@')] != '@');
    } else if principal[n - 1] == '@' {
        assert(gss::is_last_at_sign(principal, n - 1));
    } else {
        lemma_has_last_at_sign(principal, n - 1);
    }
}

/// A local part and a realm put together with `@` split into just these two,
/// even where the local part holds an `@` of its own.
pub proof fn law_principal_splits(user: Seq<char>, realm: Seq<char>)
    requires
        realm.len() > 0,
        !realm.contains('@'),
    ensures
        gss::principal_parts(user + "@"@ + realm) == (user, Some(realm)),
{
    reveal_strlit("@");
    let whole = user + "@"@ + realm;
    assert(forall|j: int| user.len() < j < whole.len() ==> #[trigger] whole[j] != '@');
    assert(gss::is_last_at_sign(whole, user.len() as int));
}

/// A header value is read as a Negotiate token exactly where it is the scheme
/// name in some case, one space and the text of the token.
pub proof fn law_negotiate_scheme(scheme: Seq<char>, text: Seq<char>, value: Seq<char>)
    ensures
        text::same_ignoring_case(scheme, "Negotiate"@) ==> headers::after_negotiate(
            scheme + " "@ + text,
        ) == Some(text),
        headers::after_negotiate(value) matches Some(rest) ==> text::same_ignoring_case(
            value.take(9),
            "Negotiate"@,
        ) && value == value.take(9) + " "@ + rest,
{
    reveal_strlit("Negotiate");
    reveal_strlit(" ");
    let whole = scheme + " "@ + text;
    if scheme.len() == 9 {
        assert(whole.take(9) =~= scheme);
        assert(whole.skip(10) =~= text);
    }
}

/// The first header of a name decides, in whatever case the name is written and
/// whatever follows.
pub proof fn law_first_header_decides(
    before: Seq<(Seq<char>, Seq<char>)>,
    name: Seq<char>,
    value: Seq<char>,
    after: Seq<(Seq<char>, Seq<char>)>,
    target: Seq<char>,
)
    requires
        forall|i: int|
            0 <= i < before.len() ==> !text::same_ignoring_case((#[trigger] before[i]).0, target),
        text::same_ignoring_case(name, target),
    ensures
        headers::header_value(before.push((name, value)) + after, target) == Some(value),
{
    let all = before.push((name, value)) + after;
    let n = before.len() as int;
    assert(forall|j: int|
        0 <= j < n ==> !text::same_ignoring_case((#[trigger] all[j]).0, target));
    assert(headers::is_first_named(all, target, n));
}

/// The case in which header names are written makes no difference to what is
/// done for a request.
pub proof fn law_header_case_is_ignored(
    plugin: PluginModel,
    a: Seq<(Seq<char>, Seq<char>)>,
    b: Seq<(Seq<char>, Seq<char>)>,
)
    requires
        a.len() == b.len(),
        forall|i: int|
            0 <= i < a.len() ==> text::same_ignoring_case((#[trigger] a[i]).0, b[i].0) && a[i].1
                == b[i].1,
    ensures
        plugin::resolve_step(plugin, a) == plugin::resolve_step(plugin, b),
{
    let target = "authorization"@;
    assert forall|i: int| 0 <= i < a.len() implies text::same_ignoring_case(
        (#[trigger] a[i]).0,
        target,
    ) == text::same_ignoring_case(b[i].0, target) by {
        lemma_same_case_transfers(a[i].0, b[i].0, target);
    }
    assert forall|i: int|
        headers::is_first_named(a, target, i) == headers::is_first_named(b, target, i) by {
        if headers::is_first_named(a, target, i) {
            assert forall|j: int| 0 <= j < i implies !text::same_ignoring_case(
                (#[trigger] b[j]).0,
                target,
            ) by {
                assert(!text::same_ignoring_case(a[j].0, target));
            }
        }
        if headers::is_first_named(b, target, i) {
            assert forall|j: int| 0 <= j < i implies !text::same_ignoring_case(
                (#[trigger] a[j]).0,
                target,
            ) by {
                assert(!text::same_ignoring_case(b[j].0, target));
            }
        }
    }
    assert(headers::header_value(a, target) == headers::header_value(b, target));
}

/// Texts that differ in case only compare alike with a third.
proof fn lemma_same_case_transfers(a: Seq<char>, b: Seq<char>, target: Seq<char>)
    requires
        text::same_ignoring_case(a, b),
    ensures
        text::same_ignoring_case(a, target) == text::same_ignoring_case(b, target),
{
    if text::same_ignoring_case(a, target) {
        assert forall|i: int| 0 <= i < b.len() implies text::ascii_lower(#[trigger] b[i])
            == text::ascii_lower(target[i]) by {
            assert(text::ascii_lower(a[i]) == text::ascii_lower(b[i]));
        }
    }
    if text::same_ignoring_case(b, target) {
        assert(forall|i: int|
            0 <= i < a.len() ==> text::ascii_lower(#[trigger] a[i]) == text::ascii_lower(target[i]));
    }
}

/// The text of a token decodes to the token.
pub proof fn law_encoded_token_decodes(bytes: Seq<u8>)
    ensures
        token::base64_decoded(token::base64_text(bytes)) == Some(bytes),
{
    let text = token::base64_text(bytes);
    token::lemma_texts_differ(bytes, choose|b: Seq<u8>| token::base64_text(b) == text);
}

/// A token has one text: what decodes to it is what it is encoded as.
pub proof fn law_token_has_one_text(text: Seq<char>, bytes: Seq<u8>)
    ensures
        token::base64_decoded(text) == Some(bytes) <==> text == token::base64_text(bytes),
{
    law_encoded_token_decodes(bytes);
}

/// `c` is a symbol of the standard base64 alphabet, or the padding sign.
pub open spec fn is_base64_sign(c: char) -> bool {
    ||| 'A' <= c <= 'Z'
    ||| 'a' <= c <= 'z'
    ||| '0' <= c <= '9'
    ||| c == '+'
    ||| c == '/'
    ||| c == '='
}

/// The text of a token is made of base64 signs, four for every three bytes begun.
pub proof fn law_token_text_shape(bytes: Seq<u8>)
    ensures
        token::base64_text(bytes).len() == (bytes.len() + 2) / 3 * 4,
        forall|i: int|
            0 <= i < token::base64_text(bytes).len() ==> is_base64_sign(
                #[trigger] token::base64_text(bytes)[i],
            ),
    decreases bytes.len(),
{
    if bytes.len() > 2 {
        law_token_text_shape(bytes.skip(3));
    }
}

/// A request whose Authorization header is the scheme, a space and the text of a
/// token that is not empty has just this token put through the accept.
pub proof fn law_encoded_token_reaches_accept(
    plugin: PluginModel,
    headers: Seq<(Seq<char>, Seq<char>)>,
    scheme: Seq<char>,
    bytes: Seq<u8>,
)
    requires
        text::same_ignoring_case(scheme, "Negotiate"@),
        bytes.len() > 0,
        headers::header_value(headers, "authorization"@) == Some(
            scheme + " "@ + token::base64_text(bytes),
        ),
    ensures
        plugin::resolve_step(plugin, headers) == StepModel::Accept(
            gss::accept_start(plugin.service_name, bytes),
        ),
{
    let text = token::base64_text(bytes);
    law_negotiate_scheme(scheme, text, scheme + " "@ + text);
    law_token_text_shape(bytes);
    law_encoded_token_decodes(bytes);
}

/// A request whose token is the text of no bytes is refused as malformed: so are
/// a text with a character that is no base64 sign, and one that does not come in
/// groups of four.
pub proof fn law_malformed_token_is_refused(
    plugin: PluginModel,
    headers: Seq<(Seq<char>, Seq<char>)>,
    text: Seq<char>,
)
    requires
        headers::negotiate_text(headers) == Some(text),
    ensures
        ({
            let refused = plugin::resolve_step(plugin, headers) == StepModel::Finished(
                ResolutionOutcome::Invalid("malformed Negotiate token (base64)"@),
            );
            &&& refused <==> forall|bytes: Seq<u8>| #[trigger] token::base64_text(bytes) != text
            &&& text.len() % 4 != 0 ==> refused
            &&& (exists|i: int| 0 <= i < text.len() && !is_base64_sign(#[trigger] text[i]))
                ==> refused
        }),
{
    if let Some(bytes) = token::base64_decoded(text) {
        law_token_has_one_text(text, bytes);
        law_token_text_shape(bytes);
    }
}

/// A request falls through exactly where it carries no Negotiate token.
pub proof fn law_falls_through_without_token(
    plugin: PluginModel,
    headers: Seq<(Seq<char>, Seq<char>)>,
)
    ensures
        plugin::resolve_step(plugin, headers) == StepModel::Finished(ResolutionOutcome::Absent)
            <==> headers::negotiate_text(headers) is None,
{
}

/// Fail closed: whatever the accept ends in, the request does not fall through,
/// and anything but an authenticated principal is refused.
pub proof fn law_fails_closed(plugin: PluginModel, outcome: GssOutcome)
    ensures
        plugin::answer(plugin, outcome) !is Absent,
        outcome !is Authenticated ==> plugin::answer(plugin, outcome) is Invalid,
{
}

/// What a refused caller is told does not depend on the detail of the failure,
/// which goes to the log.
pub proof fn law_details_stay_inside(plugin: PluginModel, one: Seq<char>, other: Seq<char>)
    ensures
        plugin::answer(plugin, GssOutcome::BadToken(one)) == plugin::answer(
            plugin,
            GssOutcome::BadToken(other),
        ),
        plugin::answer(plugin, GssOutcome::ServerError(one)) == plugin::answer(
            plugin,
            GssOutcome::ServerError(other),
        ),
        gss::failure_report(GssOutcome::BadToken(one)) matches Some((_, detail)) && detail == one,
        gss::failure_report(GssOutcome::ServerError(one)) matches Some((_, detail)) && detail
            == one,
{
}

/// The state that an accept attempt reaches from `state` through `events`.
pub open spec fn accept_run(state: AcceptModel, events: Seq<EventModel>) -> AcceptModel
    decreases events.len(),
{
    if events.len() == 0 {
        state
    } else {
        accept_run(gss::accept_next(state, events[0]), events.skip(1))
    }
}

/// `events` are the outcomes of the calls that an accept attempt asks for from
/// `state` on, one after the other.
pub open spec fn answers_all(state: AcceptModel, events: Seq<EventModel>) -> bool
    decreases events.len(),
{
    events.len() == 0 || (gss::answers(events[0], state) && answers_all(
        gss::accept_next(state, events[0]),
        events.skip(1),
    ))
}

/// The outcomes of an accept attempt in which every call succeeds and the one
/// step completes the context for `principal`, from `state` on.
pub open spec fn successes(state: AcceptModel, principal: Seq<char>) -> Seq<EventModel> {
    let name_read = seq![EventModel::SourceNameRead(Ok(principal))];
    let stepped = seq![EventModel::ContextStepped(Ok(true))] + name_read;
    let acquired = seq![EventModel::CredAcquired(Ok(()))] + stepped;
    let canonicalized = seq![EventModel::NameCanonicalized(Ok(()))] + acquired;
    let imported = seq![EventModel::NameImported(Ok(()))] + canonicalized;
    match state {
        AcceptModel::ImportName { .. } => imported,
        AcceptModel::CanonicalizeName { .. } => canonicalized,
        AcceptModel::AcquireCred { .. } => acquired,
        AcceptModel::StepContext { .. } => stepped,
        AcceptModel::ReadSourceName => name_read,
        AcceptModel::Done(_) => Seq::empty(),
    }
}

/// An accept attempt asks for no more than the calls that are left of it, and
/// each call leaves fewer.
pub proof fn law_accept_ends(state: AcceptModel, events: Seq<EventModel>)
    requires
        answers_all(state, events),
    ensures
        events.len() + gss::calls_left(accept_run(state, events)) <= gss::calls_left(state),
    decreases events.len(),
{
    if events.len() > 0 {
        law_accept_ends(gss::accept_next(state, events[0]), events.skip(1));
    }
}

/// An accept attempt authenticates `principal` exactly where every call that it
/// asks for succeeds, the one step completes the context, and the name read from
/// it is `principal`: a context that expects further legs authenticates nobody.
pub proof fn law_only_complete_context_authenticates(
    state: AcceptModel,
    events: Seq<EventModel>,
    principal: Seq<char>,
)
    requires
        answers_all(state, events),
        state !is Done,
    ensures
        accept_run(state, events) == AcceptModel::Done(GssOutcome::Authenticated(principal))
            <==> events == successes(state, principal),
    decreases events.len(),
{
    let wanted = successes(state, principal);
    if events.len() > 0 {
        let next = gss::accept_next(state, events[0]);
        let rest = events.skip(1);
        if next is Done {
            assert(rest.len() == 0) by {
                law_accept_ends(next, rest);
            }
            if next == AcceptModel::Done(GssOutcome::Authenticated(principal)) {
                assert(events =~= wanted);
            }
        } else {
            law_only_complete_context_authenticates(next, rest, principal);
            assert(wanted.skip(1) =~= successes(next, principal));
            if rest == successes(next, principal) {
                assert(events[0] == wanted[0]) by {
                    match events[0] {
                        EventModel::NameImported(Ok(done)) => assert(done == ()),
                        EventModel::NameCanonicalized(Ok(done)) => assert(done == ()),
                        EventModel::CredAcquired(Ok(done)) => assert(done == ()),
                        _ => {},
                    }
                }
                assert(events =~= wanted);
            }
        }
    }
}

/// What an accept attempt for `service` and `token` hands to each call is what
/// it was begun with, and the same in every attempt beyond that.
pub proof fn law_accept_hands_on_its_input(
    service: Option<Seq<char>>,
    token: Seq<u8>,
    events: Seq<EventModel>,
)
    requires
        answers_all(gss::accept_start(service, token), events),
    ensures
        carries(accept_run(gss::accept_start(service, token), events), service, token),
{
    lemma_run_carries(gss::accept_start(service, token), service, token, events);
}

/// What `state` hands to its call comes from `service` and `token`: a name is
/// imported as that of a hostbased service and canonicalized for Kerberos, the
/// credential is the acceptor's, and the context is bound to no channel.
pub open spec fn carries(
    state: AcceptModel,
    service: Option<Seq<char>>,
    token: Seq<u8>,
) -> bool {
    match state {
        AcceptModel::ImportName { service: s, name_type, token: t } => {
            &&& service == Some(s)
            &&& name_type == gss::NameType::HostbasedService
            &&& t == token
        },
        AcceptModel::CanonicalizeName { service: s, mechanism, token: t } => {
            &&& service == Some(s)
            &&& mechanism == gss::Mechanism::Krb5
            &&& t == token
        },
        AcceptModel::AcquireCred { request, token: t } => {
            &&& request == gss::acceptor_cred(service)
            &&& t == token
        },
        AcceptModel::StepContext { token: t, channel_bindings } => {
            &&& t == token
            &&& channel_bindings is None
        },
        AcceptModel::ReadSourceName => true,
        AcceptModel::Done(_) => true,
    }
}

/// Each call leaves a state whose input still comes from `service` and `token`.
proof fn lemma_run_carries(
    state: AcceptModel,
    service: Option<Seq<char>>,
    token: Seq<u8>,
    events: Seq<EventModel>,
)
    requires
        carries(state, service, token),
        answers_all(state, events),
    ensures
        carries(accept_run(state, events), service, token),
    decreases events.len(),
{
    if events.len() > 0 {
        lemma_run_carries(gss::accept_next(state, events[0]), service, token, events.skip(1));
    }
}

/// The calls that succeed before the credential is acquired: with a service its
/// name is imported and canonicalized, without one there are none.
pub open spec fn name_calls(service: Option<Seq<char>>) -> Seq<EventModel> {
    match service {
        Some(_) => seq![
            EventModel::NameImported(Ok(())),
            EventModel::NameCanonicalized(Ok(())),
        ],
        None => Seq::empty(),
    }
}

/// Every accept attempt whose name calls succeed acquires one credential. Without
/// a service it is acquired with no name, so that any principal in the keytab
/// will do; with one, for the name imported as that of a hostbased service and
/// canonicalized for Kerberos. Either way it serves accepting only, and no list
/// restricts its mechanisms.
pub proof fn law_credential_is_the_acceptors(service: Option<Seq<char>>, token: Seq<u8>)
    ensures
        answers_all(gss::accept_start(service, token), name_calls(service)),
        accept_run(gss::accept_start(service, token), name_calls(service)) matches
            AcceptModel::AcquireCred { request, token: t } && {
            &&& request.for_service == service
            &&& request.usage == gss::CredUsage::Accept
            &&& request.mechanisms is None
            &&& request.lifetime is None
            &&& t == token
        },
        service matches Some(s) ==> {
            &&& gss::accept_start(service, token) == (AcceptModel::ImportName {
                service: s,
                name_type: gss::NameType::HostbasedService,
                token,
            })
            &&& accept_run(gss::accept_start(service, token), name_calls(service).take(1)) == (
            AcceptModel::CanonicalizeName { service: s, mechanism: gss::Mechanism::Krb5, token })
        },
{
    reveal_with_fuel(accept_run, 3);
    reveal_with_fuel(answers_all, 3);
}

/// The answer to a request with `headers` whose accept attempt, if it comes to
/// one, goes through `events`; `None` where the attempt is not over.
pub open spec fn exchange(
    plugin: PluginModel,
    headers: Seq<(Seq<char>, Seq<char>)>,
    events: Seq<EventModel>,
) -> Option<ResolutionOutcome> {
    match plugin::resolve_step(plugin, headers) {
        StepModel::Finished(result) => Some(result),
        StepModel::Accept(state) => match accept_run(state, events) {
            AcceptModel::Done(outcome) => Some(plugin::answer(plugin, outcome)),
            _ => None,
        },
    }
}

/// `events` answer the accept attempt that a request with `headers` comes to.
pub open spec fn exchange_events(
    plugin: PluginModel,
    headers: Seq<(Seq<char>, Seq<char>)>,
    events: Seq<EventModel>,
) -> bool {
    match plugin::resolve_step(plugin, headers) {
        StepModel::Finished(_) => events.len() == 0,
        StepModel::Accept(state) => answers_all(state, events),
    }
}

/// A caller is resolved exactly where the request carries a Negotiate token that
/// decodes and every GSSAPI call on it succeeds; the identity is then that of
/// the principal that the completed context names.
pub proof fn law_resolved_only_when_authenticated(
    plugin: PluginModel,
    headers: Seq<(Seq<char>, Seq<char>)>,
    events: Seq<EventModel>,
)
    requires
        exchange_events(plugin, headers, events),
    ensures
        exchange(plugin, headers, events) matches Some(ResolutionOutcome::Resolved(identity))
            ==> exists|principal: Seq<char>| #[trigger]
            authenticates(plugin, headers, events, principal) && identity == plugin::identity_of(
                plugin,
                principal,
            ),
        forall|principal: Seq<char>| #[trigger]
            authenticates(plugin, headers, events, principal) ==> exchange(plugin, headers, events)
                == Some(ResolutionOutcome::Resolved(plugin::identity_of(plugin, principal))),
{
    if let StepModel::Accept(state) = plugin::resolve_step(plugin, headers) {
        if let AcceptModel::Done(GssOutcome::Authenticated(principal)) = accept_run(
            state,
            events,
        ) {
            law_only_complete_context_authenticates(state, events, principal);
            assert(authenticates(plugin, headers, events, principal));
        }
        assert forall|principal: Seq<char>| #[trigger]
            authenticates(plugin, headers, events, principal) implies exchange(
            plugin,
            headers,
            events,
        ) == Some(ResolutionOutcome::Resolved(plugin::identity_of(plugin, principal))) by {
            law_only_complete_context_authenticates(state, events, principal);
        }
    }
}

/// The request carries a token that decodes, and `events` report that every call
/// on it succeeded and that the completed context names `principal`.
pub open spec fn authenticates(
    plugin: PluginModel,
    headers: Seq<(Seq<char>, Seq<char>)>,
    events: Seq<EventModel>,
    principal: Seq<char>,
) -> bool {
    &&& headers::negotiate_text(headers) matches Some(text)
    &&& token::base64_decoded(text) matches Some(token)
    &&& events == successes(gss::accept_start(plugin.service_name, token), principal)
}

/// A request that carries a Negotiate token is resolved or refused, and never
/// falls through.
pub proof fn law_token_never_falls_through(
    plugin: PluginModel,
    headers: Seq<(Seq<char>, Seq<char>)>,
    events: Seq<EventModel>,
)
    requires
        headers::negotiate_text(headers) is Some,
    ensures
        exchange(plugin, headers, events) != Some(ResolutionOutcome::Absent),
{
}

/// The identity of an authenticated caller keeps the full principal. Its
/// subject is the principal, or the principal without its realm where that is to
/// be stripped. Realm and issuer are there exactly where the principal has a
/// realm, and nothing else is claimed of the caller.
pub proof fn law_identity_shows_principal(plugin: PluginModel, principal: Seq<char>)
    ensures
        ({
            let identity = plugin::identity_of(plugin, principal);
            let names = set!["principal"@, "realm"@];
            &&& identity.attributes.contains_key("principal"@)
            &&& identity.attributes["principal"@] == principal
            &&& !plugin.strip_realm ==> identity.subject_id == Some(principal)
            &&& identity.roles.len() == 0
            &&& identity.groups.len() == 0
            &&& identity.scopes.len() == 0
            &&& identity.kind == identity.trust_level
            &&& match gss::principal_parts(principal).1 {
                Some(realm) => {
                    &&& identity.attributes.dom() == names
                    &&& identity.attributes["realm"@] == realm
                    &&& identity.issuer == Some("krb5:"@ + realm)
                    &&& plugin.strip_realm ==> (identity.subject_id matches Some(user)
                        && user + "@"@ + realm == principal)
                },
                None => {
                    &&& identity.attributes.dom() == set!["principal"@]
                    &&& identity.issuer is None
                    &&& plugin.strip_realm ==> identity.subject_id == Some(principal)
                },
            }
        }),
{
    law_principal_rejoins(principal);
    reveal_strlit("principal");
    reveal_strlit("realm");
    assert("principal"@.len() != "realm"@.len());
}

/// Attributes that are in the order of their names hold no name twice.
pub proof fn law_attribute_names_occur_once(
    pairs: Seq<(Seq<char>, Seq<char>)>,
    i: int,
    j: int,
)
    requires
        attributes::in_key_order(pairs),
        0 <= i < pairs.len(),
        0 <= j < pairs.len(),
        i != j,
    ensures
        pairs[i].0 != pairs[j].0,
{
    attributes::lemma_precedes_irreflexive(pairs[i].0);
}

/// A config document that names an existing keytab and nothing else is accepted:
/// realms are stripped, callers are `verified` and the provider is `kerberos`.
pub proof fn law_keytab_alone_is_enough(fields: ConfigFields)
    requires
        fields.service_name is None,
        fields.strip_realm is None,
        fields.resolution is None,
        !text::is_blank_text(fields.keytab@),
    ensures
        config::config_fault(fields.meaning(), true) is None,
        fields.meaning().service_name is None,
        fields.meaning().strip_realm,
        fields.meaning().resolution.trust_level == "verified"@,
        fields.meaning().resolution.auth_provider_label == "kerberos"@,
{
}

/// An empty `resolution` object means the same as none.
pub proof fn law_empty_resolution_is_default(fields: ConfigFields, given: ConfigFields)
    requires
        fields.resolution is None,
        given.keytab == fields.keytab,
        given.service_name == fields.service_name,
        given.strip_realm == fields.strip_realm,
        given.resolution matches Some(r) && r.trust_level is None && r.auth_provider_label is None,
    ensures
        given.meaning() == fields.meaning(),
{
}

/// A plugin made from an accepted config gives every caller one of the two trust
/// levels, the one that the config names.
pub proof fn law_trust_level_is_known(
    config: ConfigModel,
    keytab_exists: bool,
    version: Seq<char>,
    source_module: Seq<char>,
    principal: Seq<char>,
)
    requires
        config::config_fault(config, keytab_exists) is None,
    ensures
        ({
            let identity = plugin::identity_of(
                plugin::plugin_of(config, version, source_module),
                principal,
            );
            &&& identity.trust_level == config.resolution.trust_level
            &&& identity.trust_level == "verified"@ || identity.trust_level == "header_asserted"@
        }),
{
}

/// A status is always written with as many hexadecimal digits as asked for.
pub proof fn law_hex_width(n: nat, width: nat)
    ensures
        text::hex_numeral(n, width).len() == width,
    decreases width,
{
    if width > 0 {
        law_hex_width(n / 16, (width - 1) as nat);
    }
}

} // verus!
