//! What holds of one accept attempt, call by call, and of the keytab.
use vstd::prelude::*;

use super::answers_all;
use crate::gss;
use crate::gss::{AcceptModel, CredModel, CredUsage, EventModel, GssOutcome, Mechanism, NameType};
use crate::text;

verus! {

/// An attempt for a service starts with the import of its name, as that of a
/// hostbased service; one for none starts with the credential of any principal in
/// the keytab. Either way it is for the token given.
pub proof fn law_accept_starts(s: Seq<char>, token: Seq<u8>)
    ensures
        gss::accept_start(Some(s), token) == (AcceptModel::ImportName {
            service: s,
            name_type: NameType::HostbasedService,
            token,
        }),
        gss::accept_start(None, token) == (AcceptModel::AcquireCred {
            request: CredModel {
                for_service: None,
                lifetime: None,
                usage: CredUsage::Accept,
                mechanisms: None,
            },
            token,
        }),
{
}

/// The acceptor credential is for the service given or for none, for accepting
/// only, without a limit on its time or its mechanisms.
pub proof fn law_acceptor_credential(service: Option<Seq<char>>)
    ensures
        gss::acceptor_cred(service).for_service == service,
        gss::acceptor_cred(service).usage == CredUsage::Accept,
        gss::acceptor_cred(service).mechanisms is None,
        gss::acceptor_cred(service).lifetime is None,
{
}

/// An imported name is canonicalized for Kerberos; where the import fails, the
/// attempt ends in an acceptor error that names the service and the reason.
pub proof fn law_after_import(
    service: Seq<char>,
    name_type: NameType,
    token: Seq<u8>,
    e: Seq<char>,
)
    ensures
        ({
            let state = AcceptModel::ImportName { service, name_type, token };
            &&& gss::accept_next(state, EventModel::NameImported(Ok(()))) == (
            AcceptModel::CanonicalizeName { service, mechanism: Mechanism::Krb5, token })
            &&& gss::accept_next(state, EventModel::NameImported(Err(e))) == AcceptModel::Done(
                GssOutcome::ServerError("service name '"@ + service + "': "@ + e),
            )
        }),
{
}

/// With the canonical name the acceptor credential of the service is acquired;
/// where there is none, the attempt ends in an acceptor error that names the
/// service and the reason.
pub proof fn law_after_canonicalization(
    service: Seq<char>,
    mechanism: Mechanism,
    token: Seq<u8>,
    e: Seq<char>,
)
    ensures
        ({
            let state = AcceptModel::CanonicalizeName { service, mechanism, token };
            &&& gss::accept_next(state, EventModel::NameCanonicalized(Ok(()))) == (
            AcceptModel::AcquireCred {
                request: CredModel {
                    for_service: Some(service),
                    lifetime: None,
                    usage: CredUsage::Accept,
                    mechanisms: None,
                },
                token,
            })
            &&& gss::accept_next(state, EventModel::NameCanonicalized(Err(e)))
                == AcceptModel::Done(
                GssOutcome::ServerError("canonicalize service name '"@ + service + "': "@ + e),
            )
        }),
{
}

/// With the credential the token is fed to the context, bound to no channel;
/// without it the attempt ends in an acceptor error with the reason.
pub proof fn law_after_acquisition(request: CredModel, token: Seq<u8>, e: Seq<char>)
    ensures
        ({
            let state = AcceptModel::AcquireCred { request, token };
            &&& gss::accept_next(state, EventModel::CredAcquired(Ok(()))) == (
            AcceptModel::StepContext { token, channel_bindings: None })
            &&& gss::accept_next(state, EventModel::CredAcquired(Err(e))) == AcceptModel::Done(
                GssOutcome::ServerError("acquire acceptor credential from keytab: "@ + e),
            )
        }),
{
}

/// A complete context has its source name read. One that expects further legs ends
/// the attempt as a continuation, and a token that is refused ends it as bad, with
/// the reason.
pub proof fn law_after_step(token: Seq<u8>, bindings: Option<Seq<u8>>, e: Seq<char>)
    ensures
        ({
            let state = AcceptModel::StepContext { token, channel_bindings: bindings };
            &&& gss::accept_next(state, EventModel::ContextStepped(Ok(true)))
                == AcceptModel::ReadSourceName
            &&& gss::accept_next(state, EventModel::ContextStepped(Ok(false)))
                == AcceptModel::Done(GssOutcome::Continuation)
            &&& gss::accept_next(state, EventModel::ContextStepped(Err(e))) == AcceptModel::Done(
                GssOutcome::BadToken(e),
            )
        }),
{
}

/// The name that is read authenticates; where none can be read, the attempt ends
/// in an acceptor error with the reason.
pub proof fn law_after_name(name: Seq<char>, e: Seq<char>)
    ensures
        gss::accept_next(AcceptModel::ReadSourceName, EventModel::SourceNameRead(Ok(name)))
            == AcceptModel::Done(GssOutcome::Authenticated(name)),
        gss::accept_next(AcceptModel::ReadSourceName, EventModel::SourceNameRead(Err(e)))
            == AcceptModel::Done(
            GssOutcome::ServerError("context complete but source name unavailable: "@ + e),
        ),
{
}

/// Each state is answered by the outcome of its own call and by no other, however
/// the call ended; an attempt that is over is answered by nothing.
pub proof fn law_states_have_their_answers(state: AcceptModel, event: EventModel)
    ensures
        gss::answers(event, state) <==> {
            ||| state is ImportName && event is NameImported
            ||| state is CanonicalizeName && event is NameCanonicalized
            ||| state is AcquireCred && event is CredAcquired
            ||| state is StepContext && event is ContextStepped
            ||| state is ReadSourceName && event is SourceNameRead
        },
{
}

/// An attempt takes five calls at most, and three where no service is configured.
pub proof fn law_accept_takes_few_calls(
    service: Option<Seq<char>>,
    token: Seq<u8>,
    events: Seq<EventModel>,
)
    requires
        answers_all(gss::accept_start(service, token), events),
    ensures
        events.len() <= 5,
        service is None ==> events.len() <= 3,
{
    super::law_accept_ends(gss::accept_start(service, token), events);
}

/// A refused token and an acceptor error are logged, each under its message and
/// with its own detail; nothing is logged of the other outcomes.
pub proof fn law_failures_are_logged(detail: Seq<char>)
    ensures
        gss::failure_report(GssOutcome::BadToken(detail)) == Some(
            ("kerberos identity: token rejected"@, detail),
        ),
        gss::failure_report(GssOutcome::ServerError(detail)) == Some(
            ("kerberos identity: acceptor error; failing closed"@, detail),
        ),
        gss::failure_report(GssOutcome::Continuation) is None,
        gss::failure_report(GssOutcome::Authenticated(detail)) is None,
{
}

/// The first NUL of a path is a NUL with none before it; a path with a NUL has
/// just one first.
pub proof fn law_first_nul(bytes: Seq<u8>, i: int)
    ensures
        gss::is_first_nul(bytes, i) <==> 0 <= i < bytes.len() && bytes[i] == 0
            && !bytes.take(i).contains(0u8),
        forall|j: int| gss::is_first_nul(bytes, i) && gss::is_first_nul(bytes, j) ==> i == j,
{
    if 0 <= i < bytes.len() {
        let head = bytes.take(i);
        if !head.contains(0u8) {
            assert forall|j: int| 0 <= j < i implies #[trigger] bytes[j] != 0 by {
                assert(head[j] == bytes[j]);
                assert(head.contains(head[j]));
            }
        }
    }
    assert forall|j: int| gss::is_first_nul(bytes, i) && gss::is_first_nul(bytes, j) implies i
        == j by {
        if i < j {
            assert(bytes[i] != 0);
        } else if j < i {
            assert(bytes[j] != 0);
        }
    }
}

/// What is said of a path with a NUL tells where it stands; what is said of a
/// failed registration tells the path and the status.
pub proof fn law_keytab_texts(i: nat, path: Seq<char>, major: u32)
    ensures
        gss::nul_message(i)
            == "keytab path has interior NUL: nul byte found in provided data at position: "@
            + text::decimal_numeral(i),
        gss::registration_message(path, major) == "krb5_gss_register_acceptor_identity('"@ + path
            + "') failed (major=0x"@ + text::hex_numeral(major as nat, 8) + ")"@,
{
}

} // verus!
