//! Server-side GSSAPI accept: which calls are made into the GSSAPI library, in
//! which order and on what, and what their outcomes amount to.
//!
//! The calls themselves (importing a name, acquiring the acceptor credential,
//! `accept_sec_context`, reading the source name, registering the keytab) are
//! made by the host. It performs what an [`AcceptState`] asks for and hands the
//! outcome back as a [`GssEvent`]; every decision is taken here.
use vstd::prelude::*;

use crate::text;

verus! {

/// Outcome of an accept attempt.
#[derive(Debug)]
pub enum GssResult {
    /// Context established: the caller's Kerberos principal.
    Authenticated(String),
    /// The token was rejected (bad or expired ticket, wrong service, replay).
    BadToken(String),
    /// The mechanism needs more than one leg, which a stateless per-request
    /// resolver does not support.
    Continuation,
    /// Acceptor-side problem (keytab or credential): an operator error.
    ServerError(String),
}

/// A [`GssResult`] with its texts as sequences.
pub enum GssOutcome {
    Authenticated(Seq<char>),
    BadToken(Seq<char>),
    Continuation,
    ServerError(Seq<char>),
}

impl View for GssResult {
    type V = GssOutcome;

    open spec fn view(&self) -> GssOutcome {
        match self {
            GssResult::Authenticated(p) => GssOutcome::Authenticated(p@),
            GssResult::BadToken(d) => GssOutcome::BadToken(d@),
            GssResult::Continuation => GssOutcome::Continuation,
            GssResult::ServerError(d) => GssOutcome::ServerError(d@),
        }
    }
}

/// How the text of an imported name is read.
#[derive(Debug, Clone, Copy, PartialEq, Eq, Structural)]
pub enum NameType {
    /// `service@host` (`GSS_NT_HOSTBASED_SERVICE`).
    HostbasedService,
    /// A Kerberos principal (`GSS_NT_KRB5_PRINCIPAL`).
    Krb5Principal,
}

/// A GSSAPI mechanism.
#[derive(Debug, Clone, Copy, PartialEq, Eq, Structural)]
pub enum Mechanism {
    /// Kerberos 5 (`GSS_MECH_KRB5`).
    Krb5,
    /// SPNEGO (`GSS_MECH_SPNEGO`).
    Spnego,
}

/// What a credential may be used for.
#[derive(Debug, Clone, Copy, PartialEq, Eq, Structural)]
pub enum CredUsage {
    /// Accepting contexts.
    Accept,
    /// Initiating contexts.
    Initiate,
    /// Both.
    Both,
}

/// What a credential is acquired for.
#[derive(Debug)]
pub struct CredRequest {
    /// The service for whose canonical name it is acquired; without one it stands
    /// for any principal in the keytab.
    pub for_service: Option<String>,
    /// The seconds it is to last; without them, as long as it can.
    pub lifetime: Option<u32>,
    /// What it may be used for.
    pub usage: CredUsage,
    /// The mechanisms it is restricted to; without a list, any that the keytab
    /// supports.
    pub mechanisms: Option<Vec<Mechanism>>,
}

/// A [`CredRequest`] with its text and list as sequences.
pub struct CredModel {
    pub for_service: Option<Seq<char>>,
    pub lifetime: Option<u32>,
    pub usage: CredUsage,
    pub mechanisms: Option<Seq<Mechanism>>,
}

impl View for CredRequest {
    type V = CredModel;

    open spec fn view(&self) -> CredModel {
        CredModel {
            for_service: self.for_service.deep_view(),
            lifetime: self.lifetime,
            usage: self.usage,
            mechanisms: match self.mechanisms {
                Some(list) => Some(list@),
                None => None,
            },
        }
    }
}

/// The acceptor credential that is acquired for `service`, or for any principal
/// in the keytab: it serves accepting only, lasts as long as it can and is
/// restricted to no mechanism, since HTTP Negotiate clients send SPNEGO as well
/// as raw Kerberos.
pub open spec fn acceptor_cred(service: Option<Seq<char>>) -> CredModel {
    CredModel {
        for_service: service,
        lifetime: None,
        usage: CredUsage::Accept,
        mechanisms: None,
    }
}

/// Where an accept attempt stands. Each state but the last names the one GSSAPI
/// call that is to be made next and all that is handed to it.
#[derive(Debug)]
pub enum AcceptState {
    /// Import `service` as a name of the type `name_type`.
    ImportName { service: String, name_type: NameType, token: Vec<u8> },
    /// Canonicalize the name imported for `service`, for `mechanism`.
    CanonicalizeName { service: String, mechanism: Mechanism, token: Vec<u8> },
    /// Acquire the credential that `request` describes.
    AcquireCred { request: CredRequest, token: Vec<u8> },
    /// Feed `token` to a fresh server context that holds the credential, bound to
    /// `channel_bindings` where there are any.
    StepContext { token: Vec<u8>, channel_bindings: Option<Vec<u8>> },
    /// Read the source name of the established context.
    ReadSourceName,
    /// Nothing is left to be called.
    Done(GssResult),
}

/// An [`AcceptState`] with its texts and bytes as sequences.
pub enum AcceptModel {
    ImportName { service: Seq<char>, name_type: NameType, token: Seq<u8> },
    CanonicalizeName { service: Seq<char>, mechanism: Mechanism, token: Seq<u8> },
    AcquireCred { request: CredModel, token: Seq<u8> },
    StepContext { token: Seq<u8>, channel_bindings: Option<Seq<u8>> },
    ReadSourceName,
    Done(GssOutcome),
}

impl View for AcceptState {
    type V = AcceptModel;

    open spec fn view(&self) -> AcceptModel {
        match self {
            AcceptState::ImportName { service, name_type, token } => AcceptModel::ImportName {
                service: service@,
                name_type: *name_type,
                token: token@,
            },
            AcceptState::CanonicalizeName {
                service,
                mechanism,
                token,
            } => AcceptModel::CanonicalizeName {
                service: service@,
                mechanism: *mechanism,
                token: token@,
            },
            AcceptState::AcquireCred { request, token } => AcceptModel::AcquireCred {
                request: request@,
                token: token@,
            },
            AcceptState::StepContext { token, channel_bindings } => AcceptModel::StepContext {
                token: token@,
                channel_bindings: match channel_bindings {
                    Some(bindings) => Some(bindings@),
                    None => None,
                },
            },
            AcceptState::ReadSourceName => AcceptModel::ReadSourceName,
            AcceptState::Done(result) => AcceptModel::Done(result@),
        }
    }
}

/// How a GSSAPI call ended; a failure carries the text of the GSSAPI error.
#[derive(Debug)]
pub enum GssEvent {
    NameImported(Result<(), String>),
    NameCanonicalized(Result<(), String>),
    CredAcquired(Result<(), String>),
    /// The flag tells whether the context is complete after the step.
    ContextStepped(Result<bool, String>),
    SourceNameRead(Result<String, String>),
}

/// A [`GssEvent`] with its texts as sequences.
pub enum EventModel {
    NameImported(Result<(), Seq<char>>),
    NameCanonicalized(Result<(), Seq<char>>),
    CredAcquired(Result<(), Seq<char>>),
    ContextStepped(Result<bool, Seq<char>>),
    SourceNameRead(Result<Seq<char>, Seq<char>>),
}

/// A call's outcome with the text of its error as a sequence.
pub open spec fn outcome_view<T>(r: Result<T, String>) -> Result<T, Seq<char>> {
    match r {
        Ok(v) => Ok(v),
        Err(e) => Err(e@),
    }
}

impl View for GssEvent {
    type V = EventModel;

    open spec fn view(&self) -> EventModel {
        match self {
            GssEvent::NameImported(r) => EventModel::NameImported(outcome_view(*r)),
            GssEvent::NameCanonicalized(r) => EventModel::NameCanonicalized(outcome_view(*r)),
            GssEvent::CredAcquired(r) => EventModel::CredAcquired(outcome_view(*r)),
            GssEvent::ContextStepped(r) => EventModel::ContextStepped(outcome_view(*r)),
            GssEvent::SourceNameRead(r) => EventModel::SourceNameRead(
                match r {
                    Ok(name) => Ok(name@),
                    Err(e) => Err(e@),
                },
            ),
        }
    }
}

/// `event` is the outcome of the call that `state` asks for.
pub open spec fn answers(event: EventModel, state: AcceptModel) -> bool {
    match state {
        AcceptModel::ImportName { .. } => event is NameImported,
        AcceptModel::CanonicalizeName { .. } => event is NameCanonicalized,
        AcceptModel::AcquireCred { .. } => event is CredAcquired,
        AcceptModel::StepContext { .. } => event is ContextStepped,
        AcceptModel::ReadSourceName => event is SourceNameRead,
        AcceptModel::Done(_) => false,
    }
}

/// The state in which an accept attempt for `token` starts. A configured
/// service has its name imported first, as that of a hostbased service; without
/// one the credential is acquired at once.
pub open spec fn accept_start(service: Option<Seq<char>>, token: Seq<u8>) -> AcceptModel {
    match service {
        Some(s) => AcceptModel::ImportName {
            service: s,
            name_type: NameType::HostbasedService,
            token,
        },
        None => AcceptModel::AcquireCred { request: acceptor_cred(None), token },
    }
}

/// The state that follows `state` once its call has ended in `event`.
pub open spec fn accept_next(state: AcceptModel, event: EventModel) -> AcceptModel {
    match (state, event) {
        (AcceptModel::ImportName { service, token, .. }, EventModel::NameImported(r)) => match r {
            Ok(_) => AcceptModel::CanonicalizeName { service, mechanism: Mechanism::Krb5, token },
            Err(e) => AcceptModel::Done(
                GssOutcome::ServerError("service name '"@ + service + "': "@ + e),
            ),
        },
        (
            AcceptModel::CanonicalizeName { service, token, .. },
            EventModel::NameCanonicalized(r),
        ) => match r {
            Ok(_) => AcceptModel::AcquireCred { request: acceptor_cred(Some(service)), token },
            Err(e) => AcceptModel::Done(
                GssOutcome::ServerError("canonicalize service name '"@ + service + "': "@ + e),
            ),
        },
        (AcceptModel::AcquireCred { token, .. }, EventModel::CredAcquired(r)) => match r {
            Ok(_) => AcceptModel::StepContext { token, channel_bindings: None },
            Err(e) => AcceptModel::Done(
                GssOutcome::ServerError("acquire acceptor credential from keytab: "@ + e),
            ),
        },
        (AcceptModel::StepContext { .. }, EventModel::ContextStepped(r)) => match r {
            Ok(true) => AcceptModel::ReadSourceName,
            Ok(false) => AcceptModel::Done(GssOutcome::Continuation),
            Err(e) => AcceptModel::Done(GssOutcome::BadToken(e)),
        },
        (AcceptModel::ReadSourceName, EventModel::SourceNameRead(r)) => match r {
            Ok(name) => AcceptModel::Done(GssOutcome::Authenticated(name)),
            Err(e) => AcceptModel::Done(
                GssOutcome::ServerError(
                    "context complete but source name unavailable: "@ + e,
                ),
            ),
        },
        _ => state,
    }
}

/// How many calls can still follow `state`.
pub open spec fn calls_left(state: AcceptModel) -> nat {
    match state {
        AcceptModel::ImportName { .. } => 5,
        AcceptModel::CanonicalizeName { .. } => 4,
        AcceptModel::AcquireCred { .. } => 3,
        AcceptModel::StepContext { .. } => 2,
        AcceptModel::ReadSourceName => 1,
        AcceptModel::Done(_) => 0,
    }
}

/// Describes the acceptor credential to acquire for `service_name`, or for any
/// principal in the keytab.
pub fn acquire_acceptor_cred(service_name: Option<String>) -> (r: CredRequest)
    ensures
        r@ == acceptor_cred(service_name.deep_view()),
{
    CredRequest {
        for_service: service_name,
        lifetime: None,
        usage: CredUsage::Accept,
        mechanisms: None,
    }
}

/// Begins to verify one GSSAPI token against the registered keytab.
pub fn accept(service_name: Option<&str>, token: Vec<u8>) -> (r: AcceptState)
    ensures
        r@ == accept_start(service_name.deep_view(), token@),
{
    match service_name {
        Some(s) => AcceptState::ImportName {
            service: s.to_owned(),
            name_type: NameType::HostbasedService,
            token,
        },
        None => AcceptState::AcquireCred { request: acquire_acceptor_cred(None), token },
    }
}

impl AcceptState {
    /// The state after the call that this one asks for has ended in `event`.
    pub fn next(self, event: GssEvent) -> (r: AcceptState)
        requires
            answers(event@, self@),
        ensures
            r@ == accept_next(self@, event@),
            calls_left(r@) < calls_left(self@),
    {
        match (self, event) {
            (
                AcceptState::ImportName { service, name_type: _, token },
                GssEvent::NameImported(outcome),
            ) => {
                match outcome {
                    Ok(_) => AcceptState::CanonicalizeName {
                        service,
                        mechanism: Mechanism::Krb5,
                        token,
                    },
                    Err(e) => {
                        let mut detail = "service name '".to_owned();
                        detail.append(service.as_str());
                        detail.append("': ");
                        detail.append(e.as_str());
                        AcceptState::Done(GssResult::ServerError(detail))
                    },
                }
            },
            (
                AcceptState::CanonicalizeName { service, mechanism: _, token },
                GssEvent::NameCanonicalized(outcome),
            ) => {
                match outcome {
                    Ok(_) => AcceptState::AcquireCred {
                        request: acquire_acceptor_cred(Some(service)),
                        token,
                    },
                    Err(e) => {
                        let mut detail = "canonicalize service name '".to_owned();
                        detail.append(service.as_str());
                        detail.append("': ");
                        detail.append(e.as_str());
                        AcceptState::Done(GssResult::ServerError(detail))
                    },
                }
            },
            (AcceptState::AcquireCred { request: _, token }, GssEvent::CredAcquired(outcome)) => {
                match outcome {
                    Ok(_) => AcceptState::StepContext { token, channel_bindings: None },
                    Err(e) => {
                        let mut detail = "acquire acceptor credential from keytab: ".to_owned();
                        detail.append(e.as_str());
                        AcceptState::Done(GssResult::ServerError(detail))
                    },
                }
            },
            (AcceptState::StepContext { token: _, channel_bindings: _ }, GssEvent::ContextStepped(outcome)) => {
                match outcome {
                    // Only a complete context authenticates: a mechanism may name
                    // its source while it still expects further legs.
                    Ok(complete) => if complete {
                        AcceptState::ReadSourceName
                    } else {
                        AcceptState::Done(GssResult::Continuation)
                    },
                    Err(e) => AcceptState::Done(GssResult::BadToken(e)),
                }
            },
            (AcceptState::ReadSourceName, GssEvent::SourceNameRead(outcome)) => {
                match outcome {
                    Ok(name) => AcceptState::Done(GssResult::Authenticated(name)),
                    Err(e) => {
                        let mut detail =
                            "context complete but source name unavailable: ".to_owned();
                        detail.append(e.as_str());
                        AcceptState::Done(GssResult::ServerError(detail))
                    },
                }
            },
            (state, _) => state,
        }
    }
}

/// What is logged of the failure that an accept attempt ended in: a message and
/// the detail. A context that expects further legs has none.
pub open spec fn failure_report(outcome: GssOutcome) -> Option<(Seq<char>, Seq<char>)> {
    match outcome {
        GssOutcome::BadToken(detail) => Some(("kerberos identity: token rejected"@, detail)),
        GssOutcome::ServerError(detail) => Some(
            ("kerberos identity: acceptor error; failing closed"@, detail),
        ),
        GssOutcome::Authenticated(_) => None,
        GssOutcome::Continuation => None,
    }
}

/// What is to be logged, as a warning, of the failure that an accept attempt ended
/// in: a message and the detail.
pub fn failure_record(result: &GssResult) -> (r: Option<(String, String)>)
    ensures
        r.deep_view() == failure_report(result@),
{
    match result {
        GssResult::BadToken(detail) => Some(
            ("kerberos identity: token rejected".to_owned(), detail.clone()),
        ),
        GssResult::ServerError(detail) => Some(
            ("kerberos identity: acceptor error; failing closed".to_owned(), detail.clone()),
        ),
        GssResult::Authenticated(_) => None,
        GssResult::Continuation => None,
    }
}

/// `i` is where the last `@` of `principal` stands.
pub open spec fn is_last_at_sign(principal: Seq<char>, i: int) -> bool {
    &&& 0 <= i < principal.len()
    &&& principal[i] == '@'
    &&& forall|j: int| i < j < principal.len() ==> #[trigger] principal[j] != '@'
}

/// The local part and the realm of `principal`: what stands before and after its
/// last `@`. Without an `@`, or with nothing after the last one, the whole
/// principal is the local part and there is no realm.
pub open spec fn principal_parts(principal: Seq<char>) -> (Seq<char>, Option<Seq<char>>) {
    if principal.contains('@') && principal.last() != '@' {
        let i = choose|i: int| is_last_at_sign(principal, i);
        (principal.take(i), Some(principal.skip(i + 1)))
    } else {
        (principal, None)
    }
}

/// Splits `user@REALM` into `user` and `REALM`; a name with no `@` has no realm.
pub fn split_principal(principal: &str) -> (r: (String, Option<String>))
    ensures
        r.deep_view() == principal_parts(principal@),
{
    let chars = text::chars_of(principal);
    let mut i: usize = chars.len();
    while i > 0
        invariant
            i <= chars.len(),
            chars@ == principal@,
            forall|j: int| i <= j < chars.len() ==> #[trigger] chars@[j] != '@',
        decreases i,
    {
        i -= 1;
        if chars[i] == '@' {
            assert(is_last_at_sign(principal@, i as int));
            if i + 1 < chars.len() {
                let user = principal.substring_char(0, i).to_owned();
                let realm = principal.substring_char(i + 1, chars.len()).to_owned();
                return (user, Some(realm));
            } else {
                return (principal.to_owned(), None);
            }
        }
    }
    (principal.to_owned(), None)
}

/// The first NUL byte of `bytes` stands at `i`.
pub open spec fn is_first_nul(bytes: Seq<u8>, i: int) -> bool {
    &&& 0 <= i < bytes.len()
    &&& bytes[i] == 0
    &&& forall|j: int| 0 <= j < i ==> #[trigger] bytes[j] != 0
}

/// What is said of a keytab path whose first NUL byte stands at `i`.
pub open spec fn nul_message(i: nat) -> Seq<char> {
    "keytab path has interior NUL: nul byte found in provided data at position: "@
        + text::decimal_numeral(i)
}

/// What is said of a keytab that was registered with the status `major`.
pub open spec fn registration_message(path: Seq<char>, major: u32) -> Seq<char> {
    "krb5_gss_register_acceptor_identity('"@ + path + "') failed (major=0x"@ + text::hex_numeral(
        major as nat,
        8,
    ) + ")"@
}

/// A keytab that is to be registered as the GSSAPI acceptor identity.
#[derive(Debug)]
pub struct KeytabRegistration {
    path: String,
    c_path: Vec<u8>,
}

impl KeytabRegistration {
    /// The path of the keytab.
    pub closed spec fn path(&self) -> Seq<char> {
        self.path@
    }

    /// What `krb5_gss_register_acceptor_identity` is called on: the path as a
    /// C string, its terminating NUL included.
    pub closed spec fn c_string(&self) -> Seq<u8> {
        self.c_path@
    }

    /// The bytes to call `krb5_gss_register_acceptor_identity` on: the path and
    /// a terminating NUL.
    pub fn c_path(&self) -> (r: &Vec<u8>)
        ensures
            r@ == self.c_string(),
    {
        &self.c_path
    }

    /// Judges the major status that `krb5_gss_register_acceptor_identity`
    /// returned: anything but zero is a failure.
    pub fn finish(&self, major: u32) -> (r: Result<(), String>)
        ensures
            r is Ok <==> major == 0,
            r matches Err(e) ==> e@ == registration_message(self.path(), major),
    {
        if major != 0 {
            let mut e = "krb5_gss_register_acceptor_identity('".to_owned();
            e.append(self.path.as_str());
            e.append("') failed (major=0x");
            e.append(text::hex(major, 8).as_str());
            e.append(")");
            return Err(e);
        }
        Ok(())
    }
}

/// Prepares the service keytab for registration as the GSSAPI acceptor
/// identity. A path that a C string cannot carry is refused.
pub fn register_keytab(path: &str) -> (r: Result<KeytabRegistration, String>)
    ensures
        r is Err <==> vstd::utf8::encode_utf8(path@).contains(0u8),
        r matches Err(e) ==> exists|i: int| #[trigger]
            is_first_nul(vstd::utf8::encode_utf8(path@), i) && e@ == nul_message(i as nat),
        r matches Ok(registration) ==> {
            &&& registration.path() == path@
            &&& registration.c_string() == vstd::utf8::encode_utf8(path@).push(0u8)
        },
{
    let bytes = path.as_bytes();
    let mut c_path: Vec<u8> = Vec::new();
    let mut i: usize = 0;
    while i < bytes.len()
        invariant
            i <= bytes.len(),
            bytes@ == vstd::utf8::encode_utf8(path@),
            c_path@ == bytes@.take(i as int),
            forall|j: int| 0 <= j < i ==> #[trigger] bytes@[j] != 0,
        decreases bytes.len() - i,
    {
        if bytes[i] == 0 {
            let mut e =
                "keytab path has interior NUL: nul byte found in provided data at position: ".to_owned();
            e.append(text::decimal(i).as_str());
            assert(is_first_nul(vstd::utf8::encode_utf8(path@), i as int));
            return Err(e);
        }
        c_path.push(bytes[i]);
        i += 1;
    }
    c_path.push(0u8);
    Ok(KeytabRegistration { path: path.to_owned(), c_path })
}

} // verus!
