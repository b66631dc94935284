//! The models show what the values hold: each field and each variant is there,
//! and none for another.
use vstd::prelude::*;

use crate::config::{KerberosConfig, ResolutionConfig};
use crate::gss::{
    AcceptModel, AcceptState, CredRequest, EventModel, GssEvent, GssOutcome, GssResult,
};
use crate::identity::{
    IdentityResolution, OutcomeRecord, PluginIdentity, PluginManifest, ResolutionOutcome,
};
use crate::plugin::{ResolveStep, StepModel};

verus! {

/// `model` is the text of `value`, or absent as it is.
pub open spec fn shows(model: Option<Seq<char>>, value: Option<String>) -> bool {
    match value {
        Some(s) => model == Some(s@),
        None => model is None,
    }
}

/// `model` is the bytes of `value`, or absent as it is.
pub open spec fn shows_bytes(model: Option<Seq<u8>>, value: Option<Vec<u8>>) -> bool {
    match value {
        Some(b) => model == Some(b@),
        None => model is None,
    }
}

/// `model` lists the texts of `values`, one for one.
pub open spec fn lists(model: Seq<Seq<char>>, values: Vec<String>) -> bool {
    &&& model.len() == values@.len()
    &&& forall|i: int| 0 <= i < model.len() ==> #[trigger] model[i] == values@[i]@
}

/// The model of a config shows its fields.
pub proof fn law_config_model(config: KerberosConfig)
    ensures
        config@.keytab == config.keytab@,
        shows(config@.service_name, config.service_name),
        config@.strip_realm == config.strip_realm,
        config@.resolution == config.resolution@,
{
}

/// The model of a trust posture shows its fields.
pub proof fn law_resolution_model(resolution: ResolutionConfig)
    ensures
        resolution@.trust_level == resolution.trust_level@,
        resolution@.auth_provider_label == resolution.auth_provider_label@,
{
}

/// The model of a manifest shows its fields.
pub proof fn law_manifest_model(m: PluginManifest)
    ensures
        m@.id == m.id@,
        m@.version == m.version@,
        m@.name == m.name@,
        m@.plugin_class == m.plugin_class,
        m@.protocol_version == m.protocol_version@,
        shows(m@.license, m.license),
        lists(m@.required_capabilities, m.required_capabilities),
        lists(m@.tags, m.tags),
        lists(m@.provides, m.provides),
        lists(m@.provides_schemes, m.provides_schemes),
        m@.module_path_prefix == m.module_path_prefix@,
        shows(m@.backend_profile, m.backend_profile),
{
}

/// The model of an identity shows its fields.
pub proof fn law_identity_model(identity: PluginIdentity)
    ensures
        identity@.kind == identity.kind@,
        identity@.trust_level == identity.trust_level@,
        shows(identity@.subject_id, identity.subject_id),
        shows(identity@.auth_provider, identity.auth_provider),
        shows(identity@.issuer, identity.issuer),
        lists(identity@.roles, identity.roles),
        lists(identity@.groups, identity.groups),
        lists(identity@.scopes, identity.scopes),
        identity@.attributes == identity.attributes@,
{
}

/// The model of a resolution shows its variant and what it holds.
pub proof fn law_resolution_outcome(result: IdentityResolution)
    ensures
        match result {
            IdentityResolution::Resolved { identity } => result@ == ResolutionOutcome::Resolved(
                identity@,
            ),
            IdentityResolution::Absent => result@ == ResolutionOutcome::Absent,
            IdentityResolution::Invalid { reason } => result@ == ResolutionOutcome::Invalid(
                reason@,
            ),
        },
{
}

/// The model of a record shows its fields.
pub proof fn law_record_model(record: OutcomeRecord)
    ensures
        record@.outcome == record.outcome@,
        record@.severity == record.severity,
        record@.message == record.message@,
        match record.field {
            Some(field) => record@.field == Some((field.0@, field.1@)),
            None => record@.field is None,
        },
{
}

/// The model of an accept's result shows its variant and its text.
pub proof fn law_result_model(result: GssResult)
    ensures
        match result {
            GssResult::Authenticated(p) => result@ == GssOutcome::Authenticated(p@),
            GssResult::BadToken(d) => result@ == GssOutcome::BadToken(d@),
            GssResult::Continuation => result@ == GssOutcome::Continuation,
            GssResult::ServerError(d) => result@ == GssOutcome::ServerError(d@),
        },
{
}

/// The model of a credential request shows its fields.
pub proof fn law_request_model(request: CredRequest)
    ensures
        shows(request@.for_service, request.for_service),
        request@.lifetime == request.lifetime,
        request@.usage == request.usage,
        match request.mechanisms {
            Some(list) => request@.mechanisms == Some(list@),
            None => request@.mechanisms is None,
        },
{
}

/// The model of an accept's state shows its variant and what is handed to the
/// call.
pub proof fn law_state_model(state: AcceptState)
    ensures
        match state {
            AcceptState::ImportName { service, name_type, token } => state@ == (
            AcceptModel::ImportName { service: service@, name_type, token: token@ }),
            AcceptState::CanonicalizeName { service, mechanism, token } => state@ == (
            AcceptModel::CanonicalizeName { service: service@, mechanism, token: token@ }),
            AcceptState::AcquireCred { request, token } => state@ == (AcceptModel::AcquireCred {
                request: request@,
                token: token@,
            }),
            AcceptState::StepContext { token, channel_bindings } => {
                &&& state@ matches AcceptModel::StepContext { token: t, channel_bindings: b }
                &&& t == token@
                &&& shows_bytes(b, channel_bindings)
            },
            AcceptState::ReadSourceName => state@ == AcceptModel::ReadSourceName,
            AcceptState::Done(result) => state@ == AcceptModel::Done(result@),
        },
{
}

/// The model of a call's outcome shows which call it was and how it ended.
pub proof fn law_event_model(event: GssEvent)
    ensures
        match event {
            GssEvent::NameImported(Ok(u)) => event@ == EventModel::NameImported(Ok(u)),
            GssEvent::NameImported(Err(e)) => event@ == EventModel::NameImported(Err(e@)),
            GssEvent::NameCanonicalized(Ok(u)) => event@ == EventModel::NameCanonicalized(Ok(u)),
            GssEvent::NameCanonicalized(Err(e)) => event@ == EventModel::NameCanonicalized(
                Err(e@),
            ),
            GssEvent::CredAcquired(Ok(u)) => event@ == EventModel::CredAcquired(Ok(u)),
            GssEvent::CredAcquired(Err(e)) => event@ == EventModel::CredAcquired(Err(e@)),
            GssEvent::ContextStepped(Ok(b)) => event@ == EventModel::ContextStepped(Ok(b)),
            GssEvent::ContextStepped(Err(e)) => event@ == EventModel::ContextStepped(Err(e@)),
            GssEvent::SourceNameRead(Ok(n)) => event@ == EventModel::SourceNameRead(Ok(n@)),
            GssEvent::SourceNameRead(Err(e)) => event@ == EventModel::SourceNameRead(Err(e@)),
        },
{
}

/// The model of a step shows whether the request is answered, and with what.
pub proof fn law_step_model(step: ResolveStep)
    ensures
        match step {
            ResolveStep::Finished(result) => step@ == StepModel::Finished(result@),
            ResolveStep::Accept(state) => step@ == StepModel::Accept(state@),
        },
{
}

} // verus!
