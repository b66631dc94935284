//! What the plugin tells its host: its manifest, the caller's identity and how
//! an attempt to resolve it ended.
use vstd::prelude::*;

use crate::attributes::Attributes;

verus! {

/// What a plugin provides.
#[derive(Debug, Clone, Copy, PartialEq, Eq, Structural)]
pub enum PluginClass {
    IdentityProvider,
}

/// How a plugin presents itself to its host.
#[derive(Debug)]
pub struct PluginManifest {
    pub id: String,
    pub version: String,
    pub name: String,
    pub plugin_class: PluginClass,
    pub protocol_version: String,
    pub license: Option<String>,
    pub required_capabilities: Vec<String>,
    pub tags: Vec<String>,
    pub provides: Vec<String>,
    pub provides_schemes: Vec<String>,
    pub module_path_prefix: String,
    pub backend_profile: Option<String>,
}

/// A [`PluginManifest`] with its texts as sequences.
pub struct ManifestModel {
    pub id: Seq<char>,
    pub version: Seq<char>,
    pub name: Seq<char>,
    pub plugin_class: PluginClass,
    pub protocol_version: Seq<char>,
    pub license: Option<Seq<char>>,
    pub required_capabilities: Seq<Seq<char>>,
    pub tags: Seq<Seq<char>>,
    pub provides: Seq<Seq<char>>,
    pub provides_schemes: Seq<Seq<char>>,
    pub module_path_prefix: Seq<char>,
    pub backend_profile: Option<Seq<char>>,
}

impl View for PluginManifest {
    type V = ManifestModel;

    open spec fn view(&self) -> ManifestModel {
        ManifestModel {
            id: self.id@,
            version: self.version@,
            name: self.name@,
            plugin_class: self.plugin_class,
            protocol_version: self.protocol_version@,
            license: self.license.deep_view(),
            required_capabilities: self.required_capabilities.deep_view(),
            tags: self.tags.deep_view(),
            provides: self.provides.deep_view(),
            provides_schemes: self.provides_schemes.deep_view(),
            module_path_prefix: self.module_path_prefix@,
            backend_profile: self.backend_profile.deep_view(),
        }
    }
}

/// The identity of an authenticated caller.
#[derive(Debug)]
pub struct PluginIdentity {
    pub kind: String,
    pub trust_level: String,
    pub subject_id: Option<String>,
    pub auth_provider: Option<String>,
    pub issuer: Option<String>,
    pub roles: Vec<String>,
    pub groups: Vec<String>,
    pub scopes: Vec<String>,
    pub attributes: Attributes,
}

/// A [`PluginIdentity`] with its texts as sequences and its attributes as a map.
pub struct IdentityModel {
    pub kind: Seq<char>,
    pub trust_level: Seq<char>,
    pub subject_id: Option<Seq<char>>,
    pub auth_provider: Option<Seq<char>>,
    pub issuer: Option<Seq<char>>,
    pub roles: Seq<Seq<char>>,
    pub groups: Seq<Seq<char>>,
    pub scopes: Seq<Seq<char>>,
    pub attributes: Map<Seq<char>, Seq<char>>,
}

impl View for PluginIdentity {
    type V = IdentityModel;

    open spec fn view(&self) -> IdentityModel {
        IdentityModel {
            kind: self.kind@,
            trust_level: self.trust_level@,
            subject_id: self.subject_id.deep_view(),
            auth_provider: self.auth_provider.deep_view(),
            issuer: self.issuer.deep_view(),
            roles: self.roles.deep_view(),
            groups: self.groups.deep_view(),
            scopes: self.scopes.deep_view(),
            attributes: self.attributes@,
        }
    }
}

/// How an attempt to resolve the caller's identity ended.
#[derive(Debug)]
pub enum IdentityResolution {
    /// The caller is known.
    Resolved { identity: PluginIdentity },
    /// The request carries nothing for this plugin: another may resolve it.
    Absent,
    /// The request is refused.
    Invalid { reason: String },
}

/// An [`IdentityResolution`] with its texts as sequences.
pub enum ResolutionOutcome {
    Resolved(IdentityModel),
    Absent,
    Invalid(Seq<char>),
}

impl View for IdentityResolution {
    type V = ResolutionOutcome;

    open spec fn view(&self) -> ResolutionOutcome {
        match self {
            IdentityResolution::Resolved { identity } => ResolutionOutcome::Resolved(identity@),
            IdentityResolution::Absent => ResolutionOutcome::Absent,
            IdentityResolution::Invalid { reason } => ResolutionOutcome::Invalid(reason@),
        }
    }
}

/// How loudly an outcome is logged.
#[derive(Debug, Clone, Copy, PartialEq, Eq, Structural)]
pub enum Severity {
    Debug,
    Warn,
}

/// What is recorded of a resolution: the label it is counted under, and the log
/// line with the one field that goes with it.
#[derive(Debug)]
pub struct OutcomeRecord {
    pub outcome: String,
    pub severity: Severity,
    pub message: String,
    pub field: Option<(String, String)>,
}

/// An [`OutcomeRecord`] with its texts as sequences.
pub struct RecordModel {
    pub outcome: Seq<char>,
    pub severity: Severity,
    pub message: Seq<char>,
    pub field: Option<(Seq<char>, Seq<char>)>,
}

impl View for OutcomeRecord {
    type V = RecordModel;

    open spec fn view(&self) -> RecordModel {
        RecordModel {
            outcome: self.outcome@,
            severity: self.severity,
            message: self.message@,
            field: self.field.deep_view(),
        }
    }
}

/// The record of a resolution that ended in `result`.
pub open spec fn outcome_record(result: ResolutionOutcome) -> RecordModel {
    match result {
        ResolutionOutcome::Resolved(identity) => RecordModel {
            outcome: "resolved"@,
            severity: Severity::Debug,
            message: "kerberos identity resolved"@,
            field: Some(
                (
                    "subject"@,
                    match identity.subject_id {
                        Some(subject) => subject,
                        None => ""@,
                    },
                ),
            ),
        },
        ResolutionOutcome::Absent => RecordModel {
            outcome: "none"@,
            severity: Severity::Debug,
            message: "kerberos identity: no Negotiate token — fall through"@,
            field: None,
        },
        ResolutionOutcome::Invalid(reason) => RecordModel {
            outcome: "invalid"@,
            severity: Severity::Warn,
            message: "kerberos identity: rejected"@,
            field: Some(("reason"@, reason)),
        },
    }
}

/// What is to be counted and logged of a resolution.
pub fn record_resolve_outcome(result: &IdentityResolution) -> (r: OutcomeRecord)
    ensures
        r@ == outcome_record(result@),
{
    match result {
        IdentityResolution::Resolved { identity } => {
            let subject = match &identity.subject_id {
                Some(subject) => subject.clone(),
                None => "".to_owned(),
            };
            OutcomeRecord {
                outcome: "resolved".to_owned(),
                severity: Severity::Debug,
                message: "kerberos identity resolved".to_owned(),
                field: Some(("subject".to_owned(), subject)),
            }
        },
        IdentityResolution::Absent => OutcomeRecord {
            outcome: "none".to_owned(),
            severity: Severity::Debug,
            message: "kerberos identity: no Negotiate token — fall through".to_owned(),
            field: None,
        },
        IdentityResolution::Invalid { reason } => OutcomeRecord {
            outcome: "invalid".to_owned(),
            severity: Severity::Warn,
            message: "kerberos identity: rejected".to_owned(),
            field: Some(("reason".to_owned(), reason.clone())),
        },
    }
}

} // verus!
