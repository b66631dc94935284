//! Operator-supplied configuration of `dev.mcpg.identity.kerberos`.
use vstd::prelude::*;

use crate::text;

verus! {

/// The error of a JSON decoder.
#[verifier::external_type_specification]
#[verifier::external_body]
pub struct ExJsonError(serde_json::Error);

/// Top-level plugin config.
#[derive(Debug, Clone)]
pub struct KerberosConfig {
    /// Path to the service keytab holding the gateway's service principal
    /// key(s). Registered as the GSSAPI acceptor identity.
    pub keytab: String,
    /// Optional hostbased service name to acquire the acceptor credential for.
    /// Omit to accept any principal present in the keytab.
    pub service_name: Option<String>,
    /// Use the principal's local part (before `@REALM`) as `subject_id`
    /// (`alice@CORP.EXAMPLE.COM` gives `alice`). The full principal is always
    /// kept in `attributes.principal`. Default `true`.
    pub strip_realm: bool,
    /// Trust level and provider label applied to resolved identities.
    pub resolution: ResolutionConfig,
}

/// Trust posture applied to authenticated callers.
#[derive(Debug, Clone)]
pub struct ResolutionConfig {
    /// A completed GSSAPI accept proves that the caller holds a service ticket
    /// the KDC issued for them, so `"verified"` is the default; operators on
    /// weaker contracts downgrade to `"header_asserted"`.
    pub trust_level: String,
    /// `auth_provider` label on the resolved identity.
    pub auth_provider_label: String,
}

/// The fields that a config document holds. What is absent takes its default.
#[derive(Debug, Clone)]
pub struct ConfigFields {
    pub keytab: String,
    pub service_name: Option<String>,
    pub strip_realm: Option<bool>,
    pub resolution: Option<ResolutionFields>,
}

/// The fields that the `resolution` object of a config document holds.
#[derive(Debug, Clone)]
pub struct ResolutionFields {
    pub trust_level: Option<String>,
    pub auth_provider_label: Option<String>,
}

/// Why a config is refused.
#[derive(Debug)]
pub enum ConfigError {
    /// The document is no JSON of the expected shape.
    InvalidJson(serde_json::Error),
    /// The keytab path is blank.
    EmptyKeytab,
    /// Nothing exists at the keytab path.
    KeytabNotFound(String),
    /// The trust level is neither `verified` nor `header_asserted`.
    InvalidTrustLevel(String),
}

/// A [`ResolutionConfig`] with its texts as sequences.
pub struct ResolutionModel {
    pub trust_level: Seq<char>,
    pub auth_provider_label: Seq<char>,
}

/// A [`KerberosConfig`] with its texts as sequences.
pub struct ConfigModel {
    pub keytab: Seq<char>,
    pub service_name: Option<Seq<char>>,
    pub strip_realm: bool,
    pub resolution: ResolutionModel,
}

impl View for ResolutionConfig {
    type V = ResolutionModel;

    open spec fn view(&self) -> ResolutionModel {
        ResolutionModel {
            trust_level: self.trust_level@,
            auth_provider_label: self.auth_provider_label@,
        }
    }
}

impl View for KerberosConfig {
    type V = ConfigModel;

    open spec fn view(&self) -> ConfigModel {
        ConfigModel {
            keytab: self.keytab@,
            service_name: self.service_name.deep_view(),
            strip_realm: self.strip_realm,
            resolution: self.resolution@,
        }
    }
}

/// `given`, or `fallback` where nothing is given.
pub open spec fn text_or(given: Option<String>, fallback: Seq<char>) -> Seq<char> {
    match given {
        Some(s) => s@,
        None => fallback,
    }
}

/// The trust posture of a config that says nothing of it.
pub open spec fn default_resolution() -> ResolutionModel {
    ResolutionModel { trust_level: "verified"@, auth_provider_label: "kerberos"@ }
}

impl ResolutionFields {
    /// The trust posture that the fields describe.
    pub open spec fn meaning(&self) -> ResolutionModel {
        ResolutionModel {
            trust_level: text_or(self.trust_level, default_resolution().trust_level),
            auth_provider_label: text_or(
                self.auth_provider_label,
                default_resolution().auth_provider_label,
            ),
        }
    }

    /// Fills in the defaults of the fields that are absent.
    pub fn with_defaults(self) -> (r: ResolutionConfig)
        ensures
            r@ == self.meaning(),
    {
        let trust_level = match self.trust_level {
            Some(t) => t,
            None => default_trust_level(),
        };
        let auth_provider_label = match self.auth_provider_label {
            Some(l) => l,
            None => default_auth_provider_label(),
        };
        ResolutionConfig { trust_level, auth_provider_label }
    }
}

impl ConfigFields {
    /// The config that the fields describe.
    pub open spec fn meaning(&self) -> ConfigModel {
        ConfigModel {
            keytab: self.keytab@,
            service_name: self.service_name.deep_view(),
            strip_realm: match self.strip_realm {
                Some(b) => b,
                None => true,
            },
            resolution: match self.resolution {
                Some(r) => r.meaning(),
                None => default_resolution(),
            },
        }
    }

    /// Fills in the defaults of the fields that are absent.
    pub fn with_defaults(self) -> (r: KerberosConfig)
        ensures
            r@ == self.meaning(),
    {
        let strip_realm = match self.strip_realm {
            Some(b) => b,
            None => default_true(),
        };
        let resolution = match self.resolution {
            Some(r) => r.with_defaults(),
            None => ResolutionConfig::default(),
        };
        KerberosConfig {
            keytab: self.keytab,
            service_name: self.service_name,
            strip_realm,
            resolution,
        }
    }
}

impl Default for ResolutionConfig {
    fn default() -> (r: Self)
        ensures
            r@ == default_resolution(),
    {
        ResolutionConfig {
            trust_level: default_trust_level(),
            auth_provider_label: default_auth_provider_label(),
        }
    }
}

/// The default of `strip_realm`.
pub fn default_true() -> (r: bool)
    ensures
        r,
{
    true
}

/// The default of `resolution.trust_level`.
pub fn default_trust_level() -> (r: String)
    ensures
        r@ == "verified"@,
{
    "verified".to_owned()
}

/// The default of `resolution.auth_provider_label`.
pub fn default_auth_provider_label() -> (r: String)
    ensures
        r@ == "kerberos"@,
{
    "kerberos".to_owned()
}

/// A trust level that an operator may choose.
pub open spec fn is_trust_level(t: Seq<char>) -> bool {
    t == "verified"@ || t == "header_asserted"@
}

/// What is wrong with a config whose document could be read.
pub enum ConfigFault {
    EmptyKeytab,
    KeytabNotFound(Seq<char>),
    InvalidTrustLevel(Seq<char>),
}

/// The first fault of `config`, where `keytab_exists` tells whether anything
/// exists at its keytab path.
pub open spec fn config_fault(config: ConfigModel, keytab_exists: bool) -> Option<ConfigFault> {
    if text::is_blank_text(config.keytab) {
        Some(ConfigFault::EmptyKeytab)
    } else if !keytab_exists {
        Some(ConfigFault::KeytabNotFound(config.keytab))
    } else if !is_trust_level(config.resolution.trust_level) {
        Some(ConfigFault::InvalidTrustLevel(config.resolution.trust_level))
    } else {
        None
    }
}

/// What is said of a fault.
pub open spec fn fault_message(fault: ConfigFault) -> Seq<char> {
    match fault {
        ConfigFault::EmptyKeytab => "identity.kerberos: keytab must not be empty"@,
        ConfigFault::KeytabNotFound(path) => "identity.kerberos: keytab file not found: "@ + path,
        ConfigFault::InvalidTrustLevel(t) => "identity.kerberos: invalid trust_level `"@ + t
            + "` (allowed: verified | header_asserted)"@,
    }
}

/// What is said of a document of which the JSON decoder says `detail`.
pub open spec fn json_message(detail: Seq<char>) -> Seq<char> {
    "invalid identity.kerberos config JSON: "@ + detail
}

impl ConfigError {
    /// The fault that the error reports; `None` where the document could not be
    /// read.
    pub open spec fn fault(&self) -> Option<ConfigFault> {
        match self {
            ConfigError::InvalidJson(_) => None,
            ConfigError::EmptyKeytab => Some(ConfigFault::EmptyKeytab),
            ConfigError::KeytabNotFound(path) => Some(ConfigFault::KeytabNotFound(path@)),
            ConfigError::InvalidTrustLevel(t) => Some(ConfigFault::InvalidTrustLevel(t@)),
        }
    }

    /// `m` is what the error says. Of a document that could not be read it ends
    /// in what the JSON decoder says, as `Display` writes it.
    pub open spec fn says(&self, m: Seq<char>) -> bool {
        match self.fault() {
            Some(fault) => m == fault_message(fault),
            None => exists|d: String|
                #![trigger vstd::string::to_string_from_display_ensures(&self->InvalidJson_0, d)]
                vstd::string::to_string_from_display_ensures(&self->InvalidJson_0, d) && m
                    == json_message(d@),
        }
    }

    /// What the error says.
    pub fn message(&self) -> (r: String)
        ensures
            self.says(r@),
    {
        match self {
            ConfigError::InvalidJson(e) => {
                let mut m = "invalid identity.kerberos config JSON: ".to_owned();
                let detail = e.to_string();
                m.append(detail.as_str());
                m
            },
            ConfigError::EmptyKeytab => "identity.kerberos: keytab must not be empty".to_owned(),
            ConfigError::KeytabNotFound(path) => {
                let mut m = "identity.kerberos: keytab file not found: ".to_owned();
                m.append(path.as_str());
                m
            },
            ConfigError::InvalidTrustLevel(t) => {
                let mut m = "identity.kerberos: invalid trust_level `".to_owned();
                m.append(t.as_str());
                m.append("` (allowed: verified | header_asserted)");
                m
            },
        }
    }
}

impl From<serde_json::Error> for ConfigError {
    fn from(e: serde_json::Error) -> (r: Self) {
        ConfigError::InvalidJson(e)
    }
}

impl vstd::std_specs::convert::FromSpecImpl<serde_json::Error> for ConfigError {
    open spec fn obeys_from_spec() -> bool {
        true
    }

    open spec fn from_spec(e: serde_json::Error) -> Self {
        ConfigError::InvalidJson(e)
    }
}

impl KerberosConfig {
    /// Completes and validates what a JSON decoder made of a config document.
    /// `keytab_exists` tells whether anything exists at the keytab path that the
    /// document names.
    pub fn parse(
        decoded: Result<ConfigFields, serde_json::Error>,
        keytab_exists: bool,
    ) -> (r: Result<KerberosConfig, ConfigError>)
        ensures
            match decoded {
                Err(e) => r == Err::<KerberosConfig, _>(ConfigError::InvalidJson(e)),
                Ok(fields) => match config_fault(fields.meaning(), keytab_exists) {
                    Some(fault) => r matches Err(e) && e.fault() == Some(fault),
                    None => r matches Ok(config) && config@ == fields.meaning(),
                },
            },
    {
        let fields = match decoded {
            Ok(fields) => fields,
            Err(e) => return Err(ConfigError::from(e)),
        };
        let config = fields.with_defaults();
        match config.validate(keytab_exists) {
            Ok(_) => Ok(config),
            Err(e) => Err(e),
        }
    }

    /// Checks the config. `keytab_exists` tells whether anything exists at its
    /// keytab path.
    pub fn validate(&self, keytab_exists: bool) -> (r: Result<(), ConfigError>)
        ensures
            match config_fault(self@, keytab_exists) {
                Some(fault) => r matches Err(e) && e.fault() == Some(fault),
                None => r is Ok,
            },
    {
        if text::is_blank(self.keytab.as_str()) {
            return Err(ConfigError::EmptyKeytab);
        }
        if !keytab_exists {
            return Err(ConfigError::KeytabNotFound(self.keytab.clone()));
        }
        let trust_level = self.resolution.trust_level.as_str();
        if !text::eq_text(trust_level, "verified") && !text::eq_text(
            trust_level,
            "header_asserted",
        ) {
            return Err(ConfigError::InvalidTrustLevel(self.resolution.trust_level.clone()));
        }
        Ok(())
    }
}

} // verus!
