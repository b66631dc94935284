//! What holds of configs: defaults, faults and what is said of them.
use vstd::prelude::*;
use vstd::std_specs::convert::FromSpec;

use crate::config;
use crate::config::{ConfigError, ConfigFault, ConfigFields, ConfigModel, ResolutionFields};
use crate::text;

verus! {

/// Each field that a document gives is kept, whatever the others are.
pub proof fn law_given_fields_are_kept(fields: ConfigFields)
    ensures
        fields.meaning().keytab == fields.keytab@,
        fields.service_name matches Some(s) ==> fields.meaning().service_name == Some(s@),
        fields.strip_realm matches Some(b) ==> fields.meaning().strip_realm == b,
        fields.resolution matches Some(r) ==> {
            &&& r.trust_level matches Some(t) ==> fields.meaning().resolution.trust_level == t@
            &&& r.auth_provider_label matches Some(l)
                ==> fields.meaning().resolution.auth_provider_label == l@
        },
{
}

/// Each field that a document leaves out takes its default, whatever the others
/// are.
pub proof fn law_absent_fields_take_defaults(fields: ConfigFields)
    ensures
        fields.service_name is None ==> fields.meaning().service_name is None,
        fields.strip_realm is None ==> fields.meaning().strip_realm,
        fields.resolution is None || fields.resolution->0.trust_level is None
            ==> fields.meaning().resolution.trust_level == "verified"@,
        fields.resolution is None || fields.resolution->0.auth_provider_label is None
            ==> fields.meaning().resolution.auth_provider_label == "kerberos"@,
{
}

/// Each field of a `resolution` object is kept where it is given and takes its
/// default where it is not, whatever the other is.
pub proof fn law_resolution_fields(fields: ResolutionFields)
    ensures
        fields.meaning().trust_level == match fields.trust_level {
            Some(t) => t@,
            None => "verified"@,
        },
        fields.meaning().auth_provider_label == match fields.auth_provider_label {
            Some(l) => l@,
            None => "kerberos"@,
        },
        config::default_resolution().trust_level == "verified"@,
        config::default_resolution().auth_provider_label == "kerberos"@,
{
}

/// Fields that two documents share mean the same in both: no field bears on the
/// meaning of another.
pub proof fn law_fields_are_independent(a: ConfigFields, b: ConfigFields)
    ensures
        a.keytab@ == b.keytab@ ==> a.meaning().keytab == b.meaning().keytab,
        a.service_name == b.service_name ==> a.meaning().service_name == b.meaning().service_name,
        a.strip_realm == b.strip_realm ==> a.meaning().strip_realm == b.meaning().strip_realm,
        a.resolution == b.resolution ==> a.meaning().resolution == b.meaning().resolution,
{
}

/// A config is accepted exactly where its keytab path is more than white space,
/// something exists there and the trust level is one of the two. Neither the
/// service nor the other settings bear on it.
pub proof fn law_accepted_configs(config: ConfigModel, keytab_exists: bool)
    ensures
        config::config_fault(config, keytab_exists) is None <==> {
            &&& !text::is_blank_text(config.keytab)
            &&& keytab_exists
            &&& config.resolution.trust_level == "verified"@ || config.resolution.trust_level
                == "header_asserted"@
        },
{
}

/// Of a refused config the first fault is reported: a blank keytab path before a
/// missing keytab, and both before an unknown trust level.
pub proof fn law_first_fault_is_reported(config: ConfigModel, keytab_exists: bool)
    ensures
        config::config_fault(config, keytab_exists) == Some(ConfigFault::EmptyKeytab)
            <==> text::is_blank_text(config.keytab),
        forall|path: Seq<char>| #[trigger]
            reports(config, keytab_exists, ConfigFault::KeytabNotFound(path)) <==> {
                &&& !text::is_blank_text(config.keytab)
                &&& !keytab_exists
                &&& path == config.keytab
            },
        forall|level: Seq<char>| #[trigger]
            reports(config, keytab_exists, ConfigFault::InvalidTrustLevel(level)) <==> {
                &&& !text::is_blank_text(config.keytab)
                &&& keytab_exists
                &&& level == config.resolution.trust_level
                &&& level != "verified"@
                &&& level != "header_asserted"@
            },
{
}

/// `fault` is the fault that is reported of `config`.
pub open spec fn reports(config: ConfigModel, keytab_exists: bool, fault: ConfigFault) -> bool {
    config::config_fault(config, keytab_exists) == Some(fault)
}

/// The trust levels are `verified` and `header_asserted`.
pub proof fn law_trust_levels(t: Seq<char>)
    ensures
        config::is_trust_level(t) <==> t == "verified"@ || t == "header_asserted"@,
{
}

/// Each error reports the fault of its kind, with the path or trust level that it
/// carries; one on the document itself reports none.
pub proof fn law_errors_report_faults(error: ConfigError)
    ensures
        error is InvalidJson <==> error.fault() is None,
        error is EmptyKeytab <==> error.fault() == Some(ConfigFault::EmptyKeytab),
        error matches ConfigError::KeytabNotFound(path) ==> error.fault() == Some(
            ConfigFault::KeytabNotFound(path@),
        ),
        error matches ConfigError::InvalidTrustLevel(t) ==> error.fault() == Some(
            ConfigFault::InvalidTrustLevel(t@),
        ),
{
}

/// A decoder's error becomes the error on the document, and is kept in it.
pub proof fn law_decoder_error_is_kept(e: serde_json::Error)
    ensures
        <ConfigError as FromSpec<serde_json::Error>>::obeys_from_spec(),
        <ConfigError as FromSpec<serde_json::Error>>::from_spec(e) == ConfigError::InvalidJson(e),
{
}

/// What each error says, and that it says nothing else. Where the document could
/// not be read, the decoder's own words end the message.
pub proof fn law_error_texts(error: ConfigError, m: Seq<char>)
    ensures
        error is EmptyKeytab ==> (error.says(m) <==> m
            == "identity.kerberos: keytab must not be empty"@),
        error matches ConfigError::KeytabNotFound(path) ==> (error.says(m) <==> m
            == "identity.kerberos: keytab file not found: "@ + path@),
        error matches ConfigError::InvalidTrustLevel(t) ==> (error.says(m) <==> m
            == "identity.kerberos: invalid trust_level `"@ + t@
            + "` (allowed: verified | header_asserted)"@),
        error matches ConfigError::InvalidJson(e) ==> (error.says(m) <==> exists|d: String| #[trigger]
            vstd::string::to_string_from_display_ensures(&e, d) && m
                == "invalid identity.kerberos config JSON: "@ + d@),
{
}

} // verus!
