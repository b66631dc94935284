use identity_kerberos::config::{
    default_auth_provider_label, default_true, default_trust_level, ConfigFields, ResolutionFields,
};
use identity_kerberos::{ConfigError, KerberosConfig, ResolutionConfig};
use serde_json::Value;

/// Reads the fields of a config document out of its JSON text.
fn decode(text: &str) -> Result<ConfigFields, serde_json::Error> {
    let doc: Value = serde_json::from_str(text)?;
    let texts = |v: &Value| v.as_str().map(|s| s.to_owned());
    Ok(ConfigFields {
        keytab: texts(&doc["keytab"]).unwrap(),
        service_name: texts(&doc["service_name"]),
        strip_realm: doc["strip_realm"].as_bool(),
        resolution: doc.get("resolution").map(|r| ResolutionFields {
            trust_level: texts(&r["trust_level"]),
            auth_provider_label: texts(&r["auth_provider_label"]),
        }),
    })
}

fn parse(text: &str) -> Result<KerberosConfig, ConfigError> {
    let decoded = decode(text);
    let exists = match &decoded {
        Ok(fields) => std::path::Path::new(&fields.keytab).exists(),
        Err(_) => false,
    };
    KerberosConfig::parse(decoded, exists)
}

/// A path at which something exists in any environment the tests run in.
fn keytab_stand_in() -> &'static str {
    "/"
}

#[test]
fn rejects_missing_keytab_file() {
    let err = parse("{ \"keytab\": \"/no/such/keytab\" }").unwrap_err();
    assert!(matches!(err, ConfigError::KeytabNotFound(_)));
    assert_eq!(
        err.message(),
        "identity.kerberos: keytab file not found: /no/such/keytab"
    );
}

#[test]
fn rejects_empty_keytab() {
    let err = parse("{ \"keytab\": \"  \" }").unwrap_err();
    assert!(matches!(err, ConfigError::EmptyKeytab));
    assert_eq!(err.message(), "identity.kerberos: keytab must not be empty");
}

#[test]
fn parses_with_existing_keytab() {
    let here = keytab_stand_in();
    let parsed = parse(&format!(
        "{{ \"keytab\": \"{here}\", \"service_name\": \"HTTP/gw.example.com\" }}"
    ))
    .unwrap();
    assert!(parsed.strip_realm);
    assert_eq!(parsed.resolution.trust_level, "verified");
    assert_eq!(parsed.service_name.as_deref(), Some("HTTP/gw.example.com"));
    assert_eq!(parsed.keytab, here);
    assert_eq!(parsed.resolution.auth_provider_label, "kerberos");
}

#[test]
fn rejects_bad_trust_level() {
    let here = keytab_stand_in();
    let err = parse(&format!(
        "{{ \"keytab\": \"{here}\", \"resolution\": {{ \"trust_level\": \"alien\" }} }}"
    ))
    .unwrap_err();
    assert!(matches!(err, ConfigError::InvalidTrustLevel(_)));
    assert_eq!(
        err.message(),
        "identity.kerberos: invalid trust_level `alien` (allowed: verified | header_asserted)"
    );
}

#[test]
fn rejects_what_is_no_json() {
    let shown = serde_json::from_str::<Value>("{").unwrap_err().to_string();
    let err = parse("{").unwrap_err();
    assert!(matches!(err, ConfigError::InvalidJson(_)));
    assert_eq!(
        err.message(),
        format!("invalid identity.kerberos config JSON: {shown}")
    );
}

#[test]
fn json_error_converts() {
    let e = serde_json::from_str::<Value>("nul").unwrap_err();
    assert!(matches!(ConfigError::from(e), ConfigError::InvalidJson(_)));
}

#[test]
fn faults_are_reported_in_order() {
    let fields = |keytab: &str, trust: &str| ConfigFields {
        keytab: keytab.to_owned(),
        service_name: None,
        strip_realm: None,
        resolution: Some(ResolutionFields {
            trust_level: Some(trust.to_owned()),
            auth_provider_label: None,
        }),
    };
    for exists in [true, false] {
        assert!(matches!(
            KerberosConfig::parse(Ok(fields("\u{3000}\t", "alien")), exists),
            Err(ConfigError::EmptyKeytab)
        ));
    }
    match KerberosConfig::parse(Ok(fields("/k", "alien")), false) {
        Err(ConfigError::KeytabNotFound(path)) => assert_eq!(path, "/k"),
        other => panic!("expected KeytabNotFound, got {other:?}"),
    }
    match KerberosConfig::parse(Ok(fields("/k", "Verified")), true) {
        Err(ConfigError::InvalidTrustLevel(level)) => assert_eq!(level, "Verified"),
        other => panic!("expected InvalidTrustLevel, got {other:?}"),
    }
    let config = KerberosConfig::parse(Ok(fields(" /k ", "header_asserted")), true).unwrap();
    assert_eq!(config.keytab, " /k ");
    assert_eq!(config.resolution.trust_level, "header_asserted");
    assert!(config.validate(true).is_ok());
    assert!(config.validate(false).is_err());
}

#[test]
fn given_fields_are_kept() {
    let config = parse(&format!(
        "{{ \"keytab\": \"{}\", \"strip_realm\": false, \"resolution\": \
         {{ \"auth_provider_label\": \"ad\" }} }}",
        keytab_stand_in()
    ))
    .unwrap();
    assert!(!config.strip_realm);
    assert_eq!(config.service_name, None);
    assert_eq!(config.resolution.trust_level, "verified");
    assert_eq!(config.resolution.auth_provider_label, "ad");
}

#[test]
fn defaults_are_documented_ones() {
    assert!(default_true());
    assert_eq!(default_trust_level(), "verified");
    assert_eq!(default_auth_provider_label(), "kerberos");
    let resolution = ResolutionConfig::default();
    assert_eq!(resolution.trust_level, "verified");
    assert_eq!(resolution.auth_provider_label, "kerberos");
    let empty = ResolutionFields {
        trust_level: None,
        auth_provider_label: None,
    }
    .with_defaults();
    assert_eq!(empty.trust_level, resolution.trust_level);
    assert_eq!(empty.auth_provider_label, resolution.auth_provider_label);
}

#[test]
fn keytab_alone_is_enough() {
    let config = parse(&format!("{{ \"keytab\": \"{}\" }}", keytab_stand_in())).unwrap();
    assert_eq!(config.service_name, None);
    assert!(config.strip_realm);
    assert_eq!(config.resolution.trust_level, "verified");
    assert_eq!(config.resolution.auth_provider_label, "kerberos");
}

#[test]
fn empty_resolution_means_the_default() {
    let config = parse(&format!(
        "{{ \"keytab\": \"{}\", \"resolution\": {{}} }}",
        keytab_stand_in()
    ))
    .unwrap();
    assert_eq!(config.resolution.trust_level, "verified");
    assert_eq!(config.resolution.auth_provider_label, "kerberos");
}
