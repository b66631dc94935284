use base64::engine::general_purpose::STANDARD as BASE64_STANDARD;
use base64::Engine;
use identity_kerberos::config::{ConfigFields, ResolutionFields};
use identity_kerberos::gss::{AcceptState, GssEvent, GssResult};
use identity_kerberos::identity::{
    record_resolve_outcome, IdentityResolution, PluginClass, PluginIdentity, Severity,
};
use identity_kerberos::plugin::{module_path_prefix, LoadError, PendingPlugin, ResolveStep};
use identity_kerberos::{ConfigError, KerberosIdentityPlugin, PLUGIN_ID};

fn fields(keytab: &str) -> ConfigFields {
    ConfigFields {
        keytab: keytab.to_owned(),
        service_name: None,
        strip_realm: None,
        resolution: None,
    }
}

fn load(fields: ConfigFields) -> KerberosIdentityPlugin {
    match KerberosIdentityPlugin::from_config_json(Ok(fields), true, "1.2.3", "kerberos::plugin") {
        Ok(pending) => match pending.registered(0) {
            Ok(plugin) => plugin,
            Err(e) => panic!("{}", e.message()),
        },
        Err(e) => panic!("{}", e.message()),
    }
}

fn refusal(result: Result<PendingPlugin, LoadError>) -> LoadError {
    match result {
        Ok(_) => panic!("expected a refusal"),
        Err(e) => e,
    }
}

fn plugin() -> KerberosIdentityPlugin {
    load(fields("/etc/mcpg/http.keytab"))
}

fn negotiate(token_b64: &str) -> Vec<(String, String)> {
    vec![("Authorization".into(), format!("Negotiate {token_b64}"))]
}

fn accept_of(step: ResolveStep) -> AcceptState {
    match step {
        ResolveStep::Accept(state) => state,
        other => panic!("expected Accept, got {other:?}"),
    }
}

fn result_of(state: AcceptState) -> GssResult {
    match state {
        AcceptState::Done(result) => result,
        other => panic!("expected Done, got {other:?}"),
    }
}

fn identity_of(resolution: IdentityResolution) -> PluginIdentity {
    match resolution {
        IdentityResolution::Resolved { identity } => identity,
        other => panic!("expected Resolved, got {other:?}"),
    }
}

fn reason_of(resolution: IdentityResolution) -> String {
    match resolution {
        IdentityResolution::Invalid { reason } => reason,
        other => panic!("expected Invalid, got {other:?}"),
    }
}

#[test]
fn no_authorization_header_is_none() {
    assert!(matches!(
        plugin().resolve(&[]),
        ResolveStep::Finished(IdentityResolution::Absent)
    ));
}

#[test]
fn basic_scheme_is_none() {
    let h = vec![("Authorization".into(), "Basic abc".into())];
    assert!(matches!(
        plugin().resolve(&h),
        ResolveStep::Finished(IdentityResolution::Absent)
    ));
}

#[test]
fn malformed_base64_is_invalid() {
    match plugin().resolve(&negotiate("!!not base64!!")) {
        ResolveStep::Finished(IdentityResolution::Invalid { reason }) => {
            assert!(reason.contains("base64"));
            assert_eq!(reason, "malformed Negotiate token (base64)");
        }
        other => panic!("expected Invalid, got {other:?}"),
    }
}

#[test]
fn garbage_token_is_invalid() {
    // Well-formed base64 but a bogus GSSAPI token: whichever call rejects it,
    // the rejection is generic.
    let p = plugin();
    let bogus = BASE64_STANDARD.encode(b"not a real gssapi token");
    let unusable_keytab = vec![GssEvent::CredAcquired(Err("keytab unreadable".to_owned()))];
    let unusable_token = vec![
        GssEvent::CredAcquired(Ok(())),
        GssEvent::ContextStepped(Err("token defective".to_owned())),
    ];
    for (events, expected) in [
        (unusable_keytab, "kerberos acceptor unavailable"),
        (unusable_token, "invalid or expired Kerberos token"),
    ] {
        let mut state = accept_of(p.resolve(&negotiate(&bogus)));
        for event in events {
            state = state.next(event);
        }
        assert_eq!(reason_of(p.conclude(result_of(state))), expected);
    }
}

#[test]
fn manifest_is_identity_provider() {
    let p = plugin();
    let m = p.manifest();
    assert_eq!(m.id, PLUGIN_ID);
    assert_eq!(m.plugin_class, PluginClass::IdentityProvider);
}

#[test]
fn manifest_is_complete() {
    let p = plugin();
    let m = p.manifest();
    assert_eq!(m.id, "dev.mcpg.identity.kerberos");
    assert_eq!(m.version, "1.2.3");
    assert_eq!(m.name, "Kerberos / SPNEGO Identity Resolver");
    assert_eq!(m.protocol_version, "1.0");
    assert_eq!(m.module_path_prefix, "kerberos");
    assert_eq!(m.license, None);
    assert_eq!(m.backend_profile, None);
    assert!(m.required_capabilities.is_empty() && m.tags.is_empty());
    assert!(m.provides.is_empty() && m.provides_schemes.is_empty());
}

#[test]
fn module_prefix_ends_at_the_first_separator() {
    assert_eq!(module_path_prefix("a::b::c"), "a");
    assert_eq!(module_path_prefix("a"), "a");
    assert_eq!(module_path_prefix("a:b::c"), "a:b");
    assert_eq!(module_path_prefix(":::"), "");
    assert_eq!(module_path_prefix(""), "");
}

#[test]
fn token_goes_through_the_accept() {
    let mut with_service = fields("/k");
    with_service.service_name = Some("HTTP@gw".to_owned());
    let p = load(with_service);
    let h = negotiate(&BASE64_STANDARD.encode(b"ticket"));
    match accept_of(p.resolve(&h)) {
        AcceptState::ImportName { service, token, .. } => {
            assert_eq!(service, "HTTP@gw");
            assert_eq!(token, b"ticket");
        }
        other => panic!("expected ImportName, got {other:?}"),
    }
    match accept_of(plugin().resolve(&h)) {
        AcceptState::AcquireCred { request, token } => {
            assert_eq!(request.for_service, None);
            assert_eq!(token, b"ticket");
        }
        other => panic!("expected AcquireCred, got {other:?}"),
    }
}

#[test]
fn header_case_makes_no_difference() {
    let text = BASE64_STANDARD.encode(b"ticket");
    let h = vec![("aUTHORIZATION".to_owned(), format!("nEGOTIATE {text}"))];
    match accept_of(plugin().resolve(&h)) {
        AcceptState::AcquireCred { token, .. } => assert_eq!(token, b"ticket"),
        other => panic!("expected AcquireCred, got {other:?}"),
    }
}

#[test]
fn authenticated_caller_is_resolved() {
    let p = plugin();
    let mut state = accept_of(p.resolve(&negotiate(&BASE64_STANDARD.encode(b"ticket"))));
    for event in [
        GssEvent::CredAcquired(Ok(())),
        GssEvent::ContextStepped(Ok(true)),
        GssEvent::SourceNameRead(Ok("alice@CORP.EXAMPLE.COM".to_owned())),
    ] {
        state = state.next(event);
    }
    let identity = identity_of(p.conclude(result_of(state)));
    assert_eq!(identity.kind, "verified");
    assert_eq!(identity.trust_level, "verified");
    assert_eq!(identity.subject_id.as_deref(), Some("alice"));
    assert_eq!(identity.auth_provider.as_deref(), Some("kerberos"));
    assert_eq!(identity.issuer.as_deref(), Some("krb5:CORP.EXAMPLE.COM"));
    assert!(identity.roles.is_empty());
    assert!(identity.groups.is_empty());
    assert!(identity.scopes.is_empty());
    assert_eq!(
        identity.attributes.entries(),
        &vec![
            ("principal".to_owned(), "alice@CORP.EXAMPLE.COM".to_owned()),
            ("realm".to_owned(), "CORP.EXAMPLE.COM".to_owned()),
        ]
    );
}

#[test]
fn realm_is_kept_when_asked() {
    let mut keep = fields("/k");
    keep.strip_realm = Some(false);
    keep.resolution = Some(ResolutionFields {
        trust_level: Some("header_asserted".to_owned()),
        auth_provider_label: Some("ad".to_owned()),
    });
    let p = load(keep);
    let identity = p.build_identity("alice@R".to_owned());
    assert_eq!(identity.subject_id.as_deref(), Some("alice@R"));
    assert_eq!(identity.trust_level, "header_asserted");
    assert_eq!(identity.kind, "header_asserted");
    assert_eq!(identity.auth_provider.as_deref(), Some("ad"));
    assert_eq!(identity.attributes.get("realm"), Some("R"));
}

#[test]
fn principal_without_realm_has_no_issuer() {
    let identity = plugin().build_identity("svc".to_owned());
    assert_eq!(identity.subject_id.as_deref(), Some("svc"));
    assert_eq!(identity.issuer, None);
    assert_eq!(identity.attributes.get("principal"), Some("svc"));
    assert_eq!(identity.attributes.get("realm"), None);
}

#[test]
fn failures_are_refused_without_detail() {
    let p = plugin();
    for detail in ["one", "other"] {
        assert_eq!(
            reason_of(p.conclude(GssResult::BadToken(detail.to_owned()))),
            "invalid or expired Kerberos token"
        );
        assert_eq!(
            reason_of(p.conclude(GssResult::ServerError(detail.to_owned()))),
            "kerberos acceptor unavailable"
        );
    }
    assert_eq!(
        reason_of(p.conclude(GssResult::Continuation)),
        "multi-leg negotiation is not supported"
    );
}

#[test]
fn undecodable_token_is_refused() {
    match plugin().resolve_token(None) {
        ResolveStep::Finished(resolution) => {
            assert_eq!(reason_of(resolution), "malformed Negotiate token (base64)")
        }
        other => panic!("expected Finished, got {other:?}"),
    }
    assert!(matches!(
        plugin().resolve_token(Some(vec![1])),
        ResolveStep::Accept(_)
    ));
}

#[test]
fn misconfigured_plugin_does_not_load() {
    let blank =
        KerberosIdentityPlugin::from_config_json(Ok(fields(" ")), true, "1", "kerberos");
    let blank = refusal(blank);
    assert!(matches!(
        &blank,
        LoadError::Config(ConfigError::EmptyKeytab)
    ));
    assert_eq!(
        blank.message(),
        "kerberos identity config parse failed: identity.kerberos: keytab must not be empty. \
         A misconfigured identity resolver is a security hole; refusing to load."
    );
    let nul = KerberosIdentityPlugin::from_config_json(Ok(fields("/k\0")), true, "1", "kerberos");
    let nul = refusal(nul);
    assert!(matches!(&nul, LoadError::Keytab(_)));
    assert_eq!(
        nul.message(),
        "kerberos identity: registering keytab failed: keytab path has interior NUL: \
         nul byte found in provided data at position: 2"
    );
    let e = serde_json::from_str::<serde_json::Value>("{").unwrap_err();
    let shown = e.to_string();
    let unread = KerberosIdentityPlugin::from_config_json(Err(e), false, "1", "kerberos");
    let unread = refusal(unread);
    assert!(matches!(
        &unread,
        LoadError::Config(ConfigError::InvalidJson(_))
    ));
    assert_eq!(
        unread.message(),
        format!(
            "kerberos identity config parse failed: invalid identity.kerberos config JSON: \
             {shown}. A misconfigured identity resolver is a security hole; refusing to load."
        )
    );
}

#[test]
fn unregistered_keytab_does_not_load() {
    let pending =
        match KerberosIdentityPlugin::from_config_json(Ok(fields("/k")), true, "1", "kerberos") {
            Ok(pending) => pending,
            Err(e) => panic!("{}", e.message()),
        };
    assert_eq!(pending.c_path().as_slice(), b"/k\0");
    match pending.registered(1) {
        Ok(_) => panic!("expected a refusal"),
        Err(e) => assert_eq!(
            e.message(),
            "kerberos identity: registering keytab failed: \
             krb5_gss_register_acceptor_identity('/k') failed (major=0x00000001)"
        ),
    }
}

#[test]
fn outcomes_are_recorded() {
    let p = plugin();
    let resolved = record_resolve_outcome(&p.conclude(GssResult::Authenticated("a@R".to_owned())));
    assert_eq!(resolved.outcome, "resolved");
    assert_eq!(resolved.severity, Severity::Debug);
    assert_eq!(resolved.message, "kerberos identity resolved");
    assert_eq!(resolved.field, Some(("subject".to_owned(), "a".to_owned())));

    let mut anonymous = p.build_identity("a@R".to_owned());
    anonymous.subject_id = None;
    let nobody = record_resolve_outcome(&IdentityResolution::Resolved {
        identity: anonymous,
    });
    assert_eq!(nobody.field, Some(("subject".to_owned(), String::new())));

    let absent = record_resolve_outcome(&IdentityResolution::Absent);
    assert_eq!(absent.outcome, "none");
    assert_eq!(absent.severity, Severity::Debug);
    assert_eq!(
        absent.message,
        "kerberos identity: no Negotiate token — fall through"
    );
    assert_eq!(absent.field, None);

    let refused = record_resolve_outcome(&p.conclude(GssResult::Continuation));
    assert_eq!(refused.outcome, "invalid");
    assert_eq!(refused.severity, Severity::Warn);
    assert_eq!(refused.message, "kerberos identity: rejected");
    assert_eq!(
        refused.field,
        Some((
            "reason".to_owned(),
            "multi-leg negotiation is not supported".to_owned()
        ))
    );
}
