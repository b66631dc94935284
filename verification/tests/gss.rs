use identity_kerberos::gss::{
    accept, acquire_acceptor_cred, failure_record, register_keytab, split_principal, AcceptState,
    CredRequest, CredUsage, GssEvent, GssResult, Mechanism, NameType,
};

#[test]
fn splits_principal() {
    assert_eq!(
        split_principal("alice@CORP.EXAMPLE.COM"),
        ("alice".into(), Some("CORP.EXAMPLE.COM".into()))
    );
    assert_eq!(split_principal("svc"), ("svc".into(), None));
}

#[test]
fn splits_at_the_last_sign() {
    assert_eq!(
        split_principal("a@b@REALM"),
        ("a@b".into(), Some("REALM".into()))
    );
    assert_eq!(split_principal("alice@"), ("alice@".into(), None));
    assert_eq!(split_principal("a@R@"), ("a@R@".into(), None));
    assert_eq!(split_principal("@REALM"), ("".into(), Some("REALM".into())));
    assert_eq!(split_principal(""), ("".into(), None));
    assert_eq!(
        split_principal("zoë@LÄND"),
        ("zoë".into(), Some("LÄND".into()))
    );
}

#[test]
fn split_principals_rejoin() {
    for (user, realm) in [("alice", "R"), ("a@b", "R.S"), ("", "R"), ("ü", "É")] {
        let whole = format!("{user}@{realm}");
        assert_eq!(
            split_principal(&whole),
            (user.to_owned(), Some(realm.to_owned()))
        );
    }
}

#[test]
fn register_bad_keytab_path_errors() {
    assert!(register_keytab("/tmp/does-not-exist.keytab\0bad").is_err());
}

#[test]
fn nul_is_reported_where_it_stands() {
    assert_eq!(
        register_keytab("/tmp/does-not-exist.keytab\0bad\0").unwrap_err(),
        "keytab path has interior NUL: nul byte found in provided data at position: 26"
    );
    assert_eq!(
        register_keytab("é\0").unwrap_err(),
        "keytab path has interior NUL: nul byte found in provided data at position: 2"
    );
}

#[test]
fn registration_judges_the_status() {
    let registration = register_keytab("/etc/http.keytab").unwrap();
    assert_eq!(registration.c_path().as_slice(), b"/etc/http.keytab\0");
    assert_eq!(registration.finish(0), Ok(()));
    assert_eq!(
        registration.finish(0x000d0000),
        Err(
            "krb5_gss_register_acceptor_identity('/etc/http.keytab') failed (major=0x000d0000)"
                .to_owned()
        )
    );
    assert_eq!(
        registration.finish(u32::MAX),
        Err(
            "krb5_gss_register_acceptor_identity('/etc/http.keytab') failed (major=0xffffffff)"
                .to_owned()
        )
    );
}

/// Runs an accept attempt through the given call outcomes.
fn run(service: Option<&str>, events: Vec<GssEvent>) -> AcceptState {
    let mut state = accept(service, vec![1, 2, 3]);
    for event in events {
        state = state.next(event);
    }
    state
}

fn failure() -> Result<(), String> {
    Err("no such key".to_owned())
}

/// Checks that `request` is for an acceptor credential of `service`.
fn assert_acceptor(request: &CredRequest, service: Option<&str>) {
    assert_eq!(request.for_service.as_deref(), service);
    assert_eq!(request.usage, CredUsage::Accept);
    assert_eq!(request.mechanisms, None);
    assert_eq!(request.lifetime, None);
}

#[test]
fn acceptor_credential_accepts_only() {
    assert_acceptor(&acquire_acceptor_cred(None), None);
    assert_acceptor(
        &acquire_acceptor_cred(Some("HTTP@gw".to_owned())),
        Some("HTTP@gw"),
    );
}

#[test]
fn accept_names_each_call() {
    let state = accept(Some("HTTP@gw"), vec![1, 2, 3]);
    match &state {
        AcceptState::ImportName {
            service, name_type, ..
        } => {
            assert_eq!(service, "HTTP@gw");
            assert_eq!(*name_type, NameType::HostbasedService);
        }
        other => panic!("expected ImportName, got {other:?}"),
    }
    let state = state.next(GssEvent::NameImported(Ok(())));
    match &state {
        AcceptState::CanonicalizeName {
            service, mechanism, ..
        } => {
            assert_eq!(service, "HTTP@gw");
            assert_eq!(*mechanism, Mechanism::Krb5);
        }
        other => panic!("expected CanonicalizeName, got {other:?}"),
    }
    let state = state.next(GssEvent::NameCanonicalized(Ok(())));
    match &state {
        AcceptState::AcquireCred { request, .. } => assert_acceptor(request, Some("HTTP@gw")),
        other => panic!("expected AcquireCred, got {other:?}"),
    }
    let state = state.next(GssEvent::CredAcquired(Ok(())));
    match &state {
        AcceptState::StepContext {
            token,
            channel_bindings,
        } => {
            assert_eq!(token, &vec![1, 2, 3]);
            assert_eq!(*channel_bindings, None);
        }
        other => panic!("expected StepContext, got {other:?}"),
    }
    let state = state.next(GssEvent::ContextStepped(Ok(true)));
    assert!(matches!(&state, AcceptState::ReadSourceName));
    let state = state.next(GssEvent::SourceNameRead(Ok("alice@R".to_owned())));
    match state {
        AcceptState::Done(GssResult::Authenticated(name)) => assert_eq!(name, "alice@R"),
        other => panic!("expected Authenticated, got {other:?}"),
    }
}

#[test]
fn without_service_any_principal_is_accepted() {
    match accept(None, vec![7]) {
        AcceptState::AcquireCred { request, token } => {
            assert_acceptor(&request, None);
            assert_eq!(token, vec![7]);
        }
        other => panic!("expected AcquireCred, got {other:?}"),
    }
}

#[test]
fn acceptor_failures_are_server_errors() {
    let cases = [
        (
            run(Some("HTTP@gw"), vec![GssEvent::NameImported(failure())]),
            "service name 'HTTP@gw': no such key",
        ),
        (
            run(
                Some("HTTP@gw"),
                vec![
                    GssEvent::NameImported(Ok(())),
                    GssEvent::NameCanonicalized(failure()),
                ],
            ),
            "canonicalize service name 'HTTP@gw': no such key",
        ),
        (
            run(None, vec![GssEvent::CredAcquired(failure())]),
            "acquire acceptor credential from keytab: no such key",
        ),
        (
            run(
                None,
                vec![
                    GssEvent::CredAcquired(Ok(())),
                    GssEvent::ContextStepped(Ok(true)),
                    GssEvent::SourceNameRead(Err("gone".to_owned())),
                ],
            ),
            "context complete but source name unavailable: gone",
        ),
    ];
    for (state, expected) in cases {
        match state {
            AcceptState::Done(GssResult::ServerError(detail)) => assert_eq!(detail, expected),
            other => panic!("expected ServerError, got {other:?}"),
        }
    }
}

#[test]
fn rejected_token_is_a_bad_token() {
    let state = run(
        None,
        vec![
            GssEvent::CredAcquired(Ok(())),
            GssEvent::ContextStepped(Err("ticket expired".to_owned())),
        ],
    );
    match state {
        AcceptState::Done(GssResult::BadToken(detail)) => assert_eq!(detail, "ticket expired"),
        other => panic!("expected BadToken, got {other:?}"),
    }
}

#[test]
fn incomplete_context_is_a_continuation() {
    let state = run(
        None,
        vec![
            GssEvent::CredAcquired(Ok(())),
            GssEvent::ContextStepped(Ok(false)),
        ],
    );
    assert!(matches!(
        state,
        AcceptState::Done(GssResult::Continuation)
    ));
}

#[test]
fn failures_are_logged_with_their_detail() {
    assert_eq!(
        failure_record(&GssResult::BadToken("ticket expired".to_owned())),
        Some((
            "kerberos identity: token rejected".to_owned(),
            "ticket expired".to_owned()
        ))
    );
    assert_eq!(
        failure_record(&GssResult::ServerError("no such key".to_owned())),
        Some((
            "kerberos identity: acceptor error; failing closed".to_owned(),
            "no such key".to_owned()
        ))
    );
    assert_eq!(failure_record(&GssResult::Continuation), None);
    assert_eq!(
        failure_record(&GssResult::Authenticated("alice@R".to_owned())),
        None
    );
}
