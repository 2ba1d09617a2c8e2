//! Configuration inputs, credential checks and the source handshake.

use tau_tower::args::{parse_port, validate_ip, validate_port};
use tau_tower::auth::{validate_headers, Credentials, HandshakeOutcome};
use tau_tower::config::{Args, Config, TauConfigError};

fn creds() -> Credentials {
    Credentials {
        username: "alice".to_string(),
        password: "opus-secret".to_string(),
        broadcast_port: 8001,
    }
}

#[test]
fn parse_port_reads_decimal_digits_only() {
    assert_eq!(parse_port("80").unwrap(), 80);
    assert_eq!(parse_port("0").unwrap(), 0);
    assert_eq!(parse_port("65535").unwrap(), 65535);
    assert!(matches!(parse_port("65536"), Err(TauConfigError::Input(_))));
    assert!(matches!(parse_port(""), Err(TauConfigError::Input(_))));
    assert!(matches!(parse_port("12a"), Err(TauConfigError::Input(_))));
    assert!(matches!(parse_port("-1"), Err(TauConfigError::Input(_))));
    assert!(matches!(
        parse_port("999999999999"),
        Err(TauConfigError::Input(_))
    ));
}

#[test]
fn validate_port_rejects_zero_only() {
    assert_eq!(validate_port(1).unwrap(), 1);
    assert_eq!(validate_port(65535).unwrap(), 65535);
    assert!(matches!(
        validate_port(0),
        Err(TauConfigError::InvalidPort(0))
    ));
}

#[test]
fn validate_ip_accepts_real_addresses() {
    assert_eq!(validate_ip("127.0.0.1".to_string()).unwrap(), "127.0.0.1");
    assert_eq!(validate_ip("::1".to_string()).unwrap(), "::1");
    assert_eq!(
        validate_ip("2001:db8::8a2e:370:7334".to_string()).unwrap(),
        "2001:db8::8a2e:370:7334"
    );
}

#[test]
fn validate_ip_rejects_non_addresses() {
    for bad in ["banana", "999.0.0.1", "1.2.3", "", "127.0.0.1:80"] {
        match validate_ip(bad.to_string()) {
            Err(TauConfigError::InvalidIp(s)) => assert_eq!(s, bad),
            other => panic!("expected an invalid-IP error for {:?}, got {:?}", bad, other),
        }
    }
}

#[test]
fn credentials_validate_requires_all_three_fields() {
    let c = creds();
    assert!(c.validate(Some("alice"), Some("opus-secret"), Some(8001)));

    assert!(!c.validate(None, Some("opus-secret"), Some(8001)));
    assert!(!c.validate(Some("alice"), None, Some(8001)));
    assert!(!c.validate(Some("alice"), Some("opus-secret"), None));
    assert!(!c.validate(Some("bob"), Some("opus-secret"), Some(8001)));
    assert!(!c.validate(Some("alice"), Some("wrong"), Some(8001)));
    assert!(!c.validate(Some("alice"), Some("opus-secret"), Some(8002)));
}

#[test]
fn handshake_accepts_only_a_fully_correct_request() {
    let c = creds();
    let ok = validate_headers(&c, Some("alice"), Some("opus-secret"), Some("8001"));
    assert_eq!(ok, HandshakeOutcome::Accepted);
    assert_eq!(ok.status(), 101);
    assert_eq!(ok.message(), "");
}

#[test]
fn handshake_reports_missing_credentials_as_401() {
    let c = creds();
    for outcome in [
        validate_headers(&c, None, Some("opus-secret"), Some("8001")),
        validate_headers(&c, Some("alice"), None, Some("8001")),
        validate_headers(&c, None, None, None),
    ] {
        assert_eq!(outcome, HandshakeOutcome::MissingCredentials);
        assert_eq!(outcome.status(), 401);
        assert_eq!(outcome.message(), "Missing credentials");
    }
}

#[test]
fn handshake_reports_bad_port_as_400() {
    let c = creds();
    for outcome in [
        validate_headers(&c, Some("alice"), Some("opus-secret"), None),
        validate_headers(&c, Some("alice"), Some("opus-secret"), Some("port")),
        validate_headers(&c, Some("alice"), Some("opus-secret"), Some("99999")),
    ] {
        assert_eq!(outcome, HandshakeOutcome::InvalidPort);
        assert_eq!(outcome.status(), 400);
        assert_eq!(outcome.message(), "Missing or invalid port");
    }
}

#[test]
fn handshake_rejects_any_single_wrong_field_as_403() {
    let c = creds();
    for outcome in [
        validate_headers(&c, Some("bob"), Some("opus-secret"), Some("8001")),
        validate_headers(&c, Some("alice"), Some("wrong"), Some("8001")),
        validate_headers(&c, Some("alice"), Some("opus-secret"), Some("8002")),
    ] {
        assert_eq!(outcome, HandshakeOutcome::Mismatch);
        assert_eq!(outcome.status(), 403);
        assert_eq!(outcome.message(), "Credentials do not match");
    }
}

#[test]
fn rejected_handshake_keeps_pages_off_the_bus() {
    // the source loop forwards pages only after an accepted handshake;
    // any rejection leaves the bus exactly as it was
    let c = creds();
    let mut bus = tau_tower::bus::BroadcastBus::new(8);
    let mut cache = tau_tower::cache::Headers::new();
    let mut sub = bus.subscribe();

    let outcome = validate_headers(&c, Some("alice"), Some("wrong"), Some("8001"));
    if outcome == HandshakeOutcome::Accepted {
        tau_tower::ingest::route_page(vec![0u8; 40], &mut cache, &mut bus);
    }
    assert!(matches!(
        bus.poll(&mut sub),
        tau_tower::bus::PollOutcome::Empty
    ));
}

#[test]
fn merge_cli_args_overrides_only_given_fields() {
    let base = Config {
        username: "alice".to_string(),
        password: "opus-secret".to_string(),
        url: "127.0.0.1".to_string(),
        listen_port: 8000,
        mount_port: 8001,
        mount: "tau.ogg".to_string(),
    };

    let untouched = base.merge_cli_args(&Args {
        username: None,
        password: None,
        listen_port: None,
        mount_port: None,
        mount: None,
        reset_config: false,
    });
    assert_eq!(untouched.username, "alice");
    assert_eq!(untouched.password, "opus-secret");
    assert_eq!(untouched.url, "127.0.0.1");
    assert_eq!(untouched.listen_port, 8000);
    assert_eq!(untouched.mount_port, 8001);
    assert_eq!(untouched.mount, "tau.ogg");

    let overridden = untouched.merge_cli_args(&Args {
        username: Some("bob".to_string()),
        password: Some("other".to_string()),
        listen_port: Some(9000),
        mount_port: Some(9001),
        mount: Some("radio.ogg".to_string()),
        reset_config: true,
    });
    assert_eq!(overridden.username, "bob");
    assert_eq!(overridden.password, "other");
    assert_eq!(overridden.url, "127.0.0.1");
    assert_eq!(overridden.listen_port, 9000);
    assert_eq!(overridden.mount_port, 9001);
    assert_eq!(overridden.mount, "radio.ogg");
}
