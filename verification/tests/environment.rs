use matrix_mcp::manager::{http_endpoint, transport_kind, Environment, MatrixManager, Transport};

fn empty() -> Environment {
    Environment {
        homeserver: None,
        user: None,
        password: None,
        access_token: None,
        user_id: None,
        device_id: None,
        device_name: None,
        session_file: None,
        store_path: None,
        verification_timeout: None,
        state_home: None,
        home: None,
    }
}

#[test]
fn nothing_set() {
    let manager = MatrixManager::from_env(&empty());
    assert_eq!(manager.default_homeserver, None);
    assert_eq!(manager.device_name, "matrix-mcp");
    assert_eq!(manager.session_path, "matrix-mcp-session.json");
    assert_eq!(manager.store_path, "./store");
    assert_eq!(manager.verification_timeout, 35);
    assert!(manager.session.is_none());
    assert!(!manager.pending_verification && !manager.pending_sas);
}

#[test]
fn everything_set() {
    let manager = MatrixManager::from_env(&Environment {
        homeserver: Some("https://matrix.org".to_owned()),
        user: Some("alice".to_owned()),
        password: Some("pw".to_owned()),
        access_token: Some("tok".to_owned()),
        user_id: Some("@alice:matrix.org".to_owned()),
        device_id: Some("DEV".to_owned()),
        device_name: Some("laptop".to_owned()),
        session_file: Some("/s/session.json".to_owned()),
        store_path: Some("/elsewhere".to_owned()),
        verification_timeout: Some("50".to_owned()),
        state_home: Some("/state".to_owned()),
        home: Some("/home/me".to_owned()),
    });
    assert_eq!(manager.default_homeserver.as_deref(), Some("https://matrix.org"));
    assert_eq!(manager.env_user.as_deref(), Some("alice"));
    assert_eq!(manager.env_password.as_deref(), Some("pw"));
    assert_eq!(manager.env_access_token.as_deref(), Some("tok"));
    assert_eq!(manager.env_user_id.as_deref(), Some("@alice:matrix.org"));
    assert_eq!(manager.env_device_id.as_deref(), Some("DEV"));
    assert_eq!(manager.device_name, "laptop");
    assert_eq!(manager.session_path, "/s/session.json");
    assert_eq!(manager.store_path, "/elsewhere");
    assert_eq!(manager.verification_timeout, 50);
}

#[test]
fn blank_is_unset() {
    let manager = MatrixManager::from_env(&Environment {
        homeserver: Some("  ".to_owned()),
        user: Some("\t".to_owned()),
        device_name: Some("".to_owned()),
        session_file: Some(" ".to_owned()),
        store_path: Some("\n".to_owned()),
        verification_timeout: Some(" ".to_owned()),
        state_home: Some("/state".to_owned()),
        ..empty()
    });
    assert_eq!(manager.default_homeserver, None);
    assert_eq!(manager.env_user, None);
    assert_eq!(manager.device_name, "matrix-mcp");
    assert_eq!(manager.session_path, "/state/matrix-mcp/session.json");
    assert_eq!(manager.store_path, "/state/matrix-mcp/store");
    assert_eq!(manager.verification_timeout, 35);
}

#[test]
fn values_are_not_trimmed() {
    let manager = MatrixManager::from_env(&Environment {
        homeserver: Some(" https://x ".to_owned()),
        verification_timeout: Some(" 50".to_owned()),
        ..empty()
    });
    assert_eq!(manager.default_homeserver.as_deref(), Some(" https://x "));
    assert_eq!(manager.verification_timeout, 35);
}

#[test]
fn store_follows_the_session_file() {
    let manager = MatrixManager::from_env(&Environment {
        session_file: Some("/data/s.json".to_owned()),
        ..empty()
    });
    assert_eq!(manager.store_path, "/data/store");
}

#[test]
fn transports() {
    for name in ["http", "HTTP", "sse", "Sse", "streamable-http", "STREAMABLE_HTTP"] {
        assert_eq!(transport_kind(Some(name)), Transport::Http, "{name}");
    }
    for name in ["", "stdio", "http ", "https", "tcp"] {
        assert_eq!(transport_kind(Some(name)), Transport::Stdio, "{name}");
    }
    assert_eq!(transport_kind(None), Transport::Stdio);
}

#[test]
fn endpoints() {
    let endpoint = http_endpoint(&None, &None);
    assert_eq!(endpoint.address, "127.0.0.1:8000");
    assert_eq!(endpoint.path, "/mcp");
    let endpoint = http_endpoint(&Some("0.0.0.0:1".to_owned()), &Some("/x".to_owned()));
    assert_eq!(endpoint.address, "0.0.0.0:1");
    assert_eq!(endpoint.path, "/x");
}
