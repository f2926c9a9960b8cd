use matrix_mcp::manager::{Environment, MatrixManager, Session};
use matrix_mcp::session::{
    is_mismatched_account, is_unknown_token, Account, AccountSession, ApiFailure, ApiFault, AuthOutcome,
    Credentials, Login, LoginStep, PersistOutcome, SessionFault, StoreFault,
};

fn nobody() -> MatrixManager {
    MatrixManager::from_env(&Environment {
        homeserver: None,
        user: None,
        password: None,
        access_token: None,
        user_id: None,
        device_id: None,
        device_name: None,
        session_file: Some("/data/session.json".to_owned()),
        store_path: None,
        verification_timeout: None,
        state_home: None,
        home: None,
    })
}

fn alice() -> MatrixManager {
    let mut manager = nobody();
    manager.session = Some(Session { user_id: Some("@alice:x.org".to_owned()) });
    manager
}

fn failure<T>(outcome: Result<T, String>) -> String {
    match outcome {
        Err(message) => message,
        Ok(_) => panic!("no failure"),
    }
}

fn oops() -> String {
    "oops".to_owned()
}

const MISMATCH: SessionFault = SessionFault::OlmStore(StoreFault::MismatchedAccount);

fn fails(step: LoginStep<String>) -> String {
    match step {
        LoginStep::Fail(message) => message,
        _ => panic!("no failure"),
    }
}

fn password() -> Login {
    nobody().login(Some("https://x.org"), "alice", "pw").unwrap()
}

fn token() -> Login {
    nobody().login_with_token(Some("https://x.org"), "@alice:x.org", "DEV", "tok").unwrap()
}

fn sso() -> Login {
    nobody().login_sso(Some("https://x.org"), Some("oidc")).unwrap()
}

#[test]
fn faults_are_told_apart() {
    assert!(is_mismatched_account(SessionFault::CryptoStore(StoreFault::MismatchedAccount)));
    assert!(is_mismatched_account(SessionFault::OlmStore(StoreFault::MismatchedAccount)));
    assert!(!is_mismatched_account(SessionFault::CryptoStore(StoreFault::Other)));
    assert!(!is_mismatched_account(SessionFault::OlmStore(StoreFault::Other)));
    assert!(!is_mismatched_account(SessionFault::Other));
    let failure = |fault| ApiFailure { fault, message: oops() };
    assert!(is_unknown_token(&failure(Some(ApiFault::UnknownToken))));
    assert!(!is_unknown_token(&failure(Some(ApiFault::Other))));
    assert!(!is_unknown_token(&failure(None)));
}

#[test]
fn a_login_needs_a_homeserver() {
    assert_eq!(
        failure(nobody().login(None, "alice", "pw")),
        "no homeserver provided and MATRIX_HOMESERVER is not set"
    );
    let mut manager = nobody();
    manager.default_homeserver = Some("https://default.org".to_owned());
    assert_eq!(manager.login(None, "alice", "pw").unwrap().homeserver, "https://default.org");
    assert_eq!(
        manager.login(Some("https://given.org"), "alice", "pw").unwrap().homeserver,
        "https://given.org"
    );
    assert_eq!(manager.login_sso(None, None).unwrap().homeserver, "https://default.org");
}

#[test]
fn a_login_is_refused_while_logged_in() {
    let expected =
        "already logged in as @alice:x.org - use the `logout` tool first to switch accounts";
    assert_eq!(failure(alice().login(Some("h"), "alice", "pw")), expected);
    assert_eq!(failure(alice().login_sso(Some("h"), None)), expected);
    // Before the user id is looked at.
    assert_eq!(failure(alice().login_with_token(Some("h"), "alice", "D", "t")), expected);
    assert_eq!(failure(alice().ensure_logged_out()), expected);
    // But after the homeserver.
    assert_eq!(
        failure(alice().login(None, "alice", "pw")),
        "no homeserver provided and MATRIX_HOMESERVER is not set"
    );
    let mut unnamed = nobody();
    unnamed.session = Some(Session { user_id: None });
    assert_eq!(
        failure(unnamed.ensure_logged_out()),
        "already logged in as an existing account - use the `logout` tool first to switch accounts"
    );
    assert!(nobody().ensure_logged_out().is_ok());
}

#[test]
fn a_token_needs_a_user_id() {
    assert_eq!(
        failure(nobody().login_with_token(Some("h"), "alice", "D", "t")),
        "invalid user id 'alice': leading sigil is incorrect or missing"
    );
}

#[test]
fn credentials_are_handed_on() {
    match password().credentials {
        Credentials::Password { username, password, device_name } => {
            assert_eq!((username.as_str(), password.as_str()), ("alice", "pw"));
            assert_eq!(device_name, "matrix-mcp");
        }
        _ => panic!("no password"),
    }
    match token().credentials {
        Credentials::Token(session) => {
            assert_eq!(session.user_id, "@alice:x.org");
            assert_eq!((session.device_id.as_str(), session.access_token.as_str()), ("DEV", "tok"));
            assert_eq!(session.refresh_token, None);
        }
        _ => panic!("no token"),
    }
    match sso().credentials {
        Credentials::Sso { identity_provider_id } => {
            assert_eq!(identity_provider_id.as_deref(), Some("oidc"))
        }
        _ => panic!("no browser flow"),
    }
    assert_eq!(sso().session_path, "/data/session.json");
}

#[test]
fn new_devices_start_from_nothing() {
    assert!(matches!(password().begin(), LoginStep::ClearState));
    assert!(matches!(sso().begin(), LoginStep::ClearState));
    assert!(matches!(token().begin(), LoginStep::BuildClient));
    assert!(matches!(password().on_cleared(), LoginStep::BuildClient));
}

fn session() -> AccountSession<String> {
    AccountSession {
        user_id: "@alice:x.org".to_owned(),
        device_id: "DEV".to_owned(),
        access_token: "tok".to_owned(),
        refresh_token: Some("again".to_owned()),
    }
}

#[test]
fn a_password_login_step_by_step() {
    let mut login = password();
    assert_eq!(
        fails(login.on_built(Err(oops()))),
        "failed to build client for homeserver https://x.org: oops"
    );
    assert!(matches!(login.on_built(Ok(())), LoginStep::Authenticate));
    assert_eq!(
        fails(login.on_authenticated(AuthOutcome::Failed { fault: MISMATCH, message: oops() })),
        "login failed: oops"
    );
    assert!(!login.retried);
    assert!(matches!(login.on_authenticated(AuthOutcome::Done), LoginStep::TakeSession));
    let LoginStep::Persist(file) = login.on_session(Some(session())) else {
        panic!("not written")
    };
    assert_eq!(file.path, "/data/session.json");
    assert_eq!(file.directory.as_deref(), Some("/data"));
    let saved = file.saved;
    assert_eq!(saved.homeserver, "https://x.org");
    assert_eq!(saved.session.user_id, "@alice:x.org");
    assert_eq!(saved.session.device_id, "DEV");
    assert_eq!(saved.session.access_token, "tok");
    assert_eq!(saved.session.refresh_token.as_deref(), Some("again"));
    assert_eq!(fails(login.on_session(None)), "no session available to persist after login");
    assert!(matches!(login.on_persisted(PersistOutcome::Done), LoginStep::Sync));
    assert_eq!(fails(login.on_persisted(PersistOutcome::Encode(oops()))), "oops");
    assert_eq!(
        fails(login.on_persisted(PersistOutcome::Write(oops()))),
        "writing session file /data/session.json: oops"
    );
    // The login itself has validated the credentials.
    assert!(matches!(login.on_synced(Err(oops())), LoginStep::Connected));
    assert!(matches!(login.on_synced(Ok(())), LoginStep::Connected));
}

#[test]
fn a_browser_login_step_by_step() {
    let mut login = sso();
    assert_eq!(
        fails(login.on_authenticated(AuthOutcome::TimedOut { url: None })),
        "timed out after 300s waiting for the SSO browser flow to complete - run login_sso again"
    );
    let url = Some("https://x.org/sso?redirectUrl=a".to_owned());
    assert_eq!(
        fails(login.on_authenticated(AuthOutcome::TimedOut { url })),
        "timed out after 300s waiting for the SSO browser flow to complete - run login_sso again; \
         if no browser opens, open the URL by hand: https://x.org/sso?redirectUrl=a"
    );
    assert_eq!(
        fails(login.on_authenticated(AuthOutcome::Failed {
            fault: SessionFault::Other,
            message: oops()
        })),
        "SSO login failed: oops"
    );
    assert!(matches!(login.on_synced(Err(oops())), LoginStep::Connected));
}

#[test]
fn a_token_login_discards_a_foreign_store_once() {
    let mut login = token();
    let step = login.on_authenticated(AuthOutcome::Failed { fault: MISMATCH, message: oops() });
    assert!(matches!(step, LoginStep::ClearState));
    assert!(login.retried);
    assert!(matches!(login.on_cleared(), LoginStep::BuildClient));
    assert_eq!(
        fails(login.on_authenticated(AuthOutcome::Failed { fault: MISMATCH, message: oops() })),
        "failed to load the provided session: oops"
    );
    let mut login = token();
    assert_eq!(
        fails(login.on_authenticated(AuthOutcome::Failed {
            fault: SessionFault::CryptoStore(StoreFault::Other),
            message: oops()
        })),
        "failed to load the provided session: oops"
    );
    assert!(matches!(login.on_authenticated(AuthOutcome::Done), LoginStep::TakeSession));
}

#[test]
fn a_token_is_checked_by_the_first_sync() {
    assert_eq!(
        fails(token().on_synced(Err(oops()))),
        "initial sync failed - check the token, user id, and device id are correct and the token \
         hasn't been revoked: oops"
    );
    assert!(matches!(token().on_synced(Ok(())), LoginStep::Connected));
}

#[test]
fn a_finished_login_is_recorded() {
    let mut manager = nobody();
    let info = manager.finish_login(Account {
        user_id: Some("@alice:x.org".to_owned()),
        device_id: None,
        homeserver: "https://x.org/".to_owned(),
    });
    assert_eq!(info.user_id, "@alice:x.org");
    assert_eq!(info.device_id, "");
    assert_eq!(info.homeserver, "https://x.org/");
    assert!(manager.connected_client().is_ok());
    assert!(manager.login(Some("h"), "bob", "pw").is_err());
}

fn with_environment(password: bool, token: bool) -> MatrixManager {
    let set = |on: bool, text: &str| if on { Some(text.to_owned()) } else { None };
    MatrixManager::from_env(&Environment {
        homeserver: Some("https://x.org".to_owned()),
        user: set(password, "alice"),
        password: set(password, "pw"),
        access_token: set(token, "tok"),
        user_id: set(token, "@alice:x.org"),
        device_id: set(token, "DEV"),
        device_name: None,
        session_file: None,
        store_path: None,
        verification_timeout: None,
        state_home: None,
        home: None,
    })
}

#[test]
fn automatic_logins() {
    let kind = |manager: &MatrixManager| match manager.maybe_login_from_env() {
        Ok(Some(login)) => match login.credentials {
            Credentials::Password { .. } => "password",
            Credentials::Token(_) => "token",
            Credentials::Sso { .. } => "sso",
        },
        Ok(None) => "none",
        Err(_) => "error",
    };
    assert_eq!(kind(&with_environment(true, true)), "password");
    assert_eq!(kind(&with_environment(true, false)), "password");
    assert_eq!(kind(&with_environment(false, true)), "token");
    assert_eq!(kind(&with_environment(false, false)), "none");
    // A username alone is not enough.
    let mut manager = with_environment(true, true);
    manager.env_password = None;
    assert_eq!(kind(&manager), "token");
    manager.env_device_id = None;
    assert_eq!(kind(&manager), "none");
    // Nothing happens while logged in.
    let mut manager = with_environment(true, true);
    manager.session = Some(Session { user_id: None });
    assert_eq!(kind(&manager), "none");
    let mut manager = with_environment(true, false);
    manager.default_homeserver = None;
    assert_eq!(kind(&manager), "error");
    let mut manager = with_environment(false, true);
    manager.env_user_id = Some("alice".to_owned());
    assert_eq!(kind(&manager), "error");
}
