use matrix_mcp::manager::{Environment, MatrixManager, Session};
use matrix_mcp::restore::{
    is_store_file, on_client_rebuilt, on_session_file_read, on_session_loaded, on_token_checked,
    FileOutcome, Listing, LogoutStep, RestoreStep,
};
use matrix_mcp::session::{
    AccountSession, ApiFailure, ApiFault, LoginStep, SavedSession, SessionFault, StoreFault,
};
use matrix_mcp::backup::BackupState;
use matrix_mcp::sync::{
    flush_key_backup, settled, sync_once_with, synced, SyncNeed, SyncOutcome,
};

fn nobody() -> MatrixManager {
    MatrixManager::from_env(&Environment {
        homeserver: None,
        user: None,
        password: None,
        access_token: None,
        user_id: None,
        device_id: None,
        device_name: None,
        session_file: Some("/data/session.json".to_owned()),
        store_path: None,
        verification_timeout: None,
        state_home: None,
        home: None,
    })
}

fn alice() -> MatrixManager {
    let mut manager = nobody();
    manager.session = Some(Session { user_id: Some("@alice:x.org".to_owned()) });
    manager
}

fn failure<T>(outcome: Result<T, String>) -> String {
    match outcome {
        Err(message) => message,
        Ok(_) => panic!("no failure"),
    }
}

fn oops() -> String {
    "oops".to_owned()
}

fn fails(step: RestoreStep<String>) -> String {
    match step {
        RestoreStep::Fail(message) => message,
        _ => panic!("no failure"),
    }
}

fn refused(fault: Option<ApiFault>) -> Result<(), ApiFailure> {
    Err(ApiFailure { fault, message: oops() })
}

fn saved(homeserver: &str) -> SavedSession<String> {
    SavedSession {
        homeserver: homeserver.to_owned(),
        session: AccountSession {
            user_id: "@alice:x.org".to_owned(),
            device_id: "DEV".to_owned(),
            access_token: "tok".to_owned(),
            refresh_token: None,
        },
    }
}

#[test]
fn a_session_is_restored() {
    assert!(matches!(nobody().try_restore(false), RestoreStep::NotRestored));
    assert!(matches!(nobody().try_restore(true),
        RestoreStep::ReadFile(path) if path == "/data/session.json"));
    let step = on_session_file_read("/p", FileOutcome::Done(saved("https://x.org")));
    let RestoreStep::BuildClient(read) = step else { panic!("not built") };
    assert_eq!(read.homeserver, "https://x.org");
    let RestoreStep::LoadSession(session) = on_client_rebuilt(read, Ok(())) else {
        panic!("not loaded")
    };
    assert_eq!((session.user_id.as_str(), session.device_id.as_str()), ("@alice:x.org", "DEV"));
    assert_eq!((session.access_token.as_str(), session.refresh_token), ("tok", None));
    assert!(matches!(on_session_loaded(Ok(())), RestoreStep::CheckToken));
    assert!(matches!(on_token_checked(Ok(())), RestoreStep::Sync));
    let mut manager = nobody();
    manager.restored(Some("@alice:x.org".to_owned()));
    assert!(manager.connected_client().is_ok());
}

#[test]
fn a_restoration_can_fail() {
    assert_eq!(
        fails(on_session_file_read("/p", FileOutcome::Read(oops()))),
        "reading session file /p: oops"
    );
    assert_eq!(
        fails(on_session_file_read("/p", FileOutcome::Parse(oops()))),
        "parsing saved session file: oops"
    );
    assert_eq!(
        fails(on_client_rebuilt(saved("https://x.org"), Err(oops()))),
        "failed to build client for homeserver https://x.org: oops"
    );
    assert_eq!(
        fails(on_session_loaded(Err((SessionFault::Other, oops())))),
        "restoring saved session: oops"
    );
}

#[test]
fn only_dead_sessions_are_discarded() {
    let mismatch = SessionFault::OlmStore(StoreFault::MismatchedAccount);
    assert!(matches!(on_session_loaded(Err((mismatch, oops()))), RestoreStep::Discard));
    assert!(matches!(
        on_token_checked(refused(Some(ApiFault::UnknownToken))),
        RestoreStep::Discard
    ));
    assert!(matches!(on_token_checked(refused(Some(ApiFault::Other))), RestoreStep::Sync));
    assert!(matches!(on_token_checked(refused(None)), RestoreStep::Sync));
}

#[test]
fn logging_out() {
    assert_eq!(
        failure(nobody().logout()),
        "not logged in - use the `login` tool or set the MATRIX_* environment variables"
    );
    assert!(alice().logout().is_ok());
    for outcome in [Ok(()), refused(Some(ApiFault::UnknownToken))] {
        let mut manager = alice();
        manager.pending_verification = true;
        manager.pending_sas = true;
        assert!(matches!(manager.on_logged_out(outcome), LogoutStep::ClearState));
        assert!(manager.session.is_none());
        assert!(!manager.pending_verification && !manager.pending_sas);
        assert!(manager.ensure_logged_out().is_ok());
    }
}

#[test]
fn a_failed_logout_changes_nothing() {
    for fault in [None, Some(ApiFault::Other)] {
        let mut manager = alice();
        manager.pending_verification = true;
        assert!(matches!(manager.on_logged_out(refused(fault)),
            LogoutStep::Fail(message) if message == "logout failed: oops"));
        assert!(manager.session.is_some());
        assert!(manager.pending_verification);
    }
}

#[test]
fn store_files() {
    for kind in ["state", "crypto", "event-cache", "media"] {
        for companion in ["", "-wal", "-shm", "-journal"] {
            let name = format!("matrix-sdk-{kind}.sqlite3{companion}");
            assert!(is_store_file(&name), "{name}");
        }
        for rest in [".txt", "-", "-wal2", "-WAL", "-wal-shm", ".sqlite3"] {
            let name = format!("matrix-sdk-{kind}.sqlite3{rest}");
            assert!(!is_store_file(&name), "{name}");
        }
    }
    for name in [
        "", "matrix-sdk-", "matrix-sdk-state.sqlite", "state.sqlite3", "my-matrix-sdk-x.sqlite3",
        "Matrix-sdk-state.sqlite3", "notes.txt", "matrix-sdk-.sqlite3",
        "matrix-sdk-notes.sqlite3", "matrix-sdk-notes.sqlite3.txt",
        "matrix-sdk-state-crypto.sqlite3", "x/matrix-sdk-state.sqlite3",
    ] {
        assert!(!is_store_file(name), "{name}");
    }
}

#[test]
fn only_store_files_are_deleted() {
    let names = [
        "matrix-sdk-notes.sqlite3.txt", "matrix-sdk-state.sqlite3", "b",
        "matrix-sdk-crypto.sqlite3-wal",
    ];
    let names = names.iter().map(|n| n.to_string()).collect();
    let plan = nobody().clear_local_state(&Listing::Entries(names));
    assert_eq!(plan.entries, vec![1, 3]);
    assert!(plan.directory);
    assert_eq!((plan.session_file.as_str(), plan.store.as_str()), ("/data/session.json", "/data/store"));
    let plan = nobody().clear_local_state(&Listing::Entries(vec![]));
    assert!(plan.entries.is_empty());
    assert!(plan.directory);
    assert_eq!(plan.session_file, "/data/session.json");
    for listing in [Listing::Missing, Listing::Unreadable] {
        let plan = nobody().clear_local_state(&listing);
        assert_eq!(plan.session_file, "/data/session.json");
        assert!(plan.entries.is_empty());
        assert!(!plan.directory);
    }
}

#[test]
fn nothing_is_left_of_a_session_that_was_logged_out() {
    let mut manager = alice();
    let LogoutStep::ClearState = manager.on_logged_out(Ok(())) else { panic!("not cleared") };
    let session_file = manager.session_path.clone();
    let mut disk = vec![
        session_file.clone(),
        "/data/store/matrix-sdk-state.sqlite3".to_owned(),
        "/data/store/matrix-sdk-crypto.sqlite3-wal".to_owned(),
        "/data/store/notes.txt".to_owned(),
    ];
    let names: Vec<String> =
        disk[1..].iter().map(|p| p["/data/store/".len()..].to_owned()).collect();
    let plan = manager.clear_local_state(&Listing::Entries(names.clone()));
    disk.retain(|path| *path != plan.session_file);
    for place in plan.entries {
        disk.retain(|path| *path != format!("{}/{}", plan.store, names[place]));
    }
    assert_eq!(disk, vec!["/data/store/notes.txt".to_owned()]);
    let exists = disk.contains(&session_file);
    assert!(matches!(manager.try_restore(exists), RestoreStep::NotRestored));
    assert!(manager.logout().is_err());
}

#[test]
fn only_a_sync_that_is_required_stands_in_the_way() {
    assert_eq!(settled(SyncNeed::BestEffort, Err(oops())), Ok(()));
    assert_eq!(settled(SyncNeed::BestEffort, Ok(())), Ok(()));
    assert_eq!(settled(SyncNeed::Required, Err(oops())), Err(oops()));
    assert_eq!(settled(SyncNeed::Required, Ok(())), Ok(()));
}

#[test]
fn a_session_is_restored_as_it_was_saved() {
    let login = nobody().login(Some("https://x.org"), "alice", "secret").unwrap();
    assert_eq!(login.session_path, nobody().session_path);
    let LoginStep::Persist(written) = login.on_session(Some(saved("").session)) else {
        panic!("not written")
    };
    let RestoreStep::ReadFile(path) = nobody().try_restore(true) else { panic!("not read") };
    assert_eq!(path, written.path);
    let step = on_session_file_read(&path, FileOutcome::Done(written.saved));
    let RestoreStep::BuildClient(read) = step else { panic!("not built") };
    assert_eq!(read.homeserver, "https://x.org");
    let RestoreStep::LoadSession(session) = on_client_rebuilt(read, Ok(())) else {
        panic!("not loaded")
    };
    assert_eq!((session.user_id.as_str(), session.access_token.as_str()), ("@alice:x.org", "tok"));
}

#[test]
fn syncs() {
    assert!(alice().sync().is_ok());
    assert_eq!(
        failure(nobody().sync()),
        "not logged in - use the `login` tool or set the MATRIX_* environment variables"
    );
    assert!(sync_once_with(SyncOutcome::Done).is_ok());
    assert_eq!(
        failure(sync_once_with(SyncOutcome::TimedOut("deadline has elapsed".to_owned()))),
        "sync timed out: deadline has elapsed"
    );
    assert_eq!(failure(sync_once_with(SyncOutcome::Failed(oops()))), "sync failed: oops");
    assert!(flush_key_backup(BackupState::Enabled));
    assert!(!flush_key_backup(BackupState::Resuming));
    assert_eq!(synced(SyncOutcome::Done, BackupState::Enabled), Ok(true));
    assert_eq!(synced(SyncOutcome::Done, BackupState::Unknown), Ok(false));
    assert_eq!(
        failure(synced(SyncOutcome::Failed(oops()), BackupState::Enabled)),
        "sync failed: oops"
    );
}
