use matrix_mcp::backup::BackupState;
use matrix_mcp::json::Json;
use matrix_mcp::manager::{Environment, MatrixManager, Session};
use matrix_mcp::sync::SyncOutcome;
use matrix_mcp::verification::{
    on_confirmation, on_confirmation_sync, on_confirmed, on_cross_signing_status,
    on_fetched_identity, on_gossip_sync, on_own_identity, own_device_cross_signed,
    verification_confirmed, CancelAction, ConfirmEnd, ConfirmStep, Emoji, GossipStep, IdentityStep,
    RequestPhase, RunEnd, SasPhase, ShortAuth, VerificationRun, VerifyStep,
};
use serde_json::Value;

fn nobody() -> MatrixManager {
    MatrixManager::from_env(&Environment {
        homeserver: None,
        user: None,
        password: None,
        access_token: None,
        user_id: None,
        device_id: None,
        device_name: None,
        session_file: Some("/data/session.json".to_owned()),
        store_path: None,
        verification_timeout: None,
        state_home: None,
        home: None,
    })
}

fn alice() -> MatrixManager {
    let mut manager = nobody();
    manager.session = Some(Session { user_id: Some("@alice:x.org".to_owned()) });
    manager
}

fn value(json: &Json) -> Value {
    match json {
        Json::Null => Value::Null,
        Json::Bool(b) => Value::Bool(*b),
        Json::Count(n) => Value::from(*n),
        Json::Text(s) => Value::String(s.clone()),
        Json::Raw(s) => serde_json::from_str(s).unwrap(),
        Json::List(items) => Value::Array(items.iter().map(value).collect()),
        Json::Object(members) => {
            Value::Object(members.iter().map(|(k, v)| (k.clone(), value(v))).collect())
        }
    }
}

fn json(text: &str) -> Value {
    serde_json::from_str(text).unwrap()
}

fn failure<T>(outcome: Result<T, String>) -> String {
    match outcome {
        Err(message) => message,
        Ok(_) => panic!("no failure"),
    }
}

fn oops() -> String {
    "oops".to_owned()
}

fn fails(step: VerifyStep<String>) -> String {
    match step {
        VerifyStep::Fail(message) => message,
        _ => panic!("no failure"),
    }
}

fn run(has_request: bool, has_sas: bool) -> VerificationRun {
    VerificationRun { has_request, has_sas, just_started: false }
}

#[test]
fn starting() {
    assert_eq!(
        failure(nobody().start_device_verification()),
        "not logged in - use the `login` tool or set the MATRIX_* environment variables"
    );
    let mut unnamed = nobody();
    unnamed.session = Some(Session { user_id: None });
    unnamed.pending_sas = true;
    assert_eq!(failure(unnamed.start_device_verification()), "not logged in");
    assert!(unnamed.pending_sas);
    let mut manager = alice();
    manager.pending_verification = true;
    manager.pending_sas = true;
    assert_eq!(manager.start_device_verification().unwrap(), "@alice:x.org");
    assert!(!manager.pending_verification && !manager.pending_sas);
    assert_eq!(
        failure(manager.verification_requested(Err(oops()))),
        "failed to send verification request: oops"
    );
    assert!(!manager.pending_verification);
    let run = manager.verification_requested(Ok(())).unwrap();
    assert!(manager.pending_verification);
    assert!(run.has_request && !run.has_sas && run.just_started);
    assert!(matches!(run.begin(), VerifyStep::LookAtRequest));
}

#[test]
fn identities() {
    assert!(matches!(on_own_identity(Ok(true)), IdentityStep::Request));
    assert!(matches!(on_own_identity(Ok(false)), IdentityStep::Fetch));
    assert!(matches!(on_own_identity(Err(oops())),
        IdentityStep::Fail(m) if m == "failed to look up own identity: oops"));
    assert!(matches!(on_fetched_identity(Ok(true)), IdentityStep::Request));
    assert!(matches!(on_fetched_identity(Ok(false)),
        IdentityStep::Fail(m) if m == "no cross-signing identity for this account - set up secure \
                                      backup / cross-signing in another client (e.g. Element) first"));
    assert!(matches!(on_fetched_identity(Err(oops())),
        IdentityStep::Fail(m) if m == "failed to fetch own identity: oops"));
}

#[test]
fn continuing() {
    assert_eq!(
        failure(alice().continue_device_verification()),
        "no verification in progress - run `start_device_verification` first"
    );
    let mut manager = alice();
    manager.pending_sas = true;
    let run = manager.continue_device_verification().unwrap();
    assert!(run.has_sas && !run.has_request && !run.just_started);
    assert!(matches!(run.begin(), VerifyStep::LookAtSas));
}

#[test]
fn requests_are_followed() {
    let waiting = run(true, false);
    assert!(matches!(waiting.on_request(RequestPhase::Transitioned), VerifyStep::TakeSas));
    assert_eq!(
        fails(waiting.on_request(RequestPhase::Cancelled("why".to_owned()))),
        "the other device cancelled: why"
    );
    assert_eq!(
        fails(waiting.on_request(RequestPhase::Done)),
        "verification finished before emoji were shown"
    );
    assert!(matches!(
        waiting.on_request(RequestPhase::Other { ready: true }),
        VerifyStep::StartSas
    ));
    assert!(matches!(waiting.on_request(RequestPhase::Other { ready: false }), VerifyStep::Sync));
    assert!(matches!(run(false, false).begin(), VerifyStep::Sync));
}

#[test]
fn short_authentication_strings_are_followed() {
    let mut waiting = run(true, false);
    assert!(matches!(waiting.on_sas_obtained(Ok(false)), VerifyStep::Sync));
    assert!(!waiting.has_sas);
    assert_eq!(
        fails(waiting.on_sas_obtained(Err(oops()))),
        "failed to start emoji verification: oops"
    );
    assert!(matches!(waiting.on_sas_obtained(Ok(true)), VerifyStep::LookAtSas));
    assert!(waiting.has_sas);
    assert!(matches!(waiting.on_sas(SasPhase::KeysExchanged), VerifyStep::Ready));
    assert!(matches!(waiting.on_sas(SasPhase::Done), VerifyStep::Ready));
    assert!(matches!(waiting.on_sas(SasPhase::Other), VerifyStep::Sync));
    assert_eq!(
        fails(waiting.on_sas(SasPhase::Cancelled("why".to_owned()))),
        "verification was cancelled: why"
    );
    assert!(matches!(waiting.on_sync(SyncOutcome::Done), VerifyStep::LookAtSas));
    assert_eq!(fails(waiting.on_sync(SyncOutcome::Failed(oops()))), "sync failed: oops");
}

#[test]
fn emoji_are_reported() {
    let mut manager = alice();
    manager.pending_verification = true;
    let auth = ShortAuth {
        emoji: Some(vec![
            Emoji { symbol: "\u{1F436}".to_owned(), description: "Dog".to_owned() },
            Emoji { symbol: "\u{1F431}".to_owned(), description: "Cat".to_owned() },
        ]),
        decimals: Some((1000, 2, 3)),
    };
    let reply = manager.advance_verification(run(true, true), RunEnd::Ready(auth)).unwrap();
    assert_eq!(
        value(&reply),
        json(
            r#"{"status":"awaiting_confirmation",
                "emoji":[{"symbol":"\ud83d\udc36","description":"Dog"},
                         {"symbol":"\ud83d\udc31","description":"Cat"}],
                "decimals":[1000,2,3],
                "instructions":"Compare these against what your other session shows. If they match, call `confirm_device_verification`; if not, call `cancel_device_verification`."}"#
        )
    );
    assert!(manager.pending_sas && manager.pending_verification);
    assert!(manager.confirm_device_verification().is_ok());
    let auth = ShortAuth { emoji: None, decimals: None };
    let reply = manager.advance_verification(run(true, true), RunEnd::Ready(auth)).unwrap();
    assert_eq!(value(&reply)["emoji"], Value::Null);
    assert_eq!(value(&reply)["decimals"], Value::Null);
}

#[test]
fn a_budget_can_elapse() {
    let mut manager = alice();
    manager.pending_verification = true;
    let started = VerificationRun { has_request: true, has_sas: false, just_started: true };
    let reply = manager.advance_verification(started, RunEnd::TimedOut).unwrap();
    assert_eq!(
        value(&reply),
        json(
            r#"{"status":"pending","instructions":"Accept the verification request in your other session (e.g. Element), then call `continue_device_verification` to fetch the emoji."}"#
        )
    );
    assert!(manager.continue_device_verification().is_ok());
    assert!(manager.confirm_device_verification().is_err());
    let reply = manager.advance_verification(run(true, true), RunEnd::TimedOut).unwrap();
    assert!(value(&reply)["instructions"].as_str().unwrap().starts_with("Still waiting"));
    assert!(manager.pending_sas);
}

#[test]
fn a_failure_is_the_end() {
    let mut manager = alice();
    manager.pending_verification = true;
    assert_eq!(
        failure(manager.advance_verification(run(true, true), RunEnd::Failed(oops()))),
        "oops"
    );
    assert!(!manager.pending_verification && !manager.pending_sas);
    assert!(manager.continue_device_verification().is_err());
}

#[test]
fn confirming() {
    assert_eq!(
        failure(alice().confirm_device_verification()),
        "no emoji to confirm yet - run `start_device_verification` (and \
         `continue_device_verification`) until it returns emoji first"
    );
    assert_eq!(
        failure(nobody().confirm_device_verification()),
        "not logged in - use the `login` tool or set the MATRIX_* environment variables"
    );
    assert!(matches!(on_confirmed(Ok(())), Ok(ConfirmStep::Look)));
    assert_eq!(failure(on_confirmed(Err(oops()))), "failed to confirm verification: oops");
    assert!(matches!(on_confirmation(true, true), ConfirmStep::Finished));
    assert!(matches!(on_confirmation(false, false), ConfirmStep::Sync));
    assert!(matches!(on_confirmation(false, true),
        ConfirmStep::Fail(m) if m == "the other device cancelled before completing"));
    assert!(matches!(on_confirmation_sync(SyncOutcome::Done), ConfirmStep::Look));
    assert!(matches!(on_confirmation_sync(SyncOutcome::Failed(oops())),
        ConfirmStep::Fail(m) if m == "sync failed: oops"));
}

#[test]
fn a_confirmation_ends_the_flow() {
    for (end, expected) in [
        (ConfirmEnd::Finished, None),
        (ConfirmEnd::Failed(oops()), Some("oops")),
        (ConfirmEnd::TimedOut, Some("timed out waiting for the other device to finish verifying")),
    ] {
        let mut manager = alice();
        manager.pending_verification = true;
        manager.pending_sas = true;
        assert_eq!(manager.conclude_confirmation(end).err().as_deref(), expected);
        assert!(!manager.pending_verification && !manager.pending_sas);
        assert!(manager.session.is_some());
    }
}

#[test]
fn secrets_are_waited_for() {
    assert_eq!(on_cross_signing_status(Some(true)), GossipStep::End { complete: true });
    assert_eq!(on_cross_signing_status(Some(false)), GossipStep::Sync);
    assert_eq!(on_cross_signing_status(None), GossipStep::Sync);
    assert_eq!(on_gossip_sync(SyncOutcome::Done), GossipStep::Look);
    assert_eq!(on_gossip_sync(SyncOutcome::Failed(oops())), GossipStep::End { complete: false });
    assert_eq!(own_device_cross_signed(Ok(Some(true))), Some(true));
    assert_eq!(own_device_cross_signed(Ok(Some(false))), Some(false));
    assert_eq!(own_device_cross_signed(Ok(None)), None);
    assert_eq!(own_device_cross_signed(Err(oops())), None);
}

#[test]
fn a_confirmation_is_reported() {
    let reply = verification_confirmed(Some(true), Some(true), BackupState::Enabled);
    assert_eq!(
        value(&reply),
        json(
            r#"{"verified":true,"cross_signing_complete":true,"backup_state":"Enabled",
                "hint":"This device is verified and the key backup is unlocked - reading a room now pulls its history automatically."}"#
        )
    );
    let reply = verification_confirmed(None, None, BackupState::Resuming);
    assert_eq!(
        value(&reply),
        json(
            r#"{"verified":false,"cross_signing_complete":false,"backup_state":"Resuming",
                "hint":"This device is verified. If the account has a key backup, its history keys should follow shortly; retry a read, or check `whoami`."}"#
        )
    );
}

#[test]
fn calling_off() {
    let mut manager = alice();
    manager.pending_verification = true;
    manager.pending_sas = true;
    let (action, reply) = manager.cancel_device_verification();
    assert_eq!(action, CancelAction::Sas);
    assert_eq!(value(&reply), json(r#"{"cancelled":true,"note":null}"#));
    let (action, reply) = manager.cancel_device_verification();
    assert_eq!(action, CancelAction::Nothing);
    assert_eq!(
        value(&reply),
        json(r#"{"cancelled":false,"note":"no verification was in progress"}"#)
    );
    manager.pending_verification = true;
    assert_eq!(manager.cancel_device_verification().0, CancelAction::Request);
    assert!(manager.continue_device_verification().is_err());
}

/// A driver against a scripted other device.
#[test]
fn a_verification_from_start_to_end() {
    let mut manager = alice();
    manager.start_device_verification().unwrap();
    let mut run = manager.verification_requested(Ok(())).unwrap();
    let mut requests = vec![
        RequestPhase::Other { ready: true },
        RequestPhase::Other { ready: false },
    ];
    let mut phases = vec![SasPhase::KeysExchanged, SasPhase::Other];
    let mut syncs = 0;
    let mut step = run.begin();
    let end = loop {
        step = match step {
            VerifyStep::LookAtRequest => run.on_request(requests.pop().unwrap()),
            VerifyStep::TakeSas | VerifyStep::StartSas => run.on_sas_obtained(Ok(true)),
            VerifyStep::LookAtSas => run.on_sas(phases.pop().unwrap()),
            VerifyStep::Sync => {
                syncs += 1;
                run.on_sync(SyncOutcome::Done)
            }
            VerifyStep::Ready => {
                break RunEnd::Ready(ShortAuth { emoji: None, decimals: Some((1, 2, 3)) })
            }
            VerifyStep::Fail(message) => break RunEnd::Failed(message),
        };
    };
    assert_eq!(syncs, 2);
    manager.advance_verification(run, end).unwrap();
    manager.confirm_device_verification().unwrap();
    manager.conclude_confirmation(ConfirmEnd::Finished).unwrap();
    assert!(manager.continue_device_verification().is_err());
}

#[test]
fn an_interrupted_verification_resumes() {
    let mut manager = alice();
    manager.start_device_verification().unwrap();
    let mut first = manager.verification_requested(Ok(())).unwrap();
    assert!(matches!(first.on_request(RequestPhase::Transitioned), VerifyStep::TakeSas));
    assert!(matches!(first.on_sas_obtained(Ok(true)), VerifyStep::LookAtSas));
    assert!(matches!(first.on_sas(SasPhase::Other), VerifyStep::Sync));
    manager.advance_verification(first, RunEnd::TimedOut).unwrap();
    // The string that was obtained is still there: the request is not looked at again.
    let second = manager.continue_device_verification().unwrap();
    assert!(second.has_sas && second.has_request);
    assert!(matches!(second.begin(), VerifyStep::LookAtSas));
    assert!(matches!(second.on_sas(SasPhase::KeysExchanged), VerifyStep::Ready));
}

#[test]
fn the_other_device_is_waited_for() {
    // Done counts even if it is cancelled, too; a cancellation, or a failed sync, ends the wait.
    let script = |rounds: Vec<(bool, bool, bool)>| {
        let mut step = on_confirmed(Ok(())).unwrap();
        for (done, cancelled, sync_fails) in rounds {
            step = on_confirmation(done, cancelled);
            if matches!(step, ConfirmStep::Sync) {
                let outcome =
                    if sync_fails { SyncOutcome::Failed(oops()) } else { SyncOutcome::Done };
                step = on_confirmation_sync(outcome);
            }
            if !matches!(step, ConfirmStep::Look) {
                break;
            }
        }
        step
    };
    assert!(matches!(script(vec![]), ConfirmStep::Look));
    assert!(matches!(
        script(vec![(false, false, false), (true, true, false)]),
        ConfirmStep::Finished
    ));
    assert!(matches!(
        script(vec![(false, true, false), (true, false, false)]),
        ConfirmStep::Fail(_)
    ));
    assert!(matches!(
        script(vec![(false, false, true), (true, false, false)]),
        ConfirmStep::Fail(m) if m == "sync failed: oops"
    ));
}

/// Waits for the secrets through the given rounds: whether they are complete, and whether the sync
/// fails. `None` if the rounds run out.
fn wait_for_secrets(rounds: &[(Option<bool>, bool)]) -> Option<bool> {
    let mut step = GossipStep::Look;
    for (complete, sync_fails) in rounds {
        step = on_cross_signing_status(*complete);
        if step == GossipStep::Sync {
            let outcome = match sync_fails {
                true => SyncOutcome::Failed("oops".to_owned()),
                false => SyncOutcome::Done,
            };
            step = on_gossip_sync(outcome);
        }
        if let GossipStep::End { complete } = step {
            return Some(complete);
        }
    }
    assert_eq!(step, GossipStep::Look);
    None
}

#[test]
fn secrets_are_waited_for_until_they_arrive() {
    assert_eq!(wait_for_secrets(&[]), None);
    assert_eq!(wait_for_secrets(&[(None, false), (Some(false), false)]), None);
    assert_eq!(wait_for_secrets(&[(None, false), (Some(true), true)]), Some(true));
    assert_eq!(wait_for_secrets(&[(None, false), (Some(false), true), (Some(true), false)]), Some(false));
}
