//! Verification of devices.

use vstd::prelude::*;

use crate::backup::BackupState;
use crate::json::{Json, JsonView};
use crate::laws::{has_member, has_members, refused};
use crate::manager::{MatrixManager, Session};
use crate::sync::SyncOutcome;
use crate::verification::{
    emoji_list_json, on_confirmation, on_confirmation_sync, on_confirmed,
    on_cross_signing_status, on_fetched_identity, on_gossip_sync, on_own_identity,
    own_device_cross_signed, verification_confirmed, CancelAction, ConfirmEnd,
    ConfirmStep, Emoji, GossipStep, IdentityStep, RequestPhase, RunEnd, SasPhase,
    VerificationRun, VerifyStep,
};

verus! {

/// Whether a list shows every emoji, in their order, by its symbol and its description.
pub open spec fn shows_emoji(list: JsonView, emoji: Seq<Emoji>) -> bool {
    list matches JsonView::List(items) && items.len() == emoji.len() && forall|i: int|
        0 <= i < emoji.len() ==> {
            &&& has_members(#[trigger] items[i], 2)
            &&& has_member(items[i], 0, "symbol"@, JsonView::Text(emoji[i].symbol@))
            &&& has_member(items[i], 1, "description"@, JsonView::Text(emoji[i].description@))
        }
}

/// All of the emoji are shown, however many they are, each with its symbol and its description.
pub proof fn law_every_emoji_is_shown(emoji: Vec<Emoji>)
    ensures
        shows_emoji(emoji_list_json(Some(emoji)), emoji@),
        emoji_list_json(None) is Null,
{
}

/// Once the emoji are ready, the answer shows all of them, and all three of the numbers, for
/// comparison - and the verification can be confirmed or continued from what the run has. The
/// answer to a verification that needs more time says so, and a failed one gives its error and is
/// dropped. Nothing else of the manager changes.
pub proof fn law_what_there_is_to_compare_is_shown(
    manager: &mut MatrixManager,
    run: VerificationRun,
    end: RunEnd,
    reply: Result<Json, String>,
)
    requires
        call_ensures(MatrixManager::advance_verification, (manager, run, end), reply),
    ensures
        final(manager).session == old(manager).session,
        set_up_alike(*old(manager), *final(manager)),
        match end {
            RunEnd::Ready(auth) => {
                &&& final(manager).pending_verification == old(manager).pending_verification
                &&& final(manager).pending_sas == run.has_sas
                &&& reply is Ok
                &&& has_members(reply->Ok_0@, 4)
                &&& has_member(
                    reply->Ok_0@,
                    0,
                    "status"@,
                    JsonView::Text("awaiting_confirmation"@),
                )
                &&& reply->Ok_0@->Object_0[1].0 == "emoji"@
                &&& match auth.emoji {
                    Some(emoji) => shows_emoji(reply->Ok_0@->Object_0[1].1, emoji@),
                    None => reply->Ok_0@->Object_0[1].1 is Null,
                }
                &&& reply->Ok_0@->Object_0[2].0 == "decimals"@
                &&& match auth.decimals {
                    Some((a, b, c)) => reply->Ok_0@->Object_0[2].1 matches JsonView::List(numbers)
                        && numbers.len() == 3 && numbers[0] == JsonView::Count(a as nat)
                        && numbers[1] == JsonView::Count(b as nat) && numbers[2]
                        == JsonView::Count(c as nat),
                    None => reply->Ok_0@->Object_0[2].1 is Null,
                }
                &&& reply->Ok_0@->Object_0[3].0 == "instructions"@
            },
            RunEnd::TimedOut => {
                &&& final(manager).pending_verification == old(manager).pending_verification
                &&& final(manager).pending_sas == run.has_sas
                &&& reply is Ok
                &&& has_members(reply->Ok_0@, 2)
                &&& has_member(reply->Ok_0@, 0, "status"@, JsonView::Text("pending"@))
                &&& has_member(
                    reply->Ok_0@,
                    1,
                    "instructions"@,
                    JsonView::Text(
                        if run.just_started {
                            "Accept the verification request in your other session (e.g. Element), then call `continue_device_verification` to fetch the emoji."@
                        } else {
                            "Still waiting for the other session to accept - accept the request there, then call `continue_device_verification` again."@
                        },
                    ),
                )
            },
            RunEnd::Failed(message) => {
                &&& !final(manager).pending_verification
                &&& !final(manager).pending_sas
                &&& refused(reply, message@)
            },
        },
{
}

/// Whether two managers have the same settings.
pub open spec fn set_up_alike(a: MatrixManager, b: MatrixManager) -> bool {
    &&& a.default_homeserver == b.default_homeserver
    &&& a.env_user == b.env_user
    &&& a.env_password == b.env_password
    &&& a.env_access_token == b.env_access_token
    &&& a.env_user_id == b.env_user_id
    &&& a.env_device_id == b.env_device_id
    &&& a.device_name == b.device_name
    &&& a.session_path == b.session_path
    &&& a.store_path == b.store_path
    &&& a.verification_timeout == b.verification_timeout
}

/// A verification is only started for an account: the one whose user id is given. What was in
/// progress is dropped then; where it cannot be started, nothing changes.
pub proof fn law_verification_starts_for_the_account(
    manager: &mut MatrixManager,
    user_id: Result<String, String>,
)
    requires
        call_ensures(MatrixManager::start_device_verification, (manager,), user_id),
    ensures
        set_up_alike(*old(manager), *final(manager)),
        final(manager).session == old(manager).session,
        match old(manager).session {
            None => refused(
                user_id,
                "not logged in - use the `login` tool or set the MATRIX_* environment variables"@,
            ) && *final(manager) == *old(manager),
            Some(Session { user_id: None }) => refused(user_id, "not logged in"@)
                && *final(manager) == *old(manager),
            Some(Session { user_id: Some(account) }) => user_id == Ok::<String, String>(account)
                && !final(manager).pending_verification && !final(manager).pending_sas,
        },
{
}

/// A verification request that was sent is remembered, and driven from as one that has only just
/// been sent; one that was not is reported.
pub proof fn law_requests_are_remembered(
    manager: &mut MatrixManager,
    sent: Result<(), String>,
    run: Result<VerificationRun, String>,
)
    requires
        call_ensures(MatrixManager::verification_requested, (manager, sent), run),
    ensures
        set_up_alike(*old(manager), *final(manager)),
        final(manager).session == old(manager).session,
        final(manager).pending_sas == old(manager).pending_sas,
        match sent {
            Ok(_) => final(manager).pending_verification && run == Ok::<VerificationRun, String>(
                VerificationRun {
                    has_request: true,
                    has_sas: old(manager).pending_sas,
                    just_started: true,
                },
            ),
            Err(cause) => refused(run, "failed to send verification request"@ + ": "@ + cause@)
                && *final(manager) == *old(manager),
        },
{
}

/// A verification is continued from what is remembered of it, and only where there is something to
/// continue.
pub proof fn law_verification_continues_from_what_is_there(
    manager: MatrixManager,
    run: Result<VerificationRun, String>,
)
    requires
        call_ensures(MatrixManager::continue_device_verification, (&manager,), run),
    ensures
        if manager.session is None {
            refused(
                run,
                "not logged in - use the `login` tool or set the MATRIX_* environment variables"@,
            )
        } else if manager.pending_verification || manager.pending_sas {
            run == Ok::<VerificationRun, String>(
                VerificationRun {
                    has_request: manager.pending_verification,
                    has_sas: manager.pending_sas,
                    just_started: false,
                },
            )
        } else {
            refused(
                run,
                "no verification in progress - run `start_device_verification` first"@,
            )
        },
{
}

/// Emoji can be confirmed exactly while a short authentication string is at hand.
pub proof fn law_emoji_are_confirmed_once_shown(manager: MatrixManager, ready: Result<(), String>)
    requires
        call_ensures(MatrixManager::confirm_device_verification, (&manager,), ready),
    ensures
        if manager.session is None {
            refused(
                ready,
                "not logged in - use the `login` tool or set the MATRIX_* environment variables"@,
            )
        } else if manager.pending_sas {
            ready is Ok
        } else {
            refused(
                ready,
                "no emoji to confirm yet - run `start_device_verification` (and `continue_device_verification`) until it returns emoji first"@,
            )
        },
{
}

/// However the wait for the other device ends, the verification is over; the secrets are waited for
/// exactly if the other device has finished.
pub proof fn law_confirmation_ends_the_verification(
    manager: &mut MatrixManager,
    end: ConfirmEnd,
    step: Result<GossipStep, String>,
)
    requires
        call_ensures(MatrixManager::conclude_confirmation, (manager, end), step),
    ensures
        set_up_alike(*old(manager), *final(manager)),
        final(manager).session == old(manager).session,
        !final(manager).pending_verification,
        !final(manager).pending_sas,
        match end {
            ConfirmEnd::Finished => step == Ok::<GossipStep, String>(GossipStep::Look),
            ConfirmEnd::Failed(message) => refused(step, message@),
            ConfirmEnd::TimedOut => refused(
                step,
                "timed out waiting for the other device to finish verifying"@,
            ),
        },
{
}

/// Calling a verification off drops it, and cancels what there is of it: the short authentication
/// string, or else the request. Where there was nothing, the answer says so.
pub proof fn law_calling_off_drops_the_verification(
    manager: &mut MatrixManager,
    action: CancelAction,
    reply: Json,
)
    requires
        call_ensures(MatrixManager::cancel_device_verification, (manager,), (action, reply)),
    ensures
        set_up_alike(*old(manager), *final(manager)),
        final(manager).session == old(manager).session,
        !final(manager).pending_verification,
        !final(manager).pending_sas,
        old(manager).pending_sas ==> action == CancelAction::Sas,
        !old(manager).pending_sas && old(manager).pending_verification ==> action
            == CancelAction::Request,
        !old(manager).pending_sas && !old(manager).pending_verification ==> action
            == CancelAction::Nothing,
        has_members(reply@, 2),
        has_member(
            reply@,
            0,
            "cancelled"@,
            JsonView::Bool(old(manager).pending_sas || old(manager).pending_verification),
        ),
        has_member(
            reply@,
            1,
            "note"@,
            if old(manager).pending_sas || old(manager).pending_verification {
                JsonView::Null
            } else {
                JsonView::Text("no verification was in progress"@)
            },
        ),
{
}

/// Dropping a verification changes nothing else.
pub proof fn law_only_the_verification_is_dropped(manager: &mut MatrixManager)
    requires
        call_ensures(MatrixManager::clear_pending_verification, (manager,), ()),
    ensures
        set_up_alike(*old(manager), *final(manager)),
        final(manager).session == old(manager).session,
        !final(manager).pending_verification,
        !final(manager).pending_sas,
{
}

/// A round begins with what there is: the comparison, or else the request, or else a sync.
pub proof fn law_rounds_begin_with_what_there_is(run: VerificationRun, step: VerifyStep<String>)
    requires
        call_ensures(VerificationRun::begin, (&run,), step),
    ensures
        run.has_sas ==> step is LookAtSas,
        !run.has_sas && run.has_request ==> step is LookAtRequest,
        !run.has_sas && !run.has_request ==> step is Sync,
{
}

/// A request leads on as it stands: one that has become a verification to its short authentication
/// string, one that both sides agreed to to a new one, an open one to a sync, and one that is over
/// to a failure.
pub proof fn law_requests_lead_on(
    run: VerificationRun,
    phase: RequestPhase<String>,
    step: VerifyStep<String>,
)
    requires
        call_ensures(VerificationRun::on_request, (&run, phase), step),
    ensures
        match phase {
            RequestPhase::Transitioned => step is TakeSas,
            RequestPhase::Cancelled(info) => step matches VerifyStep::Fail(message) && message@
                == "the other device cancelled"@ + ": "@ + info@,
            RequestPhase::Done => step matches VerifyStep::Fail(message) && message@
                == "verification finished before emoji were shown"@,
            RequestPhase::Other { ready: true } => step is StartSas,
            RequestPhase::Other { ready: false } => step is Sync,
        },
{
}

/// A short authentication string that was obtained is kept and looked at; without one a sync
/// follows, and a failure to start one is reported.
pub proof fn law_obtained_strings_are_kept(
    run: &mut VerificationRun,
    obtained: Result<bool, String>,
    step: VerifyStep<String>,
)
    requires
        call_ensures(VerificationRun::on_sas_obtained, (run, obtained), step),
    ensures
        final(run).has_request == old(run).has_request,
        final(run).just_started == old(run).just_started,
        match obtained {
            Ok(true) => step is LookAtSas && final(run).has_sas,
            Ok(false) => step is Sync && !final(run).has_sas,
            Err(cause) => final(run).has_sas == old(run).has_sas && (step matches VerifyStep::Fail(
                message,
            ) && message@ == "failed to start emoji verification"@ + ": "@ + cause@),
        },
{
}

/// A comparison is ready once the keys are exchanged, or it is done; one that was cancelled fails
/// the verification.
pub proof fn law_comparisons_lead_on(
    run: VerificationRun,
    phase: SasPhase<String>,
    step: VerifyStep<String>,
)
    requires
        call_ensures(VerificationRun::on_sas, (&run, phase), step),
    ensures
        match phase {
            SasPhase::KeysExchanged => step is Ready,
            SasPhase::Done => step is Ready,
            SasPhase::Cancelled(info) => step matches VerifyStep::Fail(message) && message@
                == "verification was cancelled"@ + ": "@ + info@,
            SasPhase::Other => step is Sync,
        },
{
}

/// After a sync a new round begins as any other does; a sync that did not succeed fails the
/// verification with its error.
pub proof fn law_syncs_lead_on(
    run: VerificationRun,
    outcome: SyncOutcome,
    step: VerifyStep<String>,
    first: VerifyStep<String>,
)
    requires
        call_ensures(VerificationRun::on_sync, (&run, outcome), step),
        call_ensures(VerificationRun::begin, (&run,), first),
    ensures
        match outcome {
            SyncOutcome::Done => (step is LookAtSas <==> first is LookAtSas) && (
            step is LookAtRequest <==> first is LookAtRequest) && (step is Sync <==> first is Sync)
                && !(step is Fail) && !(step is Ready),
            SyncOutcome::TimedOut(cause) => step matches VerifyStep::Fail(message) && message@
                == "sync timed out"@ + ": "@ + cause@,
            SyncOutcome::Failed(cause) => step matches VerifyStep::Fail(message) && message@
                == "sync failed"@ + ": "@ + cause@,
        },
{
}

/// A verification is requested of the account's own identity as soon as that is known; where it is
/// not, the server is asked once.
pub proof fn law_the_identity_is_asked_for_once(
    found: Result<bool, String>,
    local: IdentityStep<String>,
    fetched: IdentityStep<String>,
)
    requires
        call_ensures(on_own_identity, (found,), local),
        call_ensures(on_fetched_identity, (found,), fetched),
    ensures
        match found {
            Ok(true) => local is Request && fetched is Request,
            Ok(false) => local is Fetch && (fetched matches IdentityStep::Fail(message) && message@
                == "no cross-signing identity for this account - set up secure backup / cross-signing in another client (e.g. Element) first"@),
            Err(cause) => (local matches IdentityStep::Fail(message) && message@
                == "failed to look up own identity"@ + ": "@ + cause@) && (
            fetched matches IdentityStep::Fail(message) && message@
                == "failed to fetch own identity"@ + ": "@ + cause@),
        },
{
}

/// Once a confirmation was sent, the other device is waited for: until it is done or has cancelled,
/// or a sync does not succeed.
pub proof fn law_the_other_device_is_waited_for(
    sent: Result<(), String>,
    confirmed: Result<ConfirmStep<String>, String>,
    done: bool,
    cancelled: bool,
    looked: ConfirmStep<String>,
    outcome: SyncOutcome,
    after: ConfirmStep<String>,
)
    requires
        call_ensures(on_confirmed, (sent,), confirmed),
        call_ensures(on_confirmation, (done, cancelled), looked),
        call_ensures(on_confirmation_sync, (outcome,), after),
    ensures
        match sent {
            Ok(_) => confirmed matches Ok(step) && step is Look,
            Err(cause) => refused(confirmed, "failed to confirm verification"@ + ": "@ + cause@),
        },
        done ==> looked is Finished,
        !done && cancelled ==> (looked matches ConfirmStep::Fail(message) && message@
            == "the other device cancelled before completing"@),
        !done && !cancelled ==> looked is Sync,
        match outcome {
            SyncOutcome::Done => after is Look,
            SyncOutcome::TimedOut(cause) => after matches ConfirmStep::Fail(message) && message@
                == "sync timed out"@ + ": "@ + cause@,
            SyncOutcome::Failed(cause) => after matches ConfirmStep::Fail(message) && message@
                == "sync failed"@ + ": "@ + cause@,
        },
{
}

/// The secrets are waited for until they are complete, or a sync does not succeed.
pub proof fn law_the_secrets_are_waited_for(
    complete: Option<bool>,
    looked: GossipStep,
    outcome: SyncOutcome,
    after: GossipStep,
)
    requires
        call_ensures(on_cross_signing_status, (complete,), looked),
        call_ensures(on_gossip_sync, (outcome,), after),
    ensures
        complete == Some(true) ==> looked == (GossipStep::End { complete: true }),
        complete != Some(true) ==> looked == GossipStep::Sync,
        outcome is Done ==> after == GossipStep::Look,
        !(outcome is Done) ==> after == (GossipStep::End { complete: false }),
{
}

/// The answer to a confirmation claims no more than is known: the device is verified, and the
/// secrets are complete, only if that was found.
pub proof fn law_confirmation_claims_what_is_known(
    complete: Option<bool>,
    device: Result<Option<bool>, String>,
    signed: Option<bool>,
    state: BackupState,
    name: String,
    reply: Json,
)
    requires
        call_ensures(own_device_cross_signed, (device,), signed),
        call_ensures(verification_confirmed, (complete, signed, state), reply),
        call_ensures(BackupState::name, (state,), name),
    ensures
        device is Err ==> signed is None,
        device is Ok ==> signed == device->Ok_0,
        has_members(reply@, 4),
        has_member(reply@, 0, "verified"@, JsonView::Bool(signed == Some(true))),
        has_member(
            reply@,
            1,
            "cross_signing_complete"@,
            JsonView::Bool(complete == Some(true)),
        ),
        has_member(reply@, 2, "backup_state"@, JsonView::Text(name@)),
        has_member(
            reply@,
            3,
            "hint"@,
            JsonView::Text(
                if state == BackupState::Enabled {
                    "This device is verified and the key backup is unlocked - reading a room now pulls its history automatically."@
                } else {
                    "This device is verified. If the account has a key backup, its history keys should follow shortly; retry a read, or check `whoami`."@
                },
            ),
        ),
{
}

/// A manager without a session has no verification in progress.
pub proof fn law_verification_takes_a_session(manager: MatrixManager)
    requires
        manager.well_formed(),
    ensures
        manager.session is None ==> !manager.pending_verification && !manager.pending_sas,
        manager.pending_verification || manager.pending_sas ==> manager.session is Some,
{
}

} // verus!
