//! Interactive verification of this device against another session of the account.
//!
//! A driver performs the steps that the functions here ask for and reports back what it saw; the
//! functions decide what comes next.

use vstd::prelude::*;

use crate::backup::BackupState;
use crate::json::{
    no_members, optional_json, views, Fields, Json, JsonView,
};
use crate::manager::MatrixManager;
use crate::outcome::{fails_with, step_error};
use crate::sync::{sync_error, sync_once_with, SyncOutcome};
use crate::text::{first_of, in_context, with_context};

verus! {

/// Where a verification request is.
pub enum RequestPhase<S> {
    /// It has become a verification.
    Transitioned,
    /// It was cancelled, for the reason given.
    Cancelled(S),
    Done,
    /// None of these; `ready` if both sides have agreed to it.
    Other { ready: bool },
}

/// Where the comparison of short authentication strings is.
pub enum SasPhase<S> {
    /// The strings can be shown.
    KeysExchanged,
    Done,
    /// It was cancelled, for the reason given.
    Cancelled(S),
    /// None of these.
    Other,
}

/// What the driver of a verification does next.
pub enum VerifyStep<S> {
    /// Look where the request is, and report to [`VerificationRun::on_request`].
    LookAtRequest,
    /// Take the short authentication string, if any, from the verification that the request has
    /// become, and report to [`VerificationRun::on_sas_obtained`].
    TakeSas,
    /// Start a short authentication string on the request, and report to
    /// [`VerificationRun::on_sas_obtained`].
    StartSas,
    /// Look where the comparison is, and report to [`VerificationRun::on_sas`].
    LookAtSas,
    /// Sync, and report to [`VerificationRun::on_sync`].
    Sync,
    /// The emoji are ready.
    Ready,
    /// The verification has failed, with the error given.
    Fail(S),
}

pub open spec fn request_view(phase: RequestPhase<String>) -> RequestPhase<Seq<char>> {
    match phase {
        RequestPhase::Transitioned => RequestPhase::Transitioned,
        RequestPhase::Cancelled(info) => RequestPhase::Cancelled(info@),
        RequestPhase::Done => RequestPhase::Done,
        RequestPhase::Other { ready } => RequestPhase::Other { ready },
    }
}

pub open spec fn sas_view(phase: SasPhase<String>) -> SasPhase<Seq<char>> {
    match phase {
        SasPhase::KeysExchanged => SasPhase::KeysExchanged,
        SasPhase::Done => SasPhase::Done,
        SasPhase::Cancelled(info) => SasPhase::Cancelled(info@),
        SasPhase::Other => SasPhase::Other,
    }
}

pub open spec fn step_view(step: VerifyStep<String>) -> VerifyStep<Seq<char>> {
    match step {
        VerifyStep::LookAtRequest => VerifyStep::LookAtRequest,
        VerifyStep::TakeSas => VerifyStep::TakeSas,
        VerifyStep::StartSas => VerifyStep::StartSas,
        VerifyStep::LookAtSas => VerifyStep::LookAtSas,
        VerifyStep::Sync => VerifyStep::Sync,
        VerifyStep::Ready => VerifyStep::Ready,
        VerifyStep::Fail(message) => VerifyStep::Fail(message@),
    }
}

/// What a verification is driven from: whether there is a request and a short authentication
/// string, and whether this call has only just sent the request.
pub struct VerificationRun {
    pub has_request: bool,
    pub has_sas: bool,
    pub just_started: bool,
}

/// What comes first in each round of a verification.
pub open spec fn first_step(has_request: bool, has_sas: bool) -> VerifyStep<Seq<char>> {
    if has_sas {
        VerifyStep::LookAtSas
    } else if has_request {
        VerifyStep::LookAtRequest
    } else {
        VerifyStep::Sync
    }
}

/// What follows from where the request is.
pub open spec fn after_request(phase: RequestPhase<Seq<char>>) -> VerifyStep<Seq<char>> {
    match phase {
        RequestPhase::Transitioned => VerifyStep::TakeSas,
        RequestPhase::Cancelled(info) => VerifyStep::Fail(
            in_context("the other device cancelled"@, info),
        ),
        RequestPhase::Done => VerifyStep::Fail("verification finished before emoji were shown"@),
        RequestPhase::Other { ready } => if ready {
            VerifyStep::StartSas
        } else {
            VerifyStep::Sync
        },
    }
}

/// What follows once a short authentication string was taken or started: whether there is one, or
/// why not.
pub open spec fn after_sas_obtained(obtained: Result<bool, Seq<char>>) -> VerifyStep<Seq<char>> {
    match obtained {
        Ok(present) => if present {
            VerifyStep::LookAtSas
        } else {
            VerifyStep::Sync
        },
        Err(cause) => VerifyStep::Fail(
            in_context("failed to start emoji verification"@, cause),
        ),
    }
}

/// What follows from where the comparison is.
pub open spec fn after_sas(phase: SasPhase<Seq<char>>) -> VerifyStep<Seq<char>> {
    match phase {
        SasPhase::KeysExchanged => VerifyStep::Ready,
        SasPhase::Done => VerifyStep::Ready,
        SasPhase::Cancelled(info) => VerifyStep::Fail(
            in_context("verification was cancelled"@, info),
        ),
        SasPhase::Other => VerifyStep::Sync,
    }
}

/// What follows a sync, whose error is given if it failed.
pub open spec fn after_sync(
    has_request: bool,
    has_sas: bool,
    error: Option<Seq<char>>,
) -> VerifyStep<Seq<char>> {
    match error {
        Some(message) => VerifyStep::Fail(message),
        None => first_step(has_request, has_sas),
    }
}

pub open spec fn obtained_view(obtained: Result<bool, String>) -> Result<bool, Seq<char>> {
    match obtained {
        Ok(present) => Ok(present),
        Err(cause) => Err(cause@),
    }
}

impl VerificationRun {
    /// What comes first in a round.
    pub fn begin(&self) -> (step: VerifyStep<String>)
        ensures
            step_view(step) == first_step(self.has_request, self.has_sas),
    {
        if self.has_sas {
            VerifyStep::LookAtSas
        } else if self.has_request {
            VerifyStep::LookAtRequest
        } else {
            VerifyStep::Sync
        }
    }

    /// Reacts to where the request is.
    pub fn on_request(&self, phase: RequestPhase<String>) -> (step: VerifyStep<String>)
        ensures
            step_view(step) == after_request(request_view(phase)),
    {
        match phase {
            RequestPhase::Transitioned => VerifyStep::TakeSas,
            RequestPhase::Cancelled(info) => VerifyStep::Fail(
                with_context("the other device cancelled", &info),
            ),
            RequestPhase::Done => VerifyStep::Fail(
                "verification finished before emoji were shown".to_owned(),
            ),
            RequestPhase::Other { ready } => if ready {
                VerifyStep::StartSas
            } else {
                VerifyStep::Sync
            },
        }
    }

    /// Takes note of the short authentication string that was taken or started, if there is one.
    pub fn on_sas_obtained(&mut self, obtained: Result<bool, String>) -> (step: VerifyStep<String>)
        ensures
            step_view(step) == after_sas_obtained(obtained_view(obtained)),
            final(self).has_sas == match obtained {
                Ok(present) => present,
                Err(_) => old(self).has_sas,
            },
            final(self).has_request == old(self).has_request,
            final(self).just_started == old(self).just_started,
    {
        match obtained {
            Ok(present) => {
                self.has_sas = present;
                if present {
                    VerifyStep::LookAtSas
                } else {
                    VerifyStep::Sync
                }
            },
            Err(cause) => VerifyStep::Fail(
                with_context("failed to start emoji verification", &cause),
            ),
        }
    }

    /// Reacts to where the comparison is.
    pub fn on_sas(&self, phase: SasPhase<String>) -> (step: VerifyStep<String>)
        ensures
            step_view(step) == after_sas(sas_view(phase)),
    {
        match phase {
            SasPhase::KeysExchanged => VerifyStep::Ready,
            SasPhase::Done => VerifyStep::Ready,
            SasPhase::Cancelled(info) => VerifyStep::Fail(
                with_context("verification was cancelled", &info),
            ),
            SasPhase::Other => VerifyStep::Sync,
        }
    }

    /// Reacts to a sync: a failed one ends the verification, and after any other a new round
    /// begins.
    pub fn on_sync(&self, outcome: SyncOutcome) -> (step: VerifyStep<String>)
        ensures
            step_view(step) == after_sync(self.has_request, self.has_sas, sync_error(outcome)),
    {
        match sync_once_with(outcome) {
            Ok(()) => self.begin(),
            Err(message) => VerifyStep::Fail(message),
        }
    }
}

/// What there is to see in one round of a verification, whether or not the round looks at it.
pub ghost struct Round {
    pub request: RequestPhase<Seq<char>>,
    /// Whether the verification that the request has become holds a short authentication string.
    pub taken: bool,
    /// How starting a short authentication string on the request ends.
    pub started: Result<bool, Seq<char>>,
    pub sas: SasPhase<Seq<char>>,
    pub sync_error: Option<Seq<char>>,
}

/// How one round of a verification ends: ready, failed, or with another round to come.
pub ghost enum RoundEnd {
    Ready,
    Failed(Seq<char>),
    Again { has_sas: bool },
}

/// One round: without a short authentication string, the request is asked for one; with one, the
/// comparison is looked at; and where neither ends the verification, a sync follows.
pub open spec fn round_end(has_request: bool, has_sas: bool, round: Round) -> RoundEnd {
    let obtained: Result<bool, Seq<char>> = if has_sas || !has_request {
        Ok(has_sas)
    } else {
        match round.request {
            RequestPhase::Transitioned => Ok(round.taken),
            RequestPhase::Cancelled(info) => Err(in_context("the other device cancelled"@, info)),
            RequestPhase::Done => Err("verification finished before emoji were shown"@),
            RequestPhase::Other { ready } => if ready {
                match round.started {
                    Ok(present) => Ok(present),
                    Err(cause) => Err(
                        in_context("failed to start emoji verification"@, cause),
                    ),
                }
            } else {
                Ok(false)
            },
        }
    };
    match obtained {
        Err(message) => RoundEnd::Failed(message),
        Ok(present) => if present && (round.sas is KeysExchanged || round.sas is Done) {
            RoundEnd::Ready
        } else if present && round.sas is Cancelled {
            RoundEnd::Failed(in_context("verification was cancelled"@, round.sas->Cancelled_0))
        } else {
            match round.sync_error {
                Some(message) => RoundEnd::Failed(message),
                None => RoundEnd::Again { has_sas: present },
            }
        },
    }
}

/// How a verification ends that goes through the given rounds: `Again` if it outlasts them.
pub open spec fn rounds_end(has_request: bool, has_sas: bool, rounds: Seq<Round>) -> RoundEnd
    decreases rounds.len(),
{
    if rounds.len() == 0 {
        RoundEnd::Again { has_sas }
    } else {
        match round_end(has_request, has_sas, rounds[0]) {
            RoundEnd::Again { has_sas } => rounds_end(has_request, has_sas, rounds.drop_first()),
            end => end,
        }
    }
}

/// What a driver that is asked for a step, and that sees what is given, comes to within the round.
pub open spec fn driven(
    has_request: bool,
    has_sas: bool,
    step: VerifyStep<Seq<char>>,
    round: Round,
    fuel: nat,
) -> Option<RoundEnd>
    decreases fuel,
{
    if fuel == 0 {
        None
    } else {
        let fuel = (fuel - 1) as nat;
        match step {
            VerifyStep::LookAtRequest => driven(
                has_request,
                has_sas,
                after_request(round.request),
                round,
                fuel,
            ),
            VerifyStep::TakeSas => driven(
                has_request,
                round.taken,
                after_sas_obtained(Ok(round.taken)),
                round,
                fuel,
            ),
            VerifyStep::StartSas => driven(
                has_request,
                match round.started {
                    Ok(present) => present,
                    Err(_) => has_sas,
                },
                after_sas_obtained(round.started),
                round,
                fuel,
            ),
            VerifyStep::LookAtSas => driven(has_request, has_sas, after_sas(round.sas), round, fuel),
            VerifyStep::Sync => match round.sync_error {
                Some(message) => Some(RoundEnd::Failed(message)),
                None => Some(RoundEnd::Again { has_sas }),
            },
            VerifyStep::Ready => Some(RoundEnd::Ready),
            VerifyStep::Fail(message) => Some(RoundEnd::Failed(message)),
        }
    }
}

/// A driver that does what the steps ask for goes through exactly one round, and needs no more
/// than four steps for it.
pub proof fn law_steps_make_a_round(has_request: bool, has_sas: bool, round: Round)
    ensures
        driven(has_request, has_sas, first_step(has_request, has_sas), round, 4) == Some(
            round_end(has_request, has_sas, round),
        ),
{
    reveal_with_fuel(driven, 5);
}

/// The emoji are only reported ready while there is a short authentication string to show them
/// from: a round that ends so began with one, or obtained one from a request.
pub proof fn law_ready_needs_a_sas(has_request: bool, has_sas: bool, round: Round)
    ensures
        round_end(has_request, has_sas, round) is Ready ==> {
            &&& has_sas || has_request
            &&& round.sas is KeysExchanged || round.sas is Done
            &&& has_sas || (round.request is Transitioned && round.taken) || (
            round.request is Other && round.request->ready && round.started == Ok::<
                bool,
                Seq<char>,
            >(true))
        },
{
}

/// A short authentication string, once obtained, is not lost: the rounds to come start with it.
pub proof fn law_sas_is_kept(has_request: bool, rounds: Seq<Round>)
    ensures
        rounds_end(has_request, true, rounds) matches RoundEnd::Again { has_sas } ==> has_sas,
    decreases rounds.len(),
{
    if rounds.len() > 0 {
        law_sas_is_kept(has_request, rounds.drop_first());
    }
}

/// A verification that is interrupted and continued comes to the same end as one that is not: what
/// is kept of the first part is all that the second part needs.
pub proof fn law_continuing_resumes(
    has_request: bool,
    has_sas: bool,
    first: Seq<Round>,
    second: Seq<Round>,
)
    ensures
        rounds_end(has_request, has_sas, first + second) == match rounds_end(
            has_request,
            has_sas,
            first,
        ) {
            RoundEnd::Again { has_sas } => rounds_end(has_request, has_sas, second),
            end => end,
        },
    decreases first.len(),
{
    if first.len() == 0 {
        assert(first + second =~= second);
    } else {
        assert((first + second).drop_first() =~= first.drop_first() + second);
        assert((first + second)[0] == first[0]);
        match round_end(has_request, has_sas, first[0]) {
            RoundEnd::Again { has_sas } => {
                law_continuing_resumes(has_request, has_sas, first.drop_first(), second);
            },
            _ => {},
        }
    }
}

/// One emoji of a short authentication string.
pub struct Emoji {
    pub symbol: String,
    pub description: String,
}

/// What there is to compare once the keys are exchanged.
pub struct ShortAuth {
    pub emoji: Option<Vec<Emoji>>,
    pub decimals: Option<(u16, u16, u16)>,
}

/// How a verification that was driven for one step budget ended.
pub enum RunEnd {
    Ready(ShortAuth),
    Failed(String),
    /// The budget elapsed.
    TimedOut,
}

pub open spec fn emoji_json(emoji: Emoji) -> JsonView {
    JsonView::Object(
        no_members().push(("symbol"@, JsonView::Text(emoji.symbol@))).push(
            ("description"@, JsonView::Text(emoji.description@)),
        ),
    )
}

pub open spec fn emoji_list_json(emoji: Option<Vec<Emoji>>) -> JsonView {
    match emoji {
        Some(list) => JsonView::List(list@.map_values(|emoji: Emoji| emoji_json(emoji))),
        None => JsonView::Null,
    }
}

pub open spec fn decimals_json(decimals: Option<(u16, u16, u16)>) -> JsonView {
    match decimals {
        Some((a, b, c)) => JsonView::List(
            Seq::<JsonView>::empty().push(JsonView::Count(a as nat)).push(
                JsonView::Count(b as nat),
            ).push(JsonView::Count(c as nat)),
        ),
        None => JsonView::Null,
    }
}

pub open spec fn ready_json(auth: ShortAuth) -> JsonView {
    JsonView::Object(
        no_members().push(("status"@, JsonView::Text("awaiting_confirmation"@))).push(
            ("emoji"@, emoji_list_json(auth.emoji)),
        ).push(("decimals"@, decimals_json(auth.decimals))).push(
            (
                "instructions"@,
                JsonView::Text(
                    "Compare these against what your other session shows. If they match, call `confirm_device_verification`; if not, call `cancel_device_verification`."@,
                ),
            ),
        ),
    )
}

pub open spec fn pending_json(just_started: bool) -> JsonView {
    JsonView::Object(
        no_members().push(("status"@, JsonView::Text("pending"@))).push(
            (
                "instructions"@,
                JsonView::Text(
                    if just_started {
                        "Accept the verification request in your other session (e.g. Element), then call `continue_device_verification` to fetch the emoji."@
                    } else {
                        "Still waiting for the other session to accept - accept the request there, then call `continue_device_verification` again."@
                    },
                ),
            ),
        ),
    )
}

fn emoji_to_json(emoji: &Option<Vec<Emoji>>) -> (json: Json)
    ensures
        json@ == emoji_list_json(*emoji),
{
    match emoji {
        Some(list) => {
            let mut items: Vec<Json> = Vec::new();
            let mut i: usize = 0;
            while i < list.len()
                invariant
                    i <= list.len(),
                    items.len() == i,
                    forall|k: int| 0 <= k < i ==> (#[trigger] items@[k])@ == emoji_json(list@[k]),
                decreases list.len() - i,
            {
                items.push(
                    Fields::new().with("symbol", Json::text(&list[i].symbol)).with(
                        "description",
                        Json::text(&list[i].description),
                    ).done(),
                );
                i = i + 1;
            }
            proof {
                assert(views(items@) =~= list@.map_values(|emoji: Emoji| emoji_json(emoji)));
            }
            Json::list(items)
        },
        None => Json::Null,
    }
}

fn decimals_to_json(decimals: Option<(u16, u16, u16)>) -> (json: Json)
    ensures
        json@ == decimals_json(decimals),
{
    match decimals {
        Some((a, b, c)) => {
            let mut items: Vec<Json> = Vec::new();
            items.push(Json::Count(a as u64));
            items.push(Json::Count(b as u64));
            items.push(Json::Count(c as u64));
            proof {
                assert(views(items@) =~= decimals_json(decimals)->List_0);
            }
            Json::list(items)
        },
        None => Json::Null,
    }
}

/// What a verification that was driven for one step budget leaves behind, and what is reported of
/// it. A failure tears the flow down so a retry starts clean; otherwise the progress is kept, so
/// that a follow-up call can resume.
pub open spec fn advanced(
    before: MatrixManager,
    after: MatrixManager,
    run: VerificationRun,
    end: RunEnd,
    reply: Result<Json, String>,
) -> bool {
    &&& after.same_settings(before)
    &&& after.session == before.session
    &&& match end {
        RunEnd::Failed(message) => {
            &&& !after.pending_verification
            &&& !after.pending_sas
            &&& reply matches Err(error) && error@ == message@
        },
        RunEnd::Ready(auth) => {
            &&& after.pending_verification == before.pending_verification
            &&& after.pending_sas == run.has_sas
            &&& reply matches Ok(json) && json@ == ready_json(auth)
        },
        RunEnd::TimedOut => {
            &&& after.pending_verification == before.pending_verification
            &&& after.pending_sas == run.has_sas
            &&& reply matches Ok(json) && json@ == pending_json(run.just_started)
        },
    }
}

/// What starting a verification leaves behind: a clean slate, unless it cannot be started.
pub open spec fn started(
    before: MatrixManager,
    after: MatrixManager,
    user_id: Result<String, String>,
) -> bool {
    &&& fails_with(user_id, before.start_error())
    &&& after.same_but_pending(before)
    &&& match user_id {
        Ok(user_id) => {
            &&& before.session matches Some(session) && session.user_id == Some(user_id)
            &&& !after.pending_verification
            &&& !after.pending_sas
        },
        Err(_) => after == before,
    }
}

/// What sending the verification request leaves behind, and what the verification is driven from.
pub open spec fn requested(
    before: MatrixManager,
    after: MatrixManager,
    sent: Result<(), String>,
    run: Result<VerificationRun, String>,
) -> bool {
    &&& fails_with(run, step_error(sent, "failed to send verification request"@))
    &&& after.same_but_pending(before)
    &&& after.pending_sas == before.pending_sas
    &&& match run {
        Ok(run) => {
            &&& after.pending_verification
            &&& run.has_request
            &&& run.has_sas == before.pending_sas
            &&& run.just_started
        },
        Err(_) => after == before,
    }
}

/// What calling a verification off leaves behind, what is cancelled and what is reported.
pub open spec fn called_off(
    before: MatrixManager,
    after: MatrixManager,
    action: CancelAction,
    reply: JsonView,
) -> bool {
    &&& after.same_but_pending(before)
    &&& !after.pending_verification
    &&& !after.pending_sas
    &&& action == if before.pending_sas {
        CancelAction::Sas
    } else if before.pending_verification {
        CancelAction::Request
    } else {
        CancelAction::Nothing
    }
    &&& reply == cancelled_json(before.pending_sas || before.pending_verification)
}

/// What follows from whether the account's own identity was found.
pub enum IdentityStep<S> {
    /// Send it a verification request.
    Request,
    /// Ask the server for it.
    Fetch,
    Fail(S),
}

pub open spec fn identity_view(step: IdentityStep<String>) -> IdentityStep<Seq<char>> {
    match step {
        IdentityStep::Request => IdentityStep::Request,
        IdentityStep::Fetch => IdentityStep::Fetch,
        IdentityStep::Fail(message) => IdentityStep::Fail(message@),
    }
}

/// What a driver that waits for the other device does next.
pub enum ConfirmStep<S> {
    /// Look whether the verification is done or cancelled.
    Look,
    Sync,
    Finished,
    Fail(S),
}

pub open spec fn confirm_view(step: ConfirmStep<String>) -> ConfirmStep<Seq<char>> {
    match step {
        ConfirmStep::Look => ConfirmStep::Look,
        ConfirmStep::Sync => ConfirmStep::Sync,
        ConfirmStep::Finished => ConfirmStep::Finished,
        ConfirmStep::Fail(message) => ConfirmStep::Fail(message@),
    }
}

/// What follows from where the confirmed verification is.
pub open spec fn after_look(done: bool, cancelled: bool) -> ConfirmStep<Seq<char>> {
    if done {
        ConfirmStep::Finished
    } else if cancelled {
        ConfirmStep::Fail("the other device cancelled before completing"@)
    } else {
        ConfirmStep::Sync
    }
}

/// What follows a sync while waiting for the other device.
pub open spec fn after_wait_sync(error: Option<Seq<char>>) -> ConfirmStep<Seq<char>> {
    match error {
        Some(message) => ConfirmStep::Fail(message),
        None => ConfirmStep::Look,
    }
}

/// What there is to see in one round of waiting for the other device.
pub ghost struct WaitRound {
    pub done: bool,
    pub cancelled: bool,
    pub sync_error: Option<Seq<char>>,
}

/// Where the wait for the other device stands after the given rounds: at the step that ended it, or
/// at `Look` if it outlasts them.
pub open spec fn waited(rounds: Seq<WaitRound>) -> ConfirmStep<Seq<char>>
    decreases rounds.len(),
{
    if rounds.len() == 0 {
        ConfirmStep::Look
    } else {
        match after_look(rounds[0].done, rounds[0].cancelled) {
            ConfirmStep::Sync => match after_wait_sync(rounds[0].sync_error) {
                ConfirmStep::Look => waited(rounds.drop_first()),
                end => end,
            },
            end => end,
        }
    }
}

/// Whether a round of waiting leaves everything open.
pub open spec fn still_waiting(round: WaitRound) -> bool {
    !round.done && !round.cancelled && round.sync_error is None
}

/// How the wait for the other device to finish ended.
pub enum ConfirmEnd {
    Finished,
    Failed(String),
    TimedOut,
}

/// The error of a wait for the other device, if it did not finish.
pub open spec fn wait_error(end: ConfirmEnd) -> Option<Seq<char>> {
    match end {
        ConfirmEnd::Finished => None,
        ConfirmEnd::Failed(message) => Some(message@),
        ConfirmEnd::TimedOut => Some(
            "timed out waiting for the other device to finish verifying"@,
        ),
    }
}

/// What a driver that waits for the other device's secrets does next.
#[derive(Clone, Copy, PartialEq, Eq, Debug, Structural)]
pub enum GossipStep {
    /// Look whether the cross-signing secrets are complete.
    Look,
    Sync,
    /// The wait is over; `complete` if the secrets have arrived.
    End { complete: bool },
}

/// What follows from the cross-signing secrets that have arrived so far.
pub open spec fn after_status(complete: Option<bool>) -> GossipStep {
    if complete == Some(true) {
        GossipStep::End { complete: true }
    } else {
        GossipStep::Sync
    }
}

/// What follows a sync while waiting for the secrets.
pub open spec fn after_gossip_sync(failed: bool) -> GossipStep {
    if failed {
        GossipStep::End { complete: false }
    } else {
        GossipStep::Look
    }
}

/// What there is to see in one round of waiting for the secrets.
pub ghost struct GossipRound {
    pub complete: Option<bool>,
    pub sync_failed: bool,
}

/// Where the wait for the secrets stands after the given rounds: at the step that ended it, or at
/// `Look` if it outlasts them.
pub open spec fn gossiped(rounds: Seq<GossipRound>) -> GossipStep
    decreases rounds.len(),
{
    if rounds.len() == 0 {
        GossipStep::Look
    } else {
        match after_status(rounds[0].complete) {
            GossipStep::Sync => match after_gossip_sync(rounds[0].sync_failed) {
                GossipStep::Look => gossiped(rounds.drop_first()),
                end => end,
            },
            end => end,
        }
    }
}

/// Whether a round of waiting for the secrets leaves everything open.
pub open spec fn still_gossiping(round: GossipRound) -> bool {
    round.complete != Some(true) && !round.sync_failed
}

/// How a wait for the secrets ended, given the rounds that there was time for: `None` if it ran out
/// of time.
pub open spec fn gossip_outcome(rounds: Seq<GossipRound>) -> Option<bool> {
    match gossiped(rounds) {
        GossipStep::End { complete } => Some(complete),
        _ => None,
    }
}

/// What is cancelled, if anything, when a verification is called off.
#[derive(Clone, Copy, PartialEq, Eq, Debug, Structural)]
pub enum CancelAction {
    Sas,
    Request,
    Nothing,
}

pub open spec fn confirmed_json(
    verified: bool,
    cross_signing_complete: bool,
    state: BackupState,
) -> JsonView {
    JsonView::Object(
        no_members().push(("verified"@, JsonView::Bool(verified))).push(
            ("cross_signing_complete"@, JsonView::Bool(cross_signing_complete)),
        ).push(("backup_state"@, JsonView::Text(state.title()))).push(
            (
                "hint"@,
                JsonView::Text(
                    if state == BackupState::Enabled {
                        "This device is verified and the key backup is unlocked - reading a room now pulls its history automatically."@
                    } else {
                        "This device is verified. If the account has a key backup, its history keys should follow shortly; retry a read, or check `whoami`."@
                    },
                ),
            ),
        ),
    )
}

pub open spec fn cancelled_json(had_flow: bool) -> JsonView {
    JsonView::Object(
        no_members().push(("cancelled"@, JsonView::Bool(had_flow))).push(
            (
                "note"@,
                optional_json(
                    if had_flow {
                        None
                    } else {
                        Some("no verification was in progress"@)
                    },
                ),
            ),
        ),
    )
}

impl MatrixManager {
    /// The error of starting a verification, if it cannot be.
    pub open spec fn start_error(self) -> Option<Seq<char>> {
        first_of(
            self.connection_error(),
            match self.session {
                Some(session) => if session.user_id is None {
                    Some("not logged in"@)
                } else {
                    None
                },
                None => None,
            },
        )
    }

    /// The error of continuing a verification, if there is none.
    pub open spec fn continue_error(self) -> Option<Seq<char>> {
        first_of(
            self.connection_error(),
            if !self.pending_verification && !self.pending_sas {
                Some("no verification in progress - run `start_device_verification` first"@)
            } else {
                None
            },
        )
    }

    /// The error of confirming a verification, if there is nothing to confirm.
    pub open spec fn confirm_error(self) -> Option<Seq<char>> {
        first_of(
            self.connection_error(),
            if !self.pending_sas {
                Some(
                    "no emoji to confirm yet - run `start_device_verification` (and `continue_device_verification`) until it returns emoji first"@,
                )
            } else {
                None
            },
        )
    }

    /// Whether nothing but the verification in progress differs between two managers.
    pub open spec fn same_but_pending(self, other: MatrixManager) -> bool {
        self.same_settings(other) && self.session == other.session
    }

    /// Drop any stored verification request and short authentication string.
    pub fn clear_pending_verification(&mut self)
        ensures
            final(self).same_but_pending(*old(self)),
            !final(self).pending_verification,
            !final(self).pending_sas,
            final(self).well_formed(),
    {
        self.pending_sas = false;
        self.pending_verification = false;
    }

    /// Begin verifying this device against the user's other, already-verified session (e.g.
    /// Element). Clears any leftover flow from a previous attempt - two concurrent requests make
    /// the other device cancel - and gives the account whose identity is to be looked up next.
    pub fn start_device_verification(&mut self) -> (user_id: Result<String, String>)
        ensures
            started(*old(self), *final(self), user_id),
            old(self).well_formed() ==> final(self).well_formed(),
    {
        let user_id = match self.connected_client() {
            Ok(session) => match &session.user_id {
                Some(user_id) => user_id.clone(),
                None => return Err("not logged in".to_owned()),
            },
            Err(message) => return Err(message),
        };
        self.clear_pending_verification();
        Ok(user_id)
    }

    /// Takes note of the verification request that was sent, and gives what the verification is
    /// driven from.
    pub fn verification_requested(&mut self, sent: Result<(), String>) -> (run: Result<
        VerificationRun,
        String,
    >)
        ensures
            requested(*old(self), *final(self), sent, run),
            old(self).session is Some ==> final(self).well_formed(),
    {
        match sent {
            Ok(()) => {
                self.pending_verification = true;
                Ok(
                    VerificationRun {
                        has_request: true,
                        has_sas: self.pending_sas,
                        just_started: true,
                    },
                )
            },
            Err(cause) => Err(with_context("failed to send verification request", &cause)),
        }
    }

    /// Resume an in-progress verification started with `start_device_verification`: gives what the
    /// verification is driven from.
    pub fn continue_device_verification(&self) -> (run: Result<VerificationRun, String>)
        ensures
            fails_with(run, self.continue_error()),
            run matches Ok(run) ==> {
                &&& run.has_request == self.pending_verification
                &&& run.has_sas == self.pending_sas
                &&& !run.just_started
            },
    {
        match self.connected_client() {
            Ok(_) => {},
            Err(message) => return Err(message),
        }
        if !self.pending_verification && !self.pending_sas {
            return Err(
                "no verification in progress - run `start_device_verification` first".to_owned(),
            );
        }
        Ok(
            VerificationRun {
                has_request: self.pending_verification,
                has_sas: self.pending_sas,
                just_started: false,
            },
        )
    }

    /// Takes note of a verification that was driven for one step budget, and reports it: the emoji
    /// if they became ready within the budget, a "pending" status if it elapsed, so the caller can
    /// poll again, or the error that ended the verification.
    pub fn advance_verification(&mut self, run: VerificationRun, end: RunEnd) -> (reply: Result<
        Json,
        String,
    >)
        ensures
            advanced(*old(self), *final(self), run, end, reply),
            old(self).session is Some ==> final(self).well_formed(),
    {
        self.pending_sas = run.has_sas;
        match end {
            RunEnd::Failed(message) => {
                self.clear_pending_verification();
                Err(message)
            },
            RunEnd::Ready(auth) => {
                let emoji = emoji_to_json(&auth.emoji);
                let decimals = decimals_to_json(auth.decimals);
                Ok(
                    Fields::new().with("status", Json::text("awaiting_confirmation")).with(
                        "emoji",
                        emoji,
                    ).with("decimals", decimals).with(
                        "instructions",
                        Json::text(
                            "Compare these against what your other session shows. If they match, call `confirm_device_verification`; if not, call `cancel_device_verification`.",
                        ),
                    ).done(),
                )
            },
            RunEnd::TimedOut => {
                let instructions = if run.just_started {
                    "Accept the verification request in your other session (e.g. Element), then call `continue_device_verification` to fetch the emoji."
                } else {
                    "Still waiting for the other session to accept - accept the request there, then call `continue_device_verification` again."
                };
                Ok(
                    Fields::new().with("status", Json::text("pending")).with(
                        "instructions",
                        Json::text(instructions),
                    ).done(),
                )
            },
        }
    }

    /// Confirm that the emoji from the start/continue step match the other device: whether there
    /// is a short authentication string to confirm.
    pub fn confirm_device_verification(&self) -> (ready: Result<(), String>)
        ensures
            fails_with(ready, self.confirm_error()),
    {
        match self.connected_client() {
            Ok(_) => {},
            Err(message) => return Err(message),
        }
        if !self.pending_sas {
            return Err(
                "no emoji to confirm yet - run `start_device_verification` (and `continue_device_verification`) until it returns emoji first".to_owned(),
            );
        }
        Ok(())
    }

    /// Takes note of how the wait for the other device ended. The flow is over (or wedged) either
    /// way, so the stored state is dropped. Once the other device has finished, its secrets are
    /// waited for.
    pub fn conclude_confirmation(&mut self, end: ConfirmEnd) -> (step: Result<GossipStep, String>)
        ensures
            fails_with(step, wait_error(end)),
            step matches Ok(step) ==> step == GossipStep::Look,
            final(self).same_but_pending(*old(self)),
            !final(self).pending_verification,
            !final(self).pending_sas,
            final(self).well_formed(),
    {
        self.clear_pending_verification();
        match end {
            ConfirmEnd::Finished => Ok(GossipStep::Look),
            ConfirmEnd::Failed(message) => Err(message),
            ConfirmEnd::TimedOut => Err(
                "timed out waiting for the other device to finish verifying".to_owned(),
            ),
        }
    }

    /// Abort the in-progress device verification (e.g. the emoji didn't match). Says what is to be
    /// cancelled - the short authentication string, where there is one - and what is reported.
    pub fn cancel_device_verification(&mut self) -> (cancelled: (CancelAction, Json))
        ensures
            called_off(*old(self), *final(self), cancelled.0, cancelled.1@),
            final(self).well_formed(),
    {
        let action = if self.pending_sas {
            CancelAction::Sas
        } else if self.pending_verification {
            CancelAction::Request
        } else {
            CancelAction::Nothing
        };
        let had_flow: bool = self.pending_sas || self.pending_verification;
        self.clear_pending_verification();
        let note = if had_flow {
            Json::Null
        } else {
            Json::text("no verification was in progress")
        };
        (action, Fields::new().with("cancelled", Json::Bool(had_flow)).with("note", note).done())
    }
}

/// Reacts to the look-up of the account's own cross-signing identity, which is needed to request
/// self-verification: where it is not at hand yet, the server is asked for it.
pub fn on_own_identity(found: Result<bool, String>) -> (step: IdentityStep<String>)
    ensures
        identity_view(step) == match found {
            Ok(true) => IdentityStep::Request,
            Ok(false) => IdentityStep::Fetch,
            Err(cause) => IdentityStep::Fail(
                in_context("failed to look up own identity"@, cause@),
            ),
        },
{
    match found {
        Ok(true) => IdentityStep::Request,
        Ok(false) => IdentityStep::Fetch,
        Err(cause) => IdentityStep::Fail(with_context("failed to look up own identity", &cause)),
    }
}

/// Reacts to what the server knows of the account's own cross-signing identity.
pub fn on_fetched_identity(found: Result<bool, String>) -> (step: IdentityStep<String>)
    ensures
        identity_view(step) == match found {
            Ok(true) => IdentityStep::Request,
            Ok(false) => IdentityStep::Fail(
                "no cross-signing identity for this account - set up secure backup / cross-signing in another client (e.g. Element) first"@,
            ),
            Err(cause) => IdentityStep::Fail(in_context("failed to fetch own identity"@, cause@)),
        },
{
    match found {
        Ok(true) => IdentityStep::Request,
        Ok(false) => IdentityStep::Fail(
            "no cross-signing identity for this account - set up secure backup / cross-signing in another client (e.g. Element) first".to_owned(),
        ),
        Err(cause) => IdentityStep::Fail(with_context("failed to fetch own identity", &cause)),
    }
}

/// Reacts to the confirmation that was sent to the other device. One that could not be sent leaves
/// the verification in progress; otherwise the other device is waited for.
pub fn on_confirmed(outcome: Result<(), String>) -> (step: Result<ConfirmStep<String>, String>)
    ensures
        fails_with(step, step_error(outcome, "failed to confirm verification"@)),
        step matches Ok(step) ==> step is Look,
{
    match outcome {
        Ok(()) => Ok(ConfirmStep::Look),
        Err(cause) => Err(with_context("failed to confirm verification", &cause)),
    }
}

/// Reacts to where the confirmed verification is.
pub fn on_confirmation(done: bool, cancelled: bool) -> (step: ConfirmStep<String>)
    ensures
        confirm_view(step) == after_look(done, cancelled),
{
    if done {
        ConfirmStep::Finished
    } else if cancelled {
        ConfirmStep::Fail("the other device cancelled before completing".to_owned())
    } else {
        ConfirmStep::Sync
    }
}

/// Reacts to a sync while waiting for the other device.
pub fn on_confirmation_sync(outcome: SyncOutcome) -> (step: ConfirmStep<String>)
    ensures
        confirm_view(step) == after_wait_sync(sync_error(outcome)),
{
    match sync_once_with(outcome) {
        Ok(()) => ConfirmStep::Look,
        Err(message) => ConfirmStep::Fail(message),
    }
}

/// Reacts to the cross-signing secrets that have arrived so far, where their status is known.
pub fn on_cross_signing_status(complete: Option<bool>) -> (step: GossipStep)
    ensures
        step == after_status(complete),
{
    match complete {
        Some(true) => GossipStep::End { complete: true },
        _ => GossipStep::Sync,
    }
}

/// Reacts to a sync while waiting for the secrets.
pub fn on_gossip_sync(outcome: SyncOutcome) -> (step: GossipStep)
    ensures
        step == after_gossip_sync(sync_error(outcome) is Some),
{
    match sync_once_with(outcome) {
        Ok(()) => GossipStep::Look,
        Err(_) => GossipStep::End { complete: false },
    }
}

/// Whether this device has been cross-signed by the account owner, i.e. verified by another
/// session, from the device that was read. `None` if the device can't be read.
pub fn own_device_cross_signed(device: Result<Option<bool>, String>) -> (signed: Option<bool>)
    ensures
        signed == match device {
            Ok(signed) => signed,
            Err(_) => None,
        },
{
    match device {
        Ok(signed) => signed,
        Err(_) => None,
    }
}

/// Reports a confirmed verification: whether this device is now verified and can read history.
/// `complete` is how the wait for the secrets ended, unless it ran out of time.
pub fn verification_confirmed(
    complete: Option<bool>,
    device_verified: Option<bool>,
    state: BackupState,
) -> (reply: Json)
    ensures
        reply@ == confirmed_json(
            device_verified == Some(true),
            complete == Some(true),
            state,
        ),
{
    let cross_signing_complete: bool = match complete {
        Some(complete) => complete,
        None => false,
    };
    let verified: bool = match device_verified {
        Some(verified) => verified,
        None => false,
    };
    let hint = if state.is_enabled() {
        "This device is verified and the key backup is unlocked - reading a room now pulls its history automatically."
    } else {
        "This device is verified. If the account has a key backup, its history keys should follow shortly; retry a read, or check `whoami`."
    };
    Fields::new().with("verified", Json::Bool(verified)).with(
        "cross_signing_complete",
        Json::Bool(cross_signing_complete),
    ).with("backup_state", Json::Text(state.name())).with("hint", Json::text(hint)).done()
}

/// A verification that failed leaves nothing behind: there is nothing to continue and nothing to
/// confirm.
pub proof fn law_failed_verification_is_over(
    before: MatrixManager,
    after: MatrixManager,
    run: VerificationRun,
    end: RunEnd,
    reply: Result<Json, String>,
)
    requires
        advanced(before, after, run, end, reply),
        end is Failed,
    ensures
        after.continue_error() is Some,
        after.confirm_error() is Some,
{
}

/// A verification whose budget elapsed can be continued, from where it was.
pub proof fn law_pending_verification_can_be_continued(
    before: MatrixManager,
    after: MatrixManager,
    run: VerificationRun,
    end: RunEnd,
    reply: Result<Json, String>,
)
    requires
        advanced(before, after, run, end, reply),
        end is TimedOut,
        before.continue_error() is None,
        run.has_request == before.pending_verification,
        before.pending_sas ==> run.has_sas,
    ensures
        after.continue_error() is None,
        after.pending_verification == run.has_request,
        after.pending_sas == run.has_sas,
{
}

/// Once the emoji are reported, and as the run that found them had a short authentication string,
/// they can be confirmed.
pub proof fn law_ready_emoji_can_be_confirmed(
    before: MatrixManager,
    after: MatrixManager,
    run: VerificationRun,
    end: RunEnd,
    reply: Result<Json, String>,
)
    requires
        advanced(before, after, run, end, reply),
        end is Ready,
        run.has_sas,
        before.connection_error() is None,
    ensures
        after.confirm_error() is None,
{
}

/// There are emoji to confirm only where there is a verification to continue.
pub proof fn law_confirming_needs_a_verification(manager: MatrixManager)
    ensures
        manager.confirm_error() is None ==> manager.continue_error() is None,
{
}

/// A new verification starts clean, whatever was in progress before: it is driven from its request
/// alone.
pub proof fn law_new_verification_starts_clean(
    before: MatrixManager,
    between: MatrixManager,
    after: MatrixManager,
    user_id: Result<String, String>,
    sent: Result<(), String>,
    run: Result<VerificationRun, String>,
)
    requires
        started(before, between, user_id),
        user_id is Ok,
        requested(between, after, sent, run),
    ensures
        !after.pending_sas,
        run matches Ok(run) ==> first_step(run.has_request, run.has_sas) is LookAtRequest,
        run is Err ==> after.continue_error() is Some,
{
}

/// Calling a verification off twice finds nothing to cancel the second time.
pub proof fn law_calling_off_twice_finds_nothing(
    before: MatrixManager,
    between: MatrixManager,
    after: MatrixManager,
    first: (CancelAction, JsonView),
    second: (CancelAction, JsonView),
)
    requires
        called_off(before, between, first.0, first.1),
        called_off(between, after, second.0, second.1),
    ensures
        second.0 == CancelAction::Nothing,
        second.1 == cancelled_json(false),
        between.continue_error() is Some,
        between.confirm_error() is Some,
{
}

/// The wait for the other device finishes exactly when that device is done in some round, and up to
/// then neither cancelled nor kept from a sync.
pub proof fn law_waiting_ends_with_the_other_device(rounds: Seq<WaitRound>)
    ensures
        waited(rounds) is Finished <==> exists|i: int|
            0 <= i < rounds.len() && (#[trigger] rounds[i]).done && forall|k: int|
                0 <= k < i ==> still_waiting(#[trigger] rounds[k]),
    decreases rounds.len(),
{
    if rounds.len() > 0 {
        let rest = rounds.drop_first();
        law_waiting_ends_with_the_other_device(rest);
        if rounds[0].done {
            assert(rounds[0].done && forall|k: int|
                0 <= k < 0 ==> still_waiting(#[trigger] rounds[k]));
        } else if still_waiting(rounds[0]) {
            if waited(rest) is Finished {
                let i = choose|i: int|
                    0 <= i < rest.len() && (#[trigger] rest[i]).done && forall|k: int|
                        0 <= k < i ==> still_waiting(#[trigger] rest[k]);
                assert(rounds[i + 1].done);
                assert forall|k: int| 0 <= k < i + 1 implies still_waiting(#[trigger] rounds[k]) by {
                    if k > 0 {
                        assert(still_waiting(rest[k - 1]));
                    }
                }
            }
            if exists|i: int|
                0 <= i < rounds.len() && (#[trigger] rounds[i]).done && forall|k: int|
                    0 <= k < i ==> still_waiting(#[trigger] rounds[k]) {
                let i = choose|i: int|
                    0 <= i < rounds.len() && (#[trigger] rounds[i]).done && forall|k: int|
                        0 <= k < i ==> still_waiting(#[trigger] rounds[k]);
                assert(rest[i - 1].done);
                assert forall|k: int| 0 <= k < i - 1 implies still_waiting(#[trigger] rest[k]) by {
                    assert(still_waiting(rounds[k + 1]));
                }
            }
        } else {
            assert forall|i: int|
                0 <= i < rounds.len() && (#[trigger] rounds[i]).done implies !(forall|k: int|
                0 <= k < i ==> still_waiting(#[trigger] rounds[k])) by {
                assert(!still_waiting(rounds[0]));
            }
        }
    }
}

/// The wait for the secrets finds them complete exactly if they are complete in some round, and no
/// sync failed before; it is given up exactly if a sync fails in a round up to which they were not
/// complete; and it runs out of time exactly if neither happens in any round that there is time for.
pub proof fn law_secrets_are_complete_once_they_arrive(rounds: Seq<GossipRound>)
    ensures
        gossip_outcome(rounds) == Some(true) <==> exists|i: int|
            0 <= i < rounds.len() && (#[trigger] rounds[i]).complete == Some(true) && forall|k: int|
                0 <= k < i ==> !(#[trigger] rounds[k]).sync_failed,
        gossip_outcome(rounds) == Some(false) <==> exists|i: int|
            0 <= i < rounds.len() && (#[trigger] rounds[i]).sync_failed && forall|k: int|
                0 <= k <= i ==> (#[trigger] rounds[k]).complete != Some(true),
        gossip_outcome(rounds) is None <==> forall|i: int|
            0 <= i < rounds.len() ==> still_gossiping(#[trigger] rounds[i]),
    decreases rounds.len(),
{
    if rounds.len() > 0 {
        let rest = rounds.drop_first();
        law_secrets_are_complete_once_they_arrive(rest);
        assert forall|i: int| 0 < i < rounds.len() implies rest[i - 1] == #[trigger] rounds[i] by {}
        assert forall|i: int| 0 <= i < rest.len() implies rounds[i + 1] == #[trigger] rest[i] by {}
        if rounds[0].complete == Some(true) {
            assert(gossip_outcome(rounds) == Some(true));
        } else if rounds[0].sync_failed {
            assert(gossip_outcome(rounds) == Some(false));
        } else {
            assert(gossip_outcome(rounds) == gossip_outcome(rest));
            if gossip_outcome(rest) == Some(true) {
                let i = choose|i: int|
                    0 <= i < rest.len() && (#[trigger] rest[i]).complete == Some(true) && forall|
                        k: int,
                    |
                        0 <= k < i ==> !(#[trigger] rest[k]).sync_failed;
                assert(rounds[i + 1].complete == Some(true));
                assert forall|k: int| 0 <= k < i + 1 implies !(#[trigger] rounds[k]).sync_failed by {
                    if k > 0 {
                        assert(!rest[k - 1].sync_failed);
                    }
                }
            }
            if gossip_outcome(rest) == Some(false) {
                let i = choose|i: int|
                    0 <= i < rest.len() && (#[trigger] rest[i]).sync_failed && forall|k: int|
                        0 <= k <= i ==> (#[trigger] rest[k]).complete != Some(true);
                assert(rounds[i + 1].sync_failed);
                assert forall|k: int| 0 <= k <= i + 1 implies (#[trigger] rounds[k]).complete
                    != Some(true) by {
                    if k > 0 {
                        assert(rest[k - 1].complete != Some(true));
                    }
                }
            }
            if exists|i: int|
                0 <= i < rounds.len() && (#[trigger] rounds[i]).complete == Some(true) && forall|
                    k: int,
                |
                    0 <= k < i ==> !(#[trigger] rounds[k]).sync_failed {
                let i = choose|i: int|
                    0 <= i < rounds.len() && (#[trigger] rounds[i]).complete == Some(true)
                        && forall|k: int| 0 <= k < i ==> !(#[trigger] rounds[k]).sync_failed;
                assert(rest[i - 1].complete == Some(true));
                assert forall|k: int| 0 <= k < i - 1 implies !(#[trigger] rest[k]).sync_failed by {
                    assert(!rounds[k + 1].sync_failed);
                }
            }
            if exists|i: int|
                0 <= i < rounds.len() && (#[trigger] rounds[i]).sync_failed && forall|k: int|
                    0 <= k <= i ==> (#[trigger] rounds[k]).complete != Some(true) {
                let i = choose|i: int|
                    0 <= i < rounds.len() && (#[trigger] rounds[i]).sync_failed && forall|k: int|
                        0 <= k <= i ==> (#[trigger] rounds[k]).complete != Some(true);
                assert(rest[i - 1].sync_failed);
                assert forall|k: int| 0 <= k <= i - 1 implies (#[trigger] rest[k]).complete
                    != Some(true) by {
                    assert(rounds[k + 1].complete != Some(true));
                }
            }
            if forall|i: int| 0 <= i < rest.len() ==> still_gossiping(#[trigger] rest[i]) {
                assert forall|i: int| 0 <= i < rounds.len() implies still_gossiping(
                    #[trigger] rounds[i],
                ) by {
                    if i > 0 {
                        assert(still_gossiping(rest[i - 1]));
                    }
                }
            }
            if forall|i: int| 0 <= i < rounds.len() ==> still_gossiping(#[trigger] rounds[i]) {
                assert forall|i: int| 0 <= i < rest.len() implies still_gossiping(
                    #[trigger] rest[i],
                ) by {
                    assert(still_gossiping(rounds[i + 1]));
                }
            }
        }
    }
}

} // verus!
