//! Syncs with the server.

use vstd::prelude::*;

use crate::backup::BackupState;
use crate::manager::MatrixManager;
use crate::outcome::fails_with;
use crate::text::{in_context, with_context};

verus! {

/// How a single sync ended.
pub enum SyncOutcome {
    Done,
    /// It did not end within its time; the cause is what the timer says.
    TimedOut(String),
    Failed(String),
}

/// The error of a sync, if it did not succeed.
pub open spec fn sync_error(outcome: SyncOutcome) -> Option<Seq<char>> {
    match outcome {
        SyncOutcome::Done => None,
        SyncOutcome::TimedOut(cause) => Some(in_context("sync timed out"@, cause@)),
        SyncOutcome::Failed(cause) => Some(in_context("sync failed"@, cause@)),
    }
}

/// Runs one sync to its result.
pub fn sync_once_with(outcome: SyncOutcome) -> (done: Result<(), String>)
    ensures
        fails_with(done, sync_error(outcome)),
{
    match outcome {
        SyncOutcome::Done => Ok(()),
        SyncOutcome::TimedOut(cause) => Err(with_context("sync timed out", &cause)),
        SyncOutcome::Failed(cause) => Err(with_context("sync failed", &cause)),
    }
}

/// What hangs on a sync that comes before something else.
#[derive(Clone, Copy, PartialEq, Eq, Debug, Structural)]
pub enum SyncNeed {
    /// What follows makes do with the state there is if the sync fails.
    BestEffort,
    /// What follows does not happen if the sync fails.
    Required,
}

/// Whether to go on after a sync that was needed, or the error with which not.
pub fn settled(need: SyncNeed, outcome: Result<(), String>) -> (go_on: Result<(), String>)
    ensures
        need == SyncNeed::BestEffort ==> go_on is Ok,
        need == SyncNeed::Required ==> go_on == outcome,
{
    match need {
        SyncNeed::BestEffort => Ok(()),
        SyncNeed::Required => outcome,
    }
}

/// Whether there are room keys to push to the backup. The client only does so in the background,
/// which a short-lived process can exit before completing - leaving keys out of the backup and
/// messages unreadable on the account's next device.
pub fn flush_key_backup(state: BackupState) -> (flush: bool)
    ensures
        flush == (state == BackupState::Enabled),
{
    state.is_enabled()
}

impl MatrixManager {
    /// Run a single sync against the server to refresh local state: whether there is a session to
    /// run it for.
    pub fn sync(&self) -> (ready: Result<(), String>)
        ensures
            fails_with(ready, self.connection_error()),
    {
        match self.connected_client() {
            Ok(_) => Ok(()),
            Err(message) => Err(message),
        }
    }
}

/// Takes note of a sync that was run on request. Says whether the key backup, whose state after
/// the sync is `state`, is to be flushed now.
pub fn synced(outcome: SyncOutcome, state: BackupState) -> (flush: Result<bool, String>)
    ensures
        fails_with(flush, sync_error(outcome)),
        flush matches Ok(flush) ==> flush == (state == BackupState::Enabled),
{
    match settled(SyncNeed::Required, sync_once_with(outcome)) {
        Ok(()) => Ok(flush_key_backup(state)),
        Err(message) => Err(message),
    }
}

} // verus!
