//! The server-side key backup.

use vstd::prelude::*;

use crate::ids::{resolve_room, room_error, text_or_error};
use crate::json::{no_members, Fields, Json, JsonView};
use crate::manager::MatrixManager;
use crate::outcome::{fails_with, step_error};
use crate::sync::SyncNeed;
use crate::text::{first_of, owned, slice_text, text_of, with_context};

verus! {

/// What the key backup of a client is doing.
#[derive(Clone, Copy, PartialEq, Eq, Debug, Structural)]
pub enum BackupState {
    /// There is no active backup, and nothing is known of one on the server.
    Unknown,
    Creating,
    Enabling,
    Resuming,
    /// The backup is unlocked: room keys are backed up and can be fetched.
    Enabled,
    Downloading,
    Disabling,
}

impl BackupState {
    /// The name under which the state is reported.
    pub open spec fn title(self) -> Seq<char> {
        match self {
            BackupState::Unknown => "Unknown"@,
            BackupState::Creating => "Creating"@,
            BackupState::Enabling => "Enabling"@,
            BackupState::Resuming => "Resuming"@,
            BackupState::Enabled => "Enabled"@,
            BackupState::Downloading => "Downloading"@,
            BackupState::Disabling => "Disabling"@,
        }
    }

    pub fn name(self) -> (name: String)
        ensures
            name@ == self.title(),
    {
        match self {
            BackupState::Unknown => "Unknown".to_owned(),
            BackupState::Creating => "Creating".to_owned(),
            BackupState::Enabling => "Enabling".to_owned(),
            BackupState::Resuming => "Resuming".to_owned(),
            BackupState::Enabled => "Enabled".to_owned(),
            BackupState::Downloading => "Downloading".to_owned(),
            BackupState::Disabling => "Disabling".to_owned(),
        }
    }

    /// Whether keys can be exchanged with the backup.
    pub fn is_enabled(self) -> (yes: bool)
        ensures
            yes == (self == BackupState::Enabled),
    {
        matches!(self, BackupState::Enabled)
    }
}

/// A request to set up a key backup.
pub struct EnableRequest {
    pub passphrase: Option<String>,
}

/// What is known once the backup has been unlocked.
pub struct RestoreReport {
    pub recovery_state: String,
    pub backup_state: BackupState,
}

/// The error of setting up a key backup, for what the server says of an earlier one: that there is
/// one, or nothing, where it could not be asked.
pub open spec fn earlier_backup_error(exists_on_server: Option<bool>) -> Option<Seq<char>> {
    match exists_on_server {
        Some(true) => Some(
            "this account already has a key backup - use `restore_key_backup` with its existing recovery key. Creating a new one would invalidate the old key and strand the keys already backed up under it."@,
        ),
        Some(false) => None,
        None => Some(
            "could not find out whether this account already has a key backup - try again later. If it has one, creating a new one would invalidate the old key and strand the keys already backed up under it."@,
        ),
    }
}

pub open spec fn enabled_json(recovery_key: Seq<char>, state: BackupState) -> JsonView {
    JsonView::Object(
        no_members().push(("enabled"@, JsonView::Bool(true))).push(
            ("recovery_key"@, JsonView::Text(recovery_key)),
        ).push(("backup_state"@, JsonView::Text(state.title()))).push(
            (
                "warning"@,
                JsonView::Text(
                    "Store this recovery key somewhere safe now - it is not recoverable and will not be shown again. Without it, messages in encrypted rooms cannot be read on a new device."@,
                ),
            ),
        ),
    )
}

pub open spec fn restored_json(recovery_state: Seq<char>, state: BackupState) -> JsonView {
    JsonView::Object(
        no_members().push(("restored"@, JsonView::Bool(true))).push(
            ("recovery_state"@, JsonView::Text(recovery_state)),
        ).push(("backup_state"@, JsonView::Text(state.title()))).push(
            ("key_backup_usable"@, JsonView::Bool(state == BackupState::Enabled)),
        ),
    )
}

pub open spec fn downloaded_json(room_id: Seq<char>, state: BackupState) -> JsonView {
    JsonView::Object(
        no_members().push(("room_id"@, JsonView::Text(room_id))).push(
            ("backup_state"@, JsonView::Text(state.title())),
        ).push(("key_backup_usable"@, JsonView::Bool(state == BackupState::Enabled))).push(
            (
                "hint"@,
                JsonView::Text(
                    if state == BackupState::Enabled {
                        "Keys downloaded; re-read the room to pick up newly decryptable messages."@
                    } else {
                        "No usable key backup - run `restore_key_backup` with your recovery key first."@
                    },
                ),
            ),
        ),
    )
}

impl MatrixManager {
    /// Set up a server-side key backup for this account and upload the room keys this device
    /// holds. `exists_on_server` is what the server says of an earlier backup, where it could be
    /// asked.
    ///
    /// A second backup would silently invalidate the recovery key the account was previously
    /// given, so an account that has one is refused - as is one of which that cannot be told.
    pub fn enable_key_backup(
        &self,
        passphrase: Option<&str>,
        exists_on_server: Option<bool>,
    ) -> (request: Result<EnableRequest, String>)
        ensures
            fails_with(
                request,
                first_of(self.connection_error(), earlier_backup_error(exists_on_server)),
            ),
            request matches Ok(request) ==> text_of(request.passphrase) == slice_text(passphrase),
    {
        match self.connected_client() {
            Ok(_) => {},
            Err(message) => return Err(message),
        }
        match exists_on_server {
            Some(true) => Err(
                "this account already has a key backup - use `restore_key_backup` with its existing recovery key. Creating a new one would invalidate the old key and strand the keys already backed up under it.".to_owned(),
            ),
            Some(false) => Ok(EnableRequest { passphrase: owned(passphrase) }),
            None => Err(
                "could not find out whether this account already has a key backup - try again later. If it has one, creating a new one would invalidate the old key and strand the keys already backed up under it.".to_owned(),
            ),
        }
    }

    /// Unlock the server-side key backup with a recovery key (also called a security key or
    /// passphrase), importing the cross-signing and backup decryption secrets from secret storage.
    /// This is what makes messages sent *before* this device existed decryptable: their room keys
    /// live in the backup, encrypted with this key.
    pub fn restore_key_backup(&self, recovery_key: &str) -> (key: Result<String, String>)
        ensures
            text_or_error(key, recovery_key@, self.connection_error()),
    {
        match self.connected_client() {
            Ok(_) => Ok(recovery_key.to_owned()),
            Err(message) => Err(message),
        }
    }

    /// Download this room's historical keys from the server-side key backup, so previously
    /// undecryptable messages can be read. Gives the room whose keys are to be fetched.
    pub fn download_room_keys(&self, room_id: &str, room_found: bool) -> (room: Result<
        String,
        String,
    >)
        ensures
            text_or_error(
                room,
                room_id@,
                first_of(self.connection_error(), room_error(room_id@, room_found)),
            ),
    {
        match self.connected_client() {
            Ok(_) => resolve_room(room_id, room_found),
            Err(message) => Err(message),
        }
    }
}

/// Reports a key backup that was set up, with the newly generated recovery key. That key is shown
/// exactly once and cannot be recovered afterwards - it is what future devices pass to
/// `restore_key_backup`.
pub fn key_backup_enabled(outcome: Result<String, String>, state: BackupState) -> (reply: Result<
    Json,
    String,
>)
    ensures
        fails_with(
            reply,
            step_error(
                outcome,
                "failed to enable key backup - if a backup already exists on the account, use `restore_key_backup` with its existing recovery key instead"@,
            ),
        ),
        reply matches Ok(reply) ==> outcome is Ok && reply@ == enabled_json(outcome->Ok_0@, state),
{
    match outcome {
        Ok(recovery_key) => Ok(
            Fields::new().with("enabled", Json::Bool(true)).with(
                "recovery_key",
                Json::Text(recovery_key),
            ).with("backup_state", Json::Text(state.name())).with(
                "warning",
                Json::text(
                    "Store this recovery key somewhere safe now - it is not recoverable and will not be shown again. Without it, messages in encrypted rooms cannot be read on a new device.",
                ),
            ).done(),
        ),
        Err(cause) => Err(
            with_context(
                "failed to enable key backup - if a backup already exists on the account, use `restore_key_backup` with its existing recovery key instead",
                &cause,
            ),
        ),
    }
}

/// Takes note of the recovery key that was tried. Once it has unlocked the backup, a sync settles
/// the state of the backup, which is resumed during syncs, before it is reported.
pub fn on_recovered(outcome: Result<(), String>) -> (need: Result<SyncNeed, String>)
    ensures
        fails_with(
            need,
            step_error(
                outcome,
                "failed to unlock the key backup - check the recovery key is correct, and that key backup is actually set up on this account"@,
            ),
        ),
        need matches Ok(need) ==> need == SyncNeed::BestEffort,
{
    match outcome {
        Ok(()) => Ok(SyncNeed::BestEffort),
        Err(cause) => Err(
            with_context(
                "failed to unlock the key backup - check the recovery key is correct, and that key backup is actually set up on this account",
                &cause,
            ),
        ),
    }
}

/// Reports a key backup that was unlocked. Unlocking succeeds even where no usable backup is
/// found, so the report says plainly whether historical keys can actually be fetched now.
pub fn key_backup_restored(report: RestoreReport) -> (reply: Json)
    ensures
        reply@ == restored_json(report.recovery_state@, report.backup_state),
{
    Fields::new().with("restored", Json::Bool(true)).with(
        "recovery_state",
        Json::Text(report.recovery_state),
    ).with("backup_state", Json::Text(report.backup_state.name())).with(
        "key_backup_usable",
        Json::Bool(report.backup_state.is_enabled()),
    ).done()
}

/// Reports a download of a room's keys. A download succeeds even where no backup key is at hand and
/// nothing was fetched, so the report claims no more than `state`, the state of the backup before
/// the download, allows.
pub fn room_keys_downloaded(
    room_id: &str,
    outcome: Result<(), String>,
    state: BackupState,
) -> (reply: Result<Json, String>)
    ensures
        fails_with(
            reply,
            step_error(outcome, "failed to download room keys from the key backup"@),
        ),
        reply matches Ok(reply) ==> reply@ == downloaded_json(room_id@, state),
{
    match outcome {
        Ok(()) => {
            let hint = if state.is_enabled() {
                "Keys downloaded; re-read the room to pick up newly decryptable messages."
            } else {
                "No usable key backup - run `restore_key_backup` with your recovery key first."
            };
            Ok(
                Fields::new().with("room_id", Json::text(room_id)).with(
                    "backup_state",
                    Json::Text(state.name()),
                ).with("key_backup_usable", Json::Bool(state.is_enabled())).with(
                    "hint",
                    Json::text(hint),
                ).done(),
            )
        },
        Err(cause) => Err(with_context("failed to download room keys from the key backup", &cause)),
    }
}

/// States of the backup are reported under names of their own.
pub proof fn law_backup_states_are_told_apart(a: BackupState, b: BackupState)
    ensures
        a.title() == b.title() ==> a == b,
{
    reveal_strlit("Unknown");
    reveal_strlit("Creating");
    reveal_strlit("Enabling");
    reveal_strlit("Resuming");
    reveal_strlit("Enabled");
    reveal_strlit("Downloading");
    reveal_strlit("Disabling");
    if a.title() == b.title() {
        assert(a.title().len() == b.title().len());
        assert(a.title()[0] == b.title()[0]);
        assert(a.title()[1] == b.title()[1]);
        assert(a.title()[2] == b.title()[2]);
    }
}

/// A key backup is only set up on an account of which the server says that it has none.
pub proof fn law_no_backup_is_replaced(manager: MatrixManager, exists_on_server: Option<bool>)
    ensures
        first_of(manager.connection_error(), earlier_backup_error(exists_on_server)) is None
            <==> manager.session is Some && exists_on_server == Some(false),
{
}

} // verus!
