//! The arguments of the tools.

use vstd::prelude::*;

verus! {

/// Arguments of `login`.
#[derive(Debug)]
pub struct LoginArgs {
    /// Homeserver URL, e.g. https://matrix.org. Optional if MATRIX_HOMESERVER is set.
    pub homeserver: Option<String>,
    /// Matrix username (the localpart, e.g. `alice`, or a full @alice:server).
    pub username: String,
    /// Account password.
    pub password: String,
}

/// Arguments of `login_with_token`.
#[derive(Debug)]
pub struct LoginWithTokenArgs {
    /// Homeserver URL, e.g. https://matrix.org. Optional if MATRIX_HOMESERVER is set.
    pub homeserver: Option<String>,
    /// Full user id, e.g. @alice:matrix.org.
    pub user_id: String,
    /// Device id the access token was issued for. Prefer a token for a fresh/dedicated device (e.g.
    /// minted via a homeserver admin API) over one copied from an already-logged-in client, since
    /// two clients sharing one device id will conflict over encryption state.
    pub device_id: String,
    /// A pre-obtained access token. Use this for homeservers that require SSO/OAuth, which this
    /// server cannot complete interactively - get a token from your homeserver's admin API or from
    /// an existing client's settings (e.g. Element web: Settings > Help & About > Advanced).
    pub access_token: String,
}

/// Arguments of `login_sso`.
#[derive(Debug)]
pub struct LoginSsoArgs {
    /// Homeserver URL, e.g. https://matrix.org. Optional if MATRIX_HOMESERVER is set.
    pub homeserver: Option<String>,
    /// Identity provider id to use directly (e.g. "oidc-microsoft"), skipping the provider picker.
    /// Optional; omit to let the homeserver show its normal SSO provider selection.
    pub identity_provider_id: Option<String>,
}

/// Arguments of `enable_key_backup`.
#[derive(Debug)]
pub struct EnableKeyBackupArgs {
    /// Optional passphrase to protect the backup with, in addition to the generated recovery key.
    /// Either can then be used to restore.
    pub passphrase: Option<String>,
}

/// Arguments of `restore_key_backup`.
#[derive(Debug)]
pub struct RestoreKeyBackupArgs {
    /// The account's recovery key (also called a security key, e.g. "EsTx xxxx xxxx ...") or
    /// security passphrase. In Element: Settings > Encryption (or Security & Privacy). This is not
    /// the account password.
    pub recovery_key: String,
}

/// Arguments of `download_room_keys`.
#[derive(Debug)]
pub struct DownloadRoomKeysArgs {
    /// Room id to fetch historical keys for, e.g. !abc123:matrix.org.
    pub room_id: String,
}

/// Arguments of `send_message`.
#[derive(Debug)]
pub struct SendMessageArgs {
    /// Target room id, e.g. !abc123:matrix.org.
    pub room_id: String,
    /// Message body to send.
    pub body: String,
    /// Render the body as Markdown (default false = plain text).
    pub markdown: Option<bool>,
    /// Event id to send this message as a rich reply to. Replying to a message that is part of a
    /// thread sends the reply into that thread.
    pub reply_to_event_id: Option<String>,
}

/// Arguments of `edit_message`.
#[derive(Debug)]
pub struct EditMessageArgs {
    /// Room id containing the message, e.g. !abc123:matrix.org.
    pub room_id: String,
    /// Event id of the message to edit (must be your own message).
    pub event_id: String,
    /// New message body.
    pub body: String,
    /// Render the body as Markdown (default false = plain text).
    pub markdown: Option<bool>,
}

/// Arguments of `redact_event`.
#[derive(Debug)]
pub struct RedactEventArgs {
    /// Room id containing the event, e.g. !abc123:matrix.org.
    pub room_id: String,
    /// Event id to redact - a message (deletes it) or a reaction (un-reacts).
    pub event_id: String,
    /// Optional reason for the redaction.
    pub reason: Option<String>,
}

/// Arguments of `send_reaction`.
#[derive(Debug)]
pub struct SendReactionArgs {
    /// Room id containing the message, e.g. !abc123:matrix.org.
    pub room_id: String,
    /// Event id of the message to react to.
    pub event_id: String,
    /// The reaction, typically a single emoji, e.g. "👍".
    pub emoji: String,
}

/// Arguments of `mark_read`.
#[derive(Debug)]
pub struct MarkReadArgs {
    /// Room id to mark as read, e.g. !abc123:matrix.org.
    pub room_id: String,
    /// Event id to mark as read up to. Defaults to the room's latest message.
    pub event_id: Option<String>,
}

/// Arguments of `get_room_members`.
#[derive(Debug)]
pub struct GetRoomMembersArgs {
    /// Room id to list members for, e.g. !abc123:matrix.org.
    pub room_id: String,
}

/// Arguments of `read_messages`.
#[derive(Debug)]
pub struct ReadMessagesArgs {
    /// Room id to read from, e.g. !abc123:matrix.org.
    pub room_id: String,
    /// Maximum number of recent messages to return (default 20).
    pub limit: Option<u32>,
    /// Continuation token from a previous call's next_token, to page further back in history.
    pub before_token: Option<String>,
}

/// Arguments of `read_thread`.
#[derive(Debug)]
pub struct ReadThreadArgs {
    /// Room id containing the thread, e.g. !abc123:matrix.org.
    pub room_id: String,
    /// Event id of the thread root, or of any threaded reply in it (the thread_root field on a
    /// message from read_messages).
    pub event_id: String,
    /// Maximum number of replies to return (default 50).
    pub limit: Option<u32>,
    /// Continuation token from a previous call's next_token, to page further through a long thread.
    /// Pass the thread_root event id alongside it.
    pub from_token: Option<String>,
}

/// Arguments of `join_room`.
#[derive(Debug)]
pub struct JoinRoomArgs {
    /// Room id (!room:server) or alias (#room:server) to join.
    pub room: String,
}

/// Arguments of `create_room`.
#[derive(Debug)]
pub struct CreateRoomArgs {
    /// Room name.
    pub name: Option<String>,
    /// Room topic.
    pub topic: Option<String>,
    /// User ids to invite, e.g. ["@bob:matrix.org"].
    pub invite: Option<Vec<String>>,
    /// Make the room publicly joinable and listed (default false = private/invite-only).
    pub public: Option<bool>,
    /// Enable end-to-end encryption for the room (default false).
    pub encrypted: Option<bool>,
    /// Mark this as a direct-message room (default false).
    pub is_direct: Option<bool>,
}

/// Arguments of `invite_user`.
#[derive(Debug)]
pub struct InviteUserArgs {
    /// Room id to invite into, e.g. !abc123:matrix.org.
    pub room_id: String,
    /// User id to invite, e.g. @bob:matrix.org.
    pub user_id: String,
}

/// Arguments of `leave_room`.
#[derive(Debug)]
pub struct LeaveRoomArgs {
    /// Room id to leave, e.g. !abc123:matrix.org.
    pub room_id: String,
}

/// Arguments of `kick_room_member`, `ban_room_member` and `unban_room_member`.
#[derive(Debug)]
pub struct RoomMemberActionArgs {
    /// Room id, e.g. !abc123:matrix.org.
    pub room_id: String,
    /// Target user id, e.g. @bob:matrix.org.
    pub user_id: String,
    /// Optional reason.
    pub reason: Option<String>,
}

/// Arguments of `update_room`.
#[derive(Debug)]
pub struct UpdateRoomArgs {
    /// Room id to update, e.g. !abc123:matrix.org.
    pub room_id: String,
    /// New room name.
    pub name: Option<String>,
    /// New room topic.
    pub topic: Option<String>,
}

/// Arguments of `create_dm`.
#[derive(Debug)]
pub struct CreateDmArgs {
    /// User id to start or find a direct message room with, e.g. @bob:matrix.org.
    pub user_id: String,
}

/// Arguments of `get_profile`.
#[derive(Debug)]
pub struct GetProfileArgs {
    /// User id to look up, e.g. @bob:matrix.org. Defaults to the logged-in user.
    pub user_id: Option<String>,
}

/// Arguments of `send_file`.
#[derive(Debug)]
pub struct SendFileArgs {
    /// Target room id, e.g. !abc123:matrix.org.
    pub room_id: String,
    /// Path to a local file to upload and send. Its MIME type is guessed from the extension.
    pub path: String,
    /// Optional caption to send alongside the file.
    pub caption: Option<String>,
}

/// Arguments of `download_media`.
#[derive(Debug)]
pub struct DownloadMediaArgs {
    /// Room id containing the media message, e.g. !abc123:matrix.org.
    pub room_id: String,
    /// Event id of the image/audio/video/file message.
    pub event_id: String,
    /// Local path to save the downloaded media to.
    pub save_path: String,
}

} // verus!
