//! What the tools answer.

use vstd::prelude::*;

use crate::account::{profile_fetched, ClientStatus, Profile, ProfileFailure};
use crate::args::{
    CreateDmArgs, EditMessageArgs, InviteUserArgs, LeaveRoomArgs, MarkReadArgs, RedactEventArgs,
    RoomMemberActionArgs, SendFileArgs, SendMessageArgs, SendReactionArgs, UpdateRoomArgs,
};
use crate::backup::{
    key_backup_enabled, key_backup_restored, on_recovered, room_keys_downloaded, BackupState,
    RestoreReport,
};
use crate::json::{Json, JsonView};
use crate::laws::{has_member, has_members, refused, told};
use crate::manager::MatrixManager;
use crate::media::{FileRequest, Media, SavedFile};
use crate::rooms::{
    members_listed, room_json, rooms_listed, MemberSummary, RoomSummary, UpdateFailure,
};
use crate::sending::{EditFailure, Sent};
use crate::server::{MatrixServer, ServerDescription};
use crate::session::LoginInfo;
use crate::sync::SyncNeed;

verus! {

/// Whether an entry tells of a room its id, its name - or else the one that the client knows it
/// by - its topic and its encryption.
pub open spec fn tells_room(entry: JsonView, room: RoomSummary) -> bool {
    &&& has_members(entry, 4)
    &&& has_member(entry, 0, "room_id"@, JsonView::Text(room.room_id@))
    &&& has_member(
        entry,
        1,
        "name"@,
        if room.name is Some {
            told(room.name)
        } else {
            told(room.cached_name)
        },
    )
    &&& has_member(entry, 2, "topic"@, told(room.topic))
    &&& has_member(entry, 3, "encryption"@, JsonView::Text(room.encryption@))
}

/// Every room is listed, in the order in which they were given, with all that is known of it.
pub proof fn law_every_room_is_listed(rooms: Vec<RoomSummary>, reply: Json)
    requires
        call_ensures(rooms_listed, (&rooms,), reply),
    ensures
        has_members(reply@, 2),
        has_member(reply@, 0, "count"@, JsonView::Count(rooms@.len())),
        reply@->Object_0[1].0 == "rooms"@,
        reply@->Object_0[1].1 is List,
        reply@->Object_0[1].1->List_0.len() == rooms@.len(),
        forall|i: int|
            0 <= i < rooms@.len() ==> tells_room(
                #[trigger] reply@->Object_0[1].1->List_0[i],
                rooms@[i],
            ),
{
}

/// An entry tells the topic of its room, whatever it is; so rooms with different topics, or of which
/// only one has a topic, are never listed alike.
pub proof fn law_rooms_are_told_apart(a: RoomSummary, b: RoomSummary)
    ensures
        tells_room(room_json(a), a),
        room_json(a) == room_json(b) ==> {
            &&& a.room_id@ == b.room_id@
            &&& told(a.topic) == told(b.topic)
            &&& a.encryption@ == b.encryption@
            &&& (a.name is Some && b.name is Some) ==> told(a.name) == told(b.name)
        },
        told(a.topic) != told(b.topic) ==> room_json(a) != room_json(b),
{
    assert(room_json(a)->Object_0[0] == ("room_id"@, JsonView::Text(a.room_id@)));
    assert(room_json(b)->Object_0[0] == ("room_id"@, JsonView::Text(b.room_id@)));
    assert(room_json(a)->Object_0[1].1 == if a.name is Some {
        told(a.name)
    } else {
        told(a.cached_name)
    });
    assert(room_json(b)->Object_0[1].1 == if b.name is Some {
        told(b.name)
    } else {
        told(b.cached_name)
    });
    assert(room_json(a)->Object_0[2] == ("topic"@, told(a.topic)));
    assert(room_json(b)->Object_0[2] == ("topic"@, told(b.topic)));
    assert(room_json(a)->Object_0[3] == ("encryption"@, JsonView::Text(a.encryption@)));
    assert(room_json(b)->Object_0[3] == ("encryption"@, JsonView::Text(b.encryption@)));
}

/// Whether an entry tells of a member all that is known of it.
pub open spec fn tells_member(entry: JsonView, member: MemberSummary) -> bool {
    &&& has_members(entry, 5)
    &&& has_member(entry, 0, "user_id"@, JsonView::Text(member.user_id@))
    &&& has_member(entry, 1, "name"@, JsonView::Text(member.name@))
    &&& has_member(entry, 2, "display_name"@, told(member.display_name))
    &&& has_member(entry, 3, "membership"@, JsonView::Text(member.membership@))
    &&& has_member(entry, 4, "power_level"@, JsonView::Text(member.power_level@))
}

/// Every member of a room is listed, in the order in which they were given, with all that is known
/// of it.
pub proof fn law_every_member_is_listed(
    room_id: &str,
    outcome: Result<Vec<MemberSummary>, String>,
    reply: Result<Json, String>,
)
    requires
        call_ensures(members_listed, (room_id, outcome), reply),
    ensures
        outcome matches Err(cause) ==> refused(
            reply,
            "failed to fetch room members"@ + ": "@ + cause@,
        ),
        outcome matches Ok(members) ==> {
            &&& reply is Ok
            &&& has_members(reply->Ok_0@, 3)
            &&& has_member(reply->Ok_0@, 0, "room_id"@, JsonView::Text(room_id@))
            &&& has_member(reply->Ok_0@, 1, "count"@, JsonView::Count(members@.len()))
            &&& reply->Ok_0@->Object_0[2].0 == "members"@
            &&& reply->Ok_0@->Object_0[2].1 is List
            &&& reply->Ok_0@->Object_0[2].1->List_0.len() == members@.len()
            &&& forall|i: int|
                0 <= i < members@.len() ==> tells_member(
                    #[trigger] reply->Ok_0@->Object_0[2].1->List_0[i],
                    members@[i],
                )
        },
{
}

/// Whether an answer says that something was done, and then gives the values under their names.
pub open spec fn says_done(reply: JsonView, flag: Seq<char>, more: int) -> bool {
    has_members(reply, 1 + more) && has_member(reply, 0, flag, JsonView::Bool(true))
}

/// Whether a member of an answer is a text.
pub open spec fn names(reply: JsonView, place: int, key: Seq<char>, text: Seq<char>) -> bool {
    has_member(reply, place, key, JsonView::Text(text))
}

/// The answer to a login tells the account, the device and the homeserver, and after the browser
/// flow the URL of it.
pub proof fn law_logins_are_told(
    info: LoginInfo,
    url: Option<String>,
    plain: Json,
    by_sso: Json,
    out: Json,
    synced: Json,
)
    requires
        call_ensures(MatrixServer::logged_in, (&info,), plain),
        call_ensures(MatrixServer::logged_in_by_sso, (&info, &url), by_sso),
        call_ensures(MatrixServer::logged_out, (), out),
        call_ensures(MatrixServer::synced, (), synced),
    ensures
        says_done(plain@, "logged_in"@, 3),
        names(plain@, 1, "user_id"@, info.user_id@),
        names(plain@, 2, "device_id"@, info.device_id@),
        names(plain@, 3, "homeserver"@, info.homeserver@),
        says_done(by_sso@, "logged_in"@, 4),
        names(by_sso@, 1, "user_id"@, info.user_id@),
        names(by_sso@, 2, "device_id"@, info.device_id@),
        names(by_sso@, 3, "homeserver"@, info.homeserver@),
        has_member(by_sso@, 4, "sso_url"@, told(url)),
        says_done(out@, "logged_out"@, 0),
        says_done(synced@, "synced"@, 0),
{
}

/// The answer to a message tells the room, the event, and the thread that it went into, if it did.
pub proof fn law_sent_messages_are_told(
    args: SendMessageArgs,
    sent: Sent,
    reply: Json,
    file: SendFileArgs,
    event_id: &str,
    file_reply: Json,
)
    requires
        call_ensures(MatrixServer::message_sent, (&args, &sent), reply),
        call_ensures(MatrixServer::file_sent, (&file, event_id), file_reply),
    ensures
        says_done(reply@, "sent"@, 3),
        names(reply@, 1, "room_id"@, args.room_id@),
        names(reply@, 2, "event_id"@, sent.event_id@),
        has_member(reply@, 3, "thread_root"@, told(sent.thread_root)),
        says_done(file_reply@, "sent"@, 2),
        names(file_reply@, 1, "room_id"@, file.room_id@),
        names(file_reply@, 2, "event_id"@, event_id@),
{
}

/// The answer to an edit tells the room and the event of the edit, or what failed.
pub proof fn law_edits_are_told(
    args: EditMessageArgs,
    outcome: Result<String, EditFailure>,
    reply: Result<Json, String>,
)
    requires
        call_ensures(MatrixServer::message_edited, (&args, outcome), reply),
    ensures
        match outcome {
            Ok(event_id) => reply matches Ok(reply) && says_done(reply@, "edited"@, 2) && names(
                reply@,
                1,
                "room_id"@,
                args.room_id@,
            ) && names(reply@, 2, "event_id"@, event_id@),
            Err(EditFailure::Build(cause)) => refused(
                reply,
                "failed to build edit"@ + ": "@ + cause@,
            ),
            Err(EditFailure::Send(cause)) => refused(
                reply,
                "failed to send edit"@ + ": "@ + cause@,
            ),
        },
{
}

/// The answer to a redaction tells the room, the event that was redacted and that of the redaction.
pub proof fn law_redactions_are_told(
    args: RedactEventArgs,
    outcome: Result<String, String>,
    reply: Result<Json, String>,
)
    requires
        call_ensures(MatrixServer::event_redacted, (&args, outcome), reply),
    ensures
        match outcome {
            Ok(redaction) => reply matches Ok(reply) && says_done(reply@, "redacted"@, 3) && names(
                reply@,
                1,
                "room_id"@,
                args.room_id@,
            ) && names(reply@, 2, "event_id"@, args.event_id@) && names(
                reply@,
                3,
                "redaction_event_id"@,
                redaction@,
            ),
            Err(cause) => refused(reply, "failed to redact event"@ + ": "@ + cause@),
        },
{
}

/// The answer to a reaction tells the room and the event of the reaction; that to a receipt the
/// event up to which the room was read.
pub proof fn law_reactions_and_receipts_are_told(
    args: SendReactionArgs,
    outcome: Result<String, String>,
    reply: Result<Json, String>,
    read: MarkReadArgs,
    event_id: &str,
    marked: Result<(), String>,
    receipt: Result<Json, String>,
)
    requires
        call_ensures(MatrixServer::reaction_sent, (&args, outcome), reply),
        call_ensures(MatrixServer::marked_read, (&read, event_id, marked), receipt),
    ensures
        match outcome {
            Ok(reaction) => reply matches Ok(reply) && says_done(reply@, "reacted"@, 2) && names(
                reply@,
                1,
                "room_id"@,
                args.room_id@,
            ) && names(reply@, 2, "event_id"@, reaction@),
            Err(cause) => refused(reply, "failed to send reaction"@ + ": "@ + cause@),
        },
        match marked {
            Ok(_) => receipt matches Ok(receipt) && says_done(receipt@, "marked_read"@, 2) && names(
                receipt@,
                1,
                "room_id"@,
                read.room_id@,
            ) && names(receipt@, 2, "event_id"@, event_id@),
            Err(cause) => refused(receipt, "failed to send read receipt"@ + ": "@ + cause@),
        },
{
}

/// The answers to joining, creating, leaving and updating a room tell which room it was.
pub proof fn law_rooms_that_were_dealt_with_are_told(
    outcome: Result<String, String>,
    joined: Result<Json, String>,
    created: Result<Json, String>,
    leave: LeaveRoomArgs,
    done: Result<(), String>,
    left: Result<Json, String>,
    update: UpdateRoomArgs,
    changed: Result<(), UpdateFailure>,
    updated: Result<Json, String>,
)
    requires
        call_ensures(MatrixServer::room_joined, (outcome,), joined),
        call_ensures(MatrixServer::room_created, (outcome,), created),
        call_ensures(MatrixServer::room_left, (&leave, done), left),
        call_ensures(MatrixServer::room_updated, (&update, changed), updated),
    ensures
        match outcome {
            Ok(room_id) => {
                &&& joined matches Ok(joined) && says_done(joined@, "joined"@, 1) && names(
                    joined@,
                    1,
                    "room_id"@,
                    room_id@,
                )
                &&& created matches Ok(created) && says_done(created@, "created"@, 1) && names(
                    created@,
                    1,
                    "room_id"@,
                    room_id@,
                )
            },
            Err(cause) => refused(joined, "failed to join room"@ + ": "@ + cause@) && refused(
                created,
                "failed to create room"@ + ": "@ + cause@,
            ),
        },
        match done {
            Ok(_) => left matches Ok(left) && says_done(left@, "left"@, 1) && names(
                left@,
                1,
                "room_id"@,
                leave.room_id@,
            ),
            Err(cause) => refused(left, "failed to leave room"@ + ": "@ + cause@),
        },
        match changed {
            Ok(_) => updated matches Ok(updated) && says_done(updated@, "updated"@, 1) && names(
                updated@,
                1,
                "room_id"@,
                update.room_id@,
            ),
            Err(UpdateFailure::Name(cause)) => refused(
                updated,
                "failed to set room name"@ + ": "@ + cause@,
            ),
            Err(UpdateFailure::Topic(cause)) => refused(
                updated,
                "failed to set room topic"@ + ": "@ + cause@,
            ),
        },
{
}

/// Whether an answer says what was done to a user of a room, or why that failed.
pub open spec fn tells_action(
    reply: Result<Json, String>,
    outcome: Result<(), String>,
    flag: Seq<char>,
    room_id: Seq<char>,
    user_id: Seq<char>,
    failure: Seq<char>,
) -> bool {
    match outcome {
        Ok(_) => reply matches Ok(reply) && says_done(reply@, flag, 2) && names(
            reply@,
            1,
            "room_id"@,
            room_id,
        ) && names(reply@, 2, "user_id"@, user_id),
        Err(cause) => refused(reply, failure + ": "@ + cause@),
    }
}

/// The answers to inviting, kicking, banning and unbanning tell the room and the user.
pub proof fn law_what_was_done_to_members_is_told(
    outcome: Result<(), String>,
    invite: InviteUserArgs,
    invited: Result<Json, String>,
    args: RoomMemberActionArgs,
    kicked: Result<Json, String>,
    banned: Result<Json, String>,
    unbanned: Result<Json, String>,
)
    requires
        call_ensures(MatrixServer::user_invited, (&invite, outcome), invited),
        call_ensures(MatrixServer::member_kicked, (&args, outcome), kicked),
        call_ensures(MatrixServer::member_banned, (&args, outcome), banned),
        call_ensures(MatrixServer::member_unbanned, (&args, outcome), unbanned),
    ensures
        tells_action(
            invited,
            outcome,
            "invited"@,
            invite.room_id@,
            invite.user_id@,
            "failed to invite user"@,
        ),
        tells_action(
            kicked,
            outcome,
            "kicked"@,
            args.room_id@,
            args.user_id@,
            "failed to kick member"@,
        ),
        tells_action(
            banned,
            outcome,
            "banned"@,
            args.room_id@,
            args.user_id@,
            "failed to ban member"@,
        ),
        tells_action(
            unbanned,
            outcome,
            "unbanned"@,
            args.room_id@,
            args.user_id@,
            "failed to unban member"@,
        ),
{
}

/// The answer to a request for a direct-message room tells the room and the user; the id of an
/// attachment that was sent is handed on.
pub proof fn law_direct_rooms_are_told(
    args: CreateDmArgs,
    room_id: &str,
    reply: Json,
    file: FileRequest,
    outcome: Result<String, String>,
    event_id: Result<String, String>,
)
    requires
        call_ensures(MatrixServer::direct_room, (&args, room_id), reply),
        call_ensures(FileRequest::on_sent, (&file, outcome), event_id),
    ensures
        has_members(reply@, 2),
        names(reply@, 0, "room_id"@, room_id@),
        names(reply@, 1, "user_id"@, args.user_id@),
        match outcome {
            Ok(sent) => event_id == Ok::<String, String>(sent),
            Err(cause) => refused(event_id, "failed to send attachment"@ + ": "@ + cause@),
        },
{
}

/// A profile is told with the user that it is of, and null for what is not in it.
pub proof fn law_profiles_are_told(
    user_id: &str,
    outcome: Result<Profile, ProfileFailure>,
    reply: Result<Json, String>,
)
    requires
        call_ensures(profile_fetched, (user_id, outcome), reply),
    ensures
        match outcome {
            Ok(profile) => {
                &&& reply is Ok
                &&& has_members(reply->Ok_0@, 3)
                &&& names(reply->Ok_0@, 0, "user_id"@, user_id@)
                &&& has_member(reply->Ok_0@, 1, "display_name"@, told(profile.display_name))
                &&& has_member(reply->Ok_0@, 2, "avatar_url"@, told(profile.avatar_url))
            },
            Err(ProfileFailure::Fetch(cause)) => refused(
                reply,
                "failed to fetch profile"@ + ": "@ + cause@,
            ),
            Err(ProfileFailure::DisplayName(cause)) => refused(
                reply,
                "failed to parse display name"@ + ": "@ + cause@,
            ),
            Err(ProfileFailure::AvatarUrl(cause)) => refused(
                reply,
                "failed to parse avatar url"@ + ": "@ + cause@,
            ),
        },
{
}

/// A probe of a session tells all that its client says of itself; without a session, it tells the
/// homeserver that would be logged in to, and how.
pub proof fn law_the_login_state_is_told(
    manager: MatrixManager,
    client: Option<&ClientStatus>,
    reply: Json,
    name: String,
)
    requires
        call_ensures(MatrixManager::whoami, (&manager, client), reply),
        client matches Some(status) ==> call_ensures(
            BackupState::name,
            (status.key_backup,),
            name,
        ),
    ensures
        manager.session is Some && client is Some ==> {
            let status = client->Some_0;
            &&& has_members(reply@, 7)
            &&& has_member(reply@, 0, "logged_in"@, JsonView::Bool(true))
            &&& has_member(reply@, 1, "user_id"@, told(status.user_id))
            &&& has_member(reply@, 2, "device_id"@, told(status.device_id))
            &&& names(reply@, 3, "homeserver"@, status.homeserver@)
            &&& has_member(
                reply@,
                4,
                "joined_rooms"@,
                JsonView::Count(status.joined_rooms as nat),
            )
            &&& has_member(
                reply@,
                5,
                "device_verified"@,
                match status.device_verified {
                    Some(verified) => JsonView::Bool(verified),
                    None => JsonView::Null,
                },
            )
            &&& names(reply@, 6, "key_backup"@, name@)
        },
        manager.session is None || client is None ==> {
            &&& has_members(reply@, 3)
            &&& has_member(reply@, 0, "logged_in"@, JsonView::Bool(false))
            &&& has_member(reply@, 1, "default_homeserver"@, told(manager.default_homeserver))
            &&& names(
                reply@,
                2,
                "hint"@,
                "Use the `login` tool with username and password, or set MATRIX_USER/MATRIX_PASSWORD."@,
            )
        },
{
}

/// Each state of the key backup goes by its own name.
pub proof fn law_backup_states_are_named(state: BackupState, name: String, enabled: bool)
    requires
        call_ensures(BackupState::name, (state,), name),
        call_ensures(BackupState::is_enabled, (state,), enabled),
    ensures
        name@ == match state {
            BackupState::Unknown => "Unknown"@,
            BackupState::Creating => "Creating"@,
            BackupState::Enabling => "Enabling"@,
            BackupState::Resuming => "Resuming"@,
            BackupState::Enabled => "Enabled"@,
            BackupState::Downloading => "Downloading"@,
            BackupState::Disabling => "Disabling"@,
        },
        enabled <==> state is Enabled,
{
}

/// The answer to setting a key backup up gives the recovery key, whole, which is never shown again.
pub proof fn law_recovery_keys_are_shown(
    outcome: Result<String, String>,
    state: BackupState,
    name: String,
    reply: Result<Json, String>,
    unlocked: Result<(), String>,
    need: Result<SyncNeed, String>,
)
    requires
        call_ensures(key_backup_enabled, (outcome, state), reply),
        call_ensures(BackupState::name, (state,), name),
        call_ensures(on_recovered, (unlocked,), need),
    ensures
        match outcome {
            Ok(recovery_key) => {
                &&& reply is Ok
                &&& says_done(reply->Ok_0@, "enabled"@, 3)
                &&& names(reply->Ok_0@, 1, "recovery_key"@, recovery_key@)
                &&& names(reply->Ok_0@, 2, "backup_state"@, name@)
                &&& names(
                    reply->Ok_0@,
                    3,
                    "warning"@,
                    "Store this recovery key somewhere safe now - it is not recoverable and will not be shown again. Without it, messages in encrypted rooms cannot be read on a new device."@,
                )
            },
            Err(cause) => refused(
                reply,
                "failed to enable key backup - if a backup already exists on the account, use `restore_key_backup` with its existing recovery key instead"@
                    + ": "@ + cause@,
            ),
        },
        match unlocked {
            Ok(_) => need == Ok::<SyncNeed, String>(SyncNeed::BestEffort),
            Err(cause) => refused(
                need,
                "failed to unlock the key backup - check the recovery key is correct, and that key backup is actually set up on this account"@
                    + ": "@ + cause@,
            ),
        },
{
}

/// The answers to unlocking the key backup and to downloading keys from it say that it can be used
/// exactly if it is unlocked.
pub proof fn law_usable_backups_are_told(
    report: RestoreReport,
    restored: Json,
    name: String,
    room_id: &str,
    outcome: Result<(), String>,
    downloaded: Result<Json, String>,
)
    requires
        call_ensures(key_backup_restored, (report,), restored),
        call_ensures(BackupState::name, (report.backup_state,), name),
        call_ensures(room_keys_downloaded, (room_id, outcome, report.backup_state), downloaded),
    ensures
        says_done(restored@, "restored"@, 3),
        names(restored@, 1, "recovery_state"@, report.recovery_state@),
        names(restored@, 2, "backup_state"@, name@),
        has_member(
            restored@,
            3,
            "key_backup_usable"@,
            JsonView::Bool(report.backup_state is Enabled),
        ),
        match outcome {
            Ok(_) => {
                &&& downloaded is Ok
                &&& has_members(downloaded->Ok_0@, 4)
                &&& names(downloaded->Ok_0@, 0, "room_id"@, room_id@)
                &&& names(downloaded->Ok_0@, 1, "backup_state"@, name@)
                &&& has_member(
                    downloaded->Ok_0@,
                    2,
                    "key_backup_usable"@,
                    JsonView::Bool(report.backup_state is Enabled),
                )
                &&& names(
                    downloaded->Ok_0@,
                    3,
                    "hint"@,
                    if report.backup_state is Enabled {
                        "Keys downloaded; re-read the room to pick up newly decryptable messages."@
                    } else {
                        "No usable key backup - run `restore_key_backup` with your recovery key first."@
                    },
                )
            },
            Err(cause) => refused(
                downloaded,
                "failed to download room keys from the key backup"@ + ": "@ + cause@,
            ),
        },
{
}

/// A failure to write what was downloaded names the path.
pub proof fn law_unwritten_files_are_told(
    request: crate::media::DownloadRequest,
    media: Media,
    file: SavedFile,
    cause: String,
    reply: Result<Json, String>,
)
    requires
        call_ensures(
            crate::media::DownloadRequest::on_saved,
            (&request, &media, &file, Err::<(), String>(cause)),
            reply,
        ),
    ensures
        refused(reply, "failed to write '"@ + request.save_path@ + "'"@ + ": "@ + cause@),
{
}

/// The server goes by the name and version that it is given, and holds the manager that it is given.
pub proof fn law_the_server_is_described(
    name: &str,
    version: &str,
    info: ServerDescription,
    matrix: MatrixManager,
    server: MatrixServer,
)
    requires
        call_ensures(MatrixServer::get_info, (name, version), info),
        call_ensures(MatrixServer::new, (matrix,), server),
    ensures
        info.name@ == name@,
        info.version@ == version@,
        info.title@ == "Matrix MCP"@,
        info.description@ == "A Model Context Protocol server for the Matrix chat protocol."@,
        info.instructions@
            == "Matrix MCP server. Tools let you log in to a Matrix homeserver, list joined rooms, read and send messages, and join rooms. Start with `whoami` to check the login state, then `login` if needed. End-to-end encryption is supported: messages are encrypted and decrypted automatically using a persistent key store. Decrypting older history may require running `sync` so the device receives room keys; messages with no available key are flagged unable_to_decrypt."@,
        server.matrix == matrix,
{
}

} // verus!
