//! The server: what each tool asks of the manager for the arguments it was called with, and what it
//! answers once that is done.

use vstd::prelude::*;

use crate::args::{
    CreateDmArgs, CreateRoomArgs, DownloadMediaArgs, DownloadRoomKeysArgs, EditMessageArgs,
    EnableKeyBackupArgs, GetProfileArgs, GetRoomMembersArgs, InviteUserArgs, JoinRoomArgs,
    LeaveRoomArgs, LoginArgs, LoginSsoArgs, LoginWithTokenArgs, MarkReadArgs, ReadMessagesArgs,
    ReadThreadArgs, RedactEventArgs, RestoreKeyBackupArgs, RoomMemberActionArgs, SendFileArgs,
    SendMessageArgs, SendReactionArgs, UpdateRoomArgs,
};
use crate::backup::{earlier_backup_error, EnableRequest};
use crate::ids::{room_id_fault, room_or_alias_error, text_or_error, user_id_error};
use crate::json::{no_members, optional_json, Fields, Json, JsonView};
use crate::manager::MatrixManager;
use crate::media::{
    deciding_extension, mime_type, sent_name, DownloadRequest, FileRequest,
};
use crate::outcome::{fails_with, step_error};
use crate::reading::{MessagesRequest, ThreadRequest};
use crate::rooms::{
    invite_error, update_error, CreateRoomRequest, DirectRoom, MemberRequest, RoomPreset,
    UpdateFailure, UpdateRequest, Visibility,
};
use crate::sending::{
    edit_error, text_content, EditFailure, EditRequest, ReactionRequest, ReadRequest,
    RedactRequest, SendRequest, Sent,
};
use crate::session::{Credentials, Login, LoginInfo};
use crate::text::{borrowed, first_of, text_of, texts_of, with_context};

verus! {

/// How many messages a read returns if the caller does not say.
pub const DEFAULT_MESSAGES: u32 = 20;

/// How many replies of a thread a read returns if the caller does not say.
pub const DEFAULT_REPLIES: u32 = 50;

/// How many messages a read returns at most.
pub const MOST_MESSAGES: u32 = 100;

/// How many messages a read returns: as many as were asked for, within 1 and the most.
pub open spec fn limit_for(asked: Option<u32>, default: u32) -> u32 {
    let limit = match asked {
        Some(limit) => limit,
        None => default,
    };
    if limit < 1 {
        1
    } else if limit > MOST_MESSAGES {
        MOST_MESSAGES
    } else {
        limit
    }
}

fn clamped(asked: Option<u32>, default: u32) -> (limit: u32)
    ensures
        limit == limit_for(asked, default),
{
    let limit: u32 = match asked {
        Some(limit) => limit,
        None => default,
    };
    if limit < 1 {
        1
    } else if limit > MOST_MESSAGES {
        MOST_MESSAGES
    } else {
        limit
    }
}

fn or_false(flag: Option<bool>) -> (set: bool)
    ensures
        set == (flag == Some(true)),
{
    match flag {
        Some(set) => set,
        None => false,
    }
}

/// What the server tells a client of itself.
pub struct ServerDescription {
    pub name: String,
    pub version: String,
    pub title: String,
    pub description: String,
    pub instructions: String,
}

/// The server of the tools. Holds the [`MatrixManager`].
pub struct MatrixServer {
    pub matrix: MatrixManager,
}

/// The members that every reply to a login has.
pub open spec fn login_members(info: LoginInfo) -> Seq<(Seq<char>, JsonView)> {
    no_members().push(("logged_in"@, JsonView::Bool(true))).push(
        ("user_id"@, JsonView::Text(info.user_id@)),
    ).push(("device_id"@, JsonView::Text(info.device_id@))).push(
        ("homeserver"@, JsonView::Text(info.homeserver@)),
    )
}

/// A reply that only says that something was done.
pub open spec fn flag_json(flag: Seq<char>) -> JsonView {
    JsonView::Object(no_members().push((flag, JsonView::Bool(true))))
}

/// A reply that says what was done, and in which room.
pub open spec fn room_done_json(flag: Seq<char>, room_id: Seq<char>) -> JsonView {
    JsonView::Object(
        no_members().push((flag, JsonView::Bool(true))).push(
            ("room_id"@, JsonView::Text(room_id)),
        ),
    )
}

/// A reply that says what was done, in which room and with which event.
pub open spec fn event_done_json(
    flag: Seq<char>,
    room_id: Seq<char>,
    event_id: Seq<char>,
) -> JsonView {
    JsonView::Object(
        no_members().push((flag, JsonView::Bool(true))).push(
            ("room_id"@, JsonView::Text(room_id)),
        ).push(("event_id"@, JsonView::Text(event_id))),
    )
}

/// A reply that says what was done, in which room and to which user.
pub open spec fn member_done_json(
    flag: Seq<char>,
    room_id: Seq<char>,
    user_id: Seq<char>,
) -> JsonView {
    JsonView::Object(
        no_members().push((flag, JsonView::Bool(true))).push(
            ("room_id"@, JsonView::Text(room_id)),
        ).push(("user_id"@, JsonView::Text(user_id))),
    )
}

pub open spec fn sent_json(room_id: Seq<char>, sent: Sent) -> JsonView {
    JsonView::Object(
        no_members().push(("sent"@, JsonView::Bool(true))).push(
            ("room_id"@, JsonView::Text(room_id)),
        ).push(("event_id"@, JsonView::Text(sent.event_id@))).push(
            ("thread_root"@, optional_json(text_of(sent.thread_root))),
        ),
    )
}

pub open spec fn redacted_json(
    room_id: Seq<char>,
    event_id: Seq<char>,
    redaction_event_id: Seq<char>,
) -> JsonView {
    JsonView::Object(
        no_members().push(("redacted"@, JsonView::Bool(true))).push(
            ("room_id"@, JsonView::Text(room_id)),
        ).push(("event_id"@, JsonView::Text(event_id))).push(
            ("redaction_event_id"@, JsonView::Text(redaction_event_id)),
        ),
    )
}

pub open spec fn direct_room_json(room_id: Seq<char>, user_id: Seq<char>) -> JsonView {
    JsonView::Object(
        no_members().push(("room_id"@, JsonView::Text(room_id))).push(
            ("user_id"@, JsonView::Text(user_id)),
        ),
    )
}

fn login_fields(info: &LoginInfo) -> (fields: Fields)
    ensures
        fields@ == login_members(*info),
{
    Fields::new().with("logged_in", Json::Bool(true)).with("user_id", Json::text(&info.user_id)).with(
        "device_id",
        Json::text(&info.device_id),
    ).with("homeserver", Json::text(&info.homeserver))
}

fn room_done(flag: &str, room_id: &str) -> (reply: Json)
    ensures
        reply@ == room_done_json(flag@, room_id@),
{
    Fields::new().with(flag, Json::Bool(true)).with("room_id", Json::text(room_id)).done()
}

fn event_done(flag: &str, room_id: &str, event_id: &str) -> (reply: Json)
    ensures
        reply@ == event_done_json(flag@, room_id@, event_id@),
{
    Fields::new().with(flag, Json::Bool(true)).with("room_id", Json::text(room_id)).with(
        "event_id",
        Json::text(event_id),
    ).done()
}

fn member_done(flag: &str, room_id: &str, user_id: &str) -> (reply: Json)
    ensures
        reply@ == member_done_json(flag@, room_id@, user_id@),
{
    Fields::new().with(flag, Json::Bool(true)).with("room_id", Json::text(room_id)).with(
        "user_id",
        Json::text(user_id),
    ).done()
}

/// The error of a step, in its context.
fn in_step(outcome: Result<(), String>, context: &str) -> (done: Result<(), String>)
    ensures
        fails_with(done, step_error(outcome, context@)),
{
    match outcome {
        Ok(()) => Ok(()),
        Err(cause) => Err(with_context(context, &cause)),
    }
}

fn id_in_step(outcome: Result<String, String>, context: &str) -> (id: Result<String, String>)
    ensures
        fails_with(id, step_error(outcome, context@)),
        id matches Ok(id) ==> outcome == Ok::<String, String>(id),
{
    match outcome {
        Ok(id) => Ok(id),
        Err(cause) => Err(with_context(context, &cause)),
    }
}

impl MatrixServer {
    pub fn new(matrix: MatrixManager) -> (server: MatrixServer)
        ensures
            server.matrix == matrix,
    {
        MatrixServer { matrix }
    }

    /// What the server tells a client of itself, under the given name and version.
    pub fn get_info(name: &str, version: &str) -> (info: ServerDescription)
        ensures
            info.name@ == name@,
            info.version@ == version@,
            info.title@ == "Matrix MCP"@,
            info.description@
                == "A Model Context Protocol server for the Matrix chat protocol."@,
            info.instructions@
                == "Matrix MCP server. Tools let you log in to a Matrix homeserver, list joined rooms, read and send messages, and join rooms. Start with `whoami` to check the login state, then `login` if needed. End-to-end encryption is supported: messages are encrypted and decrypted automatically using a persistent key store. Decrypting older history may require running `sync` so the device receives room keys; messages with no available key are flagged unable_to_decrypt."@,
    {
        ServerDescription {
            name: name.to_owned(),
            version: version.to_owned(),
            title: "Matrix MCP".to_owned(),
            description:
                "A Model Context Protocol server for the Matrix chat protocol.".to_owned(),
            instructions:
                "Matrix MCP server. Tools let you log in to a Matrix homeserver, list joined rooms, read and send messages, and join rooms. Start with `whoami` to check the login state, then `login` if needed. End-to-end encryption is supported: messages are encrypted and decrypted automatically using a persistent key store. Decrypting older history may require running `sync` so the device receives room keys; messages with no available key are flagged unable_to_decrypt.".to_owned(),
        }
    }

    /// Log in to a Matrix homeserver with a username and password. The session is saved to disk
    /// and reused on the next start.
    pub fn login(&self, args: &LoginArgs) -> (login: Result<Login, String>)
        ensures
            fails_with(login, self.matrix.login_error(text_of(args.homeserver))),
            login matches Ok(login) ==> {
                &&& self.matrix.sets_up(login, text_of(args.homeserver))
                &&& login.credentials matches Credentials::Password {
                    username,
                    password,
                    device_name,
                } && username@ == args.username@ && password@ == args.password@ && device_name
                    == self.matrix.device_name
            },
    {
        self.matrix.login(borrowed(&args.homeserver), &args.username, &args.password)
    }

    /// Log in using a pre-obtained access token instead of a password.
    pub fn login_with_token(&self, args: &LoginWithTokenArgs) -> (login: Result<Login, String>)
        ensures
            fails_with(
                login,
                first_of(
                    self.matrix.login_error(text_of(args.homeserver)),
                    user_id_error(args.user_id@),
                ),
            ),
            login matches Ok(login) ==> {
                &&& self.matrix.sets_up(login, text_of(args.homeserver))
                &&& login.credentials matches Credentials::Token(session) && session.user_id@
                    == args.user_id@ && session.device_id@ == args.device_id@
                    && session.access_token@ == args.access_token@ && session.refresh_token is None
            },
    {
        self.matrix.login_with_token(
            borrowed(&args.homeserver),
            &args.user_id,
            &args.device_id,
            &args.access_token,
        )
    }

    /// Log in via the homeserver's browser flow.
    pub fn login_sso(&self, args: &LoginSsoArgs) -> (login: Result<Login, String>)
        ensures
            fails_with(login, self.matrix.login_error(text_of(args.homeserver))),
            login matches Ok(login) ==> {
                &&& self.matrix.sets_up(login, text_of(args.homeserver))
                &&& login.credentials matches Credentials::Sso { identity_provider_id }
                    && text_of(identity_provider_id) == text_of(args.identity_provider_id)
            },
    {
        self.matrix.login_sso(borrowed(&args.homeserver), borrowed(&args.identity_provider_id))
    }

    /// Answers `login` and `login_with_token`.
    pub fn logged_in(info: &LoginInfo) -> (reply: Json)
        ensures
            reply@ == JsonView::Object(login_members(*info)),
    {
        login_fields(info).done()
    }

    /// Answers `login_sso`, with the URL that was used, if the homeserver returned one.
    pub fn logged_in_by_sso(info: &LoginInfo, sso_url: &Option<String>) -> (reply: Json)
        ensures
            reply@ == JsonView::Object(
                login_members(*info).push(("sso_url"@, optional_json(text_of(*sso_url)))),
            ),
    {
        login_fields(info).with("sso_url", Json::optional(sso_url)).done()
    }

    /// Answers `logout`.
    pub fn logged_out() -> (reply: Json)
        ensures
            reply@ == flag_json("logged_out"@),
    {
        Fields::new().with("logged_out", Json::Bool(true)).done()
    }

    /// Answers `sync`.
    pub fn synced() -> (reply: Json)
        ensures
            reply@ == flag_json("synced"@),
    {
        Fields::new().with("synced", Json::Bool(true)).done()
    }

    /// Set up a server-side key backup for this account.
    pub fn enable_key_backup(
        &self,
        args: &EnableKeyBackupArgs,
        exists_on_server: Option<bool>,
    ) -> (request: Result<EnableRequest, String>)
        ensures
            fails_with(
                request,
                first_of(self.matrix.connection_error(), earlier_backup_error(exists_on_server)),
            ),
            request matches Ok(request) ==> text_of(request.passphrase) == text_of(
                args.passphrase,
            ),
    {
        self.matrix.enable_key_backup(borrowed(&args.passphrase), exists_on_server)
    }

    /// Unlock the server-side key backup with a recovery key.
    pub fn restore_key_backup(&self, args: &RestoreKeyBackupArgs) -> (key: Result<String, String>)
        ensures
            text_or_error(key, args.recovery_key@, self.matrix.connection_error()),
    {
        self.matrix.restore_key_backup(&args.recovery_key)
    }

    /// Download a room's historical message keys from the server-side key backup.
    pub fn download_room_keys(&self, args: &DownloadRoomKeysArgs, room_found: bool) -> (room: Result<
        String,
        String,
    >)
        ensures
            text_or_error(
                room,
                args.room_id@,
                self.matrix.room_operation_error(args.room_id@, room_found),
            ),
    {
        self.matrix.download_room_keys(&args.room_id, room_found)
    }

    /// Send a text message to a room, plain unless Markdown is asked for.
    pub fn send_message(&self, args: &SendMessageArgs, room_found: bool) -> (request: Result<
        SendRequest,
        String,
    >)
        ensures
            fails_with(
                request,
                match text_of(args.reply_to_event_id) {
                    Some(event_id) => self.matrix.event_operation_error(
                        args.room_id@,
                        room_found,
                        event_id,
                    ),
                    None => self.matrix.room_operation_error(args.room_id@, room_found),
                },
            ),
            request matches Ok(request) ==> {
                &&& request.room_id@ == args.room_id@
                &&& text_content(request.content, args.body@, args.markdown == Some(true))
                &&& text_of(request.reply_to) == text_of(args.reply_to_event_id)
            },
    {
        self.matrix.send_message(
            &args.room_id,
            room_found,
            &args.body,
            or_false(args.markdown),
            borrowed(&args.reply_to_event_id),
        )
    }

    /// Answers `send_message`.
    pub fn message_sent(args: &SendMessageArgs, sent: &Sent) -> (reply: Json)
        ensures
            reply@ == sent_json(args.room_id@, *sent),
    {
        Fields::new().with("sent", Json::Bool(true)).with(
            "room_id",
            Json::text(&args.room_id),
        ).with("event_id", Json::text(&sent.event_id)).with(
            "thread_root",
            Json::optional(&sent.thread_root),
        ).done()
    }

    /// Edit a previously-sent message.
    pub fn edit_message(&self, args: &EditMessageArgs, room_found: bool) -> (request: Result<
        EditRequest,
        String,
    >)
        ensures
            fails_with(
                request,
                self.matrix.event_operation_error(args.room_id@, room_found, args.event_id@),
            ),
            request matches Ok(request) ==> {
                &&& request.room_id@ == args.room_id@
                &&& request.event_id@ == args.event_id@
                &&& text_content(request.content, args.body@, args.markdown == Some(true))
            },
    {
        self.matrix.edit_message(
            &args.room_id,
            room_found,
            &args.event_id,
            &args.body,
            or_false(args.markdown),
        )
    }

    /// Answers `edit_message`, with the id of the edit.
    pub fn message_edited(args: &EditMessageArgs, outcome: Result<String, EditFailure>) -> (reply:
        Result<Json, String>)
        ensures
            fails_with(reply, edit_error(outcome)),
            reply matches Ok(reply) ==> outcome is Ok && reply@ == event_done_json(
                "edited"@,
                args.room_id@,
                outcome->Ok_0@,
            ),
    {
        match outcome {
            Ok(event_id) => Ok(event_done("edited", &args.room_id, &event_id)),
            Err(EditFailure::Build(cause)) => Err(with_context("failed to build edit", &cause)),
            Err(EditFailure::Send(cause)) => Err(with_context("failed to send edit", &cause)),
        }
    }

    /// Redact (delete) an event - a message, to remove it, or a reaction, to un-react.
    pub fn redact_event(&self, args: &RedactEventArgs, room_found: bool) -> (request: Result<
        RedactRequest,
        String,
    >)
        ensures
            fails_with(
                request,
                self.matrix.event_operation_error(args.room_id@, room_found, args.event_id@),
            ),
            request matches Ok(request) ==> {
                &&& request.room_id@ == args.room_id@
                &&& request.event_id@ == args.event_id@
                &&& text_of(request.reason) == text_of(args.reason)
            },
    {
        self.matrix.redact_event(&args.room_id, room_found, &args.event_id, borrowed(&args.reason))
    }

    /// Answers `redact_event`, with the id of the redaction.
    pub fn event_redacted(args: &RedactEventArgs, outcome: Result<String, String>) -> (reply: Result<
        Json,
        String,
    >)
        ensures
            fails_with(reply, step_error(outcome, "failed to redact event"@)),
            reply matches Ok(reply) ==> outcome is Ok && reply@ == redacted_json(
                args.room_id@,
                args.event_id@,
                outcome->Ok_0@,
            ),
    {
        match id_in_step(outcome, "failed to redact event") {
            Ok(redaction_event_id) => Ok(
                Fields::new().with("redacted", Json::Bool(true)).with(
                    "room_id",
                    Json::text(&args.room_id),
                ).with("event_id", Json::text(&args.event_id)).with(
                    "redaction_event_id",
                    Json::Text(redaction_event_id),
                ).done(),
            ),
            Err(message) => Err(message),
        }
    }

    /// React to a message with an emoji.
    pub fn send_reaction(&self, args: &SendReactionArgs, room_found: bool) -> (request: Result<
        ReactionRequest,
        String,
    >)
        ensures
            fails_with(
                request,
                self.matrix.event_operation_error(args.room_id@, room_found, args.event_id@),
            ),
            request matches Ok(request) ==> {
                &&& request.room_id@ == args.room_id@
                &&& request.event_id@ == args.event_id@
                &&& request.emoji@ == args.emoji@
            },
    {
        self.matrix.send_reaction(&args.room_id, room_found, &args.event_id, &args.emoji)
    }

    /// Answers `send_reaction`, with the id of the reaction.
    pub fn reaction_sent(args: &SendReactionArgs, outcome: Result<String, String>) -> (reply: Result<
        Json,
        String,
    >)
        ensures
            fails_with(reply, step_error(outcome, "failed to send reaction"@)),
            reply matches Ok(reply) ==> outcome is Ok && reply@ == event_done_json(
                "reacted"@,
                args.room_id@,
                outcome->Ok_0@,
            ),
    {
        match id_in_step(outcome, "failed to send reaction") {
            Ok(event_id) => Ok(event_done("reacted", &args.room_id, &event_id)),
            Err(message) => Err(message),
        }
    }

    /// Mark a room as read up to a given event (or the latest message if omitted).
    pub fn mark_read(&self, args: &MarkReadArgs, room_found: bool) -> (request: Result<
        ReadRequest,
        String,
    >)
        ensures
            fails_with(
                request,
                match text_of(args.event_id) {
                    Some(event_id) => self.matrix.event_operation_error(
                        args.room_id@,
                        room_found,
                        event_id,
                    ),
                    None => self.matrix.room_operation_error(args.room_id@, room_found),
                },
            ),
            request matches Ok(request) ==> {
                &&& request.room_id@ == args.room_id@
                &&& text_of(request.event_id) == text_of(args.event_id)
            },
    {
        self.matrix.mark_read(&args.room_id, room_found, borrowed(&args.event_id))
    }

    /// Answers `mark_read`, with the event up to which the room was marked as read.
    pub fn marked_read(args: &MarkReadArgs, event_id: &str, outcome: Result<(), String>) -> (reply:
        Result<Json, String>)
        ensures
            fails_with(reply, step_error(outcome, "failed to send read receipt"@)),
            reply matches Ok(reply) ==> reply@ == event_done_json(
                "marked_read"@,
                args.room_id@,
                event_id@,
            ),
    {
        match in_step(outcome, "failed to send read receipt") {
            Ok(()) => Ok(event_done("marked_read", &args.room_id, event_id)),
            Err(message) => Err(message),
        }
    }

    /// List the members of a room.
    pub fn get_room_members(&self, args: &GetRoomMembersArgs, room_found: bool) -> (room: Result<
        String,
        String,
    >)
        ensures
            text_or_error(
                room,
                args.room_id@,
                self.matrix.room_operation_error(args.room_id@, room_found),
            ),
    {
        self.matrix.get_room_members(&args.room_id, room_found)
    }

    /// Read messages from a room, in chronological order: as many as asked for, 20 by default and
    /// 100 at most.
    pub fn read_messages(&self, args: &ReadMessagesArgs, room_found: bool) -> (request: Result<
        MessagesRequest,
        String,
    >)
        ensures
            fails_with(request, self.matrix.room_operation_error(args.room_id@, room_found)),
            request matches Ok(request) ==> {
                &&& request.room_id@ == args.room_id@
                &&& request.limit == limit_for(args.limit, DEFAULT_MESSAGES)
                &&& text_of(request.from) == text_of(args.before_token)
            },
    {
        self.matrix.read_messages(
            &args.room_id,
            room_found,
            clamped(args.limit, DEFAULT_MESSAGES),
            borrowed(&args.before_token),
        )
    }

    /// Read a single conversation thread: as many replies as asked for, 50 by default and 100 at
    /// most.
    pub fn read_thread(&self, args: &ReadThreadArgs, room_found: bool) -> (request: Result<
        ThreadRequest,
        String,
    >)
        ensures
            fails_with(
                request,
                self.matrix.event_operation_error(args.room_id@, room_found, args.event_id@),
            ),
            request matches Ok(request) ==> {
                &&& request.room_id@ == args.room_id@
                &&& request.requested@ == args.event_id@
                &&& request.limit == limit_for(args.limit, DEFAULT_REPLIES)
                &&& text_of(request.from) == text_of(args.from_token)
            },
    {
        self.matrix.read_thread(
            &args.room_id,
            room_found,
            &args.event_id,
            clamped(args.limit, DEFAULT_REPLIES),
            borrowed(&args.from_token),
        )
    }

    /// Join a room by its id (!room:server) or alias (#room:server).
    pub fn join_room(&self, args: &JoinRoomArgs) -> (target: Result<String, String>)
        ensures
            text_or_error(
                target,
                args.room@,
                first_of(self.matrix.connection_error(), room_or_alias_error(args.room@)),
            ),
    {
        self.matrix.join_room(&args.room)
    }

    /// Answers `join_room`, with the id of the room that was joined.
    pub fn room_joined(outcome: Result<String, String>) -> (reply: Result<Json, String>)
        ensures
            fails_with(reply, step_error(outcome, "failed to join room"@)),
            reply matches Ok(reply) ==> outcome is Ok && reply@ == room_done_json(
                "joined"@,
                outcome->Ok_0@,
            ),
    {
        match id_in_step(outcome, "failed to join room") {
            Ok(room_id) => Ok(room_done("joined", &room_id)),
            Err(message) => Err(message),
        }
    }

    /// Create a new room: private, unencrypted and no direct message unless asked for.
    pub fn create_room(&self, args: &CreateRoomArgs) -> (request: Result<CreateRoomRequest, String>)
        ensures
            fails_with(
                request,
                first_of(
                    self.matrix.connection_error(),
                    invite_error(invited_users(args.invite), 0),
                ),
            ),
            request matches Ok(request) ==> {
                &&& text_of(request.name) == text_of(args.name)
                &&& text_of(request.topic) == text_of(args.topic)
                &&& texts_of(request.invite@) == invited_users(args.invite)
                &&& request.is_direct == (args.is_direct == Some(true))
                &&& request.visibility == if args.public == Some(true) {
                    Visibility::Public
                } else {
                    Visibility::Private
                }
                &&& request.preset == if args.public == Some(true) {
                    RoomPreset::PublicChat
                } else {
                    RoomPreset::PrivateChat
                }
                &&& request.encrypted == (args.encrypted == Some(true))
            },
    {
        let nobody: Vec<String> = Vec::new();
        let invite: &Vec<String> = match &args.invite {
            Some(users) => users,
            None => &nobody,
        };
        proof {
            assert(texts_of(nobody@) =~= Seq::empty());
        }
        self.matrix.create_room(
            borrowed(&args.name),
            borrowed(&args.topic),
            invite,
            or_false(args.public),
            or_false(args.encrypted),
            or_false(args.is_direct),
        )
    }

    /// Answers `create_room`, with the id of the room that was created.
    pub fn room_created(outcome: Result<String, String>) -> (reply: Result<Json, String>)
        ensures
            fails_with(reply, step_error(outcome, "failed to create room"@)),
            reply matches Ok(reply) ==> outcome is Ok && reply@ == room_done_json(
                "created"@,
                outcome->Ok_0@,
            ),
    {
        match id_in_step(outcome, "failed to create room") {
            Ok(room_id) => Ok(room_done("created", &room_id)),
            Err(message) => Err(message),
        }
    }

    /// Invite a user to a room.
    pub fn invite_user(&self, args: &InviteUserArgs, room_found: bool) -> (request: Result<
        MemberRequest,
        String,
    >)
        ensures
            fails_with(
                request,
                self.matrix.member_operation_error(args.room_id@, room_found, args.user_id@),
            ),
            request matches Ok(request) ==> MatrixManager::targets(
                request,
                args.room_id@,
                args.user_id@,
                None,
            ),
    {
        self.matrix.invite_user(&args.room_id, room_found, &args.user_id)
    }

    /// Answers `invite_user`.
    pub fn user_invited(args: &InviteUserArgs, outcome: Result<(), String>) -> (reply: Result<
        Json,
        String,
    >)
        ensures
            fails_with(reply, step_error(outcome, "failed to invite user"@)),
            reply matches Ok(reply) ==> reply@ == member_done_json(
                "invited"@,
                args.room_id@,
                args.user_id@,
            ),
    {
        match in_step(outcome, "failed to invite user") {
            Ok(()) => Ok(member_done("invited", &args.room_id, &args.user_id)),
            Err(message) => Err(message),
        }
    }

    /// Leave a room.
    pub fn leave_room(&self, args: &LeaveRoomArgs, room_found: bool) -> (room: Result<
        String,
        String,
    >)
        ensures
            text_or_error(
                room,
                args.room_id@,
                self.matrix.room_operation_error(args.room_id@, room_found),
            ),
    {
        self.matrix.leave_room(&args.room_id, room_found)
    }

    /// Answers `leave_room`.
    pub fn room_left(args: &LeaveRoomArgs, outcome: Result<(), String>) -> (reply: Result<
        Json,
        String,
    >)
        ensures
            fails_with(reply, step_error(outcome, "failed to leave room"@)),
            reply matches Ok(reply) ==> reply@ == room_done_json("left"@, args.room_id@),
    {
        match in_step(outcome, "failed to leave room") {
            Ok(()) => Ok(room_done("left", &args.room_id)),
            Err(message) => Err(message),
        }
    }


    /// Kick a member from a room, optionally with a reason.
    pub fn kick_room_member(&self, args: &RoomMemberActionArgs, room_found: bool) -> (request: Result<
        MemberRequest,
        String,
    >)
        ensures
            fails_with(
                request,
                self.matrix.member_operation_error(args.room_id@, room_found, args.user_id@),
            ),
            request matches Ok(request) ==> MatrixManager::targets(
                request,
                args.room_id@,
                args.user_id@,
                text_of(args.reason),
            ),
    {
        self.matrix.kick_room_member(
            &args.room_id,
            room_found,
            &args.user_id,
            borrowed(&args.reason),
        )
    }

    /// Answers `kick_room_member`.
    pub fn member_kicked(args: &RoomMemberActionArgs, outcome: Result<(), String>) -> (reply: Result<
        Json,
        String,
    >)
        ensures
            fails_with(reply, step_error(outcome, "failed to kick member"@)),
            reply matches Ok(reply) ==> reply@ == member_done_json(
                "kicked"@,
                args.room_id@,
                args.user_id@,
            ),
    {
        match in_step(outcome, "failed to kick member") {
            Ok(()) => Ok(member_done("kicked", &args.room_id, &args.user_id)),
            Err(message) => Err(message),
        }
    }


    /// Ban a member from a room, optionally with a reason.
    pub fn ban_room_member(&self, args: &RoomMemberActionArgs, room_found: bool) -> (request: Result<
        MemberRequest,
        String,
    >)
        ensures
            fails_with(
                request,
                self.matrix.member_operation_error(args.room_id@, room_found, args.user_id@),
            ),
            request matches Ok(request) ==> MatrixManager::targets(
                request,
                args.room_id@,
                args.user_id@,
                text_of(args.reason),
            ),
    {
        self.matrix.ban_room_member(
            &args.room_id,
            room_found,
            &args.user_id,
            borrowed(&args.reason),
        )
    }

    /// Answers `ban_room_member`.
    pub fn member_banned(args: &RoomMemberActionArgs, outcome: Result<(), String>) -> (reply: Result<
        Json,
        String,
    >)
        ensures
            fails_with(reply, step_error(outcome, "failed to ban member"@)),
            reply matches Ok(reply) ==> reply@ == member_done_json(
                "banned"@,
                args.room_id@,
                args.user_id@,
            ),
    {
        match in_step(outcome, "failed to ban member") {
            Ok(()) => Ok(member_done("banned", &args.room_id, &args.user_id)),
            Err(message) => Err(message),
        }
    }


    /// Unban a previously-banned member from a room, optionally with a reason.
    pub fn unban_room_member(&self, args: &RoomMemberActionArgs, room_found: bool) -> (request: Result<
        MemberRequest,
        String,
    >)
        ensures
            fails_with(
                request,
                self.matrix.member_operation_error(args.room_id@, room_found, args.user_id@),
            ),
            request matches Ok(request) ==> MatrixManager::targets(
                request,
                args.room_id@,
                args.user_id@,
                text_of(args.reason),
            ),
    {
        self.matrix.unban_room_member(
            &args.room_id,
            room_found,
            &args.user_id,
            borrowed(&args.reason),
        )
    }

    /// Answers `unban_room_member`.
    pub fn member_unbanned(args: &RoomMemberActionArgs, outcome: Result<(), String>) -> (reply: Result<
        Json,
        String,
    >)
        ensures
            fails_with(reply, step_error(outcome, "failed to unban member"@)),
            reply matches Ok(reply) ==> reply@ == member_done_json(
                "unbanned"@,
                args.room_id@,
                args.user_id@,
            ),
    {
        match in_step(outcome, "failed to unban member") {
            Ok(()) => Ok(member_done("unbanned", &args.room_id, &args.user_id)),
            Err(message) => Err(message),
        }
    }


    /// Update a room's name and/or topic. Only the fields provided are changed.
    pub fn update_room(&self, args: &UpdateRoomArgs, room_found: bool) -> (request: Result<
        UpdateRequest,
        String,
    >)
        ensures
            fails_with(request, self.matrix.room_operation_error(args.room_id@, room_found)),
            request matches Ok(request) ==> {
                &&& request.room_id@ == args.room_id@
                &&& text_of(request.name) == text_of(args.name)
                &&& text_of(request.topic) == text_of(args.topic)
            },
    {
        self.matrix.update_room(
            &args.room_id,
            room_found,
            borrowed(&args.name),
            borrowed(&args.topic),
        )
    }

    /// Answers `update_room`.
    pub fn room_updated(args: &UpdateRoomArgs, outcome: Result<(), UpdateFailure>) -> (reply: Result<
        Json,
        String,
    >)
        ensures
            fails_with(reply, update_error(outcome)),
            reply matches Ok(reply) ==> reply@ == room_done_json("updated"@, args.room_id@),
    {
        match outcome {
            Ok(()) => Ok(room_done("updated", &args.room_id)),
            Err(UpdateFailure::Name(cause)) => Err(with_context("failed to set room name", &cause)),
            Err(UpdateFailure::Topic(cause)) => Err(
                with_context("failed to set room topic", &cause),
            ),
        }
    }

    /// Get or create a direct-message room with a user. Reuses an existing room if one already
    /// exists.
    pub fn create_dm(&self, args: &CreateDmArgs, existing: Option<&str>) -> (room: Result<
        DirectRoom,
        String,
    >)
        ensures
            fails_with(
                room,
                first_of(self.matrix.connection_error(), user_id_error(args.user_id@)),
            ),
            room matches Ok(room) ==> match existing {
                Some(existing) => room matches DirectRoom::Existing(id) && id@ == existing@,
                None => room matches DirectRoom::Create(user) && user@ == args.user_id@,
            },
    {
        self.matrix.create_dm(&args.user_id, existing)
    }

    /// Answers `create_dm`, with the room that was found or created.
    pub fn direct_room(args: &CreateDmArgs, room_id: &str) -> (reply: Json)
        ensures
            reply@ == direct_room_json(room_id@, args.user_id@),
    {
        Fields::new().with("room_id", Json::text(room_id)).with(
            "user_id",
            Json::text(&args.user_id),
        ).done()
    }

    /// Look up a user's profile (display name and avatar). Defaults to the logged-in user.
    pub fn get_profile(&self, args: &GetProfileArgs) -> (target: Result<String, String>)
        ensures
            fails_with(target, self.matrix.profile_target_error(text_of(args.user_id))),
            target matches Ok(target) ==> match text_of(args.user_id) {
                Some(user_id) => target@ == user_id,
                None => self.matrix.session matches Some(session) && session.user_id == Some(
                    target,
                ),
            },
    {
        self.matrix.get_profile(borrowed(&args.user_id))
    }

    /// Upload a local file and send it to a room.
    pub fn send_file(&self, args: &SendFileArgs, room_found: bool) -> (request: Result<
        FileRequest,
        String,
    >)
        ensures
            fails_with(request, self.matrix.room_operation_error(args.room_id@, room_found)),
            request matches Ok(request) ==> {
                &&& request.room_id@ == args.room_id@
                &&& request.path@ == args.path@
                &&& request.content_type@ == mime_type(deciding_extension(args.path@))
                &&& deciding_extension(args.path@).len() == 0 ==> request.content_type@
                    == "application/octet-stream"@
                &&& request.filename@ == sent_name(args.path@)
                &&& text_of(request.caption) == text_of(args.caption)
            },
    {
        self.matrix.send_file(&args.room_id, room_found, &args.path, borrowed(&args.caption))
    }

    /// Answers `send_file`.
    pub fn file_sent(args: &SendFileArgs, event_id: &str) -> (reply: Json)
        ensures
            reply@ == event_done_json("sent"@, args.room_id@, event_id@),
    {
        event_done("sent", &args.room_id, event_id)
    }

    /// Download the media attached to a message event and save it to a local path.
    pub fn download_media(&self, args: &DownloadMediaArgs, room_found: bool) -> (request: Result<
        DownloadRequest,
        String,
    >)
        ensures
            fails_with(
                request,
                self.matrix.event_operation_error(args.room_id@, room_found, args.event_id@),
            ),
            request matches Ok(request) ==> {
                &&& request.room_id@ == args.room_id@
                &&& request.event_id@ == args.event_id@
                &&& request.save_path@ == args.save_path@
            },
    {
        self.matrix.download_media(&args.room_id, room_found, &args.event_id, &args.save_path)
    }
}

/// The users to invite, where any are given.
pub open spec fn invited_users(invite: Option<Vec<String>>) -> Seq<Seq<char>> {
    match invite {
        Some(users) => texts_of(users@),
        None => Seq::empty(),
    }
}

/// Without a session, every operation that needs one is refused for that, and for nothing else,
/// whatever it is asked for.
pub proof fn law_operations_need_a_session(
    manager: MatrixManager,
    room_id: Seq<char>,
    room_found: bool,
    event_id: Seq<char>,
    user_id: Seq<char>,
)
    requires
        manager.session is None,
    ensures
        manager.connection_error() is Some,
        manager.room_operation_error(room_id, room_found) == manager.connection_error(),
        manager.event_operation_error(room_id, room_found, event_id) == manager.connection_error(),
        manager.member_operation_error(room_id, room_found, user_id) == manager.connection_error(),
        manager.profile_target_error(Some(user_id)) == manager.connection_error(),
        manager.profile_target_error(None) == manager.connection_error(),
        manager.start_error() == manager.connection_error(),
        manager.continue_error() == manager.connection_error(),
        manager.confirm_error() == manager.connection_error(),
{
}

/// With a session, an operation on a room that is known is refused only for the ids that it is
/// given.
pub proof fn law_known_rooms_are_served(manager: MatrixManager, room_id: Seq<char>)
    requires
        manager.session is Some,
        room_id_fault(room_id) is None,
    ensures
        manager.room_operation_error(room_id, true) is None,
        manager.room_operation_error(room_id, false) is Some,
{
}

/// A read returns at least one message and at most a hundred, and as many as asked for if that is
/// within these bounds.
pub proof fn law_limits_are_kept(asked: Option<u32>, default: u32)
    requires
        1 <= default <= MOST_MESSAGES,
    ensures
        1 <= limit_for(asked, default) <= MOST_MESSAGES,
        asked matches Some(limit) && 1 <= limit <= MOST_MESSAGES ==> limit_for(asked, default)
            == asked->Some_0,
        asked is None ==> limit_for(asked, default) == default,
{
}

} // verus!
