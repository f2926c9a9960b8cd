//! What the tools ask for.

use vstd::prelude::*;

use crate::args::{
    CreateDmArgs, CreateRoomArgs, DownloadMediaArgs, DownloadRoomKeysArgs, EditMessageArgs,
    EnableKeyBackupArgs, GetProfileArgs, GetRoomMembersArgs, InviteUserArgs, JoinRoomArgs,
    LeaveRoomArgs, MarkReadArgs, ReadMessagesArgs, ReadThreadArgs, RedactEventArgs,
    RestoreKeyBackupArgs, RoomMemberActionArgs, SendFileArgs, SendMessageArgs, SendReactionArgs,
    UpdateRoomArgs,
};
use crate::backup::EnableRequest;
use crate::ids::{event_id_fault, room_or_alias_fault, user_id_fault};
use crate::laws::{
    advice_to_log_in, alike, done_unless, kept_out, misspelt, or_else, refused, spells,
};
use crate::manager::MatrixManager;
use crate::media::{DownloadRequest, FileRequest};
use crate::reading::{MessagesRequest, ThreadRequest};
use crate::rooms::{
    CreateRoomRequest, DirectRoom, MemberRequest, RoomPreset, UpdateRequest, Visibility,
};
use crate::sending::{
    markdown_html, message_content, EditRequest, MessageRelation, ReactionRequest, ReadRequest,
    ReadStep, ReceiptKind, ReceiptThread, RedactRequest, ReplyThread, SendRequest, SendStep, Sent,
    TextContent,
};
use crate::server::MatrixServer;
use crate::sync::SyncNeed;

verus! {

/// Whether a content holds the whole of a body, and along with it, exactly if that is asked for,
/// what Markdown makes of it.
pub open spec fn content_is(content: TextContent, body: Seq<char>, markdown: bool) -> bool {
    &&& content.body@ == body
    &&& markdown ==> spells(content.html, markdown_html(body))
    &&& !markdown ==> content.html is None
}

/// A message is written as it was given, and formatted exactly if that was asked for.
pub proof fn law_messages_are_written_as_given(body: &str, markdown: bool, content: TextContent)
    requires
        call_ensures(message_content, (body, markdown), content),
    ensures
        content_is(content, body@, markdown),
{
}

/// A message goes to the room that was named, with the whole of its body, and as a reply exactly if
/// the event to reply to was given.
pub proof fn law_messages_go_where_they_are_sent(
    server: MatrixServer,
    args: SendMessageArgs,
    found: bool,
    request: Result<SendRequest, String>,
)
    requires
        call_ensures(MatrixServer::send_message, (&server, &args, found), request),
    ensures
        done_unless(request, match args.reply_to_event_id {
            Some(event_id) => or_else(
            kept_out(server.matrix.session is Some, args.room_id@, found),
            misspelt("event id"@, event_id@, event_id_fault(event_id@)),
        ),
            None => kept_out(server.matrix.session is Some, args.room_id@, found),
        }),
        request matches Ok(request) ==> {
            &&& request.room_id@ == args.room_id@
            &&& content_is(request.content, args.body@, args.markdown == Some(true))
            &&& alike(request.reply_to, args.reply_to_event_id)
        },
{
}

/// An edit is of the event that was named, and puts the whole of the new body in its place.
pub proof fn law_edits_are_of_the_event(
    server: MatrixServer,
    args: EditMessageArgs,
    found: bool,
    request: Result<EditRequest, String>,
)
    requires
        call_ensures(MatrixServer::edit_message, (&server, &args, found), request),
    ensures
        done_unless(request, or_else(
            kept_out(server.matrix.session is Some, args.room_id@, found),
            misspelt("event id"@, args.event_id@, event_id_fault(args.event_id@)),
        )),
        request matches Ok(request) ==> {
            &&& request.room_id@ == args.room_id@
            &&& request.event_id@ == args.event_id@
            &&& content_is(request.content, args.body@, args.markdown == Some(true))
        },
{
}

/// A redaction is of the event that was named, with the reason that was given.
pub proof fn law_redactions_are_of_the_event(
    server: MatrixServer,
    args: RedactEventArgs,
    found: bool,
    request: Result<RedactRequest, String>,
)
    requires
        call_ensures(MatrixServer::redact_event, (&server, &args, found), request),
    ensures
        done_unless(request, or_else(
            kept_out(server.matrix.session is Some, args.room_id@, found),
            misspelt("event id"@, args.event_id@, event_id_fault(args.event_id@)),
        )),
        request matches Ok(request) ==> {
            &&& request.room_id@ == args.room_id@
            &&& request.event_id@ == args.event_id@
            &&& alike(request.reason, args.reason)
        },
{
}

/// A reaction is to the event that was named, with the emoji that was given, whole.
pub proof fn law_reactions_are_to_the_event(
    server: MatrixServer,
    args: SendReactionArgs,
    found: bool,
    request: Result<ReactionRequest, String>,
)
    requires
        call_ensures(MatrixServer::send_reaction, (&server, &args, found), request),
    ensures
        done_unless(request, or_else(
            kept_out(server.matrix.session is Some, args.room_id@, found),
            misspelt("event id"@, args.event_id@, event_id_fault(args.event_id@)),
        )),
        request matches Ok(request) ==> {
            &&& request.room_id@ == args.room_id@
            &&& request.event_id@ == args.event_id@
            &&& request.emoji@ == args.emoji@
        },
{
}

/// A room is marked as read up to the event that was named, if one was.
pub proof fn law_rooms_are_read_up_to_the_event(
    server: MatrixServer,
    args: MarkReadArgs,
    found: bool,
    request: Result<ReadRequest, String>,
)
    requires
        call_ensures(MatrixServer::mark_read, (&server, &args, found), request),
    ensures
        done_unless(request, match args.event_id {
            Some(event_id) => or_else(
            kept_out(server.matrix.session is Some, args.room_id@, found),
            misspelt("event id"@, event_id@, event_id_fault(event_id@)),
        ),
            None => kept_out(server.matrix.session is Some, args.room_id@, found),
        }),
        request matches Ok(request) ==> {
            &&& request.room_id@ == args.room_id@
            &&& alike(request.event_id, args.event_id)
        },
{
}

/// How many messages are asked for: as many as the caller wants, if that is from 1 to 100; the
/// nearest of these if not; and a default if the caller does not say.
pub open spec fn wanted(limit: u32, asked: Option<u32>, default: u32) -> bool {
    match asked {
        Some(asked) => if asked == 0 {
            limit == 1
        } else if asked <= 100 {
            limit == asked
        } else {
            limit == 100
        },
        None => limit == default,
    }
}

/// Messages are read from the room that was named, as many as are wanted, from where the caller left
/// off.
pub proof fn law_messages_are_read_as_wanted(
    server: MatrixServer,
    args: ReadMessagesArgs,
    found: bool,
    request: Result<MessagesRequest, String>,
)
    requires
        call_ensures(MatrixServer::read_messages, (&server, &args, found), request),
    ensures
        done_unless(request, kept_out(server.matrix.session is Some, args.room_id@, found)),
        request matches Ok(request) ==> {
            &&& request.room_id@ == args.room_id@
            &&& wanted(request.limit, args.limit, 20)
            &&& alike(request.from, args.before_token)
        },
{
}

/// A thread is read from the event that was named, with as many replies as are wanted, from where the
/// caller left off.
pub proof fn law_threads_are_read_as_wanted(
    server: MatrixServer,
    args: ReadThreadArgs,
    found: bool,
    request: Result<ThreadRequest, String>,
)
    requires
        call_ensures(MatrixServer::read_thread, (&server, &args, found), request),
    ensures
        done_unless(request, or_else(
            kept_out(server.matrix.session is Some, args.room_id@, found),
            misspelt("event id"@, args.event_id@, event_id_fault(args.event_id@)),
        )),
        request matches Ok(request) ==> {
            &&& request.room_id@ == args.room_id@
            &&& request.requested@ == args.event_id@
            &&& wanted(request.limit, args.limit, 50)
            &&& alike(request.from, args.from_token)
        },
{
}

/// The members that are listed are those of the room that was named.
pub proof fn law_get_room_members_names_its_room(
    server: MatrixServer,
    args: GetRoomMembersArgs,
    found: bool,
    room: Result<String, String>,
)
    requires
        call_ensures(MatrixServer::get_room_members, (&server, &args, found), room),
    ensures
        done_unless(room, kept_out(server.matrix.session is Some, args.room_id@, found)),
        room matches Ok(room) ==> {
            &&& room@ == args.room_id@
        },
{
}

/// The room that is left is the one that was named.
pub proof fn law_leave_room_names_its_room(
    server: MatrixServer,
    args: LeaveRoomArgs,
    found: bool,
    room: Result<String, String>,
)
    requires
        call_ensures(MatrixServer::leave_room, (&server, &args, found), room),
    ensures
        done_unless(room, kept_out(server.matrix.session is Some, args.room_id@, found)),
        room matches Ok(room) ==> {
            &&& room@ == args.room_id@
        },
{
}

/// The keys that are downloaded are those of the room that was named.
pub proof fn law_download_room_keys_names_its_room(
    server: MatrixServer,
    args: DownloadRoomKeysArgs,
    found: bool,
    room: Result<String, String>,
)
    requires
        call_ensures(MatrixServer::download_room_keys, (&server, &args, found), room),
    ensures
        done_unless(room, kept_out(server.matrix.session is Some, args.room_id@, found)),
        room matches Ok(room) ==> {
            &&& room@ == args.room_id@
        },
{
}

/// An invitation is for the user and the room that were named.
pub proof fn law_invitations_are_for_the_user(
    server: MatrixServer,
    args: InviteUserArgs,
    found: bool,
    request: Result<MemberRequest, String>,
)
    requires
        call_ensures(MatrixServer::invite_user, (&server, &args, found), request),
    ensures
        done_unless(request, or_else(
            kept_out(server.matrix.session is Some, args.room_id@, found),
            misspelt("user id"@, args.user_id@, user_id_fault(args.user_id@)),
        )),
        request matches Ok(request) ==> {
            &&& request.room_id@ == args.room_id@
            &&& request.user_id@ == args.user_id@
            &&& request.reason is None
        },
{
}

/// Kicking is done to the user that was named, in the room that was named, and for the reason given.
pub proof fn law_kick_room_member_names_its_member(
    server: MatrixServer,
    args: RoomMemberActionArgs,
    found: bool,
    request: Result<MemberRequest, String>,
)
    requires
        call_ensures(MatrixServer::kick_room_member, (&server, &args, found), request),
    ensures
        done_unless(request, or_else(
            kept_out(server.matrix.session is Some, args.room_id@, found),
            misspelt("user id"@, args.user_id@, user_id_fault(args.user_id@)),
        )),
        request matches Ok(request) ==> {
            &&& request.room_id@ == args.room_id@
            &&& request.user_id@ == args.user_id@
            &&& alike(request.reason, args.reason)
        },
{
}

/// Banning is done to the user that was named, in the room that was named, and for the reason given.
pub proof fn law_ban_room_member_names_its_member(
    server: MatrixServer,
    args: RoomMemberActionArgs,
    found: bool,
    request: Result<MemberRequest, String>,
)
    requires
        call_ensures(MatrixServer::ban_room_member, (&server, &args, found), request),
    ensures
        done_unless(request, or_else(
            kept_out(server.matrix.session is Some, args.room_id@, found),
            misspelt("user id"@, args.user_id@, user_id_fault(args.user_id@)),
        )),
        request matches Ok(request) ==> {
            &&& request.room_id@ == args.room_id@
            &&& request.user_id@ == args.user_id@
            &&& alike(request.reason, args.reason)
        },
{
}

/// Unbanning is done to the user that was named, in the room that was named, and for the reason given.
pub proof fn law_unban_room_member_names_its_member(
    server: MatrixServer,
    args: RoomMemberActionArgs,
    found: bool,
    request: Result<MemberRequest, String>,
)
    requires
        call_ensures(MatrixServer::unban_room_member, (&server, &args, found), request),
    ensures
        done_unless(request, or_else(
            kept_out(server.matrix.session is Some, args.room_id@, found),
            misspelt("user id"@, args.user_id@, user_id_fault(args.user_id@)),
        )),
        request matches Ok(request) ==> {
            &&& request.room_id@ == args.room_id@
            &&& request.user_id@ == args.user_id@
            &&& alike(request.reason, args.reason)
        },
{
}

/// An update changes of a room what was given, each of the name and the topic, and nothing else.
pub proof fn law_updates_change_what_is_given(
    server: MatrixServer,
    args: UpdateRoomArgs,
    found: bool,
    request: Result<UpdateRequest, String>,
)
    requires
        call_ensures(MatrixServer::update_room, (&server, &args, found), request),
    ensures
        done_unless(request, kept_out(server.matrix.session is Some, args.room_id@, found)),
        request matches Ok(request) ==> {
            &&& request.room_id@ == args.room_id@
            &&& alike(request.name, args.name)
            &&& alike(request.topic, args.topic)
        },
{
}

/// A file is sent from the path that was given to the room that was named, with the caption given.
pub proof fn law_files_go_where_they_are_sent(
    server: MatrixServer,
    args: SendFileArgs,
    found: bool,
    request: Result<FileRequest, String>,
)
    requires
        call_ensures(MatrixServer::send_file, (&server, &args, found), request),
    ensures
        done_unless(request, kept_out(server.matrix.session is Some, args.room_id@, found)),
        request matches Ok(request) ==> {
            &&& request.room_id@ == args.room_id@
            &&& request.path@ == args.path@
            &&& alike(request.caption, args.caption)
        },
{
}

/// What is downloaded is what the named event carries, and it is saved at the path that was given.
pub proof fn law_downloads_go_where_they_are_saved(
    server: MatrixServer,
    args: DownloadMediaArgs,
    found: bool,
    request: Result<DownloadRequest, String>,
)
    requires
        call_ensures(MatrixServer::download_media, (&server, &args, found), request),
    ensures
        done_unless(request, or_else(
            kept_out(server.matrix.session is Some, args.room_id@, found),
            misspelt("event id"@, args.event_id@, event_id_fault(args.event_id@)),
        )),
        request matches Ok(request) ==> {
            &&& request.room_id@ == args.room_id@
            &&& request.event_id@ == args.event_id@
            &&& request.save_path@ == args.save_path@
        },
{
}

/// A room is joined by the id or alias that was given, unchanged.
pub proof fn law_rooms_are_joined_by_what_is_given(
    server: MatrixServer,
    args: JoinRoomArgs,
    target: Result<String, String>,
)
    requires
        call_ensures(MatrixServer::join_room, (&server, &args), target),
    ensures
        done_unless(
            target,
            if server.matrix.session is None {
                Some(advice_to_log_in())
            } else {
                misspelt("room id or alias"@, args.room@, room_or_alias_fault(args.room@))
            },
        ),
        target matches Ok(target) ==> target@ == args.room@,
{
}

/// A room is created as it was asked for: every user on the list is invited, in its order, and what
/// is not asked for is not so.
pub proof fn law_rooms_are_created_as_asked(
    server: MatrixServer,
    args: CreateRoomArgs,
    request: Result<CreateRoomRequest, String>,
)
    requires
        call_ensures(MatrixServer::create_room, (&server, &args), request),
    ensures
        server.matrix.session is None ==> refused(request, advice_to_log_in()),
        request matches Ok(request) ==> {
            &&& alike(request.name, args.name)
            &&& alike(request.topic, args.topic)
            &&& match args.invite {
                Some(users) => request.invite@.len() == users@.len() && forall|i: int|
                    0 <= i < users@.len() ==> (#[trigger] request.invite@[i])@ == users@[i]@
                        && user_id_fault(users@[i]@) is None,
                None => request.invite@.len() == 0,
            }
            &&& request.is_direct == (args.is_direct == Some(true))
            &&& request.encrypted == (args.encrypted == Some(true))
            &&& args.public == Some(true) ==> request.visibility == Visibility::Public
                && request.preset == RoomPreset::PublicChat
            &&& args.public != Some(true) ==> request.visibility == Visibility::Private
                && request.preset == RoomPreset::PrivateChat
        },
{
    if request is Ok {
        let made = request->Ok_0;
        let texts = crate::text::texts_of(made.invite@);
        assert(texts.len() == made.invite@.len());
        if args.invite is Some {
            let users = args.invite->Some_0;
            let wanted = crate::text::texts_of(users@);
            assert(texts == wanted);
            crate::rooms::law_first_bad_invite_is_reported(wanted, 0);
            assert forall|i: int| 0 <= i < users@.len() implies (#[trigger] made.invite@[i])@
                == users@[i]@ && user_id_fault(users@[i]@) is None by {
                assert(texts[i] == made.invite@[i]@);
                assert(wanted[i] == users@[i]@);
            }
        }
    }
}

/// With a session, a room is created unless one of the users to invite has an id that is none, and
/// then the first such user is the one that is reported.
pub proof fn law_bad_invitations_are_reported(
    server: MatrixServer,
    args: CreateRoomArgs,
    request: Result<CreateRoomRequest, String>,
    first: int,
)
    requires
        call_ensures(MatrixServer::create_room, (&server, &args), request),
        server.matrix.session is Some,
    ensures
        args.invite is None ==> request is Ok,
        args.invite matches Some(users) ==> {
            &&& (forall|i: int|
                0 <= i < users@.len() ==> user_id_fault((#[trigger] users@[i])@) is None)
                ==> request is Ok
            &&& 0 <= first < users@.len() && user_id_fault(users@[first]@) is Some && (forall|i: int|
                0 <= i < first ==> user_id_fault((#[trigger] users@[i])@) is None) ==> refused(
                request,
                "invalid "@ + "user id"@ + " '"@ + users@[first]@ + "': "@ + user_id_fault(
                    users@[first]@,
                )->Some_0,
            )
        },
{
    if args.invite is Some {
        let users = args.invite->Some_0;
        let wanted = crate::text::texts_of(users@);
        crate::rooms::law_first_bad_invite_is_reported(wanted, 0);
        assert forall|i: int| 0 <= i < wanted.len() implies #[trigger] wanted[i] == users@[i]@ by {}
        if forall|i: int| 0 <= i < users@.len() ==> user_id_fault((#[trigger] users@[i])@) is None {
            assert forall|i: int| 0 <= i < wanted.len() implies crate::ids::user_id_error(
                #[trigger] wanted[i],
            ) is None by {
                assert(user_id_fault(users@[i]@) is None);
            }
        }
        if 0 <= first < users@.len() && user_id_fault(users@[first]@) is Some && (forall|i: int|
            0 <= i < first ==> user_id_fault((#[trigger] users@[i])@) is None) {
            assert(crate::ids::user_id_error(wanted[first]) is Some);
            assert forall|i: int| 0 <= i < first implies crate::ids::user_id_error(
                #[trigger] wanted[i],
            ) is None by {
                assert(user_id_fault(users@[i]@) is None);
            }
        }
    }
}

/// Direct messages with a user go to the room that there is, or else to one that is created with
/// that user.
pub proof fn law_direct_rooms_are_reused(
    server: MatrixServer,
    args: CreateDmArgs,
    existing: Option<&str>,
    room: Result<DirectRoom, String>,
    outcome: Result<String, String>,
    created: Result<crate::rooms::CreatedRoom, String>,
)
    requires
        call_ensures(MatrixServer::create_dm, (&server, &args, existing), room),
        call_ensures(crate::rooms::on_dm_created, (outcome,), created),
    ensures
        done_unless(
            room,
            if server.matrix.session is None {
                Some(advice_to_log_in())
            } else {
                misspelt("user id"@, args.user_id@, user_id_fault(args.user_id@))
            },
        ),
        room matches Ok(room) ==> match existing {
            Some(existing) => room matches DirectRoom::Existing(id) && id@ == existing@,
            None => room matches DirectRoom::Create(user) && user@ == args.user_id@,
        },
        match outcome {
            Ok(id) => created matches Ok(created) && created.room_id == id && created.need
                == SyncNeed::BestEffort,
            Err(cause) => refused(created, "failed to create DM room"@ + ": "@ + cause@),
        },
{
}

/// The profile that is looked up is that of the user that was named, or else of the account.
pub proof fn law_profiles_are_of_the_user(
    server: MatrixServer,
    args: GetProfileArgs,
    target: Result<String, String>,
)
    requires
        call_ensures(MatrixServer::get_profile, (&server, &args), target),
    ensures
        match (server.matrix.session, args.user_id) {
            (None, _) => refused(target, advice_to_log_in()),
            (Some(_), Some(user_id)) => done_unless(
                target,
                misspelt("user id"@, user_id@, user_id_fault(user_id@)),
            ) && (target matches Ok(target) ==> target@ == user_id@),
            (Some(session), None) => match session.user_id {
                Some(account) => target == Ok::<String, String>(account),
                None => refused(target, "not logged in"@),
            },
        },
{
}

/// A key backup is set up, with the passphrase that was given, exactly for an account that the
/// server says has none; and one is unlocked with the key that was given.
pub proof fn law_backups_are_set_up_as_asked(
    server: MatrixServer,
    args: EnableKeyBackupArgs,
    exists_on_server: Option<bool>,
    request: Result<EnableRequest, String>,
    restore: RestoreKeyBackupArgs,
    key: Result<String, String>,
)
    requires
        call_ensures(MatrixServer::enable_key_backup, (&server, &args, exists_on_server), request),
        call_ensures(MatrixServer::restore_key_backup, (&server, &restore), key),
    ensures
        server.matrix.session is None ==> refused(request, advice_to_log_in()) && refused(
            key,
            advice_to_log_in(),
        ),
        request is Ok <==> server.matrix.session is Some && exists_on_server == Some(false),
        server.matrix.session is Some && exists_on_server == Some(true) ==> refused(
            request,
            "this account already has a key backup - use `restore_key_backup` with its existing recovery key. Creating a new one would invalidate the old key and strand the keys already backed up under it."@,
        ),
        request matches Ok(request) ==> alike(request.passphrase, args.passphrase),
        server.matrix.session is Some ==> (key matches Ok(key) && key@ == restore.recovery_key@),
{
}

/// Listing the rooms takes a session, and makes do without the sync before it.
pub proof fn law_rooms_are_listed_with_a_session(
    manager: MatrixManager,
    need: Result<SyncNeed, String>,
)
    requires
        call_ensures(MatrixManager::list_rooms, (&manager,), need),
    ensures
        manager.session is None ==> refused(need, advice_to_log_in()),
        manager.session is Some ==> need == Ok::<SyncNeed, String>(SyncNeed::BestEffort),
{
}

/// A message that is a reply is built as one to the very event, into the thread of that event if it
/// has one and without beginning a thread, and with its author mentioned; any other is sent at once,
/// into no thread.
pub proof fn law_replies_are_to_the_event(request: SendRequest, step: SendStep<String>)
    requires
        call_ensures(SendRequest::begin, (&request,), step),
    ensures
        match request.reply_to {
            Some(event_id) => step matches SendStep::BuildReply(plan) && plan.event_id@ == event_id@
                && plan.thread == ReplyThread::MaybeThreaded && plan.mention_author,
            None => step matches SendStep::Send { thread_root } && thread_root is None,
        },
{
}

/// A reply that was built goes into the thread that it relates to, if it relates to one; what was
/// sent is told with its event and that thread.
pub proof fn law_replies_go_into_their_thread(
    request: SendRequest,
    built: Result<MessageRelation<String>, String>,
    step: SendStep<String>,
    thread_root: Option<String>,
    outcome: Result<String, String>,
    sent: Result<Sent, String>,
)
    requires
        call_ensures(SendRequest::on_reply_built, (&request, built), step),
        call_ensures(SendRequest::on_sent, (&request, thread_root, outcome), sent),
    ensures
        match built {
            Ok(MessageRelation::Thread(root)) => step matches SendStep::Send { thread_root: into }
                && into is Some && into->Some_0@ == root@,
            Ok(_) => step matches SendStep::Send { thread_root: into } && into is None,
            Err(cause) => step matches SendStep::Fail(message) && message@
                == "failed to build reply"@ + ": "@ + cause@,
        },
        match outcome {
            Ok(event_id) => sent matches Ok(sent) && sent.event_id == event_id && sent.thread_root
                == thread_root,
            Err(cause) => refused(sent, "failed to send message"@ + ": "@ + cause@),
        },
{
}

/// A room is marked as read by a public receipt for the whole of it, for the event that was named,
/// or else for the latest one, which is asked for alone; a room without events, or with one that has
/// no id, cannot be.
pub proof fn law_receipts_are_for_the_event(
    request: ReadRequest,
    first: ReadStep<String>,
    latest: Result<Option<Option<String>>, String>,
    next: ReadStep<String>,
)
    requires
        call_ensures(ReadRequest::begin, (&request,), first),
        call_ensures(ReadRequest::on_latest, (&request, latest), next),
    ensures
        match request.event_id {
            Some(event_id) => first matches ReadStep::Send(receipt) && receipt.event_id@
                == event_id@ && receipt.kind == ReceiptKind::Read && receipt.thread
                == ReceiptThread::Unthreaded,
            None => first matches ReadStep::FetchLatest(query) && query.limit == 1
                && query.from is None && query.direction == crate::reading::Direction::Backward,
        },
        match latest {
            Ok(Some(Some(event_id))) => next matches ReadStep::Send(receipt) && receipt.event_id@
                == event_id@ && receipt.kind == ReceiptKind::Read && receipt.thread
                == ReceiptThread::Unthreaded,
            Ok(Some(None)) => next matches ReadStep::Fail(message) && message@
                == "latest event has no id"@,
            Ok(None) => next matches ReadStep::Fail(message) && message@ == "room "@
                + request.room_id@ + " has no messages to mark as read"@,
            Err(cause) => next matches ReadStep::Fail(message) && message@
                == "failed to fetch latest message"@ + ": "@ + cause@,
        },
{
}

/// A file is sent by the server as the manager would send it: under the same name, and as the same
/// type of content.
pub proof fn law_the_server_sends_files_as_the_manager_does(
    server: MatrixServer,
    args: SendFileArgs,
    found: bool,
    request: FileRequest,
    room_id: &str,
    path: &str,
    caption: Option<&str>,
    other: FileRequest,
)
    requires
        room_id@ == args.room_id@,
        path@ == args.path@,
        call_ensures(
            MatrixServer::send_file,
            (&server, &args, found),
            Ok::<FileRequest, String>(request),
        ),
        call_ensures(
            MatrixManager::send_file,
            (&server.matrix, room_id, found, path, caption),
            Ok::<FileRequest, String>(other),
        ),
    ensures
        request.filename@ == other.filename@,
        request.content_type@ == other.content_type@,
{
}

} // verus!
