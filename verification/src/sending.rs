//! Sending: messages, edits, redactions, reactions and read receipts.

use vstd::prelude::*;

use crate::ids::{event_id_error, parse_event_id, resolve_room, room_error};
use crate::manager::MatrixManager;
use crate::outcome::{fails_with, step_error};
use crate::reading::{messages_query_view, Direction, MessagesQuery};
use crate::text::{first_of, in_context, owned, slice_text, text_of, with_context};

verus! {

/// The text of a message.
pub struct TextContent {
    pub body: String,
    /// The body as HTML, for a message that has formatting.
    pub html: Option<String>,
}

/// The HTML that `ruma` renders a Markdown text as; `None` if there is no formatting in it.
pub uninterp spec fn markdown_html(text: Seq<char>) -> Option<Seq<char>>;

/// `RoomMessageEventContentWithoutRelation::text_markdown` of `ruma-events`: the HTML that it
/// attaches to the message, if any. It depends on the text alone; nothing more is said of it here.
#[verifier::external_body]
fn ruma_markdown(text: &str) -> (html: Option<String>)
    ensures
        text_of(html) == markdown_html(text@),
{
    match matrix_sdk::ruma::events::room::message::RoomMessageEventContentWithoutRelation::text_markdown(
        text,
    ).msgtype {
        matrix_sdk::ruma::events::room::message::MessageType::Text(content) => content.formatted.map(
            |formatted| formatted.body,
        ),
        _ => None,
    }
}

/// Whether a content is the body that was given, rendered as Markdown or left plain.
pub open spec fn text_content(content: TextContent, body: Seq<char>, markdown: bool) -> bool {
    &&& content.body@ == body
    &&& text_of(content.html) == if markdown {
        markdown_html(body)
    } else {
        None
    }
}

/// The content of a message with the given body.
pub fn message_content(body: &str, markdown: bool) -> (content: TextContent)
    ensures
        text_content(content, body@, markdown),
{
    TextContent {
        body: body.to_owned(),
        html: if markdown {
            ruma_markdown(body)
        } else {
            None
        },
    }
}

/// A message to send.
pub struct SendRequest {
    pub room_id: String,
    pub content: TextContent,
    /// The event that the message is a rich reply to.
    pub reply_to: Option<String>,
}

/// How a message that was built relates to others.
pub enum MessageRelation<S> {
    /// It belongs to the thread with this root.
    Thread(S),
    /// It relates to another event in some other way.
    Other,
    /// It relates to no other event.
    Unrelated,
}

/// Whether a reply goes into a thread.
#[derive(Clone, Copy, PartialEq, Eq, Debug, Structural)]
pub enum ReplyThread {
    /// Into the thread of the event replied to, or into a new one that begins with that event.
    Threaded,
    /// Into the thread of the event replied to, if it belongs to one; no thread is begun.
    MaybeThreaded,
    Unthreaded,
}

/// A rich reply to build.
pub struct ReplyPlan<S> {
    /// The event replied to.
    pub event_id: S,
    pub thread: ReplyThread,
    /// Whether the author of that event is mentioned, and so notified.
    pub mention_author: bool,
}

/// What the driver that sends a message does next.
pub enum SendStep<S> {
    /// Build a reply, and report to [`SendRequest::on_reply_built`].
    BuildReply(ReplyPlan<S>),
    /// Send the message; it goes into the thread with the given root.
    Send { thread_root: Option<S> },
    Fail(S),
}

/// A message that was sent.
pub struct Sent {
    pub event_id: String,
    pub thread_root: Option<String>,
}

pub open spec fn relation_view(relation: MessageRelation<String>) -> MessageRelation<Seq<char>> {
    match relation {
        MessageRelation::Thread(root) => MessageRelation::Thread(root@),
        MessageRelation::Other => MessageRelation::Other,
        MessageRelation::Unrelated => MessageRelation::Unrelated,
    }
}

pub open spec fn send_step_view(step: SendStep<String>) -> SendStep<Seq<char>> {
    match step {
        SendStep::BuildReply(plan) => SendStep::BuildReply(
            ReplyPlan {
                event_id: plan.event_id@,
                thread: plan.thread,
                mention_author: plan.mention_author,
            },
        ),
        SendStep::Send { thread_root } => SendStep::Send { thread_root: text_of(thread_root) },
        SendStep::Fail(message) => SendStep::Fail(message@),
    }
}

/// The thread that a message goes into.
pub open spec fn forwarded_thread(relation: MessageRelation<Seq<char>>) -> Option<Seq<char>> {
    match relation {
        MessageRelation::Thread(root) => Some(root),
        _ => None,
    }
}

/// A reply belongs in the thread of the event replied to, if that is in one, and never begins a
/// thread; its author is notified.
pub open spec fn reply_plan(event_id: Seq<char>) -> ReplyPlan<Seq<char>> {
    ReplyPlan { event_id, thread: ReplyThread::MaybeThreaded, mention_author: true }
}

/// What comes first in sending a message, given the event that it is a reply to.
pub open spec fn first_send_step(reply_to: Option<Seq<char>>) -> SendStep<Seq<char>> {
    match reply_to {
        Some(event_id) => SendStep::BuildReply(reply_plan(event_id)),
        None => SendStep::Send { thread_root: None },
    }
}

/// What follows the reply that was built.
pub open spec fn after_reply_built(
    outcome: Result<MessageRelation<Seq<char>>, Seq<char>>,
) -> SendStep<Seq<char>> {
    match outcome {
        Ok(relation) => SendStep::Send { thread_root: forwarded_thread(relation) },
        Err(cause) => SendStep::Fail(in_context("failed to build reply"@, cause)),
    }
}

pub open spec fn relation_outcome(outcome: Result<MessageRelation<String>, String>) -> Result<
    MessageRelation<Seq<char>>,
    Seq<char>,
> {
    match outcome {
        Ok(relation) => Ok(relation_view(relation)),
        Err(cause) => Err(cause@),
    }
}

impl SendRequest {
    pub fn begin(&self) -> (step: SendStep<String>)
        ensures
            send_step_view(step) == first_send_step(text_of(self.reply_to)),
    {
        match &self.reply_to {
            Some(event_id) => SendStep::BuildReply(
                ReplyPlan {
                    event_id: event_id.clone(),
                    thread: ReplyThread::MaybeThreaded,
                    mention_author: true,
                },
            ),
            None => SendStep::Send { thread_root: None },
        }
    }

    /// Reacts to the reply that was built. Whether the thread was forwarded is only knowable from
    /// the built content, so it is kept for the report.
    pub fn on_reply_built(&self, outcome: Result<MessageRelation<String>, String>) -> (step:
        SendStep<String>)
        ensures
            send_step_view(step) == after_reply_built(relation_outcome(outcome)),
    {
        match outcome {
            Ok(MessageRelation::Thread(root)) => SendStep::Send { thread_root: Some(root) },
            Ok(_) => SendStep::Send { thread_root: None },
            Err(cause) => SendStep::Fail(with_context("failed to build reply", &cause)),
        }
    }

    /// Takes note of the message that was sent.
    pub fn on_sent(&self, thread_root: Option<String>, outcome: Result<String, String>) -> (sent:
        Result<Sent, String>)
        ensures
            fails_with(sent, step_error(outcome, "failed to send message"@)),
            sent matches Ok(sent) ==> outcome == Ok::<String, String>(sent.event_id)
                && sent.thread_root == thread_root,
    {
        match outcome {
            Ok(event_id) => Ok(Sent { event_id, thread_root }),
            Err(cause) => Err(with_context("failed to send message", &cause)),
        }
    }
}

/// An edit of a message.
pub struct EditRequest {
    pub room_id: String,
    pub event_id: String,
    pub content: TextContent,
}

/// How an edit failed.
pub enum EditFailure {
    Build(String),
    Send(String),
}

/// A redaction of an event.
pub struct RedactRequest {
    pub room_id: String,
    pub event_id: String,
    pub reason: Option<String>,
}

/// A reaction to a message.
pub struct ReactionRequest {
    pub room_id: String,
    pub event_id: String,
    pub emoji: String,
}

/// A room to mark as read.
pub struct ReadRequest {
    pub room_id: String,
    /// The event up to which; if not given, the latest message is to be fetched first.
    pub event_id: Option<String>,
}

/// The outcome of an edit, with what failed of it.
pub open spec fn edit_error(outcome: Result<String, EditFailure>) -> Option<Seq<char>> {
    match outcome {
        Ok(_) => None,
        Err(EditFailure::Build(cause)) => Some(in_context("failed to build edit"@, cause@)),
        Err(EditFailure::Send(cause)) => Some(in_context("failed to send edit"@, cause@)),
    }
}

/// The error of the latest event of a room, where it cannot be marked as read: it could not be
/// fetched, there is none, or it has no id.
pub open spec fn latest_error(
    room_id: Seq<char>,
    latest: Result<Option<Option<String>>, String>,
) -> Option<Seq<char>> {
    match latest {
        Err(cause) => Some(in_context("failed to fetch latest message"@, cause@)),
        Ok(None) => Some("room "@ + room_id + " has no messages to mark as read"@),
        Ok(Some(None)) => Some("latest event has no id"@),
        Ok(Some(Some(_))) => None,
    }
}

/// Who sees a read receipt, or that it is the marker of the account's own reading.
#[derive(Clone, Copy, PartialEq, Eq, Debug, Structural)]
pub enum ReceiptKind {
    /// All members of the room.
    Read,
    /// The account alone.
    ReadPrivate,
    FullyRead,
}

/// What of a room a read receipt speaks for.
#[derive(Clone, Copy, PartialEq, Eq, Debug, Structural)]
pub enum ReceiptThread {
    /// The room and all of its threads.
    Unthreaded,
    /// What is in no thread.
    Main,
}

/// A read receipt to send.
pub struct Receipt<S> {
    pub kind: ReceiptKind,
    pub thread: ReceiptThread,
    /// The event up to which all is read.
    pub event_id: S,
}

/// What the driver that marks a room as read does next.
pub enum ReadStep<S> {
    /// Fetch the latest event of the room, and report to [`ReadRequest::on_latest`].
    FetchLatest(MessagesQuery<S>),
    Send(Receipt<S>),
    Fail(S),
}

pub open spec fn read_step_view(step: ReadStep<String>) -> ReadStep<Seq<char>> {
    match step {
        ReadStep::FetchLatest(query) => ReadStep::FetchLatest(messages_query_view(query)),
        ReadStep::Send(receipt) => ReadStep::Send(
            Receipt {
                kind: receipt.kind,
                thread: receipt.thread,
                event_id: receipt.event_id@,
            },
        ),
        ReadStep::Fail(message) => ReadStep::Fail(message@),
    }
}

/// The receipt that marks a room as read up to an event: a public one, for the whole of the room.
pub open spec fn read_receipt(event_id: Seq<char>) -> Receipt<Seq<char>> {
    Receipt { kind: ReceiptKind::Read, thread: ReceiptThread::Unthreaded, event_id }
}

/// What comes first in marking a room as read.
pub open spec fn first_read_step(event_id: Option<Seq<char>>) -> ReadStep<Seq<char>> {
    match event_id {
        Some(event_id) => ReadStep::Send(read_receipt(event_id)),
        None => ReadStep::FetchLatest(
            MessagesQuery { direction: Direction::Backward, limit: 1, from: None },
        ),
    }
}

/// What follows the latest event of the room, with the id it has, if any.
pub open spec fn after_latest(
    room_id: Seq<char>,
    latest: Result<Option<Option<String>>, String>,
) -> ReadStep<Seq<char>> {
    match latest_error(room_id, latest) {
        Some(message) => ReadStep::Fail(message),
        None => ReadStep::Send(read_receipt(latest->Ok_0->Some_0->Some_0@)),
    }
}

impl ReadRequest {
    pub fn begin(&self) -> (step: ReadStep<String>)
        ensures
            read_step_view(step) == first_read_step(text_of(self.event_id)),
    {
        match &self.event_id {
            Some(event_id) => ReadStep::Send(
                Receipt {
                    kind: ReceiptKind::Read,
                    thread: ReceiptThread::Unthreaded,
                    event_id: event_id.clone(),
                },
            ),
            None => ReadStep::FetchLatest(
                MessagesQuery { direction: Direction::Backward, limit: 1, from: None },
            ),
        }
    }

    /// Takes the latest event of the room - the id it has, if any - as the one to mark as read up
    /// to.
    pub fn on_latest(&self, latest: Result<Option<Option<String>>, String>) -> (step: ReadStep<
        String,
    >)
        ensures
            read_step_view(step) == after_latest(self.room_id@, latest),
    {
        match latest {
            Err(cause) => ReadStep::Fail(with_context("failed to fetch latest message", &cause)),
            Ok(None) => ReadStep::Fail(
                "room ".to_owned().concat(&self.room_id).concat(" has no messages to mark as read"),
            ),
            Ok(Some(None)) => ReadStep::Fail("latest event has no id".to_owned()),
            Ok(Some(Some(event_id))) => ReadStep::Send(
                Receipt {
                    kind: ReceiptKind::Read,
                    thread: ReceiptThread::Unthreaded,
                    event_id,
                },
            ),
        }
    }
}

impl MatrixManager {
    /// The error of an operation on an event of a room, if it cannot begin.
    pub open spec fn event_operation_error(
        self,
        room_id: Seq<char>,
        room_found: bool,
        event_id: Seq<char>,
    ) -> Option<Seq<char>> {
        first_of(
            self.connection_error(),
            first_of(room_error(room_id, room_found), event_id_error(event_id)),
        )
    }

    /// The error of an operation on a room, if it cannot begin.
    pub open spec fn room_operation_error(self, room_id: Seq<char>, room_found: bool) -> Option<
        Seq<char>,
    > {
        first_of(self.connection_error(), room_error(room_id, room_found))
    }

    /// The room of an operation.
    pub(crate) fn room_operation(&self, room_id: &str, room_found: bool) -> (room: Result<
        String,
        String,
    >)
        ensures
            fails_with(room, self.room_operation_error(room_id@, room_found)),
            room matches Ok(room) ==> room@ == room_id@,
    {
        match self.connected_client() {
            Ok(_) => resolve_room(room_id, room_found),
            Err(message) => Err(message),
        }
    }

    /// The room and the event of an operation.
    pub(crate) fn event_operation(&self, room_id: &str, room_found: bool, event_id: &str) -> (target:
        Result<(String, String), String>)
        ensures
            fails_with(target, self.event_operation_error(room_id@, room_found, event_id@)),
            target matches Ok(target) ==> target.0@ == room_id@ && target.1@ == event_id@,
    {
        let room = match self.room_operation(room_id, room_found) {
            Ok(room) => room,
            Err(message) => return Err(message),
        };
        match parse_event_id(event_id) {
            Ok(event_id) => Ok((room, event_id)),
            Err(message) => Err(message),
        }
    }

    /// Send a text message (plain or markdown) to a room. When `reply_to_event_id` is set, the
    /// message is sent as a rich reply to that event.
    pub fn send_message(
        &self,
        room_id: &str,
        room_found: bool,
        body: &str,
        markdown: bool,
        reply_to_event_id: Option<&str>,
    ) -> (request: Result<SendRequest, String>)
        ensures
            fails_with(
                request,
                match reply_to_event_id {
                    Some(event_id) => self.event_operation_error(room_id@, room_found, event_id@),
                    None => self.room_operation_error(room_id@, room_found),
                },
            ),
            request matches Ok(request) ==> {
                &&& request.room_id@ == room_id@
                &&& text_content(request.content, body@, markdown)
                &&& text_of(request.reply_to) == slice_text(reply_to_event_id)
            },
    {
        let room = match self.room_operation(room_id, room_found) {
            Ok(room) => room,
            Err(message) => return Err(message),
        };
        let reply_to = match reply_to_event_id {
            Some(event_id) => match parse_event_id(event_id) {
                Ok(event_id) => Some(event_id),
                Err(message) => return Err(message),
            },
            None => None,
        };
        Ok(SendRequest { room_id: room, content: message_content(body, markdown), reply_to })
    }

    /// Edit a previously-sent message (`m.replace`). Only the original sender can edit their own
    /// message.
    pub fn edit_message(
        &self,
        room_id: &str,
        room_found: bool,
        event_id: &str,
        body: &str,
        markdown: bool,
    ) -> (request: Result<EditRequest, String>)
        ensures
            fails_with(request, self.event_operation_error(room_id@, room_found, event_id@)),
            request matches Ok(request) ==> {
                &&& request.room_id@ == room_id@
                &&& request.event_id@ == event_id@
                &&& text_content(request.content, body@, markdown)
            },
    {
        match self.event_operation(room_id, room_found, event_id) {
            Ok((room_id, event_id)) => Ok(
                EditRequest { room_id, event_id, content: message_content(body, markdown) },
            ),
            Err(message) => Err(message),
        }
    }

    /// Redact (delete) an event - a message or a reaction - optionally with a reason. There is no
    /// separate "unreact": un-reacting means redacting the reaction event by its own event id.
    pub fn redact_event(
        &self,
        room_id: &str,
        room_found: bool,
        event_id: &str,
        reason: Option<&str>,
    ) -> (request: Result<RedactRequest, String>)
        ensures
            fails_with(request, self.event_operation_error(room_id@, room_found, event_id@)),
            request matches Ok(request) ==> {
                &&& request.room_id@ == room_id@
                &&& request.event_id@ == event_id@
                &&& text_of(request.reason) == slice_text(reason)
            },
    {
        match self.event_operation(room_id, room_found, event_id) {
            Ok((room_id, event_id)) => Ok(
                RedactRequest { room_id, event_id, reason: owned(reason) },
            ),
            Err(message) => Err(message),
        }
    }

    /// React to a message with an emoji (`m.annotation`). The new reaction's event id can later be
    /// passed to `redact_event` to remove the reaction.
    pub fn send_reaction(&self, room_id: &str, room_found: bool, event_id: &str, emoji: &str) -> (request:
        Result<ReactionRequest, String>)
        ensures
            fails_with(request, self.event_operation_error(room_id@, room_found, event_id@)),
            request matches Ok(request) ==> {
                &&& request.room_id@ == room_id@
                &&& request.event_id@ == event_id@
                &&& request.emoji@ == emoji@
            },
    {
        match self.event_operation(room_id, room_found, event_id) {
            Ok((room_id, event_id)) => Ok(
                ReactionRequest { room_id, event_id, emoji: emoji.to_owned() },
            ),
            Err(message) => Err(message),
        }
    }

    /// Mark a room as read up to `event_id` (or the latest message if not given) with an
    /// unthreaded public read receipt.
    pub fn mark_read(&self, room_id: &str, room_found: bool, event_id: Option<&str>) -> (request:
        Result<ReadRequest, String>)
        ensures
            fails_with(
                request,
                match event_id {
                    Some(event_id) => self.event_operation_error(room_id@, room_found, event_id@),
                    None => self.room_operation_error(room_id@, room_found),
                },
            ),
            request matches Ok(request) ==> {
                &&& request.room_id@ == room_id@
                &&& text_of(request.event_id) == slice_text(event_id)
            },
    {
        match event_id {
            Some(event_id) => match self.event_operation(room_id, room_found, event_id) {
                Ok((room_id, event_id)) => Ok(ReadRequest { room_id, event_id: Some(event_id) }),
                Err(message) => Err(message),
            },
            None => match self.room_operation(room_id, room_found) {
                Ok(room_id) => Ok(ReadRequest { room_id, event_id: None }),
                Err(message) => Err(message),
            },
        }
    }
}

/// Sending a message as a whole: a reply goes into the thread that it was built for, and a message
/// that is no reply into none.
pub proof fn law_only_replies_are_threaded(
    reply_to: Option<Seq<char>>,
    built: Result<MessageRelation<Seq<char>>, Seq<char>>,
)
    ensures
        reply_to is None ==> first_send_step(reply_to) == (SendStep::Send {
            thread_root: None::<Seq<char>>,
        }),
        reply_to is Some ==> first_send_step(reply_to) is BuildReply,
        after_reply_built(built) matches SendStep::Send { thread_root: Some(root) } ==> built == Ok::<
            MessageRelation<Seq<char>>,
            Seq<char>,
        >(MessageRelation::Thread(root)),
{
}

/// Every receipt is a public one for the whole of the room, and for the event that was given or, if
/// none was, for the latest.
pub proof fn law_receipts_are_public(
    room_id: Seq<char>,
    event_id: Option<Seq<char>>,
    latest: Result<Option<Option<String>>, String>,
)
    ensures
        first_read_step(event_id) matches ReadStep::Send(receipt) ==> receipt.kind
            == ReceiptKind::Read && receipt.thread == ReceiptThread::Unthreaded && event_id == Some(
            receipt.event_id,
        ),
        event_id is Some ==> first_read_step(event_id) is Send,
        after_latest(room_id, latest) matches ReadStep::Send(receipt) ==> receipt.kind
            == ReceiptKind::Read && receipt.thread == ReceiptThread::Unthreaded
            && latest->Ok_0->Some_0->Some_0@ == receipt.event_id,
{
}

} // verus!
