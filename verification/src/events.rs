//! Timeline events, and the messages that they are rendered as.

use vstd::prelude::*;

use crate::ids::{event_id_fault, parse_event_id};
use crate::json::{
    document_at, document_in, document_member, document_of, json_at, json_member, no_members,
    optional_json, read, text_at, text_member, views, Document, DocumentView, Fields, Json,
    JsonView,
};
use crate::text::{same_text, text_of};

verus! {

/// An event as the client hands it out.
pub struct RawEvent {
    /// The event, decrypted where that was possible, as JSON.
    pub json: String,
    /// Whether the client reports that it could not decrypt the event.
    pub unable_to_decrypt: bool,
}

/// What a [`RawEvent`] is.
pub ghost struct RawEventView {
    pub json: Seq<char>,
    pub unable_to_decrypt: bool,
}

impl View for RawEvent {
    type V = RawEventView;

    open spec fn view(&self) -> RawEventView {
        RawEventView { json: self.json@, unable_to_decrypt: self.unable_to_decrypt }
    }
}

pub open spec fn raw_views(events: Seq<RawEvent>) -> Seq<RawEventView> {
    events.map_values(|event: RawEvent| event@)
}

/// An event in the shape in which both read tools return it.
pub struct Message {
    pub event_type: Option<String>,
    pub sender: Option<String>,
    pub event_id: Option<String>,
    /// The timestamp as JSON, whatever it is.
    pub origin_server_ts: Option<String>,
    pub msgtype: Option<String>,
    pub body: Option<String>,
    pub unable_to_decrypt: bool,
    /// On a threaded reply, the thread that it belongs to.
    pub thread_root: Option<String>,
}

/// What a [`Message`] is.
pub ghost struct MessageView {
    pub event_type: Option<Seq<char>>,
    pub sender: Option<Seq<char>>,
    pub event_id: Option<Seq<char>>,
    pub origin_server_ts: Option<Seq<char>>,
    pub msgtype: Option<Seq<char>>,
    pub body: Option<Seq<char>>,
    pub unable_to_decrypt: bool,
    pub thread_root: Option<Seq<char>>,
}

impl View for Message {
    type V = MessageView;

    open spec fn view(&self) -> MessageView {
        MessageView {
            event_type: text_of(self.event_type),
            sender: text_of(self.sender),
            event_id: text_of(self.event_id),
            origin_server_ts: text_of(self.origin_server_ts),
            msgtype: text_of(self.msgtype),
            body: text_of(self.body),
            unable_to_decrypt: self.unable_to_decrypt,
            thread_root: text_of(self.thread_root),
        }
    }
}

pub open spec fn message_of(message: Option<Message>) -> Option<MessageView> {
    match message {
        Some(m) => Some(m@),
        None => None,
    }
}

pub open spec fn message_views(messages: Seq<Message>) -> Seq<MessageView> {
    messages.map_values(|message: Message| message@)
}

impl MessageView {
    /// The JSON object that the message is returned as.
    pub open spec fn json(self) -> JsonView {
        JsonView::Object(
            no_members().push(("type"@, optional_json(self.event_type))).push(
                ("sender"@, optional_json(self.sender)),
            ).push(("event_id"@, optional_json(self.event_id))).push(
                (
                    "origin_server_ts"@,
                    match self.origin_server_ts {
                        Some(json) => JsonView::Raw(json),
                        None => JsonView::Null,
                    },
                ),
            ).push(("msgtype"@, optional_json(self.msgtype))).push(
                ("body"@, optional_json(self.body)),
            ).push(("unable_to_decrypt"@, JsonView::Bool(self.unable_to_decrypt))).push(
                ("thread_root"@, optional_json(self.thread_root)),
            ),
        )
    }
}

/// The JSON list that messages are returned as.
pub open spec fn messages_json(messages: Seq<MessageView>) -> JsonView {
    JsonView::List(messages.map_values(|message: MessageView| message.json()))
}

impl Message {
    pub fn to_json(&self) -> (json: Json)
        ensures
            json@ == self@.json(),
    {
        let timestamp = match &self.origin_server_ts {
            Some(json) => Json::Raw(json.clone()),
            None => Json::Null,
        };
        Fields::new().with("type", Json::optional(&self.event_type)).with(
            "sender",
            Json::optional(&self.sender),
        ).with("event_id", Json::optional(&self.event_id)).with("origin_server_ts", timestamp).with(
            "msgtype",
            Json::optional(&self.msgtype),
        ).with("body", Json::optional(&self.body)).with(
            "unable_to_decrypt",
            Json::Bool(self.unable_to_decrypt),
        ).with("thread_root", Json::optional(&self.thread_root)).done()
    }
}

/// Renders messages as a JSON list, in their order.
pub fn messages_to_json(messages: &Vec<Message>) -> (json: Json)
    ensures
        json@ == messages_json(message_views(messages@)),
{
    let mut items: Vec<Json> = Vec::new();
    let mut i: usize = 0;
    while i < messages.len()
        invariant
            i <= messages.len(),
            items.len() == i,
            forall|k: int| 0 <= k < i ==> (#[trigger] items@[k])@ == messages@[k]@.json(),
        decreases messages.len() - i,
    {
        items.push(messages[i].to_json());
        i = i + 1;
    }
    proof {
        assert(views(items@) =~= message_views(messages@).map_values(
            |message: MessageView| message.json(),
        ));
    }
    Json::list(items)
}

/// The event that a relation is to, if its id is one.
pub open spec fn related_event(relation: Option<DocumentView>) -> Option<Seq<char>> {
    match text_at(relation, "event_id"@) {
        Some(id) => if event_id_fault(id) is None {
            Some(id)
        } else {
            None
        },
        None => None,
    }
}

/// The thread that a relation to the given event puts an event in: one whose root is that event,
/// if it is an `m.thread` relation.
pub open spec fn thread_by(
    relation: Option<DocumentView>,
    event_id: Option<Seq<char>>,
) -> Option<Seq<char>> {
    if text_at(relation, "rel_type"@) == Some("m.thread"@) {
        event_id
    } else {
        None
    }
}

/// The thread that a relation puts an event in.
pub open spec fn related_thread(relation: Option<DocumentView>) -> Option<Seq<char>> {
    thread_by(relation, related_event(relation))
}

/// The relation that an event's content holds.
pub open spec fn relation_in(event: Option<DocumentView>) -> Option<DocumentView> {
    document_at(document_at(event, "content"@), "m.relates_to"@)
}

/// The message that an event, its content and the thread that it is a reply in are rendered as.
pub open spec fn message_from(
    event: Option<DocumentView>,
    content: Option<DocumentView>,
    thread_root: Option<Seq<char>>,
    flagged: bool,
) -> MessageView {
    MessageView {
        event_type: text_at(event, "type"@),
        sender: text_at(event, "sender"@),
        event_id: text_at(event, "event_id"@),
        origin_server_ts: json_at(event, "origin_server_ts"@),
        msgtype: text_at(content, "msgtype"@),
        body: text_at(content, "body"@),
        unable_to_decrypt: left_encrypted(event, flagged),
        thread_root,
    }
}

/// Whether an event could not be decrypted: the client says so, or it is still in its encrypted
/// form.
pub open spec fn left_encrypted(event: Option<DocumentView>, flagged: bool) -> bool {
    flagged || text_at(event, "type"@) == Some("m.room.encrypted"@)
}

/// The message that an event is rendered as, if its JSON can be read.
pub open spec fn event_message(event: RawEventView) -> Option<MessageView> {
    let document = document_in(event.json);
    if document is Some {
        Some(
            message_from(
                document,
                document_at(document, "content"@),
                related_thread(relation_in(document)),
                event.unable_to_decrypt,
            ),
        )
    } else {
        None
    }
}

/// The messages that events are rendered as, without those whose JSON cannot be read.
pub open spec fn event_messages(events: Seq<RawEventView>) -> Seq<MessageView>
    decreases events.len(),
{
    if events.len() == 0 {
        Seq::empty()
    } else {
        let before = event_messages(events.drop_last());
        match event_message(events.last()) {
            Some(message) => before.push(message),
            None => before,
        }
    }
}

/// Whether an event could not be decrypted.
pub open spec fn undecryptable(event: RawEventView) -> bool {
    left_encrypted(document_in(event.json), event.unable_to_decrypt)
}

/// The thread that an event is a reply in.
pub open spec fn event_thread(event: RawEventView) -> Option<Seq<char>> {
    related_thread(relation_in(document_in(event.json)))
}

/// How many of the messages could not be decrypted.
pub open spec fn undecryptable_among(messages: Seq<MessageView>) -> nat
    decreases messages.len(),
{
    if messages.len() == 0 {
        0
    } else {
        undecryptable_among(messages.drop_last()) + if messages.last().unable_to_decrypt {
            1nat
        } else {
            0nat
        }
    }
}

/// The thread that a relation puts an event in, once the id of the event that it is to has been
/// parsed.
pub fn thread_in_relation(relation: &Option<Document>, event_id: Option<String>) -> (root: Option<
    String,
>)
    ensures
        text_of(root) == thread_by(document_of(*relation), text_of(event_id)),
{
    match text_member(relation, "rel_type") {
        Some(rel_type) => if same_text(&rel_type, "m.thread") {
            event_id
        } else {
            None
        },
        None => None,
    }
}

/// The event that a relation is to, if its id is one.
fn event_in_relation(relation: &Option<Document>) -> (event_id: Option<String>)
    ensures
        text_of(event_id) == related_event(document_of(*relation)),
{
    match text_member(relation, "event_id") {
        Some(id) => match parse_event_id(&id) {
            Ok(event_id) => Some(event_id),
            Err(_) => None,
        },
        None => None,
    }
}

/// The thread that an event is a reply in, from the event's JSON once that has been read.
pub fn thread_root_in(event: &Option<Document>) -> (root: Option<String>)
    ensures
        text_of(root) == related_thread(relation_in(document_of(*event))),
{
    let content = document_member(event, "content");
    let relation = document_member(&content, "m.relates_to");
    thread_in_relation(&relation, event_in_relation(&relation))
}

/// The thread this event is a reply in, or `None` if it isn't a threaded reply. A thread relation
/// is sent unencrypted so servers can bundle it, so this reads correctly even for events that
/// could not be decrypted.
pub fn thread_root_of(event: &RawEvent) -> (root: Option<String>)
    ensures
        text_of(root) == event_thread(event@),
{
    thread_root_in(&read(&event.json))
}

/// Whether an event that has been read is one that could not be decrypted.
pub fn is_left_encrypted(event: &Option<Document>, flagged: bool) -> (yes: bool)
    ensures
        yes == left_encrypted(document_of(*event), flagged),
{
    flagged || match text_member(event, "type") {
        Some(event_type) => same_text(&event_type, "m.room.encrypted"),
        None => false,
    }
}

/// Whether an event could not be decrypted. Prefers the client's own flag, but also catches events
/// left in their encrypted form when decryption was never attempted, which the flag alone misses.
pub fn is_undecryptable(event: &RawEvent) -> (yes: bool)
    ensures
        yes == undecryptable(event@),
{
    is_left_encrypted(&read(&event.json), event.unable_to_decrypt)
}

/// Renders an event and its content, once they have been read, and the thread that the event is a
/// reply in as a message.
pub fn message_in(
    event: &Option<Document>,
    content: &Option<Document>,
    thread_root: Option<String>,
    flagged: bool,
) -> (message: Message)
    ensures
        message@ == message_from(
            document_of(*event),
            document_of(*content),
            text_of(thread_root),
            flagged,
        ),
{
    Message {
        event_type: text_member(event, "type"),
        sender: text_member(event, "sender"),
        event_id: text_member(event, "event_id"),
        origin_server_ts: json_member(event, "origin_server_ts"),
        msgtype: text_member(content, "msgtype"),
        body: text_member(content, "body"),
        unable_to_decrypt: is_left_encrypted(event, flagged),
        thread_root,
    }
}

/// Renders one event as a message.
pub fn format_event(event: &RawEvent) -> (message: Option<Message>)
    ensures
        message_of(message) == event_message(event@),
{
    let document = read(&event.json);
    if document.is_none() {
        return None;
    }
    let content = document_member(&document, "content");
    let thread_root = thread_root_in(&document);
    Some(message_in(&document, &content, thread_root, event.unable_to_decrypt))
}

/// Renders a batch of events into the message shape both read tools return, skipping any whose
/// JSON won't parse.
pub fn format_events(chunk: &Vec<RawEvent>) -> (messages: Vec<Message>)
    ensures
        message_views(messages@) == event_messages(raw_views(chunk@)),
{
    let mut messages: Vec<Message> = Vec::new();
    let ghost events = raw_views(chunk@);
    let mut i: usize = 0;
    proof {
        assert(events.take(0) =~= Seq::empty());
        assert(message_views(messages@) =~= Seq::empty());
    }
    while i < chunk.len()
        invariant
            i <= chunk.len(),
            events == raw_views(chunk@),
            message_views(messages@) == event_messages(events.take(i as int)),
        decreases chunk.len() - i,
    {
        proof {
            assert(events.take(i + 1).drop_last() =~= events.take(i as int));
            assert(events.take(i + 1).last() == chunk@[i as int]@);
        }
        match format_event(&chunk[i]) {
            Some(message) => {
                let ghost before = messages@;
                messages.push(message);
                proof {
                    assert(message_views(messages@) =~= message_views(before).push(message@));
                }
            },
            None => {},
        }
        i = i + 1;
    }
    proof {
        assert(events.take(chunk@.len() as int) =~= events);
    }
    messages
}

/// The messages in the opposite order.
pub fn reversed(messages: Vec<Message>) -> (turned: Vec<Message>)
    ensures
        message_views(turned@) == message_views(messages@).reverse(),
{
    let ghost all = messages@;
    let mut rest = messages;
    let mut turned: Vec<Message> = Vec::new();
    while rest.len() > 0
        invariant
            rest@.len() + turned@.len() == all.len(),
            rest@ == all.take(rest@.len() as int),
            forall|k: int|
                0 <= k < turned@.len() ==> #[trigger] turned@[k] == all[all.len() - 1 - k],
        decreases rest.len(),
    {
        match rest.pop() {
            Some(message) => turned.push(message),
            None => {},
        }
    }
    proof {
        assert(message_views(turned@) =~= message_views(all).reverse());
    }
    turned
}

pub fn count_undecryptable(messages: &Vec<Message>) -> (count: usize)
    ensures
        count == undecryptable_among(message_views(messages@)),
        count <= messages.len(),
{
    let ghost all = message_views(messages@);
    let mut count: usize = 0;
    let mut i: usize = 0;
    while i < messages.len()
        invariant
            i <= messages.len(),
            count <= i,
            all == message_views(messages@),
            count == undecryptable_among(all.take(i as int)),
        decreases messages.len() - i,
    {
        proof {
            assert(all.take(i + 1).drop_last() =~= all.take(i as int));
            assert(all.take(i + 1).last() == messages@[i as int]@);
        }
        if messages[i].unable_to_decrypt {
            count = count + 1;
        }
        i = i + 1;
    }
    proof {
        assert(all.take(messages@.len() as int) =~= all);
    }
    count
}

/// The hint that goes with messages of which some could not be decrypted.
pub open spec fn hint_for(undecryptable: nat) -> Option<Seq<char>> {
    if undecryptable > 0 {
        Some(
            "Some messages could not be decrypted. If they predate this device, unlock the server-side key backup with `restore_key_backup` (needs your recovery key)."@,
        )
    } else {
        None
    }
}

pub fn decryption_hint(undecryptable: usize) -> (hint: Option<String>)
    ensures
        text_of(hint) == hint_for(undecryptable as nat),
{
    if undecryptable > 0 {
        Some(
            "Some messages could not be decrypted. If they predate this device, unlock the server-side key backup with `restore_key_backup` (needs your recovery key).".to_owned(),
        )
    } else {
        None
    }
}

/// Whether an event could be decrypted is told alike by [`is_undecryptable`] and by the message
/// that the event is rendered as.
pub proof fn law_undecryptable_is_told_alike(event: RawEventView)
    ensures
        match event_message(event) {
            Some(message) => message.unable_to_decrypt == undecryptable(event),
            None => undecryptable(event) == event.unable_to_decrypt,
        },
{
}

/// The thread that a message names is the one that its event is a reply in.
pub proof fn law_message_names_its_thread(event: RawEventView)
    ensures
        match event_message(event) {
            Some(message) => message.thread_root == event_thread(event),
            None => event_thread(event) is None,
        },
{
}

/// A message names a thread only by an event id.
pub proof fn law_thread_root_is_an_event_id(event: RawEventView)
    ensures
        match event_thread(event) {
            Some(root) => event_id_fault(root) is None,
            None => true,
        },
{
}

/// The messages that events are rendered as keep the order of the events: those of two batches,
/// one after the other, are those of the first and then those of the second.
pub proof fn law_messages_keep_order(first: Seq<RawEventView>, second: Seq<RawEventView>)
    ensures
        event_messages(first + second) == event_messages(first) + event_messages(second),
    decreases second.len(),
{
    if second.len() == 0 {
        assert(first + second =~= first);
        assert(event_messages(first) + event_messages(second) =~= event_messages(first));
    } else {
        law_messages_keep_order(first, second.drop_last());
        assert((first + second).drop_last() =~= first + second.drop_last());
        assert((first + second).last() == second.last());
        assert(event_messages(first + second) =~= event_messages(first) + event_messages(second));
    }
}

/// No more messages come out than events went in.
pub proof fn law_no_message_is_made_up(events: Seq<RawEventView>)
    ensures
        event_messages(events).len() <= events.len(),
    decreases events.len(),
{
    if events.len() > 0 {
        law_no_message_is_made_up(events.drop_last());
    }
}

/// Some message could not be decrypted if and only if the count of those is not zero.
pub proof fn law_count_is_zero_when_all_is_readable(messages: Seq<MessageView>)
    ensures
        undecryptable_among(messages) > 0 <==> exists|i: int|
            0 <= i < messages.len() && (#[trigger] messages[i]).unable_to_decrypt,
        undecryptable_among(messages) <= messages.len(),
    decreases messages.len(),
{
    if messages.len() > 0 {
        let before = messages.drop_last();
        law_count_is_zero_when_all_is_readable(before);
        if messages.last().unable_to_decrypt {
            assert(messages[messages.len() - 1].unable_to_decrypt);
        }
        if undecryptable_among(before) > 0 {
            let i = choose|i: int| 0 <= i < before.len() && (#[trigger] before[i]).unable_to_decrypt;
            assert(messages[i].unable_to_decrypt);
        }
        assert forall|i: int|
            0 <= i < messages.len() && (#[trigger] messages[i]).unable_to_decrypt implies undecryptable_among(
            messages,
        ) > 0 by {
            if i < messages.len() - 1 {
                assert(before[i].unable_to_decrypt);
            }
        }
    }
}

} // verus!
