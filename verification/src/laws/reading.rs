//! Events, messages and threads.

use vstd::prelude::*;

use crate::backup::BackupState;
use crate::events::{
    count_undecryptable, decryption_hint, event_message, event_messages, format_event,
    format_events, is_left_encrypted, is_undecryptable, message_in, messages_to_json, raw_views,
    related_thread, reversed, thread_in_relation, thread_root_in, thread_root_of, undecryptable,
    undecryptable_among, Message, MessageView, RawEvent, RawEventView,
};
use crate::ids::{event_id_fault, parse_event_id};
use crate::json::{
    document_in, document_member, document_of, json_member, member_of, place_of, text_at,
    text_member, Document, DocumentView, Json, JsonView, MemberView,
};
use crate::laws::{alike, first_named, has_member, has_members, spells, told, unnamed};
use crate::reading::{
    keys_needed, recover_room_keys, MessagesQuery, MessagesRequest, MessagesStep, Page,
    RepliesQuery, ThreadRequest, ThreadRun, ThreadStep,
};

verus! {

/// Looking for a member finds the first with its name, and nothing if there is none.
pub proof fn law_members_are_found_by_name(members: Seq<MemberView>, name: Seq<char>, place: int)
    ensures
        first_named(members, name, place) ==> member_of(
            Some(DocumentView::Object(members)),
            name,
        ) == Some(members[place]),
        unnamed(members, name) ==> member_of(Some(DocumentView::Object(members)), name) is None,
        member_of(Some(DocumentView::Other), name) is None,
        member_of(None, name) is None,
{
    if first_named(members, name, place) {
        lemma_first_is_found(members, name, 0, place);
    }
    if unnamed(members, name) {
        lemma_none_is_found(members, name, 0);
    }
}

proof fn lemma_first_is_found(members: Seq<MemberView>, name: Seq<char>, from: int, place: int)
    requires
        first_named(members, name, place),
        0 <= from <= place,
    ensures
        place_of(members, name, from) == Some(place),
    decreases place - from,
{
    if from < place {
        lemma_first_is_found(members, name, from + 1, place);
    }
}

proof fn lemma_none_is_found(members: Seq<MemberView>, name: Seq<char>, from: int)
    requires
        unnamed(members, name),
        0 <= from <= members.len(),
    ensures
        place_of(members, name, from) is None,
    decreases members.len() - from,
{
    if from < members.len() {
        lemma_none_is_found(members, name, from + 1);
    }
}

/// What is read at a name in a document is what its first member of that name holds: the string, if
/// its value is one, and the value as JSON, whatever it is.
pub proof fn law_values_are_read_at_their_names(
    members: Vec<crate::json::Member>,
    name: &str,
    place: int,
    text: Option<String>,
    json: Option<String>,
)
    requires
        call_ensures(text_member, (&Some(Document::Object(members)), name), text),
        call_ensures(json_member, (&Some(Document::Object(members)), name), json),
    ensures
        (0 <= place < members@.len() && members@[place].key@ == name@ && forall|i: int|
            0 <= i < place ==> (#[trigger] members@[i]).key@ != name@) ==> {
            &&& spells(
                text,
                match members@[place].text {
                    Some(value) => Some(value@),
                    None => None,
                },
            )
            &&& spells(json, Some(members@[place].json@))
        },
        (forall|i: int| 0 <= i < members@.len() ==> (#[trigger] members@[i]).key@ != name@) ==> text
            is None && json is None,
{
    let views = members@.map_values(|member: crate::json::Member| member@);
    assert(document_of(Some(Document::Object(members))) == Some(DocumentView::Object(views)));
    if 0 <= place < members@.len() && members@[place].key@ == name@ && (forall|i: int|
        0 <= i < place ==> (#[trigger] members@[i]).key@ != name@) {
        assert forall|i: int| 0 <= i < place implies (#[trigger] views[i]).key != name@ by {
            assert(members@[i].key@ != name@);
        }
        assert(first_named(views, name@, place));
        law_members_are_found_by_name(views, name@, place);
        assert(views[place] == members@[place]@);
    }
    if forall|i: int| 0 <= i < members@.len() ==> (#[trigger] members@[i]).key@ != name@ {
        assert forall|i: int| 0 <= i < views.len() implies (#[trigger] views[i]).key != name@ by {
            assert(members@[i].key@ != name@);
        }
        law_members_are_found_by_name(views, name@, place);
    }
}

/// An event could not be decrypted exactly if the client says so, or if its type is still that of
/// an encrypted event.
pub proof fn law_encrypted_events_are_told(
    event: RawEvent,
    told: bool,
    members: Seq<MemberView>,
    place: int,
)
    requires
        call_ensures(is_undecryptable, (&event,), told),
    ensures
        event.unable_to_decrypt ==> told,
        document_in(event.json@) == Some(DocumentView::Object(members)) ==> {
            &&& first_named(members, "type"@, place) ==> (told <==> event.unable_to_decrypt
                || members[place].text == Some("m.room.encrypted"@))
            &&& unnamed(members, "type"@) ==> told == event.unable_to_decrypt
        },
        document_in(event.json@) is None ==> told == event.unable_to_decrypt,
        document_in(event.json@) == Some(DocumentView::Other) ==> told == event.unable_to_decrypt,
{
    law_members_are_found_by_name(members, "type"@, place);
}

/// A page asks for room keys, with the key backup unlocked, as soon as an event at any place in it
/// could not be decrypted - and never with the backup in any other state.
pub proof fn law_any_encrypted_event_asks_for_keys(
    chunk: Vec<RawEvent>,
    state: BackupState,
    needed: bool,
    i: int,
    told: bool,
)
    requires
        call_ensures(recover_room_keys, (&chunk, state), needed),
        0 <= i < chunk@.len(),
        call_ensures(is_undecryptable, (&chunk@[i],), told),
    ensures
        state == BackupState::Enabled && told ==> needed,
        state != BackupState::Enabled ==> !needed,
{
    assert(raw_views(chunk@)[i] == chunk@[i]@);
}

/// A page asks for room keys only for an event on it that could not be decrypted.
pub proof fn law_keys_are_asked_for_an_event(chunk: Vec<RawEvent>, state: BackupState, needed: bool)
    requires
        call_ensures(recover_room_keys, (&chunk, state), needed),
        forall|i: int|
            0 <= i < chunk@.len() ==> call_ensures(
                is_undecryptable,
                (&#[trigger] chunk@[i],),
                false,
            ),
    ensures
        !needed,
{
    let events = raw_views(chunk@);
    assert forall|i: int| 0 <= i < events.len() implies !undecryptable(#[trigger] events[i]) by {
        assert(events[i] == chunk@[i]@);
    }
}

/// Whether two requests ask for the same.
pub open spec fn same_request(a: MessagesRequest, b: MessagesRequest) -> bool {
    a.room_id@ == b.room_id@ && a.limit == b.limit && alike(a.from, b.from)
}

/// Whether two pages hold the same events, in the same order, and lead on alike.
pub open spec fn same_page(a: Page, b: Page) -> bool {
    &&& alike(a.next, b.next)
    &&& a.events@.len() == b.events@.len()
    &&& forall|i: int|
        0 <= i < a.events@.len() ==> same_event(#[trigger] a.events@[i], b.events@[i])
}

pub open spec fn same_event(a: RawEvent, b: RawEvent) -> bool {
    a.json@ == b.json@ && a.unable_to_decrypt == b.unable_to_decrypt
}

proof fn lemma_same_page(a: Page, b: Page)
    requires
        a@ == b@,
    ensures
        same_page(a, b),
{
    assert(a@.next == b@.next);
    assert(a@.events.len() == a.events@.len());
    assert(b@.events.len() == b.events@.len());
    assert forall|i: int| 0 <= i < a.events@.len() implies same_event(
        #[trigger] a.events@[i],
        b.events@[i],
    ) by {
        assert(a@.events[i] == a.events@[i]@);
        assert(b@.events[i] == b.events@[i]@);
    }
}

/// Reading messages asks for the room's keys exactly as soon as an event anywhere on the page could
/// not be decrypted while the key backup is unlocked, and carries the request and the page along; a
/// page that could not be fetched is a failure.
pub proof fn law_messages_are_decrypted_where_that_is_possible(
    request: MessagesRequest,
    outcome: Result<Page, String>,
    state: BackupState,
    step: MessagesStep,
    needed: bool,
)
    requires
        call_ensures(MessagesRequest::on_messages, (request, outcome, state), step),
        outcome matches Ok(page) ==> call_ensures(recover_room_keys, (&page.events, state), needed),
    ensures
        match outcome {
            Ok(page) => if needed {
                &&& step matches MessagesStep::DownloadKeys(asked, first) && same_request(
                    asked,
                    request,
                ) && same_page(first, page)
            } else {
                step is Reply
            },
            Err(cause) => step matches MessagesStep::Fail(message) && message@
                == "failed to fetch messages"@ + ": "@ + cause@,
        },
{
    if step is DownloadKeys {
        lemma_same_page(step->DownloadKeys_1, outcome->Ok_0);
    }
}

/// Once keys were imported the same page is asked for again; otherwise, what was read is answered.
pub proof fn law_imported_keys_are_used(
    request: MessagesRequest,
    page: Page,
    imported: bool,
    step: MessagesStep,
)
    requires
        call_ensures(MessagesRequest::on_keys, (request, page, imported), step),
    ensures
        imported ==> (step matches MessagesStep::FetchAgain(asked, first) && same_request(
            asked,
            request,
        ) && same_page(first, page)),
        !imported ==> (step matches MessagesStep::Reply(reply) && tells_messages(
            reply@,
            request.room_id@,
            page,
            false,
        )),
{
    lemma_reply_tells_messages(request.room_id@, page, false);
    if imported {
        lemma_same_page(step->FetchAgain_1, page);
    }
}

/// What an answer with the messages of a page says: the room, every message of the page with the
/// latest last, how many they are, where to read on, how many could not be decrypted, and whether
/// keys were recovered.
pub open spec fn tells_messages(
    reply: JsonView,
    room_id: Seq<char>,
    page: Page,
    recovered: bool,
) -> bool {
    let messages = event_messages(raw_views(page.events@));
    let n = messages.len();
    &&& has_members(reply, 7)
    &&& has_member(reply, 0, "room_id"@, JsonView::Text(room_id))
    &&& has_member(reply, 1, "count"@, JsonView::Count(n))
    &&& has_member(reply, 2, "messages"@, reply->Object_0[2].1)
    &&& lists_messages(reply->Object_0[2].1, messages.reverse())
    &&& has_member(reply, 3, "next_token"@, told(page.next))
    &&& has_member(
        reply,
        4,
        "undecryptable_count"@,
        JsonView::Count(undecryptable_among(messages.reverse())),
    )
    &&& has_member(reply, 5, "recovered_keys_from_backup"@, JsonView::Bool(recovered))
    &&& has_member(
        reply,
        6,
        "hint"@,
        if undecryptable_among(messages.reverse()) > 0 {
            JsonView::Text(advice_on_keys())
        } else {
            JsonView::Null
        },
    )
}

/// What is said where some messages could not be decrypted.
pub open spec fn advice_on_keys() -> Seq<char> {
    "Some messages could not be decrypted. If they predate this device, unlock the server-side key backup with `restore_key_backup` (needs your recovery key)."@
}

/// Whether a list tells every message, in their order.
pub open spec fn lists_messages(list: JsonView, messages: Seq<MessageView>) -> bool {
    list matches JsonView::List(items) && items.len() == messages.len() && forall|i: int|
        0 <= i < items.len() ==> tells_message(#[trigger] items[i], messages[i])
}

/// Whether an object tells a message: each of its parts under its name, and null where it has none.
pub open spec fn tells_message(json: JsonView, message: MessageView) -> bool {
    &&& has_members(json, 8)
    &&& has_member(json, 0, "type"@, text_json(message.event_type))
    &&& has_member(json, 1, "sender"@, text_json(message.sender))
    &&& has_member(json, 2, "event_id"@, text_json(message.event_id))
    &&& has_member(
        json,
        3,
        "origin_server_ts"@,
        match message.origin_server_ts {
            Some(value) => JsonView::Raw(value),
            None => JsonView::Null,
        },
    )
    &&& has_member(json, 4, "msgtype"@, text_json(message.msgtype))
    &&& has_member(json, 5, "body"@, text_json(message.body))
    &&& has_member(json, 6, "unable_to_decrypt"@, JsonView::Bool(message.unable_to_decrypt))
    &&& has_member(json, 7, "thread_root"@, text_json(message.thread_root))
}

/// A text in JSON, or null where there is none.
pub open spec fn text_json(text: Option<Seq<char>>) -> JsonView {
    match text {
        Some(text) => JsonView::Text(text),
        None => JsonView::Null,
    }
}

/// A message is returned with each of its parts under its name.
pub proof fn law_messages_are_told_in_full(message: Message, json: Json)
    requires
        call_ensures(Message::to_json, (&message,), json),
    ensures
        tells_message(json@, message@),
        message@ == (MessageView {
            event_type: match message.event_type {
                Some(text) => Some(text@),
                None => None,
            },
            sender: match message.sender {
                Some(text) => Some(text@),
                None => None,
            },
            event_id: match message.event_id {
                Some(text) => Some(text@),
                None => None,
            },
            origin_server_ts: match message.origin_server_ts {
                Some(text) => Some(text@),
                None => None,
            },
            msgtype: match message.msgtype {
                Some(text) => Some(text@),
                None => None,
            },
            body: match message.body {
                Some(text) => Some(text@),
                None => None,
            },
            unable_to_decrypt: message.unable_to_decrypt,
            thread_root: match message.thread_root {
                Some(text) => Some(text@),
                None => None,
            },
        }),
{
}

proof fn lemma_reply_tells_messages(room_id: Seq<char>, page: Page, recovered: bool)
    ensures
        tells_messages(
            crate::reading::messages_reply(room_id, page@, recovered),
            room_id,
            page,
            recovered,
        ),
{
    let messages = event_messages(raw_views(page.events@));
    let list = crate::events::messages_json(messages.reverse());
    assert(lists_messages(list, messages.reverse()));
}

/// Reading messages without a need for keys answers with all of the messages on the page, in the
/// order in which they were sent.
pub proof fn law_pages_are_told_in_full(
    request: MessagesRequest,
    page: Page,
    state: BackupState,
    step: MessagesStep,
)
    requires
        call_ensures(MessagesRequest::on_messages, (request, Ok(page), state), step),
    ensures
        step matches MessagesStep::Reply(reply) ==> tells_messages(
            reply@,
            request.room_id@,
            page,
            false,
        ),
{
    lemma_reply_tells_messages(request.room_id@, page, false);
}

/// A page that was fetched again takes the place of the first, as one with recovered keys; if it
/// did not come, the first is answered.
pub proof fn law_pages_fetched_again_are_told_in_full(
    request: MessagesRequest,
    page: Page,
    again: Option<Page>,
    step: MessagesStep,
)
    requires
        call_ensures(MessagesRequest::on_messages_again, (request, page, again), step),
    ensures
        step matches MessagesStep::Reply(reply) && match again {
            Some(again) => tells_messages(reply@, request.room_id@, again, true),
            None => tells_messages(reply@, request.room_id@, page, false),
        },
{
    lemma_reply_tells_messages(request.room_id@, page, false);
    if again is Some {
        lemma_reply_tells_messages(request.room_id@, again->Some_0, true);
    }
}

/// The page that is asked for is read from the newest event back, from where the request begins and
/// with as many events as it asks for.
pub proof fn law_rooms_are_read_backward(request: MessagesRequest, query: MessagesQuery<String>)
    requires
        call_ensures(MessagesRequest::query, (&request,), query),
    ensures
        query.direction == crate::reading::Direction::Backward,
        query.limit == request.limit,
        alike(query.from, request.from),
{
}

/// An event whose JSON is no JSON makes no message; any other makes one.
pub proof fn law_readable_events_make_messages(event: RawEvent, message: Option<Message>)
    requires
        call_ensures(format_event, (&event,), message),
    ensures
        message is Some <==> document_in(event.json@) is Some,
{
}

/// A message tells of its event what stands in it: its type, its sender, its id and its timestamp,
/// and of its content the kind of message and the body.
pub proof fn law_messages_tell_what_events_hold(
    event: RawEvent,
    message: Message,
    members: Seq<MemberView>,
    inner: Seq<MemberView>,
    content: int,
    i: int,
)
    requires
        call_ensures(format_event, (&event,), Some(message)),
        document_in(event.json@) == Some(DocumentView::Object(members)),
    ensures
        first_named(members, "type"@, i) ==> spells(message.event_type, members[i].text),
        unnamed(members, "type"@) ==> message.event_type is None,
        first_named(members, "sender"@, i) ==> spells(message.sender, members[i].text),
        unnamed(members, "sender"@) ==> message.sender is None,
        first_named(members, "event_id"@, i) ==> spells(message.event_id, members[i].text),
        unnamed(members, "event_id"@) ==> message.event_id is None,
        first_named(members, "origin_server_ts"@, i) ==> spells(
            message.origin_server_ts,
            Some(members[i].json),
        ),
        unnamed(members, "origin_server_ts"@) ==> message.origin_server_ts is None,
        first_named(members, "content"@, content) && document_in(members[content].json) == Some(
            DocumentView::Object(inner),
        ) ==> {
            &&& first_named(inner, "msgtype"@, i) ==> spells(message.msgtype, inner[i].text)
            &&& unnamed(inner, "msgtype"@) ==> message.msgtype is None
            &&& first_named(inner, "body"@, i) ==> spells(message.body, inner[i].text)
            &&& unnamed(inner, "body"@) ==> message.body is None
        },
        unnamed(members, "content"@) ==> message.msgtype is None && message.body is None,
        first_named(members, "content"@, content) && !(document_in(members[content].json)
            matches Some(DocumentView::Object(_))) ==> message.msgtype is None
            && message.body is None,
{
    assert(Some(message@) == event_message(event@));
    law_members_are_found_by_name(members, "type"@, i);
    law_members_are_found_by_name(members, "sender"@, i);
    law_members_are_found_by_name(members, "event_id"@, i);
    law_members_are_found_by_name(members, "origin_server_ts"@, i);
    law_members_are_found_by_name(members, "content"@, content);
    law_members_are_found_by_name(inner, "msgtype"@, i);
    law_members_are_found_by_name(inner, "body"@, i);
}

/// A message is flagged as one that could not be decrypted exactly if its event is.
pub proof fn law_messages_are_flagged_like_their_events(
    event: RawEvent,
    message: Message,
    told: bool,
)
    requires
        call_ensures(format_event, (&event,), Some(message)),
        call_ensures(is_undecryptable, (&event,), told),
    ensures
        message.unable_to_decrypt == told,
{
}

/// An event is in a thread exactly if its content relates to another event by `m.thread` and names
/// that event by an id that is one, whatever else the relation holds: the thread is the one with
/// that event as its root.
pub proof fn law_thread_relations_name_the_root(
    event: RawEvent,
    root: Option<String>,
    members: Seq<MemberView>,
    content: int,
    inner: Seq<MemberView>,
    relation: int,
    related: Seq<MemberView>,
    rel_type: int,
    event_id: int,
)
    requires
        call_ensures(thread_root_of, (&event,), root),
        document_in(event.json@) == Some(DocumentView::Object(members)),
        first_named(members, "content"@, content),
        document_in(members[content].json) == Some(DocumentView::Object(inner)),
        first_named(inner, "m.relates_to"@, relation),
        document_in(inner[relation].json) == Some(DocumentView::Object(related)),
    ensures
        first_named(related, "rel_type"@, rel_type) && first_named(related, "event_id"@, event_id)
            ==> if related[rel_type].text == Some("m.thread"@) && related[event_id].text is Some
            && event_id_fault(related[event_id].text->Some_0) is None {
            spells(root, related[event_id].text)
        } else {
            root is None
        },
        unnamed(related, "rel_type"@) ==> root is None,
        unnamed(related, "event_id"@) ==> root is None,
{
    law_members_are_found_by_name(members, "content"@, content);
    law_members_are_found_by_name(inner, "m.relates_to"@, relation);
    law_members_are_found_by_name(related, "rel_type"@, rel_type);
    law_members_are_found_by_name(related, "event_id"@, event_id);
}

/// An event without a relation is in no thread.
pub proof fn law_unrelated_events_are_in_no_thread(
    event: RawEvent,
    root: Option<String>,
    members: Seq<MemberView>,
    content: int,
    inner: Seq<MemberView>,
    relation: int,
)
    requires
        call_ensures(thread_root_of, (&event,), root),
    ensures
        !(document_in(event.json@) matches Some(DocumentView::Object(_))) ==> root is None,
        document_in(event.json@) == Some(DocumentView::Object(members)) ==> {
            &&& unnamed(members, "content"@) ==> root is None
            &&& first_named(members, "content"@, content) && document_in(members[content].json)
                == Some(DocumentView::Object(inner)) && unnamed(inner, "m.relates_to"@) ==> root
                is None
            &&& first_named(members, "content"@, content) && !(document_in(
                members[content].json,
            ) matches Some(DocumentView::Object(_))) ==> root is None
            &&& first_named(members, "content"@, content) && document_in(members[content].json)
                == Some(DocumentView::Object(inner)) && first_named(
                inner,
                "m.relates_to"@,
                relation,
            ) && !(document_in(inner[relation].json) matches Some(DocumentView::Object(_)))
                ==> root is None
        },
{
    law_members_are_found_by_name(members, "content"@, content);
    law_members_are_found_by_name(inner, "m.relates_to"@, relation);
    let found = crate::events::relation_in(document_in(event.json@));
    if !(found matches Some(DocumentView::Object(_))) {
        assert(crate::json::text_at(found, "rel_type"@) is None);
    }
}

/// A message names the thread that its event is in.
pub proof fn law_messages_name_the_thread(event: RawEvent, message: Message, root: Option<String>)
    requires
        call_ensures(format_event, (&event,), Some(message)),
        call_ensures(thread_root_of, (&event,), root),
    ensures
        alike(message.thread_root, root),
{
}

/// The messages of a batch are those of its events, one by one: a single event makes its message,
/// if it makes one, and a batch that is put together of two makes the messages of the one and then
/// those of the other.
pub proof fn law_batches_are_told_event_by_event(
    event: RawEvent,
    message: Option<Message>,
    first: Seq<RawEventView>,
    second: Seq<RawEventView>,
)
    requires
        call_ensures(format_event, (&event,), message),
    ensures
        event_messages(Seq::empty()) == Seq::<MessageView>::empty(),
        event_messages(Seq::empty().push(event@)) == match message {
            Some(message) => Seq::empty().push(message@),
            None => Seq::empty(),
        },
        event_messages(first + second) == event_messages(first) + event_messages(second),
        event@.json == event.json@,
        event@.unable_to_decrypt == event.unable_to_decrypt,
{
    let single = Seq::<RawEventView>::empty().push(event@);
    assert(single.drop_last() =~= Seq::<RawEventView>::empty());
    assert(single.last() == event@);
    reveal_with_fuel(event_messages, 2);
    crate::events::law_messages_keep_order(first, second);
}

/// Rendering a batch of events gives the messages of all of them: where every event can be read,
/// there is one message for each, in the order of the events.
pub proof fn law_no_readable_event_is_left_out(chunk: Vec<RawEvent>, messages: Vec<Message>)
    requires
        call_ensures(format_events, (&chunk,), messages),
        forall|i: int| 0 <= i < chunk@.len() ==> document_in((#[trigger] chunk@[i]).json@) is Some,
    ensures
        messages@.len() == chunk@.len(),
        forall|i: int|
            0 <= i < chunk@.len() ==> Some((#[trigger] messages@[i])@) == event_message(
                chunk@[i]@,
            ),
{
    let events = raw_views(chunk@);
    assert forall|i: int| 0 <= i < events.len() implies event_message(#[trigger] events[i])
        is Some by {
        assert(events[i] == chunk@[i]@);
        assert(document_in(chunk@[i].json@) is Some);
    }
    lemma_every_event_is_told(events);
    let views = crate::events::message_views(messages@);
    assert(views.len() == messages@.len());
    assert forall|i: int| 0 <= i < chunk@.len() implies Some((#[trigger] messages@[i])@)
        == event_message(chunk@[i]@) by {
        assert(views[i] == messages@[i]@);
        assert(events[i] == chunk@[i]@);
    }
}

proof fn lemma_every_event_is_told(events: Seq<RawEventView>)
    requires
        forall|i: int| 0 <= i < events.len() ==> event_message(#[trigger] events[i]) is Some,
    ensures
        event_messages(events).len() == events.len(),
        forall|i: int|
            0 <= i < events.len() ==> Some(#[trigger] event_messages(events)[i]) == event_message(
                events[i],
            ),
    decreases events.len(),
{
    if events.len() > 0 {
        let before = events.drop_last();
        assert forall|i: int| 0 <= i < before.len() implies event_message(#[trigger] before[i])
            is Some by {
            assert(before[i] == events[i]);
        }
        lemma_every_event_is_told(before);
        assert(event_message(events[events.len() - 1]) is Some);
        assert forall|i: int| 0 <= i < events.len() implies Some(
            #[trigger] event_messages(events)[i],
        ) == event_message(events[i]) by {
            if i < before.len() {
                assert(event_messages(before)[i] == event_messages(events)[i]);
                assert(before[i] == events[i]);
            }
        }
    }
}

/// Messages that could not be decrypted are counted one by one: none of none, and one more for each
/// that is flagged.
pub proof fn law_flagged_messages_are_counted(
    messages: Vec<Message>,
    more: Vec<Message>,
    message: Message,
    count: usize,
    longer: usize,
)
    requires
        call_ensures(count_undecryptable, (&messages,), count),
        more@ == messages@.push(message),
        call_ensures(count_undecryptable, (&more,), longer),
    ensures
        messages@.len() == 0 ==> count == 0,
        message.unable_to_decrypt ==> longer == count + 1,
        !message.unable_to_decrypt ==> longer == count,
{
    let all = crate::events::message_views(more@);
    assert(all.drop_last() =~= crate::events::message_views(messages@));
    assert(all.last() == message@);
}

/// A relation puts an event in the thread of the event that it is to exactly if it is of the type
/// `m.thread`, whatever else there is in it.
pub proof fn law_thread_relations_alone_make_threads(
    members: Vec<crate::json::Member>,
    event_id: Option<String>,
    root: Option<String>,
    place: int,
)
    requires
        call_ensures(
            thread_in_relation,
            (&Some(Document::Object(members)), event_id),
            root,
        ),
        0 <= place < members@.len(),
        members@[place].key@ == "rel_type"@,
        forall|i: int| 0 <= i < place ==> (#[trigger] members@[i]).key@ != "rel_type"@,
    ensures
        (members@[place].text is Some && members@[place].text->Some_0@ == "m.thread"@) ==> alike(
            root,
            event_id,
        ),
        !(members@[place].text is Some && members@[place].text->Some_0@ == "m.thread"@)
            ==> root is None,
{
    let views = members@.map_values(|member: crate::json::Member| member@);
    assert(document_of(Some(Document::Object(members))) == Some(DocumentView::Object(views)));
    assert forall|i: int| 0 <= i < place implies (#[trigger] views[i]).key != "rel_type"@ by {
        assert(members@[i].key@ != "rel_type"@);
    }
    assert(views[place] == members@[place]@);
    assert(first_named(views, "rel_type"@, place));
    law_members_are_found_by_name(views, "rel_type"@, place);
}

/// The thread of a relation is the event that it names, by an id that is one.
pub proof fn law_related_threads(related: Seq<MemberView>, rel_type: int, event_id: int)
    requires
        first_named(related, "rel_type"@, rel_type),
        first_named(related, "event_id"@, event_id),
    ensures
        related_thread(Some(DocumentView::Object(related))) == if related[rel_type].text == Some(
            "m.thread"@,
        ) && related[event_id].text is Some && event_id_fault(related[event_id].text->Some_0)
            is None {
            related[event_id].text
        } else {
            None
        },
{
    law_members_are_found_by_name(related, "rel_type"@, rel_type);
    law_members_are_found_by_name(related, "event_id"@, event_id);
}

/// Room keys are needed as soon as any event, at any place, could not be decrypted.
pub proof fn law_any_event_may_need_keys(events: Seq<RawEventView>, state: BackupState, i: int)
    requires
        0 <= i < events.len(),
    ensures
        events[i].unable_to_decrypt ==> undecryptable(events[i]),
        undecryptable(events[i]) && state == BackupState::Enabled ==> keys_needed(events, state),
        state != BackupState::Enabled ==> !keys_needed(events, state),
{
}

/// Turning messages round puts the first last, and keeps all of them.
pub proof fn law_turning_round_keeps_all(messages: Vec<Message>, turned: Vec<Message>, i: int)
    requires
        call_ensures(reversed, (messages,), turned),
    ensures
        turned@.len() == messages@.len(),
        0 <= i < messages@.len() ==> turned@[i]@ == messages@[messages@.len() - 1 - i]@,
{
    let all = crate::events::message_views(messages@);
    let back = crate::events::message_views(turned@);
    assert(all.len() == messages@.len());
    assert(back.len() == turned@.len());
    if 0 <= i < messages@.len() {
        assert(back[i] == turned@[i]@);
        assert(all[all.len() - 1 - i] == messages@[messages@.len() - 1 - i]@);
    }
}

/// All messages are returned, in their order, and with all of their parts; and a hint is given
/// exactly if some could not be decrypted.
pub proof fn law_every_message_is_returned(
    messages: Vec<Message>,
    json: Json,
    undecryptable: usize,
    hint: Option<String>,
)
    requires
        call_ensures(messages_to_json, (&messages,), json),
        call_ensures(decryption_hint, (undecryptable,), hint),
    ensures
        json@ is List,
        json@->List_0.len() == messages@.len(),
        forall|i: int|
            0 <= i < messages@.len() ==> tells_message(
                #[trigger] json@->List_0[i],
                messages@[i]@,
            ),
        undecryptable == 0 ==> hint is None,
        undecryptable > 0 ==> (hint matches Some(text) && text@ == advice_on_keys()),
{
    let views = crate::events::message_views(messages@);
    assert forall|i: int| 0 <= i < messages@.len() implies tells_message(
        #[trigger] json@->List_0[i],
        messages@[i]@,
    ) by {
        assert(views[i] == messages@[i]@);
    }
}

/// Whether a run reads the thread of a root, as far as a request asks.
pub open spec fn runs_for(
    run: ThreadRun,
    request: ThreadRequest,
    root_id: Seq<char>,
    root: Option<RawEvent>,
) -> bool {
    &&& run.room_id@ == request.room_id@
    &&& run.root_id@ == root_id
    &&& match (run.root, root) {
        (Some(a), Some(b)) => same_event(a, b),
        (None, None) => true,
        _ => false,
    }
    &&& run.limit == request.limit
    &&& alike(run.from, request.from)
}

/// Whether two requests for a thread ask for the same.
pub open spec fn same_thread_request(a: ThreadRequest, b: ThreadRequest) -> bool {
    a.room_id@ == b.room_id@ && a.requested@ == b.requested@ && a.limit == b.limit && alike(
        a.from,
        b.from,
    )
}

/// A first page begins with the event that was asked for; a later page goes on with the replies at
/// once.
pub proof fn law_threads_begin(request: ThreadRequest, step: ThreadStep)
    requires
        call_ensures(ThreadRequest::begin, (request,), step),
    ensures
        request.from is None ==> (step matches ThreadStep::FetchEvent(asked)
            && same_thread_request(asked, request)),
        request.from is Some ==> (step matches ThreadStep::FetchReplies(run) && runs_for(
            run,
            request,
            request.requested@,
            None,
        )),
{
}

/// An event in a thread leads to the root of its thread; any other is taken as a root itself.
pub proof fn law_events_lead_to_their_root(
    request: ThreadRequest,
    outcome: Result<RawEvent, String>,
    step: ThreadStep,
    root: Option<String>,
)
    requires
        call_ensures(ThreadRequest::on_event, (request, outcome), step),
        outcome matches Ok(event) ==> call_ensures(thread_root_of, (&event,), root),
    ensures
        match outcome {
            Ok(event) => match root {
                Some(root) => step matches ThreadStep::FetchRoot(asked, root_id) && root_id@
                    == root@ && same_thread_request(asked, request),
                None => step matches ThreadStep::FetchReplies(run) && runs_for(
                    run,
                    request,
                    request.requested@,
                    Some(event),
                ),
            },
            Err(cause) => step matches ThreadStep::Fail(message) && message@
                == "failed to fetch event "@ + request.requested@
                + " - is it a message in this room?"@ + ": "@ + cause@,
        },
{
    if outcome is Ok && root is None {
        assert(step is FetchReplies);
        assert(step->FetchReplies_0@.root == Some(outcome->Ok_0@));
    }
}

/// The root that an event led to is the one whose replies are read.
pub proof fn law_roots_lead_to_replies(
    request: ThreadRequest,
    root_id: String,
    outcome: Result<RawEvent, String>,
    step: ThreadStep,
)
    requires
        call_ensures(ThreadRequest::on_root, (request, root_id, outcome), step),
    ensures
        match outcome {
            Ok(event) => step matches ThreadStep::FetchReplies(run) && runs_for(
                run,
                request,
                root_id@,
                Some(event),
            ),
            Err(cause) => step matches ThreadStep::Fail(message) && message@
                == "failed to fetch thread root "@ + root_id@ + ": "@ + cause@,
        },
{
    if outcome is Ok {
        assert(step is FetchReplies);
        assert(step->FetchReplies_0@.root == Some(outcome->Ok_0@));
    }
}

/// The replies that are asked for are those in the thread of the root, from the oldest on, and not
/// what relates to them.
pub proof fn law_threads_are_read_forward(run: ThreadRun, query: RepliesQuery<String>)
    requires
        call_ensures(ThreadRun::query, (&run,), query),
    ensures
        query.root_id@ == run.root_id@,
        query.direction == crate::reading::Direction::Forward,
        query.limit == run.limit,
        alike(query.from, run.from),
        query.rel_type@ == "m.thread"@,
        !query.recurse,
{
}

/// Whether two runs read the same.
pub open spec fn same_run(a: ThreadRun, b: ThreadRun) -> bool {
    &&& a.room_id@ == b.room_id@
    &&& a.root_id@ == b.root_id@
    &&& match (a.root, b.root) {
        (Some(a), Some(b)) => same_event(a, b),
        (None, None) => true,
        _ => false,
    }
    &&& a.limit == b.limit
    &&& alike(a.from, b.from)
}

/// What an answer with a page of a thread says: the room, the root, its message if it is shown and
/// behind it every reply on the page, oldest first, how many they are, where to read on, how many
/// could not be decrypted, and whether keys were recovered.
pub open spec fn tells_thread(
    reply: JsonView,
    run: ThreadRun,
    root: Option<MessageView>,
    page: Page,
    recovered: bool,
) -> bool {
    let replies = event_messages(raw_views(page.events@));
    let messages = match root {
        Some(root) => seq![root] + replies,
        None => replies,
    };
    &&& has_members(reply, 9)
    &&& has_member(reply, 0, "room_id"@, JsonView::Text(run.room_id@))
    &&& has_member(reply, 1, "thread_root"@, JsonView::Text(run.root_id@))
    &&& has_member(reply, 2, "count"@, JsonView::Count(messages.len()))
    &&& has_member(reply, 3, "reply_count"@, JsonView::Count(page.events@.len()))
    &&& reply->Object_0[4].0 == "messages"@
    &&& lists_messages(reply->Object_0[4].1, messages)
    &&& has_member(reply, 5, "next_token"@, told(page.next))
    &&& has_member(
        reply,
        6,
        "undecryptable_count"@,
        JsonView::Count(undecryptable_among(messages)),
    )
    &&& has_member(reply, 7, "recovered_keys_from_backup"@, JsonView::Bool(recovered))
    &&& has_member(
        reply,
        8,
        "hint"@,
        if undecryptable_among(messages) > 0 {
            JsonView::Text(advice_on_keys())
        } else if page.events@.len() == 0 && run.from is None {
            JsonView::Text(
                "This message has no threaded replies. Replies made with `send_message`'s reply_to_event_id are rich replies, not threads, and stay in the room timeline - read those with `read_messages`."@,
            )
        } else {
            JsonView::Null
        },
    )
}

/// The message that an event makes, if there is an event.
pub open spec fn made_of(event: Option<RawEvent>) -> Option<MessageView> {
    match event {
        Some(event) => event_message(event@),
        None => None,
    }
}

proof fn lemma_reply_tells_thread(
    run: ThreadRun,
    again: Option<RawEvent>,
    page: Page,
    recovered: bool,
)
    ensures
        crate::reading::thread_answer(
            run@,
            page@,
            crate::reading::raw_of(again),
            recovered,
        ) matches crate::reading::ThreadStepView::Reply(reply) && tells_thread(
            reply,
            run,
            if made_of(again) is Some {
                made_of(again)
            } else {
                made_of(run.root)
            },
            page,
            recovered,
        ),
{
    let root = if made_of(again) is Some {
        made_of(again)
    } else {
        made_of(run.root)
    };
    assert(root == crate::reading::shown_root(
        crate::reading::raw_of(run.root),
        crate::reading::raw_of(again),
    ));
    let replies = event_messages(raw_views(page.events@));
    let messages = match root {
        Some(root) => seq![root] + replies,
        None => replies,
    };
    if root is Some {
        assert(messages =~= Seq::empty().push(root->Some_0) + replies);
    }
    assert(messages == crate::reading::thread_messages(root, raw_views(page.events@)));
    assert(lists_messages(crate::events::messages_json(messages), messages));
}

/// Reading a thread asks for the room's keys exactly as soon as a reply anywhere on the page could
/// not be decrypted while the key backup is unlocked; otherwise it answers with the root and all of
/// the replies on the page.
pub proof fn law_threads_are_decrypted_where_that_is_possible(
    run: ThreadRun,
    outcome: Result<Page, String>,
    state: BackupState,
    step: ThreadStep,
    needed: bool,
)
    requires
        call_ensures(ThreadRun::on_replies, (run, outcome, state), step),
        outcome matches Ok(page) ==> call_ensures(recover_room_keys, (&page.events, state), needed),
    ensures
        match outcome {
            Ok(page) => if needed {
                step matches ThreadStep::DownloadKeys(kept, first) && same_run(kept, run)
                    && same_page(first, page)
            } else {
                step matches ThreadStep::Reply(reply) && tells_thread(
                    reply@,
                    run,
                    made_of(run.root),
                    page,
                    false,
                )
            },
            Err(cause) => step matches ThreadStep::Fail(message) && message@
                == "failed to fetch thread replies"@ + ": "@ + cause@,
        },
{
    if outcome is Ok {
        lemma_reply_tells_thread(run, None, outcome->Ok_0, false);
        if step is DownloadKeys {
            lemma_same_page(step->DownloadKeys_1, outcome->Ok_0);
            lemma_same_run(step->DownloadKeys_0, run);
        }
    }
}

proof fn lemma_same_run(a: ThreadRun, b: ThreadRun)
    requires
        a@ == b@,
    ensures
        same_run(a, b),
{
    assert(a@.root == b@.root);
    assert(a@.from == b@.from);
}

/// Once keys were imported, the replies are asked for again, and then the root as well if it could
/// not be decrypted; what came again takes the place of what came first, and nothing is lost where
/// it did not come.
pub proof fn law_threads_are_read_again_with_keys(
    run: ThreadRun,
    page: Page,
    imported: bool,
    step: ThreadStep,
    again: Option<Page>,
    next: ThreadStep,
    root: Option<RawEvent>,
    last: ThreadStep,
)
    requires
        call_ensures(ThreadRun::on_keys, (run, page, imported), step),
        call_ensures(ThreadRun::on_replies_again, (run, page, again), next),
        call_ensures(ThreadRun::on_root_again, (run, page, root), last),
    ensures
        imported ==> (step matches ThreadStep::FetchRepliesAgain(kept, first) && same_run(kept, run)
            && same_page(first, page)),
        !imported ==> (step matches ThreadStep::Reply(reply) && tells_thread(
            reply@,
            run,
            made_of(run.root),
            page,
            false,
        )),
        match again {
            Some(fresh) => if made_of(run.root) is Some && made_of(
                run.root,
            )->Some_0.unable_to_decrypt {
                next matches ThreadStep::FetchRootAgain(kept, first) && same_run(kept, run)
                    && same_page(first, fresh)
            } else {
                next matches ThreadStep::Reply(reply) && tells_thread(
                    reply@,
                    run,
                    made_of(run.root),
                    fresh,
                    true,
                )
            },
            None => next matches ThreadStep::Reply(reply) && tells_thread(
                reply@,
                run,
                made_of(run.root),
                page,
                false,
            ),
        },
        last matches ThreadStep::Reply(reply) && tells_thread(
            reply@,
            run,
            if made_of(root) is Some {
                made_of(root)
            } else {
                made_of(run.root)
            },
            page,
            true,
        ),
{
    lemma_reply_tells_thread(run, None, page, false);
    lemma_reply_tells_thread(run, root, page, true);
    if imported {
        lemma_same_page(step->FetchRepliesAgain_1, page);
        lemma_same_run(step->FetchRepliesAgain_0, run);
    }
    if again is Some {
        lemma_reply_tells_thread(run, None, again->Some_0, true);
        if next is FetchRootAgain {
            lemma_same_page(next->FetchRootAgain_1, again->Some_0);
            lemma_same_run(next->FetchRootAgain_0, run);
        }
    }
}

/// A message of an event that is JSON, but no object, tells nothing but whether it could be
/// decrypted.
pub proof fn law_events_without_members_tell_nothing(event: RawEvent, message: Message)
    requires
        call_ensures(format_event, (&event,), Some(message)),
        document_in(event.json@) == Some(DocumentView::Other),
    ensures
        message.event_type is None,
        message.sender is None,
        message.event_id is None,
        message.origin_server_ts is None,
        message.msgtype is None,
        message.body is None,
        message.thread_root is None,
        message.unable_to_decrypt == event.unable_to_decrypt,
{
    assert(Some(message@) == event_message(event@));
}

/// A relation of the type `m.thread` to an event names the root of a thread, whatever other members
/// it has; no other relation does.
pub proof fn law_relations_by_thread_are_threads(relation: DocumentView, id: Seq<char>)
    ensures
        related_thread(Some(relation)) == Some(id) <==> text_at(Some(relation), "rel_type"@)
            == Some("m.thread"@) && text_at(Some(relation), "event_id"@) == Some(id)
            && event_id_fault(id) is None,
{
}

/// Messages are made of events that have been read as they are of the events themselves, and a
/// message keeps the thread that it is given.
pub proof fn law_read_events_are_told(
    event: Option<Document>,
    content: Option<Document>,
    thread_root: Option<String>,
    flagged: bool,
    message: Message,
    left: bool,
    event_type: Option<String>,
    sender: Option<String>,
    event_id: Option<String>,
    sent: Option<String>,
    msgtype: Option<String>,
    body: Option<String>,
)
    requires
        call_ensures(message_in, (&event, &content, thread_root, flagged), message),
        call_ensures(is_left_encrypted, (&event, flagged), left),
        call_ensures(text_member, (&event, "type"), event_type),
        call_ensures(text_member, (&event, "sender"), sender),
        call_ensures(text_member, (&event, "event_id"), event_id),
        call_ensures(json_member, (&event, "origin_server_ts"), sent),
        call_ensures(text_member, (&content, "msgtype"), msgtype),
        call_ensures(text_member, (&content, "body"), body),
    ensures
        alike(message.event_type, event_type),
        alike(message.sender, sender),
        alike(message.event_id, event_id),
        alike(message.origin_server_ts, sent),
        alike(message.msgtype, msgtype),
        alike(message.body, body),
        alike(message.thread_root, thread_root),
        message.unable_to_decrypt == left,
        left <==> flagged || (event_type is Some && event_type->Some_0@ == "m.room.encrypted"@),
{
    let from = crate::events::message_from(
        document_of(event),
        document_of(content),
        crate::text::text_of(thread_root),
        flagged,
    );
    assert(message@ == from);
    assert(message@.event_type == crate::text::text_of(message.event_type));
    assert(message@.thread_root == crate::text::text_of(message.thread_root));
}

/// The document that a member holds is the one that is read of the first member of its name, and
/// reading a text gives the document that the text holds.
pub proof fn law_documents_in_documents_are_read(
    members: Vec<crate::json::Member>,
    name: &str,
    place: int,
    child: Option<Document>,
    text: &str,
    whole: Option<Document>,
)
    requires
        call_ensures(document_member, (&Some(Document::Object(members)), name), child),
        call_ensures(crate::json::read, (text,), whole),
    ensures
        (0 <= place < members@.len() && members@[place].key@ == name@ && forall|i: int|
            0 <= i < place ==> (#[trigger] members@[i]).key@ != name@) ==> document_of(child)
            == document_in(members@[place].json@),
        (forall|i: int| 0 <= i < members@.len() ==> (#[trigger] members@[i]).key@ != name@)
            ==> child is None,
        document_of(whole) == document_in(text@),
{
    let views = members@.map_values(|member: crate::json::Member| member@);
    assert(document_of(Some(Document::Object(members))) == Some(DocumentView::Object(views)));
    if 0 <= place < members@.len() && members@[place].key@ == name@ && (forall|i: int|
        0 <= i < place ==> (#[trigger] members@[i]).key@ != name@) {
        assert forall|i: int| 0 <= i < place implies (#[trigger] views[i]).key != name@ by {
            assert(members@[i].key@ != name@);
        }
        assert(views[place] == members@[place]@);
        assert(first_named(views, name@, place));
        law_members_are_found_by_name(views, name@, place);
    }
    if forall|i: int| 0 <= i < members@.len() ==> (#[trigger] members@[i]).key@ != name@ {
        assert forall|i: int| 0 <= i < views.len() implies (#[trigger] views[i]).key != name@ by {
            assert(members@[i].key@ != name@);
        }
        law_members_are_found_by_name(views, name@, place);
    }
}

/// The thread of an event that has been read is that of the relation in its content, to the event
/// that the relation names.
pub proof fn law_threads_are_found_in_the_content(
    event: Option<Document>,
    content: Option<Document>,
    relation: Option<Document>,
    named: Option<String>,
    id: &str,
    parsed: Result<String, String>,
    by_relation: Option<String>,
    root: Option<String>,
)
    requires
        call_ensures(thread_root_in, (&event,), root),
        call_ensures(document_member, (&event, "content"), content),
        call_ensures(document_member, (&content, "m.relates_to"), relation),
        call_ensures(text_member, (&relation, "event_id"), named),
        named matches Some(named) ==> named@ == id@ && call_ensures(parse_event_id, (id,), parsed),
        call_ensures(
            thread_in_relation,
            (
                &relation,
                match (named, parsed) {
                    (Some(_), Ok(kept)) => Some(kept),
                    _ => None,
                },
            ),
            by_relation,
        ),
    ensures
        alike(root, by_relation),
{
}

} // verus!
