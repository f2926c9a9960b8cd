use matrix_mcp::backup::BackupState;
use matrix_mcp::events::{
    count_undecryptable, decryption_hint, format_event, format_events, is_undecryptable,
    message_in, thread_in_relation, thread_root_of, RawEvent,
};
use matrix_mcp::json::{read, Document, Json, Member};
use matrix_mcp::manager::{Environment, MatrixManager, Session};
use matrix_mcp::reading::{Direction, MessagesStep, Page, ThreadRequest, ThreadStep};
use serde_json::Value;

fn manager() -> MatrixManager {
    let mut manager = MatrixManager::from_env(&Environment {
        homeserver: None,
        user: None,
        password: None,
        access_token: None,
        user_id: None,
        device_id: None,
        device_name: None,
        session_file: None,
        store_path: None,
        verification_timeout: None,
        state_home: None,
        home: None,
    });
    manager.session = Some(Session { user_id: Some("@me:x.org".to_owned()) });
    manager
}

fn value(json: &Json) -> Value {
    match json {
        Json::Null => Value::Null,
        Json::Bool(b) => Value::Bool(*b),
        Json::Count(n) => Value::from(*n),
        Json::Text(s) => Value::String(s.clone()),
        Json::Raw(s) => serde_json::from_str(s).unwrap(),
        Json::List(items) => Value::Array(items.iter().map(value).collect()),
        Json::Object(members) => {
            Value::Object(members.iter().map(|(k, v)| (k.clone(), value(v))).collect())
        }
    }
}

fn json(text: &str) -> Value {
    serde_json::from_str(text).unwrap()
}

fn event(json: &str) -> RawEvent {
    RawEvent { json: json.to_owned(), unable_to_decrypt: false }
}

fn text_event(id: &str, body: &str) -> RawEvent {
    event(&format!(
        r#"{{"type":"m.room.message","sender":"@a:x.org","event_id":"{id}","origin_server_ts":17,"content":{{"msgtype":"m.text","body":"{body}"}}}}"#
    ))
}

fn encrypted_event(id: &str) -> RawEvent {
    event(&format!(
        r#"{{"type":"m.room.encrypted","sender":"@a:x.org","event_id":"{id}","origin_server_ts":18,"content":{{}}}}"#
    ))
}

fn threaded_event(id: &str, root: &str) -> RawEvent {
    event(&format!(
        r#"{{"type":"m.room.message","event_id":"{id}","content":{{"body":"b","m.relates_to":{{"rel_type":"m.thread","event_id":"{root}"}}}}}}"#
    ))
}

fn page(events: Vec<RawEvent>, next: Option<&str>) -> Page {
    Page { events, next: next.map(str::to_owned) }
}

#[test]
fn an_event_is_rendered() {
    let message = format_event(&text_event("$1", "hello")).unwrap();
    assert_eq!(
        value(&message.to_json()),
        json(
            r#"{"type":"m.room.message","sender":"@a:x.org","event_id":"$1","origin_server_ts":17,
                "msgtype":"m.text","body":"hello","unable_to_decrypt":false,"thread_root":null}"#
        )
    );
}

#[test]
fn what_an_event_lacks_is_null() {
    for text in ["{}", "[]", "7", "null", r#"{"type":7,"content":"x"}"#, r#"{"content":["body"]}"#] {
        let message = format_event(&event(text)).unwrap();
        assert_eq!(
            value(&message.to_json()),
            json(
                r#"{"type":null,"sender":null,"event_id":null,"origin_server_ts":null,
                    "msgtype":null,"body":null,"unable_to_decrypt":false,"thread_root":null}"#
            ),
            "{text}"
        );
    }
}

#[test]
fn timestamps_are_passed_on_as_they_are() {
    for stamp in ["1700000000000", "null", "\"soon\"", "{\"a\":[1,2]}", "-3", "1.5"] {
        let message = format_event(&event(&format!(r#"{{"origin_server_ts":{stamp}}}"#))).unwrap();
        assert_eq!(value(&message.to_json())["origin_server_ts"], json(stamp));
    }
}

#[test]
fn events_that_are_no_json_are_skipped() {
    let events = vec![text_event("$1", "a"), event("{"), event(""), text_event("$2", "b")];
    let messages = format_events(&events);
    assert_eq!(messages.len(), 2);
    assert_eq!(messages[0].event_id.as_deref(), Some("$1"));
    assert_eq!(messages[1].event_id.as_deref(), Some("$2"));
}

#[test]
fn the_last_of_two_members_counts() {
    let message = format_event(&event(r#"{"sender":"@a:x","sender":"@b:x"}"#)).unwrap();
    assert_eq!(message.sender.as_deref(), Some("@b:x"));
}

#[test]
fn escapes_are_resolved() {
    let message =
        format_event(&event(r#"{"content":{"body":"a\"b\\c\né👍"}}"#)).unwrap();
    assert_eq!(message.body.as_deref(), Some("a\"b\\c\n\u{e9}\u{1F44D}"));
}

#[test]
fn undecryptable_events() {
    let flagged = RawEvent { json: text_event("$1", "x").json, unable_to_decrypt: true };
    assert!(is_undecryptable(&flagged));
    assert!(format_event(&flagged).unwrap().unable_to_decrypt);
    assert!(is_undecryptable(&encrypted_event("$1")));
    assert!(format_event(&encrypted_event("$1")).unwrap().unable_to_decrypt);
    assert!(!is_undecryptable(&text_event("$1", "x")));
    // Where the JSON cannot be read, the client's own flag is all there is.
    assert!(!is_undecryptable(&event("{")));
    assert!(is_undecryptable(&RawEvent { json: "{".to_owned(), unable_to_decrypt: true }));
    let messages = format_events(&vec![encrypted_event("$1"), text_event("$2", "x"), flagged]);
    assert_eq!(count_undecryptable(&messages), 2);
    assert_eq!(decryption_hint(0), None);
    assert!(decryption_hint(1).unwrap().contains("restore_key_backup"));
}

#[test]
fn threads_are_recognised() {
    assert_eq!(thread_root_of(&threaded_event("$2", "$1")).as_deref(), Some("$1"));
    assert_eq!(thread_root_of(&threaded_event("$2", "no-event")), None);
    assert_eq!(thread_root_of(&text_event("$2", "x")), None);
    assert_eq!(thread_root_of(&event("{")), None);
    let reply = r#"{"content":{"m.relates_to":{"rel_type":"m.annotation","event_id":"$1"}}}"#;
    assert_eq!(thread_root_of(&event(reply)), None);
    let rich = r#"{"content":{"m.relates_to":{"m.in_reply_to":{"event_id":"$1"}}}}"#;
    assert_eq!(thread_root_of(&event(rich)), None);
    let no_id = r#"{"content":{"m.relates_to":{"rel_type":"m.thread"}}}"#;
    assert_eq!(thread_root_of(&event(no_id)), None);
    // A relation is sent in the clear, so it shows on events that could not be decrypted.
    let hidden = r#"{"type":"m.room.encrypted","content":{"m.relates_to":{"rel_type":"m.thread","event_id":"$1"}}}"#;
    let message = format_event(&event(hidden)).unwrap();
    assert!(message.unable_to_decrypt);
    assert_eq!(message.thread_root.as_deref(), Some("$1"));
}

#[test]
fn a_message_from_its_parts() {
    let member = |key: &str, text: Option<&str>, json: &str| Member {
        key: key.to_owned(),
        text: text.map(str::to_owned),
        json: json.to_owned(),
    };
    let event = Some(Document::Object(vec![
        member("type", Some("m.room.encrypted"), "\"m.room.encrypted\""),
        member("origin_server_ts", None, "5"),
    ]));
    let content = Some(Document::Object(vec![member("body", Some("b"), "\"b\"")]));
    let message = message_in(&event, &content, Some("$root".to_owned()), false);
    assert_eq!(message.event_type.as_deref(), Some("m.room.encrypted"));
    assert_eq!(message.origin_server_ts.as_deref(), Some("5"));
    assert_eq!(message.body.as_deref(), Some("b"));
    assert_eq!(message.sender, None);
    assert!(message.unable_to_decrypt);
    assert_eq!(message.thread_root.as_deref(), Some("$root"));
    let message = message_in(&None, &None, None, true);
    assert!(message.unable_to_decrypt);
    assert_eq!(message.thread_root, None);
    let relation = |rel_type: &str| {
        let text = format!("\"{rel_type}\"");
        Some(Document::Object(vec![member("rel_type", Some(rel_type), &text)]))
    };
    let root = || Some("$root".to_owned());
    assert_eq!(thread_in_relation(&relation("m.thread"), root()), root());
    assert_eq!(thread_in_relation(&relation("m.thread"), None), None);
    assert_eq!(thread_in_relation(&relation("m.replace"), root()), None);
    assert_eq!(thread_in_relation(&Some(Document::Other), root()), None);
}

#[test]
fn documents_are_read() {
    assert!(read("{").is_none());
    assert!(matches!(read("[1]"), Some(Document::Other)));
    match read(r#"{"a":"x","b":{"c":1}}"#) {
        Some(Document::Object(members)) => {
            assert_eq!(members.len(), 2);
            assert_eq!(members[0].text.as_deref(), Some("x"));
            assert_eq!(members[0].json, "\"x\"");
            assert_eq!(members[1].text, None);
            assert_eq!(members[1].json, r#"{"c":1}"#);
        }
        _ => panic!("not an object"),
    }
}

#[test]
fn messages_come_in_chronological_order() {
    let request = manager().read_messages("!r:x.org", true, 20, Some("t1")).unwrap();
    assert_eq!((request.room_id.as_str(), request.limit), ("!r:x.org", 20));
    assert_eq!(request.from.as_deref(), Some("t1"));
    let newest_first = page(vec![text_event("$2", "later"), text_event("$1", "earlier")], Some("t2"));
    match request.on_messages(Ok(newest_first), BackupState::Enabled) {
        MessagesStep::Reply(reply) => assert_eq!(
            value(&reply),
            json(
                r#"{"room_id":"!r:x.org","count":2,"messages":[
                    {"type":"m.room.message","sender":"@a:x.org","event_id":"$1","origin_server_ts":17,
                     "msgtype":"m.text","body":"earlier","unable_to_decrypt":false,"thread_root":null},
                    {"type":"m.room.message","sender":"@a:x.org","event_id":"$2","origin_server_ts":17,
                     "msgtype":"m.text","body":"later","unable_to_decrypt":false,"thread_root":null}],
                    "next_token":"t2","undecryptable_count":0,"recovered_keys_from_backup":false,
                    "hint":null}"#
            )
        ),
        _ => panic!("no reply"),
    }
}

#[test]
fn an_empty_room_is_read() {
    let request = manager().read_messages("!r", true, 20, None).unwrap();
    match request.on_messages(Ok(page(vec![], None)), BackupState::Unknown) {
        MessagesStep::Reply(reply) => assert_eq!(
            value(&reply),
            json(
                r#"{"room_id":"!r","count":0,"messages":[],"next_token":null,
                    "undecryptable_count":0,"recovered_keys_from_backup":false,"hint":null}"#
            )
        ),
        _ => panic!("no reply"),
    }
}

#[test]
fn keys_are_recovered_for_messages() {
    let request = manager().read_messages("!r", true, 20, None).unwrap();
    let step = request.on_messages(Ok(page(vec![encrypted_event("$1")], None)), BackupState::Enabled);
    let MessagesStep::DownloadKeys(request, first) = step else { panic!("no keys wanted") };
    let MessagesStep::FetchAgain(request, first) = request.on_keys(first, true) else {
        panic!("not fetched again")
    };
    let again = page(vec![text_event("$1", "now readable")], None);
    let MessagesStep::Reply(reply) = request.on_messages_again(first, Some(again)) else {
        panic!("no reply")
    };
    let reply = value(&reply);
    assert_eq!(reply["recovered_keys_from_backup"], Value::Bool(true));
    assert_eq!(reply["undecryptable_count"], Value::from(0));
    assert_eq!(reply["messages"][0]["body"], Value::from("now readable"));
    assert_eq!(reply["hint"], Value::Null);
}

#[test]
fn what_cannot_be_recovered_is_flagged() {
    for state in [
        BackupState::Unknown,
        BackupState::Creating,
        BackupState::Enabling,
        BackupState::Resuming,
        BackupState::Downloading,
        BackupState::Disabling,
    ] {
        let request = manager().read_messages("!r", true, 20, None).unwrap();
        let step = request.on_messages(Ok(page(vec![encrypted_event("$1")], None)), state);
        let MessagesStep::Reply(reply) = step else { panic!("no reply") };
        let reply = value(&reply);
        assert_eq!(reply["undecryptable_count"], Value::from(1));
        assert_eq!(reply["messages"][0]["unable_to_decrypt"], Value::Bool(true));
        assert!(reply["hint"].as_str().unwrap().starts_with("Some messages could not be decrypted."));
    }
    // Keys that cannot be had, and a page that cannot be fetched again, leave the first page.
    let request = manager().read_messages("!r", true, 20, None).unwrap();
    let first = page(vec![encrypted_event("$1")], None);
    let MessagesStep::Reply(reply) = request.on_keys(first, false) else { panic!("no reply") };
    assert_eq!(value(&reply)["recovered_keys_from_backup"], Value::Bool(false));
    let request = manager().read_messages("!r", true, 20, None).unwrap();
    let first = page(vec![encrypted_event("$1")], None);
    let MessagesStep::Reply(reply) = request.on_messages_again(first, None) else {
        panic!("no reply")
    };
    assert_eq!(value(&reply)["recovered_keys_from_backup"], Value::Bool(false));
    assert_eq!(value(&reply)["count"], Value::from(1));
}

#[test]
fn messages_that_cannot_be_fetched() {
    let request = manager().read_messages("!r", true, 20, None).unwrap();
    match request.on_messages(Err("offline".to_owned()), BackupState::Enabled) {
        MessagesStep::Fail(message) => assert_eq!(message, "failed to fetch messages: offline"),
        _ => panic!("no failure"),
    }
}

fn thread(event_id: &str, from: Option<&str>) -> ThreadRequest {
    manager().read_thread("!r", true, event_id, 50, from).unwrap()
}

#[test]
fn a_thread_is_read_from_its_root() {
    let ThreadStep::FetchEvent(request) = thread("$root", None).begin() else { panic!("no fetch") };
    assert_eq!(request.requested, "$root");
    let ThreadStep::FetchReplies(run) = request.on_event(Ok(text_event("$root", "topic"))) else {
        panic!("no replies wanted")
    };
    assert_eq!(run.root_id, "$root");
    let replies = page(vec![threaded_event("$1", "$root"), event("{")], Some("t"));
    let ThreadStep::Reply(reply) = run.on_replies(Ok(replies), BackupState::Enabled) else {
        panic!("no reply")
    };
    let reply = value(&reply);
    assert_eq!(reply["thread_root"], Value::from("$root"));
    assert_eq!(reply["count"], Value::from(2));
    // What cannot be rendered still counts as a reply.
    assert_eq!(reply["reply_count"], Value::from(2));
    assert_eq!(reply["messages"][0]["body"], Value::from("topic"));
    assert_eq!(reply["messages"][1]["thread_root"], Value::from("$root"));
    assert_eq!(reply["next_token"], Value::from("t"));
    assert_eq!(reply["hint"], Value::Null);
}

#[test]
fn a_reply_leads_to_its_thread() {
    let request = thread("$reply", None);
    let ThreadStep::FetchRoot(request, root_id) =
        request.on_event(Ok(threaded_event("$reply", "$root")))
    else {
        panic!("no redirection")
    };
    assert_eq!(root_id, "$root");
    let ThreadStep::FetchReplies(run) = request.on_root(root_id, Ok(text_event("$root", "topic")))
    else {
        panic!("no replies wanted")
    };
    assert_eq!(run.root_id, "$root");
    let replies = page(vec![threaded_event("$reply", "$root")], None);
    let ThreadStep::Reply(reply) = run.on_replies(Ok(replies), BackupState::Unknown) else {
        panic!("no reply")
    };
    assert_eq!(value(&reply)["thread_root"], Value::from("$root"));
}

#[test]
fn later_pages_do_not_repeat_the_root() {
    let ThreadStep::FetchReplies(run) = thread("$root", Some("t")).begin() else {
        panic!("no replies wanted")
    };
    assert_eq!(run.from.as_deref(), Some("t"));
    assert!(run.root.is_none());
    let replies = page(vec![], None);
    let ThreadStep::Reply(reply) = run.on_replies(Ok(replies), BackupState::Unknown) else {
        panic!("no reply")
    };
    let reply = value(&reply);
    assert_eq!(reply["count"], Value::from(0));
    assert_eq!(reply["hint"], Value::Null);
}

#[test]
fn a_message_without_replies_is_hinted_at() {
    let ThreadStep::FetchReplies(run) = thread("$a", None).on_event(Ok(text_event("$a", "x"))) else {
        panic!("no replies wanted")
    };
    let ThreadStep::Reply(reply) = run.on_replies(Ok(page(vec![], None)), BackupState::Unknown)
    else {
        panic!("no reply")
    };
    let reply = value(&reply);
    assert!(reply["hint"].as_str().unwrap().starts_with("This message has no threaded replies."));
    // That a message could not be decrypted matters more.
    let ThreadStep::FetchReplies(run) = thread("$a", None).on_event(Ok(encrypted_event("$a"))) else {
        panic!("no replies wanted")
    };
    let ThreadStep::Reply(reply) = run.on_replies(Ok(page(vec![], None)), BackupState::Unknown)
    else {
        panic!("no reply")
    };
    let reply = value(&reply);
    assert_eq!(reply["undecryptable_count"], Value::from(1));
    assert!(reply["hint"].as_str().unwrap().starts_with("Some messages could not be decrypted."));
}

#[test]
fn the_root_is_read_again_once_keys_have_come() {
    let ThreadStep::FetchReplies(run) = thread("$a", None).on_event(Ok(encrypted_event("$a"))) else {
        panic!("no replies wanted")
    };
    let first = page(vec![encrypted_event("$1")], None);
    let ThreadStep::DownloadKeys(run, first) = run.on_replies(Ok(first), BackupState::Enabled) else {
        panic!("no keys wanted")
    };
    let ThreadStep::FetchRepliesAgain(run, first) = run.on_keys(first, true) else {
        panic!("not fetched again")
    };
    let again = page(vec![text_event("$1", "reply")], None);
    let ThreadStep::FetchRootAgain(run, again) = run.on_replies_again(first, Some(again)) else {
        panic!("root not fetched again")
    };
    let ThreadStep::Reply(reply) = run.on_root_again(again, Some(text_event("$a", "root"))) else {
        panic!("no reply")
    };
    let reply = value(&reply);
    assert_eq!(reply["messages"][0]["body"], Value::from("root"));
    assert_eq!(reply["messages"][1]["body"], Value::from("reply"));
    assert_eq!(reply["recovered_keys_from_backup"], Value::Bool(true));
    assert_eq!(reply["undecryptable_count"], Value::from(0));
}

#[test]
fn the_root_is_not_lost() {
    for again in [None, Some(event("{"))] {
        let ThreadStep::FetchReplies(run) = thread("$a", None).on_event(Ok(encrypted_event("$a")))
        else {
            panic!("no replies wanted")
        };
        let replies = page(vec![text_event("$1", "reply")], None);
        let ThreadStep::Reply(reply) = run.on_root_again(replies, again) else { panic!("no reply") };
        let reply = value(&reply);
        assert_eq!(reply["messages"][0]["event_id"], Value::from("$a"));
        assert_eq!(reply["undecryptable_count"], Value::from(1));
    }
    // A root that could be read is not fetched again.
    let ThreadStep::FetchReplies(run) = thread("$a", None).on_event(Ok(text_event("$a", "x"))) else {
        panic!("no replies wanted")
    };
    let first = page(vec![encrypted_event("$1")], None);
    let again = page(vec![text_event("$1", "reply")], None);
    assert!(matches!(run.on_replies_again(first, Some(again)), ThreadStep::Reply(_)));
}

#[test]
fn thread_failures() {
    let fail = |step: ThreadStep| match step {
        ThreadStep::Fail(message) => message,
        _ => panic!("no failure"),
    };
    assert_eq!(
        fail(thread("$a", None).on_event(Err("gone".to_owned()))),
        "failed to fetch event $a - is it a message in this room?: gone"
    );
    assert_eq!(
        fail(thread("$a", None).on_root("$root".to_owned(), Err("gone".to_owned()))),
        "failed to fetch thread root $root: gone"
    );
    let ThreadStep::FetchReplies(run) = thread("$a", Some("t")).begin() else { panic!("no replies") };
    assert_eq!(
        fail(run.on_replies(Err("gone".to_owned()), BackupState::Enabled)),
        "failed to fetch thread replies: gone"
    );
    let ThreadStep::FetchReplies(run) = thread("$a", Some("t")).begin() else { panic!("no replies") };
    assert!(matches!(run.on_keys(page(vec![], None), false), ThreadStep::Reply(_)));
}

#[test]
fn requests_that_cannot_be_made() {
    let message = |r: Result<ThreadRequest, String>| match r {
        Err(message) => message,
        Ok(_) => panic!("no failure"),
    };
    assert_eq!(
        message(manager().read_thread("!r", true, "x", 50, None)),
        "invalid event id 'x': leading sigil is incorrect or missing"
    );
    // The room is looked at before the event.
    assert_eq!(
        message(manager().read_thread("r", true, "x", 50, None)),
        "invalid room id 'r': leading sigil is incorrect or missing"
    );
    let mut nobody = manager();
    nobody.session = None;
    assert_eq!(
        message(nobody.read_thread("r", true, "x", 50, None)),
        "not logged in - use the `login` tool or set the MATRIX_* environment variables"
    );
}

#[test]
fn pages_make_the_thread() {
    let ids = |step: ThreadStep| match step {
        ThreadStep::Reply(reply) => {
            let reply = value(&reply);
            let messages = reply["messages"].as_array().unwrap().clone();
            let ids = messages.iter().map(|m| m["event_id"].as_str().unwrap().to_owned());
            (ids.collect::<Vec<_>>(), reply["next_token"].as_str().map(str::to_owned))
        }
        _ => panic!("no reply"),
    };
    let ThreadStep::FetchReplies(run) = thread("$root", None).on_event(Ok(text_event("$root", "r")))
    else {
        panic!("no replies wanted")
    };
    let first = page(vec![text_event("$1", "a"), text_event("$2", "b")], Some("more"));
    let (mut all, next) = ids(run.on_replies(Ok(first), BackupState::Unknown));
    let ThreadStep::FetchReplies(run) = thread("$root", next.as_deref()).begin() else {
        panic!("no replies wanted")
    };
    assert_eq!(run.from.as_deref(), Some("more"));
    let second = page(vec![text_event("$3", "c")], None);
    let (rest, next) = ids(run.on_replies(Ok(second), BackupState::Unknown));
    all.extend(rest);
    assert_eq!(all, ["$root", "$1", "$2", "$3"]);
    assert_eq!(next, None);
}

#[test]
fn pages_go_back_in_time() {
    let ids = |events: Vec<RawEvent>| {
        let request = manager().read_messages("!r", true, 20, None).unwrap();
        match request.on_messages(Ok(page(events, None)), BackupState::Unknown) {
            MessagesStep::Reply(reply) => value(&reply)["messages"]
                .as_array()
                .unwrap()
                .iter()
                .map(|m| m["event_id"].as_str().unwrap().to_owned())
                .collect::<Vec<_>>(),
            _ => panic!("no reply"),
        }
    };
    let newer = || vec![text_event("$4", "d"), text_event("$3", "c")];
    let older = || vec![text_event("$2", "b"), text_event("$1", "a")];
    let mut both = newer();
    both.extend(older());
    let mut pages = ids(older());
    pages.extend(ids(newer()));
    assert_eq!(ids(both), pages);
    assert_eq!(pages, ["$1", "$2", "$3", "$4"]);
}

#[test]
fn pages_of_a_room_are_read_backward() {
    for from in [None, Some("t1")] {
        let query = manager().read_messages("!r", true, 7, from).unwrap().query();
        assert_eq!((query.direction, query.limit), (Direction::Backward, 7));
        assert_eq!(query.from.as_deref(), from);
    }
}

#[test]
fn pages_of_a_thread_are_read_forward() {
    let request = manager().read_thread("!r", true, "$root", 7, Some("t1")).unwrap();
    let ThreadStep::FetchReplies(run) = request.begin() else { panic!("no replies") };
    let query = run.query();
    assert_eq!((query.direction, query.limit), (Direction::Forward, 7));
    assert_eq!((query.root_id.as_str(), query.rel_type.as_str()), ("$root", "m.thread"));
    assert_eq!(query.from.as_deref(), Some("t1"));
    assert!(!query.recurse);
}
