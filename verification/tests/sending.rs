use matrix_mcp::json::Json;
use matrix_mcp::manager::{Environment, MatrixManager, Session};
use matrix_mcp::media::{
    content_type_of, EventKind, FetchFailure, Media, SavedFile,
};
use matrix_mcp::reading::Direction;
use matrix_mcp::sending::{
    message_content, MessageRelation, ReadStep, ReceiptKind, ReceiptThread, ReplyThread, SendStep,
};
use matrix_sdk::ruma::events::room::MediaSource;
use serde_json::Value;

fn nobody() -> MatrixManager {
    MatrixManager::from_env(&Environment {
        homeserver: None,
        user: None,
        password: None,
        access_token: None,
        user_id: None,
        device_id: None,
        device_name: None,
        session_file: Some("/data/session.json".to_owned()),
        store_path: None,
        verification_timeout: None,
        state_home: None,
        home: None,
    })
}

fn alice() -> MatrixManager {
    let mut manager = nobody();
    manager.session = Some(Session { user_id: Some("@alice:x.org".to_owned()) });
    manager
}

fn value(json: &Json) -> Value {
    match json {
        Json::Null => Value::Null,
        Json::Bool(b) => Value::Bool(*b),
        Json::Count(n) => Value::from(*n),
        Json::Text(s) => Value::String(s.clone()),
        Json::Raw(s) => serde_json::from_str(s).unwrap(),
        Json::List(items) => Value::Array(items.iter().map(value).collect()),
        Json::Object(members) => {
            Value::Object(members.iter().map(|(k, v)| (k.clone(), value(v))).collect())
        }
    }
}

fn json(text: &str) -> Value {
    serde_json::from_str(text).unwrap()
}

fn failure<T>(outcome: Result<T, String>) -> String {
    match outcome {
        Err(message) => message,
        Ok(_) => panic!("no failure"),
    }
}

fn oops() -> String {
    "oops".to_owned()
}

#[test]
fn markdown_is_rendered() {
    let content = message_content("**bold**", true);
    assert_eq!(content.body, "**bold**");
    assert_eq!(content.html.as_deref(), Some("<strong>bold</strong>"));
    assert_eq!(message_content("**bold**", false).html, None);
    // Nothing to render.
    assert_eq!(message_content("plain", true).html, None);
}

#[test]
fn a_message_is_sent() {
    let request = alice().send_message("!r", true, "hi", false, None).unwrap();
    assert_eq!((request.room_id.as_str(), request.content.body.as_str()), ("!r", "hi"));
    assert_eq!(request.reply_to, None);
    assert!(matches!(request.begin(), SendStep::Send { thread_root: None }));
    let sent = request.on_sent(None, Ok("$1".to_owned())).unwrap();
    assert_eq!((sent.event_id.as_str(), sent.thread_root), ("$1", None));
    assert_eq!(failure(request.on_sent(None, Err(oops()))), "failed to send message: oops");
}

#[test]
fn a_reply_stays_in_its_thread() {
    let request = alice().send_message("!r", true, "hi", true, Some("$0")).unwrap();
    assert_eq!(request.reply_to.as_deref(), Some("$0"));
    let SendStep::BuildReply(plan) = request.begin() else { panic!("no reply") };
    assert_eq!(plan.event_id, "$0");
    assert_eq!(plan.thread, ReplyThread::MaybeThreaded);
    assert!(plan.mention_author);
    let built = request.on_reply_built(Ok(MessageRelation::Thread("$root".to_owned())));
    let SendStep::Send { thread_root } = built else { panic!("not sent") };
    assert_eq!(thread_root.as_deref(), Some("$root"));
    let sent = request.on_sent(thread_root, Ok("$1".to_owned())).unwrap();
    assert_eq!(sent.thread_root.as_deref(), Some("$root"));
    for relation in [MessageRelation::Other, MessageRelation::Unrelated] {
        assert!(matches!(
            request.on_reply_built(Ok(relation)),
            SendStep::Send { thread_root: None }
        ));
    }
    assert!(matches!(request.on_reply_built(Err(oops())),
        SendStep::Fail(m) if m == "failed to build reply: oops"));
    assert_eq!(
        failure(alice().send_message("!r", true, "hi", true, Some("0"))),
        "invalid event id '0': leading sigil is incorrect or missing"
    );
}

#[test]
fn other_requests() {
    let request = alice().edit_message("!r", true, "$1", "_new_", true).unwrap();
    assert_eq!((request.room_id.as_str(), request.event_id.as_str()), ("!r", "$1"));
    assert_eq!(request.content.html.as_deref(), Some("<em>new</em>"));
    let request = alice().redact_event("!r", true, "$1", Some("why")).unwrap();
    assert_eq!(request.event_id, "$1");
    assert_eq!(request.reason.as_deref(), Some("why"));
    let request = alice().send_reaction("!r", true, "$1", "\u{1F44D}").unwrap();
    assert_eq!((request.event_id.as_str(), request.emoji.as_str()), ("$1", "\u{1F44D}"));
    assert_eq!(
        failure(alice().send_reaction("r", true, "1", "x")),
        "invalid room id 'r': leading sigil is incorrect or missing"
    );
    assert_eq!(
        failure(alice().redact_event("!r", true, "1", None)),
        "invalid event id '1': leading sigil is incorrect or missing"
    );
    assert_eq!(
        failure(nobody().edit_message("r", true, "1", "x", false)),
        "not logged in - use the `login` tool or set the MATRIX_* environment variables"
    );
}

#[test]
fn rooms_are_marked_as_read() {
    let request = alice().mark_read("!r", true, Some("$9")).unwrap();
    let ReadStep::Send(receipt) = request.begin() else { panic!("not sent") };
    assert_eq!(receipt.event_id, "$9");
    assert_eq!((receipt.kind, receipt.thread), (ReceiptKind::Read, ReceiptThread::Unthreaded));
    let request = alice().mark_read("!r", true, None).unwrap();
    let ReadStep::FetchLatest(query) = request.begin() else { panic!("not fetched") };
    assert_eq!((query.direction, query.limit, query.from), (Direction::Backward, 1, None));
    let step = request.on_latest(Ok(Some(Some("$7".to_owned()))));
    let ReadStep::Send(receipt) = step else { panic!("not sent") };
    assert_eq!(receipt.event_id, "$7");
    assert_eq!((receipt.kind, receipt.thread), (ReceiptKind::Read, ReceiptThread::Unthreaded));
    for (latest, expected) in [
        (Ok(None), "room !r has no messages to mark as read"),
        (Ok(Some(None)), "latest event has no id"),
        (Err(oops()), "failed to fetch latest message: oops"),
    ] {
        assert!(matches!(request.on_latest(latest), ReadStep::Fail(m) if m == expected));
    }
}

#[test]
fn content_types_follow_the_extension() {
    assert_eq!(content_type_of("/a/cat.png"), "image/png");
    assert_eq!(content_type_of("cat.PNG"), "image/png");
    assert_eq!(content_type_of("song.mp3"), "audio/mpeg");
    assert_eq!(content_type_of("clip.mp4"), "video/mp4");
    assert_eq!(content_type_of("notes.txt"), "text/plain");
    for path in ["", "/", "..", "noextension", ".png", "cat.", "cat.unheard-of", "dir.png/cat"] {
        assert_eq!(content_type_of(path), "application/octet-stream", "{path:?}");
    }
    for path in ["a.png", "x/y.tar.gz", "a.b/c", ".x.jpg", "\u{e9}.svg", "a/.."] {
        assert_eq!(
            content_type_of(path),
            mime_guess::from_path(path).first_or_octet_stream().to_string(),
            "{path:?}"
        );
    }
}

#[test]
fn a_file_is_sent() {
    let request = alice().send_file("!r", true, "/a/cat.png", Some("look")).unwrap();
    assert_eq!(request.path, "/a/cat.png");
    assert_eq!(request.filename, "cat.png");
    assert_eq!(request.content_type, "image/png");
    assert_eq!(request.caption.as_deref(), Some("look"));
    assert_eq!(alice().send_file("!r", true, "/", None).unwrap().filename, "file");
    assert_eq!(request.on_sent(Ok("$1".to_owned())).unwrap(), "$1");
    assert_eq!(
        failure(request.on_read(Err(oops()))),
        "failed to read file '/a/cat.png': oops"
    );
    assert_eq!(
        failure(request.on_sent(Err(oops()))),
        "failed to send attachment: oops"
    );
}

fn text(s: &str) -> Option<String> {
    Some(s.to_owned())
}

fn plain(uri: &str) -> MediaSource {
    MediaSource::Plain(uri.into())
}

fn address(source: &MediaSource) -> String {
    match source {
        MediaSource::Plain(uri) => uri.to_string(),
        MediaSource::Encrypted(file) => format!("encrypted {}", file.url),
    }
}

fn event(kind: &str, content: &str) -> String {
    format!(
        r#"{{"type":"{kind}","event_id":"$1","sender":"@a:x.org","origin_server_ts":1,
            "content":{content}}}"#
    )
}

#[test]
fn media_is_found_in_the_json_of_an_event() {
    let request = alice().download_media("!r", true, "$1", "/tmp/cat.png").unwrap();
    for msgtype in ["m.image", "m.video", "m.audio", "m.file"] {
        let named = event(
            "m.room.message",
            &format!(
                r#"{{"msgtype":"{msgtype}","body":"a caption","filename":"cat.png",
                    "url":"mxc://x.org/abc","info":{{"mimetype":"image/png"}}}}"#
            ),
        );
        let media = request.on_fetched(Ok(&named)).unwrap();
        assert_eq!(media.filename, "cat.png");
        assert_eq!(media.mimetype.as_deref(), Some("image/png"));
        let bare = event(
            "m.room.message",
            &format!(r#"{{"msgtype":"{msgtype}","body":"dog.png","url":"mxc://x.org/abc"}}"#),
        );
        let media = request.on_fetched(Ok(&bare)).unwrap();
        assert_eq!(media.filename, "dog.png");
        assert_eq!(media.mimetype, None);
        assert_eq!(address(&media.source), "mxc://x.org/abc");
        let encrypted = event(
            "m.room.message",
            &format!(
                r#"{{"msgtype":"{msgtype}","body":"dog.png","file":{{"url":"mxc://x.org/secret",
                    "key":{{"kty":"oct","key_ops":["encrypt","decrypt"],"alg":"A256CTR",
                    "k":"qcHVMSgYg-71CauWBezXI5qkaRb0LuIy-Wx5kIaHMIA","ext":true}},
                    "iv":"X85+XgHN+HEAAAAAAAAAAA","hashes":{{
                    "sha256":"5qG4fFnbbVdlAB1Q72JDKwCagV6Dbkx9uds4rSak37c"}},"v":"v2"}}}}"#
            ),
        );
        let media = request.on_fetched(Ok(&encrypted)).unwrap();
        assert_eq!(address(&media.source), "encrypted mxc://x.org/secret");
    }
}

#[test]
fn files_come_out_as_they_went_in() {
    let sent = alice().send_file("!r", true, "/home/alice/cat.png", Some("a cat")).unwrap();
    let upload = sent.on_read(Ok(vec![1, 2, 3])).unwrap();
    assert_eq!((upload.filename.as_str(), upload.content_type.as_str()), ("cat.png", "image/png"));
    assert_eq!(upload.caption.as_deref(), Some("a cat"));
    assert_eq!(upload.data, vec![1, 2, 3]);
    assert_eq!(sent.on_sent(Ok("$1".to_owned())).unwrap(), "$1");
    let json = event(
        "m.room.message",
        &format!(
            r#"{{"msgtype":"m.file","body":"{}","url":"mxc://x.org/abc"}}"#,
            upload.filename
        ),
    );
    let request = alice().download_media("!r", true, "$1", "/tmp/x").unwrap();
    let media = request.on_fetched(Ok(&json)).unwrap();
    assert_eq!(media.filename, "cat.png");
    assert_eq!(address(&media.source), "mxc://x.org/abc");
    let file = request.on_downloaded(Ok(upload.data)).unwrap();
    assert_eq!((file.path.as_str(), &file.data), ("/tmp/x", &vec![1, 2, 3]));
    let reply = value(&request.on_saved(&media, &file, Ok(())).unwrap());
    assert_eq!(reply["bytes_written"], Value::from(3));
    assert_eq!(reply["filename"], Value::from("cat.png"));
}

#[test]
fn events_without_media_are_told_apart() {
    let request = alice().download_media("!r", true, "$1", "/tmp/x").unwrap();
    let words = event("m.room.message", r#"{"msgtype":"m.text","body":"hi"}"#);
    assert_eq!(
        failure(request.on_fetched(Ok(&words))),
        "event $1 has no downloadable media"
    );
    let redacted = r#"{"type":"m.room.message","event_id":"$1","sender":"@a:x.org",
        "origin_server_ts":1,"content":{},"unsigned":{"redacted_because":{
        "type":"m.room.redaction","event_id":"$2","sender":"@a:x.org","origin_server_ts":2,
        "content":{"redacts":"$1"},"redacts":"$1"}}}"#;
    for other in [
        &event("m.reaction", r#"{"m.relates_to":{"rel_type":"m.annotation","event_id":"$0","key":"x"}}"#),
        &event("org.x.custom", "{}"),
        redacted,
    ] {
        assert_eq!(failure(request.on_fetched(Ok(other))), "event $1 is not a message");
    }
    for bad in ["", "{}", r#"{"type":"m.room.message"}"#] {
        let message = failure(request.on_fetched(Ok(bad)));
        assert!(message.starts_with("failed to deserialize event: "), "{message}");
        assert!(message.len() > "failed to deserialize event: ".len());
    }
    assert_eq!(failure(request.on_fetched(Err(oops()))), "failed to fetch event: oops");
}

#[test]
fn media_is_downloaded() {
    let request = alice().download_media("!r", true, "$1", "/tmp/cat.png").unwrap();
    let (body, name, mime) = ("a caption".to_owned(), text("cat.png"), text("image/png"));
    let kinds = [
        EventKind::Image(body.clone(), name.clone(), mime.clone(), plain("mxc://x.org/1")),
        EventKind::Video(body.clone(), name.clone(), mime.clone(), plain("mxc://x.org/1")),
        EventKind::Audio(body.clone(), name.clone(), mime.clone(), plain("mxc://x.org/1")),
        EventKind::File(body.clone(), name, mime.clone(), plain("mxc://x.org/1")),
    ];
    for kind in kinds {
        let media = request.on_event(Ok(kind)).unwrap();
        assert_eq!(address(&media.source), "mxc://x.org/1");
        assert_eq!(media.filename, "cat.png");
        assert_eq!(media.mimetype.as_deref(), Some("image/png"));
    }
    let unnamed = EventKind::File(body, None, mime, plain("mxc://x.org/1"));
    assert_eq!(request.on_event(Ok(unnamed)).unwrap().filename, "a caption");
    let source = plain("mxc://x.org/1");
    let media = Media { filename: "cat.png".to_owned(), mimetype: None, source };
    let file = SavedFile { path: "/tmp/cat.png".to_owned(), data: vec![7; 123] };
    assert_eq!(
        value(&request.on_saved(&media, &file, Ok(())).unwrap()),
        json(
            r#"{"room_id":"!r","event_id":"$1","path":"/tmp/cat.png","filename":"cat.png",
                "mime_type":null,"bytes_written":123}"#
        )
    );
    assert_eq!(
        failure(request.on_downloaded(Err(oops()))),
        "failed to download media: oops"
    );
    assert_eq!(
        failure(request.on_saved(&media, &file, Err(oops()))),
        "failed to write '/tmp/cat.png': oops"
    );
}

#[test]
fn what_carries_no_media_is_refused() {
    let request = alice().download_media("!r", true, "$1", "/tmp/x").unwrap();
    assert_eq!(
        failure(request.on_event(Ok(EventKind::Other))),
        "event $1 is not a message"
    );
    assert_eq!(
        failure(request.on_event(Ok(EventKind::OtherMessage))),
        "event $1 has no downloadable media"
    );
    assert_eq!(
        failure(request.on_event(Err(FetchFailure::Fetch(oops())))),
        "failed to fetch event: oops"
    );
    assert_eq!(
        failure(request.on_event(Err(FetchFailure::Read(oops())))),
        "failed to deserialize event: oops"
    );
}
