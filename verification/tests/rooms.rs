use matrix_mcp::account::{profile_fetched, ClientStatus, Profile, ProfileFailure};
use matrix_mcp::backup::BackupState;
use matrix_mcp::json::Json;
use matrix_mcp::manager::{Environment, MatrixManager, Session};
use matrix_mcp::rooms::{
    members_listed, on_dm_created, rooms_listed, DirectRoom, MemberSummary, RoomPreset, RoomSummary, Visibility,
};
use matrix_mcp::sync::SyncNeed;
use serde_json::Value;

fn nobody() -> MatrixManager {
    MatrixManager::from_env(&Environment {
        homeserver: None,
        user: None,
        password: None,
        access_token: None,
        user_id: None,
        device_id: None,
        device_name: None,
        session_file: Some("/data/session.json".to_owned()),
        store_path: None,
        verification_timeout: None,
        state_home: None,
        home: None,
    })
}

fn alice() -> MatrixManager {
    let mut manager = nobody();
    manager.session = Some(Session { user_id: Some("@alice:x.org".to_owned()) });
    manager
}

fn value(json: &Json) -> Value {
    match json {
        Json::Null => Value::Null,
        Json::Bool(b) => Value::Bool(*b),
        Json::Count(n) => Value::from(*n),
        Json::Text(s) => Value::String(s.clone()),
        Json::Raw(s) => serde_json::from_str(s).unwrap(),
        Json::List(items) => Value::Array(items.iter().map(value).collect()),
        Json::Object(members) => {
            Value::Object(members.iter().map(|(k, v)| (k.clone(), value(v))).collect())
        }
    }
}

fn json(text: &str) -> Value {
    serde_json::from_str(text).unwrap()
}

fn failure<T>(outcome: Result<T, String>) -> String {
    match outcome {
        Err(message) => message,
        Ok(_) => panic!("no failure"),
    }
}

fn oops() -> String {
    "oops".to_owned()
}

fn text(s: &str) -> Option<String> {
    Some(s.to_owned())
}

#[test]
fn rooms_are_listed() {
    assert_eq!(alice().list_rooms(), Ok(SyncNeed::BestEffort));
    assert!(nobody().list_rooms().is_err());
    let room = |name: Option<&str>, cached: Option<&str>| RoomSummary {
        room_id: "!r:x.org".to_owned(),
        name: name.map(str::to_owned),
        cached_name: cached.map(str::to_owned),
        topic: None,
        encryption: "NotEncrypted".to_owned(),
    };
    let reply = value(&rooms_listed(&vec![
        room(Some("Named"), Some("Cached")),
        room(None, Some("Cached")),
        room(None, None),
    ]));
    assert_eq!(reply["count"], Value::from(3));
    assert_eq!(
        reply["rooms"][0],
        json(r#"{"room_id":"!r:x.org","name":"Named","topic":null,"encryption":"NotEncrypted"}"#)
    );
    assert_eq!(reply["rooms"][1]["name"], Value::from("Cached"));
    assert_eq!(reply["rooms"][2]["name"], Value::Null);
    assert_eq!(value(&rooms_listed(&vec![])), json(r#"{"count":0,"rooms":[]}"#));
}

#[test]
fn members_are_listed() {
    assert_eq!(alice().get_room_members("!r", true).unwrap(), "!r");
    let member = MemberSummary {
        user_id: "@bob:x.org".to_owned(),
        name: "bob".to_owned(),
        display_name: None,
        membership: "join".to_owned(),
        power_level: "Int(Int(100))".to_owned(),
    };
    assert_eq!(
        value(&members_listed("!r", Ok(vec![member])).unwrap()),
        json(
            r#"{"room_id":"!r","count":1,"members":[{"user_id":"@bob:x.org","name":"bob",
                "display_name":null,"membership":"join","power_level":"Int(Int(100))"}]}"#
        )
    );
    assert_eq!(
        failure(members_listed("!r", Err(oops()))),
        "failed to fetch room members: oops"
    );
}

#[test]
fn rooms_are_created() {
    let invite = vec!["@b:x.org".to_owned(), "@c:x.org".to_owned()];
    let request =
        alice().create_room(Some("name"), None, &invite, true, true, false).unwrap();
    assert_eq!(request.name.as_deref(), Some("name"));
    assert_eq!(request.topic, None);
    assert_eq!(request.invite, invite);
    assert_eq!(request.visibility, Visibility::Public);
    assert_eq!(request.preset, RoomPreset::PublicChat);
    assert!(request.encrypted && !request.is_direct);
    let request = alice().create_room(None, Some("t"), &vec![], false, false, true).unwrap();
    assert_eq!(request.visibility, Visibility::Private);
    assert_eq!(request.preset, RoomPreset::PrivateChat);
    assert!(!request.encrypted && request.is_direct);
    // The first user id that is none is the one that is reported.
    let invite = vec!["@b:x.org".to_owned(), "bad".to_owned(), "worse".to_owned()];
    assert_eq!(
        failure(alice().create_room(None, None, &invite, false, false, false)),
        "invalid user id 'bad': leading sigil is incorrect or missing"
    );
    assert_eq!(
        failure(nobody().create_room(None, None, &invite, false, false, false)),
        "not logged in - use the `login` tool or set the MATRIX_* environment variables"
    );
}

#[test]
fn actions_on_members() {
    let manager = alice();
    let request = manager.invite_user("!r", true, "@bob:x.org").unwrap();
    assert_eq!((request.room_id.as_str(), request.user_id.as_str()), ("!r", "@bob:x.org"));
    assert_eq!(request.reason, None);
    for request in [
        manager.kick_room_member("!r", true, "@bob:x.org", Some("why")).unwrap(),
        manager.ban_room_member("!r", true, "@bob:x.org", Some("why")).unwrap(),
        manager.unban_room_member("!r", true, "@bob:x.org", Some("why")).unwrap(),
    ] {
        assert_eq!((request.room_id.as_str(), request.user_id.as_str()), ("!r", "@bob:x.org"));
        assert_eq!(request.reason.as_deref(), Some("why"));
    }
    assert_eq!(
        failure(manager.kick_room_member("!r", true, "bob", None)),
        "invalid user id 'bob': leading sigil is incorrect or missing"
    );
    assert_eq!(
        failure(manager.ban_room_member("!r", false, "bob", None)),
        "room !r not found - are you joined? Try the `join_room` or `sync` tool"
    );
    assert_eq!(
        failure(manager.leave_room("!r", false)),
        "room !r not found - are you joined? Try the `join_room` or `sync` tool"
    );
    assert_eq!(manager.leave_room("!r", true).unwrap(), "!r");
}

#[test]
fn only_what_is_given_is_updated() {
    let request = alice().update_room("!r", true, None, Some("topic")).unwrap();
    assert_eq!((request.name, request.topic), (None, text("topic")));
    let request = alice().update_room("!r", true, Some("name"), None).unwrap();
    assert_eq!((request.name, request.topic), (text("name"), None));
    let request = alice().update_room("!r", true, None, None).unwrap();
    assert_eq!((request.name, request.topic), (None, None));
}

#[test]
fn direct_rooms_are_used_again() {
    assert!(matches!(alice().create_dm("@b:x.org", Some("!dm")).unwrap(),
        DirectRoom::Existing(room) if room == "!dm"));
    assert!(matches!(alice().create_dm("@b:x.org", None).unwrap(),
        DirectRoom::Create(user) if user == "@b:x.org"));
    assert_eq!(
        failure(alice().create_dm("b", Some("!dm"))),
        "invalid user id 'b': leading sigil is incorrect or missing"
    );
}

#[test]
fn a_sync_follows_a_new_direct_room() {
    let created = on_dm_created(Ok("!dm".to_owned())).unwrap();
    assert_eq!((created.room_id.as_str(), created.need), ("!dm", SyncNeed::BestEffort));
    assert_eq!(failure(on_dm_created(Err("oops".to_owned()))), "failed to create DM room: oops");
}

#[test]
fn rooms_are_joined() {
    assert_eq!(alice().join_room("#r:x.org").unwrap(), "#r:x.org");
    assert_eq!(alice().join_room("!r").unwrap(), "!r");
    assert_eq!(
        failure(alice().join_room("r")),
        "invalid room id or alias 'r': leading sigil is incorrect or missing"
    );
}

#[test]
fn who_is_logged_in() {
    let mut manager = nobody();
    assert_eq!(
        value(&manager.whoami(None)),
        json(
            r#"{"logged_in":false,"default_homeserver":null,"hint":"Use the `login` tool with username and password, or set MATRIX_USER/MATRIX_PASSWORD."}"#
        )
    );
    manager.default_homeserver = text("https://x.org");
    assert_eq!(value(&manager.whoami(None))["default_homeserver"], Value::from("https://x.org"));
    let status = ClientStatus {
        user_id: text("@alice:x.org"),
        device_id: text("DEV"),
        homeserver: "https://x.org/".to_owned(),
        joined_rooms: 3,
        device_verified: None,
        key_backup: BackupState::Downloading,
    };
    assert_eq!(
        value(&alice().whoami(Some(&status))),
        json(
            r#"{"logged_in":true,"user_id":"@alice:x.org","device_id":"DEV",
                "homeserver":"https://x.org/","joined_rooms":3,"device_verified":null,
                "key_backup":"Downloading"}"#
        )
    );
    // A client without a session does not make a login, nor a session without its client.
    assert_eq!(value(&manager.whoami(Some(&status)))["logged_in"], Value::Bool(false));
    assert_eq!(value(&alice().whoami(None))["logged_in"], Value::Bool(false));
}

#[test]
fn profiles() {
    assert_eq!(alice().get_profile(None).unwrap(), "@alice:x.org");
    assert_eq!(alice().get_profile(Some("@bob:x.org")).unwrap(), "@bob:x.org");
    assert_eq!(
        failure(alice().get_profile(Some("bob"))),
        "invalid user id 'bob': leading sigil is incorrect or missing"
    );
    let mut unnamed = nobody();
    unnamed.session = Some(Session { user_id: None });
    assert_eq!(failure(unnamed.get_profile(None)), "not logged in");
    let profile = Profile { display_name: text("Bob"), avatar_url: None };
    assert_eq!(
        value(&profile_fetched("@bob:x.org", Ok(profile)).unwrap()),
        json(r#"{"user_id":"@bob:x.org","display_name":"Bob","avatar_url":null}"#)
    );
    assert_eq!(
        failure(profile_fetched("@b:x", Err(ProfileFailure::Fetch(oops())))),
        "failed to fetch profile: oops"
    );
    assert_eq!(
        failure(profile_fetched("@b:x", Err(ProfileFailure::DisplayName(oops())))),
        "failed to parse display name: oops"
    );
    assert_eq!(
        failure(profile_fetched("@b:x", Err(ProfileFailure::AvatarUrl(oops())))),
        "failed to parse avatar url: oops"
    );
}
