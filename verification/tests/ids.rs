use matrix_mcp::ids::{judged, parse_event_id, parse_room_or_alias, parse_user_id, resolve_room};
use matrix_sdk::ruma::{EventId, RoomId, RoomOrAliasId, UserId};

const IDS: [&str; 24] = [
    "", "$", "$abc", "$abc:server.org", "$abc:", "abc", "@", "@alice", "@alice:server.org",
    "@alice:", "@alice:[::1]:8448", "@al\0ice:server.org", "@:server.org", "!room",
    "!room:server.org", "!ro\0om", "!", "#room", "#room:server.org", "#:server.org", "#room:",
    "room:server.org", "$abc:not a server", "\u{e9}",
];

#[test]
fn event_ids_are_those_of_the_client() {
    for id in IDS {
        match (parse_event_id(id), EventId::parse(id)) {
            (Ok(kept), Ok(_)) => assert_eq!(kept, id),
            (Err(message), Err(e)) => assert_eq!(message, format!("invalid event id '{id}': {e}")),
            _ => panic!("{id:?}"),
        }
    }
    assert_eq!(
        parse_event_id("abc").unwrap_err(),
        "invalid event id 'abc': leading sigil is incorrect or missing"
    );
    assert_eq!(parse_event_id("$abc").unwrap(), "$abc");
}

#[test]
fn user_ids_are_those_of_the_client() {
    for id in IDS {
        match (parse_user_id(id), UserId::parse(id)) {
            (Ok(kept), Ok(_)) => assert_eq!(kept, id),
            (Err(message), Err(e)) => assert_eq!(message, format!("invalid user id '{id}': {e}")),
            _ => panic!("{id:?}"),
        }
    }
    assert_eq!(
        parse_user_id("@alice").unwrap_err(),
        "invalid user id '@alice': required colon is missing"
    );
    assert_eq!(parse_user_id("@alice:matrix.org").unwrap(), "@alice:matrix.org");
}

#[test]
fn rooms_and_aliases_are_those_of_the_client() {
    for id in IDS {
        match (parse_room_or_alias(id), RoomOrAliasId::parse(id)) {
            (Ok(kept), Ok(_)) => assert_eq!(kept, id),
            (Err(message), Err(e)) => {
                assert_eq!(message, format!("invalid room id or alias '{id}': {e}"))
            }
            _ => panic!("{id:?}"),
        }
    }
    assert_eq!(
        parse_room_or_alias("not-a-room").unwrap_err(),
        "invalid room id or alias 'not-a-room': leading sigil is incorrect or missing"
    );
}

#[test]
fn rooms_are_resolved() {
    for id in IDS {
        match (resolve_room(id, true), RoomId::parse(id)) {
            (Ok(kept), Ok(_)) => assert_eq!(kept, id),
            (Err(message), Err(e)) => assert_eq!(message, format!("invalid room id '{id}': {e}")),
            _ => panic!("{id:?}"),
        }
    }
    assert_eq!(
        resolve_room("!a:b.org", false).unwrap_err(),
        "room !a:b.org not found - are you joined? Try the `join_room` or `sync` tool"
    );
    // An id that is none is reported as such, whether or not a room was found.
    assert_eq!(
        resolve_room("!a\0", false).unwrap_err(),
        "invalid room id '!a\0': identifier contains invalid characters"
    );
}

#[test]
fn long_ids_are_taken() {
    let long = format!("${}", "x".repeat(400));
    assert_eq!(parse_event_id(&long).unwrap(), long);
}

#[test]
fn faults_are_reported() {
    assert_eq!(judged("event id", "x", Ok("x".to_owned())).unwrap(), "x");
    assert_eq!(
        judged("event id", "x", Err("no sigil".to_owned())).unwrap_err(),
        "invalid event id 'x': no sigil"
    );
}

#[test]
fn ordinary_hosts_are_taken() {
    for host in ["matrix.org", "localhost", "10.0.0.1", "a-b.C.9", "-", "."] {
        assert!(parse_user_id(&format!("@alice:{host}")).is_ok(), "{host}");
        assert!(parse_user_id(&format!("@:{host}")).is_ok(), "{host}");
        assert!(parse_event_id(&format!("$abc:{host}")).is_ok(), "{host}");
        assert!(parse_event_id(&format!("$a\0c:{host}")).is_ok(), "{host}");
        assert!(parse_room_or_alias(&format!("#room:{host}")).is_ok(), "{host}");
        assert!(parse_room_or_alias(&format!("#:{host}")).is_ok(), "{host}");
        assert!(parse_user_id(&format!("@al\0ice:{host}")).is_err(), "{host}");
    }
}
