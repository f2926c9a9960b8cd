use matrix_mcp::args::{
    CreateDmArgs, CreateRoomArgs, DownloadMediaArgs, DownloadRoomKeysArgs, EditMessageArgs,
    EnableKeyBackupArgs, GetProfileArgs, GetRoomMembersArgs, InviteUserArgs, JoinRoomArgs,
    LeaveRoomArgs, LoginArgs, LoginSsoArgs, LoginWithTokenArgs, MarkReadArgs, ReadMessagesArgs,
    ReadThreadArgs, RedactEventArgs, RestoreKeyBackupArgs, RoomMemberActionArgs, SendFileArgs,
    SendMessageArgs, SendReactionArgs, UpdateRoomArgs,
};
use matrix_mcp::backup::{
    key_backup_enabled, key_backup_restored, on_recovered, room_keys_downloaded, BackupState,
    RestoreReport,
};
use matrix_mcp::json::Json;
use matrix_mcp::manager::{Environment, MatrixManager, Session};
use matrix_mcp::rooms::{on_dm_created, DirectRoom, RoomPreset, UpdateFailure, Visibility};
use matrix_mcp::sending::{EditFailure, Sent};
use matrix_mcp::server::MatrixServer;
use matrix_mcp::session::{Credentials, LoginInfo};
use matrix_mcp::sync::SyncNeed;
use serde_json::Value;

fn nobody() -> MatrixManager {
    MatrixManager::from_env(&Environment {
        homeserver: None,
        user: None,
        password: None,
        access_token: None,
        user_id: None,
        device_id: None,
        device_name: None,
        session_file: Some("/data/session.json".to_owned()),
        store_path: None,
        verification_timeout: None,
        state_home: None,
        home: None,
    })
}

fn alice() -> MatrixManager {
    let mut manager = nobody();
    manager.session = Some(Session { user_id: Some("@alice:x.org".to_owned()) });
    manager
}

fn value(json: &Json) -> Value {
    match json {
        Json::Null => Value::Null,
        Json::Bool(b) => Value::Bool(*b),
        Json::Count(n) => Value::from(*n),
        Json::Text(s) => Value::String(s.clone()),
        Json::Raw(s) => serde_json::from_str(s).unwrap(),
        Json::List(items) => Value::Array(items.iter().map(value).collect()),
        Json::Object(members) => {
            Value::Object(members.iter().map(|(k, v)| (k.clone(), value(v))).collect())
        }
    }
}

fn json(text: &str) -> Value {
    serde_json::from_str(text).unwrap()
}

fn failure<T>(outcome: Result<T, String>) -> String {
    match outcome {
        Err(message) => message,
        Ok(_) => panic!("no failure"),
    }
}

fn oops() -> String {
    "oops".to_owned()
}

fn server() -> MatrixServer {
    MatrixServer::new(alice())
}

fn room() -> String {
    "!r:x.org".to_owned()
}

fn id() -> String {
    "$1".to_owned()
}

#[test]
fn the_server_describes_itself() {
    let info = MatrixServer::get_info("matrix-mcp", "1.2.3");
    assert_eq!((info.name.as_str(), info.version.as_str()), ("matrix-mcp", "1.2.3"));
    assert_eq!(info.title, "Matrix MCP");
    assert_eq!(info.description, "A Model Context Protocol server for the Matrix chat protocol.");
    assert!(info.instructions.starts_with("Matrix MCP server. Tools let you log in"));
}

#[test]
fn logins() {
    let server = MatrixServer::new(nobody());
    let args = LoginArgs {
        homeserver: Some("https://x.org".to_owned()),
        username: "alice".to_owned(),
        password: "pw".to_owned(),
    };
    assert!(matches!(server.login(&args).unwrap().credentials, Credentials::Password { .. }));
    let args = LoginWithTokenArgs {
        homeserver: Some("https://x.org".to_owned()),
        user_id: "@alice:x.org".to_owned(),
        device_id: "DEV".to_owned(),
        access_token: "tok".to_owned(),
    };
    assert!(matches!(
        server.login_with_token(&args).unwrap().credentials,
        Credentials::Token(_)
    ));
    let args = LoginSsoArgs { homeserver: None, identity_provider_id: None };
    assert_eq!(
        failure(server.login_sso(&args)),
        "no homeserver provided and MATRIX_HOMESERVER is not set"
    );
    let info = LoginInfo {
        user_id: "@alice:x.org".to_owned(),
        device_id: "DEV".to_owned(),
        homeserver: "https://x.org/".to_owned(),
    };
    assert_eq!(
        value(&MatrixServer::logged_in(&info)),
        json(
            r#"{"logged_in":true,"user_id":"@alice:x.org","device_id":"DEV",
                "homeserver":"https://x.org/"}"#
        )
    );
    assert_eq!(
        value(&MatrixServer::logged_in_by_sso(&info, &Some("https://sso".to_owned())))["sso_url"],
        Value::from("https://sso")
    );
    assert_eq!(
        value(&MatrixServer::logged_in_by_sso(&info, &None)),
        json(
            r#"{"logged_in":true,"user_id":"@alice:x.org","device_id":"DEV",
                "homeserver":"https://x.org/","sso_url":null}"#
        )
    );
    assert_eq!(value(&MatrixServer::logged_out()), json(r#"{"logged_out":true}"#));
    assert_eq!(value(&MatrixServer::synced()), json(r#"{"synced":true}"#));
}

#[test]
fn key_backups() {
    let args = EnableKeyBackupArgs { passphrase: Some("secret".to_owned()) };
    let request = server().enable_key_backup(&args, Some(false)).unwrap();
    assert_eq!(request.passphrase.as_deref(), Some("secret"));
    assert!(failure(server().enable_key_backup(&args, None))
        .starts_with("could not find out whether this account already has a key backup"));
    assert!(failure(server().enable_key_backup(&args, Some(true)))
        .starts_with("this account already has a key backup - use `restore_key_backup`"));
    assert_eq!(
        value(&key_backup_enabled(Ok("EsTx".to_owned()), BackupState::Enabled).unwrap()),
        json(
            r#"{"enabled":true,"recovery_key":"EsTx","backup_state":"Enabled","warning":"Store this recovery key somewhere safe now - it is not recoverable and will not be shown again. Without it, messages in encrypted rooms cannot be read on a new device."}"#
        )
    );
    assert!(failure(key_backup_enabled(Err(oops()), BackupState::Unknown))
        .ends_with("with its existing recovery key instead: oops"));
    let args = RestoreKeyBackupArgs { recovery_key: "EsTx".to_owned() };
    assert_eq!(server().restore_key_backup(&args).unwrap(), "EsTx");
    let report = |backup_state| RestoreReport { recovery_state: "Enabled".to_owned(), backup_state };
    assert_eq!(
        value(&key_backup_restored(report(BackupState::Enabled))),
        json(
            r#"{"restored":true,"recovery_state":"Enabled","backup_state":"Enabled",
                "key_backup_usable":true}"#
        )
    );
    let reply = value(&key_backup_restored(report(BackupState::Unknown)));
    assert_eq!(reply["key_backup_usable"], Value::Bool(false));
    assert_eq!(on_recovered(Ok(())), Ok(SyncNeed::BestEffort));
    assert_eq!(
        failure(on_recovered(Err(oops()))),
        "failed to unlock the key backup - check the recovery key is correct, and that key backup \
         is actually set up on this account: oops"
    );
}

#[test]
fn room_keys() {
    let args = DownloadRoomKeysArgs { room_id: room() };
    assert_eq!(server().download_room_keys(&args, true).unwrap(), room());
    assert!(server().download_room_keys(&args, false).is_err());
    assert_eq!(
        value(&room_keys_downloaded("!r", Ok(()), BackupState::Enabled).unwrap()),
        json(
            r#"{"room_id":"!r","backup_state":"Enabled","key_backup_usable":true,"hint":"Keys downloaded; re-read the room to pick up newly decryptable messages."}"#
        )
    );
    assert_eq!(
        value(&room_keys_downloaded("!r", Ok(()), BackupState::Disabling).unwrap()),
        json(
            r#"{"room_id":"!r","backup_state":"Disabling","key_backup_usable":false,"hint":"No usable key backup - run `restore_key_backup` with your recovery key first."}"#
        )
    );
    assert_eq!(
        failure(room_keys_downloaded("!r", Err(oops()), BackupState::Enabled)),
        "failed to download room keys from the key backup: oops"
    );
}

#[test]
fn messages() {
    let args = SendMessageArgs {
        room_id: room(),
        body: "**b**".to_owned(),
        markdown: None,
        reply_to_event_id: None,
    };
    assert_eq!(server().send_message(&args, true).unwrap().content.html, None);
    let args = SendMessageArgs { markdown: Some(true), ..args };
    assert!(server().send_message(&args, true).unwrap().content.html.is_some());
    let sent = Sent { event_id: id(), thread_root: Some("$root".to_owned()) };
    assert_eq!(
        value(&MatrixServer::message_sent(&args, &sent)),
        json(r#"{"sent":true,"room_id":"!r:x.org","event_id":"$1","thread_root":"$root"}"#)
    );
    let args = EditMessageArgs {
        room_id: room(),
        event_id: id(),
        body: "new".to_owned(),
        markdown: Some(false),
    };
    assert_eq!(server().edit_message(&args, true).unwrap().content.body, "new");
    assert_eq!(
        value(&MatrixServer::message_edited(&args, Ok("$2".to_owned())).unwrap()),
        json(r#"{"edited":true,"room_id":"!r:x.org","event_id":"$2"}"#)
    );
    assert_eq!(
        failure(MatrixServer::message_edited(&args, Err(EditFailure::Build(oops())))),
        "failed to build edit: oops"
    );
    assert_eq!(
        failure(MatrixServer::message_edited(&args, Err(EditFailure::Send(oops())))),
        "failed to send edit: oops"
    );
    let args = RedactEventArgs { room_id: room(), event_id: id(), reason: None };
    assert_eq!(server().redact_event(&args, true).unwrap().event_id, "$1");
    assert_eq!(
        value(&MatrixServer::event_redacted(&args, Ok("$2".to_owned())).unwrap()),
        json(
            r#"{"redacted":true,"room_id":"!r:x.org","event_id":"$1","redaction_event_id":"$2"}"#
        )
    );
    assert_eq!(
        failure(MatrixServer::event_redacted(&args, Err(oops()))),
        "failed to redact event: oops"
    );
    let args = SendReactionArgs { room_id: room(), event_id: id(), emoji: "+".to_owned() };
    assert_eq!(server().send_reaction(&args, true).unwrap().emoji, "+");
    assert_eq!(
        value(&MatrixServer::reaction_sent(&args, Ok("$2".to_owned())).unwrap()),
        json(r#"{"reacted":true,"room_id":"!r:x.org","event_id":"$2"}"#)
    );
    assert_eq!(
        failure(MatrixServer::reaction_sent(&args, Err(oops()))),
        "failed to send reaction: oops"
    );
    let args = MarkReadArgs { room_id: room(), event_id: None };
    assert_eq!(server().mark_read(&args, true).unwrap().event_id, None);
    assert_eq!(
        value(&MatrixServer::marked_read(&args, "$7", Ok(())).unwrap()),
        json(r#"{"marked_read":true,"room_id":"!r:x.org","event_id":"$7"}"#)
    );
    assert_eq!(
        failure(MatrixServer::marked_read(&args, "$7", Err(oops()))),
        "failed to send read receipt: oops"
    );
}

#[test]
fn limits() {
    let limit = |asked: Option<u32>| {
        let args = ReadMessagesArgs { room_id: room(), limit: asked, before_token: None };
        server().read_messages(&args, true).unwrap().limit
    };
    assert_eq!(limit(None), 20);
    assert_eq!(limit(Some(0)), 1);
    assert_eq!(limit(Some(1)), 1);
    assert_eq!(limit(Some(57)), 57);
    assert_eq!(limit(Some(100)), 100);
    assert_eq!(limit(Some(u32::MAX)), 100);
    let limit = |asked: Option<u32>| {
        let args = ReadThreadArgs {
            room_id: room(),
            event_id: id(),
            limit: asked,
            from_token: Some("t".to_owned()),
        };
        let request = server().read_thread(&args, true).unwrap();
        assert_eq!(request.from.as_deref(), Some("t"));
        request.limit
    };
    assert_eq!(limit(None), 50);
    assert_eq!(limit(Some(0)), 1);
    assert_eq!(limit(Some(101)), 100);
}

#[test]
fn rooms() {
    let args = GetRoomMembersArgs { room_id: room() };
    assert_eq!(server().get_room_members(&args, true).unwrap(), room());
    let args = JoinRoomArgs { room: "#r:x.org".to_owned() };
    assert_eq!(server().join_room(&args).unwrap(), "#r:x.org");
    assert_eq!(
        value(&MatrixServer::room_joined(Ok(room())).unwrap()),
        json(r#"{"joined":true,"room_id":"!r:x.org"}"#)
    );
    assert_eq!(failure(MatrixServer::room_joined(Err(oops()))), "failed to join room: oops");
    let args = CreateRoomArgs {
        name: None,
        topic: None,
        invite: None,
        public: None,
        encrypted: None,
        is_direct: None,
    };
    let request = server().create_room(&args).unwrap();
    assert!(request.invite.is_empty());
    assert_eq!(request.visibility, Visibility::Private);
    assert_eq!(request.preset, RoomPreset::PrivateChat);
    assert!(!request.encrypted && !request.is_direct);
    let args = CreateRoomArgs {
        invite: Some(vec!["bob".to_owned()]),
        public: Some(true),
        ..args
    };
    assert_eq!(
        failure(server().create_room(&args)),
        "invalid user id 'bob': leading sigil is incorrect or missing"
    );
    assert_eq!(
        value(&MatrixServer::room_created(Ok(room())).unwrap()),
        json(r#"{"created":true,"room_id":"!r:x.org"}"#)
    );
    assert_eq!(failure(MatrixServer::room_created(Err(oops()))), "failed to create room: oops");
    let args = LeaveRoomArgs { room_id: room() };
    assert_eq!(server().leave_room(&args, true).unwrap(), room());
    assert_eq!(
        value(&MatrixServer::room_left(&args, Ok(())).unwrap()),
        json(r#"{"left":true,"room_id":"!r:x.org"}"#)
    );
    assert_eq!(failure(MatrixServer::room_left(&args, Err(oops()))), "failed to leave room: oops");
    let args = UpdateRoomArgs { room_id: room(), name: Some("n".to_owned()), topic: None };
    assert_eq!(server().update_room(&args, true).unwrap().name.as_deref(), Some("n"));
    assert_eq!(
        value(&MatrixServer::room_updated(&args, Ok(())).unwrap()),
        json(r#"{"updated":true,"room_id":"!r:x.org"}"#)
    );
    assert_eq!(
        failure(MatrixServer::room_updated(&args, Err(UpdateFailure::Name(oops())))),
        "failed to set room name: oops"
    );
    assert_eq!(
        failure(MatrixServer::room_updated(&args, Err(UpdateFailure::Topic(oops())))),
        "failed to set room topic: oops"
    );
}

#[test]
fn members() {
    let args = InviteUserArgs { room_id: room(), user_id: "@bob:x.org".to_owned() };
    assert_eq!(server().invite_user(&args, true).unwrap().user_id, "@bob:x.org");
    assert_eq!(
        value(&MatrixServer::user_invited(&args, Ok(())).unwrap()),
        json(r#"{"invited":true,"room_id":"!r:x.org","user_id":"@bob:x.org"}"#)
    );
    assert_eq!(
        failure(MatrixServer::user_invited(&args, Err(oops()))),
        "failed to invite user: oops"
    );
    let args = RoomMemberActionArgs {
        room_id: room(),
        user_id: "@bob:x.org".to_owned(),
        reason: Some("why".to_owned()),
    };
    for request in [
        server().kick_room_member(&args, true),
        server().ban_room_member(&args, true),
        server().unban_room_member(&args, true),
    ] {
        assert_eq!(request.unwrap().reason.as_deref(), Some("why"));
    }
    assert_eq!(
        value(&MatrixServer::member_kicked(&args, Ok(())).unwrap()),
        json(r#"{"kicked":true,"room_id":"!r:x.org","user_id":"@bob:x.org"}"#)
    );
    assert_eq!(
        value(&MatrixServer::member_banned(&args, Ok(())).unwrap()),
        json(r#"{"banned":true,"room_id":"!r:x.org","user_id":"@bob:x.org"}"#)
    );
    assert_eq!(
        value(&MatrixServer::member_unbanned(&args, Ok(())).unwrap()),
        json(r#"{"unbanned":true,"room_id":"!r:x.org","user_id":"@bob:x.org"}"#)
    );
    assert_eq!(
        failure(MatrixServer::member_kicked(&args, Err(oops()))),
        "failed to kick member: oops"
    );
    assert_eq!(
        failure(MatrixServer::member_banned(&args, Err(oops()))),
        "failed to ban member: oops"
    );
    assert_eq!(
        failure(MatrixServer::member_unbanned(&args, Err(oops()))),
        "failed to unban member: oops"
    );
}

#[test]
fn users_and_files() {
    let args = CreateDmArgs { user_id: "@bob:x.org".to_owned() };
    assert!(matches!(server().create_dm(&args, Some("!dm")).unwrap(), DirectRoom::Existing(_)));
    assert_eq!(
        value(&MatrixServer::direct_room(&args, "!dm")),
        json(r#"{"room_id":"!dm","user_id":"@bob:x.org"}"#)
    );
    assert_eq!(failure(on_dm_created(Err(oops()))), "failed to create DM room: oops");
    let args = GetProfileArgs { user_id: None };
    assert_eq!(server().get_profile(&args).unwrap(), "@alice:x.org");
    let args = SendFileArgs { room_id: room(), path: "a/b.png".to_owned(), caption: None };
    assert_eq!(server().send_file(&args, true).unwrap().content_type, "image/png");
    assert_eq!(
        value(&MatrixServer::file_sent(&args, "$1")),
        json(r#"{"sent":true,"room_id":"!r:x.org","event_id":"$1"}"#)
    );
    let args =
        DownloadMediaArgs { room_id: room(), event_id: id(), save_path: "/tmp/x".to_owned() };
    assert_eq!(server().download_media(&args, true).unwrap().save_path, "/tmp/x");
}

#[test]
fn nothing_works_without_a_session() {
    let expected = "not logged in - use the `login` tool or set the MATRIX_* environment variables";
    let server = MatrixServer::new(nobody());
    let args = LeaveRoomArgs { room_id: "not a room".to_owned() };
    assert_eq!(failure(server.leave_room(&args, false)), expected);
    let args = GetProfileArgs { user_id: Some("nobody".to_owned()) };
    assert_eq!(failure(server.get_profile(&args)), expected);
    let args = ReadThreadArgs {
        room_id: "x".to_owned(),
        event_id: "y".to_owned(),
        limit: None,
        from_token: None,
    };
    assert_eq!(failure(server.read_thread(&args, true)), expected);
    let args = JoinRoomArgs { room: "x".to_owned() };
    assert_eq!(failure(server.join_room(&args)), expected);
    let args = RestoreKeyBackupArgs { recovery_key: "k".to_owned() };
    assert_eq!(failure(server.restore_key_backup(&args)), expected);
    let args = EnableKeyBackupArgs { passphrase: None };
    assert_eq!(failure(server.enable_key_backup(&args, Some(true))), expected);
}

#[test]
fn backup_states_have_names_of_their_own() {
    let states = [
        BackupState::Unknown,
        BackupState::Creating,
        BackupState::Enabling,
        BackupState::Resuming,
        BackupState::Enabled,
        BackupState::Downloading,
        BackupState::Disabling,
    ];
    for a in states {
        assert_eq!(a.name(), format!("{a:?}"));
        assert_eq!(a.is_enabled(), a == BackupState::Enabled);
        for b in states {
            assert_eq!(a.name() == b.name(), a == b);
        }
    }
}
