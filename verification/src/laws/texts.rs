//! Texts, identifiers, documents, paths and settings.

use vstd::prelude::*;

use crate::backup::BackupState;
use crate::ids::{
    event_id_fault, judged, parse_event_id, parse_room_or_alias, parse_user_id, resolve_room,
    room_or_alias_fault, user_id_fault,
};
use crate::json::{Fields, Json, JsonView};
use crate::laws::{refused, taken_from, told};
use crate::manager::{
    http_endpoint, transport_kind, Environment, HttpEndpoint, MatrixManager, Session, Transport,
};
use crate::path::{
    default_session_path, default_store_path, extension, file_name, join, one_component, parent,
    two_dots,
};
use crate::sync::{flush_key_backup, settled, sync_once_with, synced, SyncNeed, SyncOutcome};
use crate::text::{
    borrowed, copied, decimal_value, is_blank, is_white_space, lowered_is, owned, parse_number,
    same_text, with_context,
};

verus! {

/// Copies and borrows of a text hold the same characters, and only such texts are the same.
pub proof fn law_copies_hold_the_same(
    slice: Option<&str>,
    text: Option<String>,
    copy: Option<String>,
    second: Option<String>,
    slice_of: Option<&str>,
    a: &str,
    b: &str,
    same: bool,
)
    requires
        call_ensures(owned, (slice,), copy),
        call_ensures(copied, (&text,), second),
        call_ensures(borrowed, (&text,), slice_of),
        call_ensures(same_text, (a, b), same),
    ensures
        taken_from(copy, slice),
        second == text,
        taken_from(text, slice_of),
        same == (a@ == b@),
{
}

/// A failure is reported as what was being attempted, a colon, a space and the cause, whole.
pub proof fn law_causes_are_reported_whole(context: &str, cause: &str, message: String)
    requires
        call_ensures(with_context, (context, cause), message),
    ensures
        message@ == context@ + seq![':', ' '] + cause@,
{
    reveal_strlit(": ");
    assert(": "@ =~= seq![':', ' ']);
}

/// Whether a character is one that Unicode counts as white space.
pub open spec fn space(c: char) -> bool {
    let n = c as int;
    ||| 0x9 <= n <= 0xd
    ||| n == 0x20
    ||| n == 0x85
    ||| n == 0xa0
    ||| n == 0x1680
    ||| 0x2000 <= n <= 0x200a
    ||| 0x2028 <= n <= 0x2029
    ||| n == 0x202f
    ||| n == 0x205f
    ||| n == 0x3000
}

/// Whether there is more in a text than white space.
pub open spec fn says_something(text: Seq<char>) -> bool {
    exists|i: int| 0 <= i < text.len() && !space(#[trigger] text[i])
}

proof fn lemma_blank_says_nothing(text: Seq<char>)
    ensures
        crate::text::blank(text) <==> !says_something(text),
{
    if !says_something(text) {
        assert forall|i: int| 0 <= i < text.len() implies crate::text::white_space(
            #[trigger] text[i],
        ) by {
            assert(space(text[i]));
        }
    }
    if crate::text::blank(text) {
        assert forall|i: int| 0 <= i < text.len() implies space(#[trigger] text[i]) by {
            assert(crate::text::white_space(text[i]));
        }
    }
}

/// A text is blank exactly if there is nothing but white space in it, wherever it stands.
pub proof fn law_blank_texts_say_nothing(text: &str, yes: bool, c: char, white: bool)
    requires
        call_ensures(is_blank, (text,), yes),
        call_ensures(is_white_space, (c,), white),
    ensures
        yes <==> !says_something(text@),
        white <==> space(c),
{
    lemma_blank_says_nothing(text@);
}

/// A digit behind a number makes it ten times as large, and adds the digit.
pub proof fn law_numbers_grow_by_digits(
    text: &str,
    longer: &str,
    number: Option<u64>,
    next: Option<u64>,
    c: char,
)
    requires
        call_ensures(parse_number, (text,), number),
        call_ensures(parse_number, (longer,), next),
        longer@ == text@.push(c),
        text@.len() > 0 && text@[0] != '+' || text@.len() > 1,
    ensures
        '0' <= c <= '9' ==> match number {
            Some(n) => if n * 10 + (c as int - 48) <= u64::MAX {
                next is Some && next->Some_0 == n * 10 + (c as int - 48)
            } else {
                next is None
            },
            None => next is None,
        },
        !('0' <= c <= '9') ==> next is None,
{
    let digits = crate::text::without_plus(text@);
    let more = crate::text::without_plus(longer@);
    assert(more =~= digits.push(c));
    assert(more.drop_last() =~= digits);
    assert(more.last() == c);
    if '0' <= c <= '9' {
        if forall|i: int| 0 <= i < digits.len() ==> crate::text::digit(#[trigger] digits[i]) {
            assert forall|i: int| 0 <= i < more.len() implies crate::text::digit(
                #[trigger] more[i],
            ) by {
                if i < digits.len() {
                    assert(more[i] == digits[i]);
                }
            }
        } else {
            let i = choose|i: int|
                0 <= i < digits.len() && !crate::text::digit(#[trigger] digits[i]);
            assert(more[i] == digits[i]);
        }
    } else {
        assert(more[digits.len() as int] == c);
    }
}

/// A single digit stands for itself, with or without a plus sign; no text, a plus sign alone and
/// any other single character are no number.
pub proof fn law_digits_are_numbers(text: &str, number: Option<u64>, c: char)
    requires
        call_ensures(parse_number, (text,), number),
    ensures
        text@ == seq![c] || text@ == seq!['+', c] ==> if '0' <= c <= '9' {
            number is Some && number->Some_0 == c as int - 48
        } else {
            number is None
        },
        text@.len() == 0 ==> number is None,
{
    reveal_with_fuel(decimal_value, 3);
    let digits = crate::text::without_plus(text@);
    if text@ == seq![c] && c != '+' || text@ == seq!['+', c] {
        assert(digits =~= seq![c]);
        assert(digits.drop_last() =~= Seq::<char>::empty());
        assert(digits[0] == c);
    }
}

/// Texts are compared with the ASCII capitals of the first taken as small letters, and with no
/// other character changed.
pub proof fn law_case_does_not_matter(text: &str, expected: &str, same: bool)
    requires
        call_ensures(lowered_is, (text, expected), same),
    ensures
        same <==> text@.len() == expected@.len() && forall|i: int|
            0 <= i < text@.len() ==> #[trigger] expected@[i] as int == if 'A' <= text@[i] <= 'Z' {
                text@[i] as int + 32
            } else {
                text@[i] as int
            },
{
    let low = crate::text::lowered(text@);
    assert forall|i: int| 0 <= i < text@.len() implies #[trigger] low[i] as int == if 'A'
        <= text@[i] <= 'Z' {
        text@[i] as int + 32
    } else {
        text@[i] as int
    } by {
        assert(low[i] == crate::text::ascii_lower(text@[i]));
    }
    if same {
        assert(low.len() == expected@.len());
    } else if text@.len() == expected@.len() {
        assert(!(low =~= expected@));
    }
}

/// Two texts that differ in nothing but the case of ASCII letters choose the same transport, and
/// the HTTP transport goes by four names, each for all of its spellings; any other name, and none,
/// is that of the standard streams.
pub proof fn law_transports_are_named(
    text: &str,
    kind: Transport,
    unset: Transport,
    http: bool,
    sse: bool,
    dashed: bool,
    underscored: bool,
)
    requires
        call_ensures(transport_kind, (Some(text),), kind),
        call_ensures(transport_kind, (None::<&str>,), unset),
        call_ensures(lowered_is, (text, "http"), http),
        call_ensures(lowered_is, (text, "sse"), sse),
        call_ensures(lowered_is, (text, "streamable-http"), dashed),
        call_ensures(lowered_is, (text, "streamable_http"), underscored),
    ensures
        unset == Transport::Stdio,
        kind == Transport::Http <==> http || sse || dashed || underscored,
        kind == Transport::Stdio || kind == Transport::Http,
{
}

/// The HTTP transport listens where it is told to, for each of the address and the path.
pub proof fn law_endpoints_are_as_told(
    address: Option<String>,
    path: Option<String>,
    endpoint: HttpEndpoint,
)
    requires
        call_ensures(http_endpoint, (&address, &path), endpoint),
    ensures
        endpoint.address@ == match address {
            Some(address) => address@,
            None => "127.0.0.1:8000"@,
        },
        endpoint.path@ == match path {
            Some(path) => path@,
            None => "/mcp"@,
        },
{
}

/// Whether a setting is the value of a variable: the whole of it where there is more than white
/// space in it, and otherwise none.
pub open spec fn setting_of(setting: Option<String>, variable: Option<String>) -> bool {
    match variable {
        Some(text) => if says_something(text@) {
            setting matches Some(kept) && kept@ == text@
        } else {
            setting is None
        },
        None => setting is None,
    }
}

/// The value of a variable that says something.
pub open spec fn value_of(variable: Option<String>) -> Option<Seq<char>> {
    match variable {
        Some(text) => if says_something(text@) {
            Some(text@)
        } else {
            None
        },
        None => None,
    }
}

proof fn lemma_variables(variable: Option<String>)
    ensures
        crate::manager::non_empty(crate::text::text_of(variable)) == value_of(variable),
{
    match variable {
        Some(text) => lemma_blank_says_nothing(text@),
        None => {},
    }
}

/// Every variable that says something sets what it stands for, to all that it says; one that does
/// not leaves it unset, or at what it is by default. A manager begins without a session.
pub proof fn law_variables_set_the_manager_up(env: Environment, manager: MatrixManager)
    requires
        call_ensures(MatrixManager::from_env, (&env,), manager),
    ensures
        setting_of(manager.default_homeserver, env.homeserver),
        setting_of(manager.env_user, env.user),
        setting_of(manager.env_password, env.password),
        setting_of(manager.env_access_token, env.access_token),
        setting_of(manager.env_user_id, env.user_id),
        setting_of(manager.env_device_id, env.device_id),
        manager.device_name@ == match value_of(env.device_name) {
            Some(name) => name,
            None => "matrix-mcp"@,
        },
        value_of(env.session_file) matches Some(path) ==> manager.session_path@ == path,
        value_of(env.store_path) matches Some(path) ==> manager.store_path@ == path,
        manager.session is None,
        !manager.pending_verification,
        !manager.pending_sas,
{
    lemma_variables(env.homeserver);
    lemma_variables(env.user);
    lemma_variables(env.password);
    lemma_variables(env.access_token);
    lemma_variables(env.user_id);
    lemma_variables(env.device_id);
    lemma_variables(env.device_name);
    lemma_variables(env.session_file);
    lemma_variables(env.store_path);
}

/// The session file and the store are where they are by default unless a variable says otherwise,
/// and a verification has as many seconds for a step as its variable says, or 35.
pub proof fn law_defaults_stand_in(
    env: Environment,
    manager: MatrixManager,
    state_home: Option<&str>,
    home: Option<&str>,
    session_path: String,
    path: &str,
    store_path: String,
    seconds: &str,
    number: Option<u64>,
)
    requires
        call_ensures(MatrixManager::from_env, (&env,), manager),
        taken_from(env.state_home, state_home),
        taken_from(env.home, home),
        call_ensures(default_session_path, (state_home, home), session_path),
        path@ == manager.session_path@,
        call_ensures(default_store_path, (path,), store_path),
        call_ensures(parse_number, (seconds,), number),
    ensures
        value_of(env.store_path) is None ==> manager.store_path@ == store_path@,
        value_of(env.session_file) is None ==> manager.session_path@ == session_path@,
        value_of(env.verification_timeout) is None ==> manager.verification_timeout == 35,
        value_of(env.verification_timeout) == Some(seconds@) ==> manager.verification_timeout
            == match number {
            Some(number) => number,
            None => 35,
        },
{
    lemma_variables(env.session_file);
    lemma_variables(env.store_path);
    lemma_variables(env.verification_timeout);
}

/// By default the session file is in a directory of its own below the state directory of the user,
/// or else below the place for it in the home directory, or else in the working directory. An empty
/// variable counts for nothing.
pub proof fn law_default_session_file(
    state_home: Option<&str>,
    home: Option<&str>,
    path: String,
    dir: Seq<char>,
)
    requires
        call_ensures(default_session_path, (state_home, home), path),
        dir.len() > 0,
        dir.last() != '/',
    ensures
        state_home matches Some(state) && (state@ == dir || state@ == dir + seq!['/'])
            ==> path@ == dir + "/matrix-mcp/session.json"@,
        (state_home is None || state_home->Some_0@.len() == 0) && (home matches Some(home) && (home@
            == dir || home@ == dir + seq!['/'])) ==> path@ == dir
            + "/.local/state/matrix-mcp/session.json"@,
        (state_home is None || state_home->Some_0@.len() == 0) && (home is None
            || home->Some_0@.len() == 0) ==> path@ == "matrix-mcp-session.json"@,
{
    reveal_strlit("/");
    reveal_strlit("matrix-mcp");
    reveal_strlit("session.json");
    reveal_strlit(".local");
    reveal_strlit("state");
    reveal_strlit("/matrix-mcp/session.json");
    reveal_strlit("/.local/state/matrix-mcp/session.json");
    if state_home matches Some(state) && (state@ == dir || state@ == dir + seq!['/']) {
        assert(path@ =~= dir + "/matrix-mcp/session.json"@);
    } else if (state_home is None || state_home->Some_0@.len() == 0) && (home matches Some(home) && (
    home@ == dir || home@ == dir + seq!['/'])) {
        assert(path@ =~= dir + "/.local/state/matrix-mcp/session.json"@);
    }
}

/// By default the store is a directory named `store` in the directory of the session file.
pub proof fn law_default_store(path: &str, store: String, dir: Seq<char>, name: Seq<char>)
    requires
        call_ensures(default_store_path, (path,), store),
        one_component(name),
        dir.len() > 0,
        dir.last() != '/',
        !(dir.len() > 1 && dir.last() == '.' && dir[dir.len() - 2] == '/'),
    ensures
        path@ == dir + seq!['/'] + name ==> store@ == dir + "/store"@,
        path@ == seq!['/'] + name ==> store@ == "/store"@,
        path@ == name ==> store@ == "./store"@,
{
    reveal_strlit("/");
    reveal_strlit(".");
    reveal_strlit("store");
    reveal_strlit("/store");
    reveal_strlit("./store");
    crate::path::law_parent_is_what_stands_before(dir, name);
    if path@ == dir + seq!['/'] + name {
        assert(store@ =~= dir + "/store"@);
    } else if path@ == seq!['/'] + name {
        assert(store@ =~= "/store"@);
    } else if path@ == name {
        assert(store@ =~= "./store"@);
    }
}

/// The parts of a path are found as they were put together: the directory and the name behind the
/// slash, and in the name the extension behind the dot.
pub proof fn law_parts_of_paths_are_found(
    path: &str,
    dir: Seq<char>,
    name: Seq<char>,
    above: Option<String>,
    found: Option<String>,
)
    requires
        call_ensures(parent, (path,), above),
        call_ensures(file_name, (path,), found),
        path@ == dir + seq!['/'] + name,
        one_component(name),
    ensures
        two_dots(name) ==> found is None,
        !two_dots(name) ==> found is Some && found->Some_0@ == name,
        dir.len() > 0 && dir.last() != '/' && !(dir.len() > 1 && dir.last() == '.' && dir[dir.len()
            - 2] == '/') ==> above is Some && above->Some_0@ == dir,
{
    crate::path::law_file_name_is_the_last_component(dir, name);
    if dir.len() > 0 && dir.last() != '/' && !(dir.len() > 1 && dir.last() == '.' && dir[dir.len()
        - 2] == '/') {
        crate::path::law_parent_is_what_stands_before(dir, name);
    }
}

/// A name ends in the extension that stands behind its last dot, and in none where there is no dot
/// behind its first character.
pub proof fn law_extensions_are_found(
    name: &str,
    stem: Seq<char>,
    ext: Seq<char>,
    found: Option<String>,
)
    requires
        call_ensures(extension, (name,), found),
    ensures
        name@ == stem + seq!['.'] + ext && stem.len() > 0 && (forall|i: int|
            0 <= i < ext.len() ==> #[trigger] ext[i] != '.') ==> found is Some && found->Some_0@
            == ext,
        (forall|i: int| 0 < i < name@.len() ==> #[trigger] name@[i] != '.') ==> found is None,
{
    crate::path::law_extension_is_behind_the_last_dot(stem, ext, name@);
}

/// Paths that are joined hold both, with exactly one slash between them unless the first ends in one.
pub proof fn law_paths_are_joined(base: &str, part: &str, path: String)
    requires
        call_ensures(join, (base, part), path),
    ensures
        base@.len() == 0 || (part@.len() > 0 && part@[0] == '/') ==> path@ == part@,
        base@.len() > 0 && (part@.len() == 0 || part@[0] != '/') ==> path@ == if base@.last()
            == '/' {
            base@ + part@
        } else {
            base@ + seq!['/'] + part@
        },
{
    reveal_strlit("/");
    assert("/"@ =~= seq!['/']);
}

/// An identifier that has no fault is kept as it is; one that has is refused with its kind, its
/// text and its fault.
pub open spec fn kept_or_refused(
    id: Result<String, String>,
    kind: Seq<char>,
    text: Seq<char>,
    fault: Option<Seq<char>>,
) -> bool {
    match fault {
        None => id matches Ok(kept) && kept@ == text,
        Some(fault) => refused(id, "invalid "@ + kind + " '"@ + text + "': "@ + fault),
    }
}

/// Identifiers are judged by nothing but their fault, and kept unchanged.
pub proof fn law_identifiers_are_kept(
    text: &str,
    event_id: Result<String, String>,
    user_id: Result<String, String>,
    room: Result<String, String>,
)
    requires
        call_ensures(parse_event_id, (text,), event_id),
        call_ensures(parse_user_id, (text,), user_id),
        call_ensures(parse_room_or_alias, (text,), room),
    ensures
        kept_or_refused(event_id, "event id"@, text@, event_id_fault(text@)),
        kept_or_refused(user_id, "user id"@, text@, user_id_fault(text@)),
        kept_or_refused(room, "room id or alias"@, text@, room_or_alias_fault(text@)),
        text@.len() == 0 ==> event_id is Err && user_id is Err && room is Err,
        text@.len() > 0 && text@[0] != '$' ==> event_id is Err,
        text@.len() > 0 && text@[0] != '@' ==> user_id is Err,
        text@.len() > 0 && text@[0] != '!' && text@[0] != '#' ==> room is Err,
        text@.len() > 0 && text@[0] == '$' && !text@.contains(':') ==> event_id is Ok,
        !text@.contains(':') ==> user_id is Err,
        text@.len() > 0 && text@[0] == '!' ==> (room is Ok <==> !text@.contains('\0')),
{
}

/// An identifier with a local part, a colon and the name of a host is taken: for an event behind a
/// `$`, for a user behind an `@`, and for a room behind a `#`.
pub proof fn law_identifiers_at_a_host_are_taken(
    sigil: char,
    local: Seq<char>,
    host: Seq<char>,
    text: &str,
    event_id: Result<String, String>,
    user_id: Result<String, String>,
    room: Result<String, String>,
)
    requires
        call_ensures(parse_event_id, (text,), event_id),
        call_ensures(parse_user_id, (text,), user_id),
        call_ensures(parse_room_or_alias, (text,), room),
        text@ == (seq![sigil] + local).push(':') + host,
        sigil == '$' || sigil == '@' || sigil == '#',
        !local.contains(':'),
        !local.contains('\0'),
        host.len() > 0,
        forall|i: int|
            0 <= i < host.len() ==> ('a' <= #[trigger] host[i] <= 'z') || ('A' <= host[i] <= 'Z')
                || ('0' <= host[i] <= '9') || host[i] == '-' || host[i] == '.',
    ensures
        sigil == '$' ==> event_id is Ok,
        sigil == '@' ==> user_id is Ok,
        sigil == '#' ==> room is Ok,
{
    let front = seq![sigil] + local;
    assert(!front.contains(':')) by {
        if front.contains(':') {
            let i = choose|i: int| 0 <= i < front.len() && front[i] == ':';
            assert(i > 0);
            assert(local[i - 1] == ':');
        }
    }
    crate::ids::law_local_part_and_host(front, host);
    assert(text@[0] == sigil);
    assert(!text@.contains('\0')) by {
        if text@.contains('\0') {
            let i = choose|i: int| 0 <= i < text@.len() && text@[i] == '\0';
            if i == 0 {
            } else if i <= local.len() {
                assert(local[i - 1] == '\0');
            } else if i == local.len() + 1 {
            } else {
                assert(host[i - local.len() - 2] == '\0');
            }
        }
    }
}

/// A room is resolved exactly if its id begins with `!` and holds no NUL character, and the client
/// knows it; otherwise the error says which of these it is.
pub proof fn law_known_rooms_are_resolved(room_id: &str, found: bool, id: Result<String, String>)
    requires
        call_ensures(resolve_room, (room_id, found), id),
    ensures
        ({
            let text = room_id@;
            if text.len() == 0 || text[0] != '!' {
                refused(
                    id,
                    "invalid "@ + "room id"@ + " '"@ + text + "': "@
                        + "leading sigil is incorrect or missing"@,
                )
            } else if text.contains('\0') {
                refused(
                    id,
                    "invalid "@ + "room id"@ + " '"@ + text + "': "@
                        + "identifier contains invalid characters"@,
                )
            } else if !found {
                refused(
                    id,
                    "room "@ + text
                        + " not found - are you joined? Try the `join_room` or `sync` tool"@,
                )
            } else {
                id matches Ok(kept) && kept@ == text
            }
        }),
{
}

/// A text that was parsed is handed on, and a fault is reported with the kind and the whole text.
pub proof fn law_faults_are_reported_whole(
    kind: &str,
    text: &str,
    parsed: Result<String, String>,
    id: Result<String, String>,
)
    requires
        call_ensures(judged, (kind, text, parsed), id),
    ensures
        match parsed {
            Ok(kept) => id == Ok::<String, String>(kept),
            Err(fault) => refused(id, "invalid "@ + kind@ + " '"@ + text@ + "': "@ + fault@),
        },
{
}

/// A JSON document is what its parts are: a list has all of its items, in their order, and an
/// object all of its members, with their names.
pub proof fn law_documents_are_their_parts(
    items: Vec<Json>,
    members: Vec<(String, Json)>,
    i: int,
    text: String,
    b: bool,
    n: u64,
)
    ensures
        Json::Null@ is Null,
        Json::Bool(b)@ == JsonView::Bool(b),
        Json::Count(n)@ == JsonView::Count(n as nat),
        Json::Text(text)@ == JsonView::Text(text@),
        Json::Raw(text)@ == JsonView::Raw(text@),
        Json::List(items)@ is List,
        Json::List(items)@->List_0.len() == items@.len(),
        0 <= i < items@.len() ==> Json::List(items)@->List_0[i] == items@[i]@,
        Json::Object(members)@ is Object,
        Json::Object(members)@->Object_0.len() == members@.len(),
        0 <= i < members@.len() ==> Json::Object(members)@->Object_0[i] == (
            members@[i].0@,
            members@[i].1@,
        ),
{
}

/// A document is built of what it is given: values as they are, null for what is not there, and
/// members in the order in which they were added.
pub proof fn law_documents_are_built_of_what_is_given(
    text: &str,
    written: Json,
    maybe: Option<String>,
    optional: Json,
    flag: Option<bool>,
    optional_flag: Json,
    items: Vec<Json>,
    list: Json,
    fields: Fields,
    key: &str,
    value: Json,
    more: Fields,
    done: Json,
    empty: Fields,
)
    requires
        call_ensures(Json::text, (text,), written),
        call_ensures(Json::optional, (&maybe,), optional),
        call_ensures(Json::optional_bool, (flag,), optional_flag),
        call_ensures(Json::list, (items,), list),
        call_ensures(Fields::with, (fields, key, value), more),
        call_ensures(Fields::done, (fields,), done),
        call_ensures(Fields::new, (), empty),
    ensures
        written matches Json::Text(s) && s@ == text@,
        optional@ == told(maybe),
        flag matches Some(b) ==> optional_flag@ == JsonView::Bool(b),
        flag is None ==> optional_flag@ is Null,
        list == Json::List(items),
        more.members@.len() == fields.members@.len() + 1,
        forall|i: int|
            0 <= i < fields.members@.len() ==> #[trigger] more.members@[i] == fields.members@[i],
        more.members@[fields.members@.len() as int].0@ == key@,
        more.members@[fields.members@.len() as int].1 == value,
        done == Json::Object(fields.members),
        empty.members@.len() == 0,
{
    assert forall|i: int| 0 <= i < fields.members@.len() implies #[trigger] more.members@[i]
        == fields.members@[i] by {
        assert(more.members@.drop_last()[i] == more.members@[i]);
    }
    assert(empty@.len() == empty.members@.len());
}

/// A sync is a success exactly if it is done; otherwise its error says whether it ran out of time,
/// and why.
pub proof fn law_syncs_end(
    outcome: SyncOutcome,
    done: Result<(), String>,
    state: BackupState,
    flush: Result<bool, String>,
    pushes: bool,
)
    requires
        call_ensures(sync_once_with, (outcome,), done),
        call_ensures(synced, (outcome, state), flush),
        call_ensures(flush_key_backup, (state,), pushes),
    ensures
        match outcome {
            SyncOutcome::Done => done is Ok && flush == Ok::<bool, String>(
                state == BackupState::Enabled,
            ),
            SyncOutcome::TimedOut(cause) => refused(done, "sync timed out"@ + ": "@ + cause@)
                && refused(flush, "sync timed out"@ + ": "@ + cause@),
            SyncOutcome::Failed(cause) => refused(done, "sync failed"@ + ": "@ + cause@) && refused(
                flush,
                "sync failed"@ + ": "@ + cause@,
            ),
        },
        pushes == (state == BackupState::Enabled),
{
}

/// A sync that is needed stops what follows exactly if it fails; one that is only wished for never
/// does.
pub proof fn law_only_needed_syncs_stop(
    outcome: Result<(), String>,
    wished: Result<(), String>,
    needed: Result<(), String>,
)
    requires
        call_ensures(settled, (SyncNeed::BestEffort, outcome), wished),
        call_ensures(settled, (SyncNeed::Required, outcome), needed),
    ensures
        wished is Ok,
        needed == outcome,
{
}

/// Whoever asks for the session gets it, or the advice to log in.
pub proof fn law_sessions_are_handed_out(
    manager: MatrixManager,
    session: Result<&Session, String>,
    ready: Result<(), String>,
)
    requires
        call_ensures(MatrixManager::connected_client, (&manager,), session),
        call_ensures(MatrixManager::sync, (&manager,), ready),
    ensures
        match manager.session {
            Some(held) => ready is Ok && (session matches Ok(given) && *given == held),
            None => refused(
                ready,
                "not logged in - use the `login` tool or set the MATRIX_* environment variables"@,
            ) && refused(
                session,
                "not logged in - use the `login` tool or set the MATRIX_* environment variables"@,
            ),
        },
{
}

/// How long is waited for what, in seconds: a step of a verification is over well within a minute,
/// and only the browser flow, which a person completes, may take longer.
pub proof fn law_waits_are_bounded()
    ensures
        crate::manager::DEFAULT_VERIFICATION_TIMEOUT == 35,
        crate::manager::SYNC_TIMEOUT == 30,
        crate::manager::BACKUP_UPLOAD_TIMEOUT == 30,
        crate::manager::SECRET_GOSSIP_BUDGET == 15,
        crate::manager::VERIFICATION_SYNC_POLL == 2,
        crate::manager::SSO_LOGIN_TIMEOUT == 300,
        crate::manager::DEFAULT_VERIFICATION_TIMEOUT + crate::manager::SECRET_GOSSIP_BUDGET < 60,
{
}

} // verus!
