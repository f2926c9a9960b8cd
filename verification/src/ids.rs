//! Matrix identifiers: event, user and room ids, and room aliases.
//!
//! The identifier grammar is that of the `ruma` crate, which `matrix-sdk` re-exports.

use vstd::prelude::*;

use crate::text::first_of;

verus! {

/// What `ruma` says of an identifier that does not begin with the character of its kind.
pub open spec fn wrong_sigil() -> Seq<char> {
    "leading sigil is incorrect or missing"@
}

/// What `ruma` says of an identifier that lacks the colon before its server name.
pub open spec fn missing_colon() -> Seq<char> {
    "required colon is missing"@
}

/// What `ruma` says of an identifier with characters that its kind rules out.
pub open spec fn bad_characters() -> Seq<char> {
    "identifier contains invalid characters"@
}

pub open spec fn begins_with_sigil(text: Seq<char>, sigil: char) -> bool {
    text.len() > 0 && text[0] == sigil
}

/// Whether a character can stand in an ordinary host name.
pub open spec fn host_char(c: char) -> bool {
    ('a' <= c <= 'z') || ('A' <= c <= 'Z') || ('0' <= c <= '9') || c == '-' || c == '.'
}

/// Whether an identifier names, behind its first colon, a server that is an ordinary host name
/// without a port.
pub open spec fn at_plain_host(text: Seq<char>) -> bool {
    exists|colon: int| #[trigger] colon_before_host(text, colon)
}

pub open spec fn colon_before_host(text: Seq<char>, colon: int) -> bool {
    &&& 0 <= colon < text.len() - 1
    &&& text[colon] == ':'
    &&& forall|i: int| 0 <= i < colon ==> text[i] != ':'
    &&& forall|i: int| colon < i < text.len() ==> host_char(#[trigger] text[i])
}

/// What is wrong with a text as an event id, if anything, according to `ruma`.
pub uninterp spec fn event_id_fault(text: Seq<char>) -> Option<Seq<char>>;

/// What is wrong with a text as a user id, if anything, according to `ruma`.
pub uninterp spec fn user_id_fault(text: Seq<char>) -> Option<Seq<char>>;

/// What is wrong with a text as a room id or room alias, if anything, according to `ruma`.
pub uninterp spec fn room_or_alias_fault(text: Seq<char>) -> Option<Seq<char>>;

/// What is wrong with a text as a room id, if anything: a room id begins with `!` and holds no NUL
/// character.
pub open spec fn room_id_fault(text: Seq<char>) -> Option<Seq<char>> {
    if !begins_with_sigil(text, '!') {
        Some(wrong_sigil())
    } else if text.contains('\0') {
        Some(bad_characters())
    } else {
        None
    }
}

/// Whether a parse is refused, for the given fault.
pub open spec fn refused_for(id: Result<String, String>, fault: Seq<char>) -> bool {
    match id {
        Ok(_) => false,
        Err(message) => message@ == fault,
    }
}

/// `ruma::EventId::parse`. It takes a text exactly when it finds no fault with it, and then keeps
/// it unchanged; otherwise it says what the fault is. A text that does not begin with `$` is
/// refused for that; one that does and holds no colon is taken. Of a text with a colon, it judges
/// the server name behind the first one: it takes an ordinary host name, and what else it takes is
/// not said here.
#[verifier::external_body]
fn ruma_event_id(text: &str) -> (id: Result<String, String>)
    ensures
        match id {
            Ok(id) => event_id_fault(text@) is None && id@ == text@,
            Err(fault) => event_id_fault(text@) == Some(fault@),
        },
        !begins_with_sigil(text@, '$') ==> refused_for(id, wrong_sigil()),
        begins_with_sigil(text@, '$') && !text@.contains(':') ==> id is Ok,
        begins_with_sigil(text@, '$') && at_plain_host(text@) ==> id is Ok,
{
    match matrix_sdk::ruma::EventId::parse(text) {
        Ok(id) => Ok(id.to_string()),
        Err(e) => Err(e.to_string()),
    }
}

/// `ruma::UserId::parse`. It takes a text exactly when it finds no fault with it, and then keeps
/// it unchanged; otherwise it says what the fault is. A text that does not begin with `@` is
/// refused for that, and one without a colon for lacking it. One with an ordinary host name behind
/// its first colon, and without a NUL character, is taken; what else is taken is not said here.
#[verifier::external_body]
fn ruma_user_id(text: &str) -> (id: Result<String, String>)
    ensures
        match id {
            Ok(id) => user_id_fault(text@) is None && id@ == text@,
            Err(fault) => user_id_fault(text@) == Some(fault@),
        },
        !begins_with_sigil(text@, '@') ==> refused_for(id, wrong_sigil()),
        begins_with_sigil(text@, '@') && !text@.contains(':') ==> refused_for(
            id,
            missing_colon(),
        ),
        begins_with_sigil(text@, '@') && at_plain_host(text@) && !text@.contains('\0') ==> id is Ok,
{
    match matrix_sdk::ruma::UserId::parse(text) {
        Ok(id) => Ok(id.to_string()),
        Err(e) => Err(e.to_string()),
    }
}

/// `ruma::RoomId::parse`. It takes a text that begins with `!` and holds no NUL character, and
/// keeps it unchanged; otherwise it says which of the two is wrong, the first one first.
#[verifier::external_body]
fn ruma_room_id(text: &str) -> (id: Result<String, String>)
    ensures
        match id {
            Ok(id) => room_id_fault(text@) is None && id@ == text@,
            Err(fault) => room_id_fault(text@) == Some(fault@),
        },
{
    match matrix_sdk::ruma::RoomId::parse(text) {
        Ok(id) => Ok(id.to_string()),
        Err(e) => Err(e.to_string()),
    }
}

/// `ruma::RoomOrAliasId::parse`. It takes a text exactly when it finds no fault with it, and then
/// keeps it unchanged; otherwise it says what the fault is. A text that begins with `!` is judged
/// as a room id. One that begins with `#` is refused if it lacks a colon, and taken if it has an
/// ordinary host name behind its first colon and holds no NUL character; what else is taken is not
/// said here. Any other text is refused for its beginning.
#[verifier::external_body]
fn ruma_room_or_alias(text: &str) -> (id: Result<String, String>)
    ensures
        match id {
            Ok(id) => room_or_alias_fault(text@) is None && id@ == text@,
            Err(fault) => room_or_alias_fault(text@) == Some(fault@),
        },
        begins_with_sigil(text@, '!') ==> match id {
            Ok(_) => room_id_fault(text@) is None,
            Err(fault) => room_id_fault(text@) == Some(fault@),
        },
        begins_with_sigil(text@, '#') && !text@.contains(':') ==> refused_for(
            id,
            missing_colon(),
        ),
        begins_with_sigil(text@, '#') && at_plain_host(text@) && !text@.contains('\0') ==> id is Ok,
        !begins_with_sigil(text@, '!') && !begins_with_sigil(text@, '#') ==> refused_for(
            id,
            wrong_sigil(),
        ),
{
    match matrix_sdk::ruma::RoomOrAliasId::parse(text) {
        Ok(id) => Ok(id.to_string()),
        Err(e) => Err(e.to_string()),
    }
}

/// `invalid <kind> '<text>': <fault>`, for a text that has a fault.
pub open spec fn invalid_id(
    kind: Seq<char>,
    text: Seq<char>,
    fault: Option<Seq<char>>,
) -> Option<Seq<char>> {
    match fault {
        Some(fault) => Some("invalid "@ + kind + " '"@ + text + "': "@ + fault),
        None => None,
    }
}

/// Takes an identifier of the given kind that was parsed, or reports what is wrong with the text.
pub fn judged(kind: &str, text: &str, parsed: Result<String, String>) -> (id: Result<String, String>)
    ensures
        match parsed {
            Ok(kept) => id == Ok::<String, String>(kept),
            Err(fault) => id matches Err(message) && Some(message@) == invalid_id(
                kind@,
                text@,
                Some(fault@),
            ),
        },
{
    match parsed {
        Ok(id) => Ok(id),
        Err(fault) => Err(
            "invalid ".to_owned().concat(kind).concat(" '").concat(text).concat("': ").concat(
                &fault,
            ),
        ),
    }
}

/// The error, if any, of a text that is to be an event id.
pub open spec fn event_id_error(text: Seq<char>) -> Option<Seq<char>> {
    invalid_id("event id"@, text, event_id_fault(text))
}

/// The error, if any, of a text that is to be a user id.
pub open spec fn user_id_error(text: Seq<char>) -> Option<Seq<char>> {
    invalid_id("user id"@, text, user_id_fault(text))
}

/// The error, if any, of a text that is to be a room id or alias.
pub open spec fn room_or_alias_error(text: Seq<char>) -> Option<Seq<char>> {
    invalid_id("room id or alias"@, text, room_or_alias_fault(text))
}

/// The error, if any, of a room id that is to name a room known to the client.
pub open spec fn room_error(room_id: Seq<char>, found: bool) -> Option<Seq<char>> {
    first_of(
        invalid_id("room id"@, room_id, room_id_fault(room_id)),
        if found {
            None
        } else {
            Some(
                "room "@ + room_id
                    + " not found - are you joined? Try the `join_room` or `sync` tool"@,
            )
        },
    )
}

/// Says of a parse outcome that it is the text itself, or the given error.
pub open spec fn text_or_error(
    outcome: Result<String, String>,
    text: Seq<char>,
    error: Option<Seq<char>>,
) -> bool {
    match outcome {
        Ok(kept) => error is None && kept@ == text,
        Err(message) => error == Some(message@),
    }
}

/// Parse an event id, producing a friendly error on failure.
pub fn parse_event_id(event_id: &str) -> (id: Result<String, String>)
    ensures
        text_or_error(id, event_id@, event_id_error(event_id@)),
        begins_with_sigil(event_id@, '$') && !event_id@.contains(':') ==> id is Ok,
        begins_with_sigil(event_id@, '$') && at_plain_host(event_id@) ==> id is Ok,
        !begins_with_sigil(event_id@, '$') ==> id is Err,
{
    judged("event id", event_id, ruma_event_id(event_id))
}

/// Parse a user id, producing a friendly error on failure.
pub fn parse_user_id(user_id: &str) -> (id: Result<String, String>)
    ensures
        text_or_error(id, user_id@, user_id_error(user_id@)),
        !begins_with_sigil(user_id@, '@') || !user_id@.contains(':') ==> id is Err,
        begins_with_sigil(user_id@, '@') && at_plain_host(user_id@) && !user_id@.contains('\0')
            ==> id is Ok,
{
    judged("user id", user_id, ruma_user_id(user_id))
}

/// Parse a room id or a room alias, producing a friendly error on failure.
pub fn parse_room_or_alias(room: &str) -> (id: Result<String, String>)
    ensures
        text_or_error(id, room@, room_or_alias_error(room@)),
        begins_with_sigil(room@, '!') ==> (id is Ok <==> room_id_fault(room@) is None),
        begins_with_sigil(room@, '#') && at_plain_host(room@) && !room@.contains('\0') ==> id is Ok,
        !begins_with_sigil(room@, '!') && !begins_with_sigil(room@, '#') ==> id is Err,
{
    judged("room id or alias", room, ruma_room_or_alias(room))
}

/// Parse a room id and make sure that it names a room that the client knows, which `found` says of
/// a room id that is one.
pub fn resolve_room(room_id: &str, found: bool) -> (id: Result<String, String>)
    ensures
        text_or_error(id, room_id@, room_error(room_id@, found)),
{
    match judged("room id", room_id, ruma_room_id(room_id)) {
        Ok(id) => {
            if found {
                Ok(id)
            } else {
                Err(
                    "room ".to_owned().concat(room_id).concat(
                        " not found - are you joined? Try the `join_room` or `sync` tool",
                    ),
                )
            }
        },
        Err(message) => Err(message),
    }
}

/// An identifier that is put together from a local part without a colon, a colon and an ordinary
/// host name is at that host.
pub proof fn law_local_part_and_host(local: Seq<char>, host: Seq<char>)
    requires
        !local.contains(':'),
        host.len() > 0,
        forall|i: int| 0 <= i < host.len() ==> host_char(#[trigger] host[i]),
    ensures
        at_plain_host(local.push(':') + host),
{
    let text = local.push(':') + host;
    let colon = local.len() as int;
    assert forall|i: int| 0 <= i < colon implies text[i] != ':' by {
        assert(local.contains(local[i]));
    }
    assert forall|i: int| colon < i < text.len() implies host_char(#[trigger] text[i]) by {
        assert(text[i] == host[i - colon - 1]);
    }
    assert(colon_before_host(text, colon));
}

} // verus!
