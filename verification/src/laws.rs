//! What the operations are for: how their results hang together with what they are given.
//!
//! The laws here speak of calls. `call_ensures(f, arguments, result)` says that `f`, called with the
//! arguments, may give the result; what a law then says of the result, it says in terms of the
//! arguments themselves.

use vstd::prelude::*;

use crate::json::{JsonView, MemberView};

pub mod answers;
pub mod reading;
pub mod requests;
pub mod sessions;
pub mod texts;
pub mod verifying;

verus! {

/// Whether a JSON object has so many members.
pub open spec fn has_members(json: JsonView, count: int) -> bool {
    json matches JsonView::Object(members) && members.len() == count
}

/// Whether a JSON object has the given member at the given place.
pub open spec fn has_member(json: JsonView, place: int, key: Seq<char>, value: JsonView) -> bool {
    json matches JsonView::Object(members) && 0 <= place < members.len() && members[place] == (
        key,
        value,
    )
}

/// A text in JSON, or null where there is none.
pub open spec fn told(text: Option<String>) -> JsonView {
    match text {
        Some(text) => JsonView::Text(text@),
        None => JsonView::Null,
    }
}

/// Whether two optional strings hold the same text, or neither is there.
pub open spec fn alike(a: Option<String>, b: Option<String>) -> bool {
    match (a, b) {
        (Some(a), Some(b)) => a@ == b@,
        (None, None) => true,
        _ => false,
    }
}

/// Whether an optional string holds the text of an optional slice, or neither is there.
pub open spec fn taken_from(a: Option<String>, b: Option<&str>) -> bool {
    match (a, b) {
        (Some(a), Some(b)) => a@ == b@,
        (None, None) => true,
        _ => false,
    }
}

/// Whether an optional string is the given text, or neither is there.
pub open spec fn spells(a: Option<String>, b: Option<Seq<char>>) -> bool {
    match (a, b) {
        (Some(a), Some(b)) => a@ == b,
        (None, None) => true,
        _ => false,
    }
}

/// Whether an outcome is a failure with the given message.
pub open spec fn refused<T>(outcome: Result<T, String>, message: Seq<char>) -> bool {
    outcome matches Err(text) && text@ == message
}

/// Whether the member at a place is the first with its name.
pub open spec fn first_named(members: Seq<MemberView>, name: Seq<char>, place: int) -> bool {
    &&& 0 <= place < members.len()
    &&& members[place].key == name
    &&& forall|i: int| 0 <= i < place ==> (#[trigger] members[i]).key != name
}

/// Whether no member has a name.
pub open spec fn unnamed(members: Seq<MemberView>, name: Seq<char>) -> bool {
    forall|i: int| 0 <= i < members.len() ==> (#[trigger] members[i]).key != name
}

/// What is said to whoever needs a session and has none.
pub open spec fn advice_to_log_in() -> Seq<char> {
    "not logged in - use the `login` tool or set the MATRIX_* environment variables"@
}

/// The error for an identifier of a kind that has a fault.
pub open spec fn misspelt(kind: Seq<char>, text: Seq<char>, fault: Option<Seq<char>>) -> Option<
    Seq<char>,
> {
    match fault {
        Some(fault) => Some("invalid "@ + kind + " '"@ + text + "': "@ + fault),
        None => None,
    }
}

/// Why nothing can be done in a room, if so: without a session; for an id that does not begin with
/// `!`, or that holds a NUL character; and for a room that the client does not know.
pub open spec fn kept_out(session: bool, room_id: Seq<char>, found: bool) -> Option<Seq<char>> {
    if !session {
        Some(advice_to_log_in())
    } else if room_id.len() == 0 || room_id[0] != '!' {
        misspelt("room id"@, room_id, Some("leading sigil is incorrect or missing"@))
    } else if room_id.contains('\0') {
        misspelt("room id"@, room_id, Some("identifier contains invalid characters"@))
    } else if !found {
        Some(
            "room "@ + room_id + " not found - are you joined? Try the `join_room` or `sync` tool"@,
        )
    } else {
        None
    }
}

/// Why nothing can be done, if so, where two things can stand against it: the first of them.
pub open spec fn or_else(first: Option<Seq<char>>, second: Option<Seq<char>>) -> Option<Seq<char>> {
    match first {
        Some(message) => Some(message),
        None => second,
    }
}

/// Whether an outcome is a success exactly if nothing stands against it, and otherwise a failure
/// with what does.
pub open spec fn done_unless<T>(outcome: Result<T, String>, hindrance: Option<Seq<char>>) -> bool {
    match hindrance {
        Some(message) => refused(outcome, message),
        None => outcome is Ok,
    }
}

} // verus!
