//! Rooms and their members.

use vstd::prelude::*;

use crate::ids::{
    parse_room_or_alias, parse_user_id, room_or_alias_error, text_or_error, user_id_error,
};
use crate::json::{no_members, optional_json, views, Fields, Json, JsonView};
use crate::manager::MatrixManager;
use crate::outcome::{fails_with, step_error};
use crate::sync::SyncNeed;
use crate::text::{
    first_of, in_context, owned, slice_text, text_of, texts_of, with_context,
};

verus! {

/// A joined room.
pub struct RoomSummary {
    pub room_id: String,
    pub name: Option<String>,
    /// The name that the client last computed for a room without one.
    pub cached_name: Option<String>,
    pub topic: Option<String>,
    pub encryption: String,
}

/// A member of a room.
pub struct MemberSummary {
    pub user_id: String,
    pub name: String,
    pub display_name: Option<String>,
    pub membership: String,
    pub power_level: String,
}

pub open spec fn room_json(room: RoomSummary) -> JsonView {
    JsonView::Object(
        no_members().push(("room_id"@, JsonView::Text(room.room_id@))).push(
            (
                "name"@,
                optional_json(first_of(text_of(room.name), text_of(room.cached_name))),
            ),
        ).push(("topic"@, optional_json(text_of(room.topic)))).push(
            ("encryption"@, JsonView::Text(room.encryption@)),
        ),
    )
}

pub open spec fn rooms_json(rooms: Seq<RoomSummary>) -> JsonView {
    JsonView::Object(
        no_members().push(("count"@, JsonView::Count(rooms.len()))).push(
            (
                "rooms"@,
                JsonView::List(rooms.map_values(|room: RoomSummary| room_json(room))),
            ),
        ),
    )
}

pub open spec fn member_json(member: MemberSummary) -> JsonView {
    JsonView::Object(
        no_members().push(("user_id"@, JsonView::Text(member.user_id@))).push(
            ("name"@, JsonView::Text(member.name@)),
        ).push(("display_name"@, optional_json(text_of(member.display_name)))).push(
            ("membership"@, JsonView::Text(member.membership@)),
        ).push(("power_level"@, JsonView::Text(member.power_level@))),
    )
}

pub open spec fn members_json(room_id: Seq<char>, members: Seq<MemberSummary>) -> JsonView {
    JsonView::Object(
        no_members().push(("room_id"@, JsonView::Text(room_id))).push(
            ("count"@, JsonView::Count(members.len())),
        ).push(
            (
                "members"@,
                JsonView::List(members.map_values(|member: MemberSummary| member_json(member))),
            ),
        ),
    )
}

/// Reports the joined rooms. A room without a name goes by the one that the client computed for
/// it.
pub fn rooms_listed(rooms: &Vec<RoomSummary>) -> (reply: Json)
    ensures
        reply@ == rooms_json(rooms@),
{
    let mut items: Vec<Json> = Vec::new();
    let mut i: usize = 0;
    while i < rooms.len()
        invariant
            i <= rooms.len(),
            items.len() == i,
            forall|k: int| 0 <= k < i ==> (#[trigger] items@[k])@ == room_json(rooms@[k]),
        decreases rooms.len() - i,
    {
        let room = &rooms[i];
        let name = match &room.name {
            Some(_) => Json::optional(&room.name),
            None => Json::optional(&room.cached_name),
        };
        items.push(
            Fields::new().with("room_id", Json::text(&room.room_id)).with("name", name).with(
                "topic",
                Json::optional(&room.topic),
            ).with("encryption", Json::text(&room.encryption)).done(),
        );
        i = i + 1;
    }
    proof {
        assert(views(items@) =~= rooms@.map_values(|room: RoomSummary| room_json(room)));
    }
    Fields::new().with("count", Json::Count(rooms.len() as u64)).with(
        "rooms",
        Json::list(items),
    ).done()
}

/// Reports the members of a room that were fetched.
pub fn members_listed(room_id: &str, outcome: Result<Vec<MemberSummary>, String>) -> (reply: Result<
    Json,
    String,
>)
    ensures
        fails_with(reply, step_error(outcome, "failed to fetch room members"@)),
        reply matches Ok(reply) ==> outcome is Ok && reply@ == members_json(
            room_id@,
            outcome->Ok_0@,
        ),
{
    let members = match outcome {
        Ok(members) => members,
        Err(cause) => return Err(with_context("failed to fetch room members", &cause)),
    };
    let mut items: Vec<Json> = Vec::new();
    let mut i: usize = 0;
    while i < members.len()
        invariant
            i <= members.len(),
            items.len() == i,
            forall|k: int| 0 <= k < i ==> (#[trigger] items@[k])@ == member_json(members@[k]),
        decreases members.len() - i,
    {
        let member = &members[i];
        items.push(
            Fields::new().with("user_id", Json::text(&member.user_id)).with(
                "name",
                Json::text(&member.name),
            ).with("display_name", Json::optional(&member.display_name)).with(
                "membership",
                Json::text(&member.membership),
            ).with("power_level", Json::text(&member.power_level)).done(),
        );
        i = i + 1;
    }
    proof {
        assert(views(items@) =~= members@.map_values(|m: MemberSummary| member_json(m)));
        assert(members@.map_values(|m: MemberSummary| member_json(m)) =~= members@.map_values(
            |member: MemberSummary| member_json(member),
        ));
    }
    Ok(
        Fields::new().with("room_id", Json::text(room_id)).with(
            "count",
            Json::Count(members.len() as u64),
        ).with("members", Json::list(items)).done(),
    )
}

/// Who can find a new room.
#[derive(Clone, Copy, PartialEq, Eq, Debug, Structural)]
pub enum Visibility {
    Public,
    Private,
}

/// Who can join a new room.
#[derive(Clone, Copy, PartialEq, Eq, Debug, Structural)]
pub enum RoomPreset {
    PublicChat,
    PrivateChat,
}

/// A room to create.
pub struct CreateRoomRequest {
    pub name: Option<String>,
    pub topic: Option<String>,
    pub invite: Vec<String>,
    pub is_direct: bool,
    pub visibility: Visibility,
    pub preset: RoomPreset,
    /// Whether the room starts out with end-to-end encryption.
    pub encrypted: bool,
}

/// The error of the first user id, from the given place on, that is not one.
pub open spec fn invite_error(users: Seq<Seq<char>>, from: int) -> Option<Seq<char>>
    decreases users.len() - from,
{
    if from < 0 || from >= users.len() {
        None
    } else {
        first_of(user_id_error(users[from]), invite_error(users, from + 1))
    }
}

/// Parses the user ids to invite, in their order.
fn parse_invites(users: &Vec<String>) -> (parsed: Result<Vec<String>, String>)
    ensures
        fails_with(parsed, invite_error(texts_of(users@), 0)),
        parsed matches Ok(parsed) ==> texts_of(parsed@) == texts_of(users@),
{
    let mut parsed: Vec<String> = Vec::new();
    let ghost texts = texts_of(users@);
    let mut i: usize = 0;
    while i < users.len()
        invariant
            i <= users.len(),
            parsed.len() == i,
            texts == texts_of(users@),
            invite_error(texts, 0) == invite_error(texts, i as int),
            forall|k: int| 0 <= k < i ==> (#[trigger] parsed@[k])@ == users@[k]@,
        decreases users.len() - i,
    {
        match parse_user_id(&users[i]) {
            Ok(user_id) => parsed.push(user_id),
            Err(message) => return Err(message),
        }
        i = i + 1;
    }
    proof {
        assert(texts_of(parsed@) =~= texts_of(users@));
    }
    Ok(parsed)
}

/// A member of a room on whom an action is taken.
pub struct MemberRequest {
    pub room_id: String,
    pub user_id: String,
    pub reason: Option<String>,
}

/// A room to update. What is not given stays as it is.
pub struct UpdateRequest {
    pub room_id: String,
    pub name: Option<String>,
    pub topic: Option<String>,
}

/// How an update of a room failed.
pub enum UpdateFailure {
    Name(String),
    Topic(String),
}

pub open spec fn update_error(outcome: Result<(), UpdateFailure>) -> Option<Seq<char>> {
    match outcome {
        Ok(_) => None,
        Err(UpdateFailure::Name(cause)) => Some(in_context("failed to set room name"@, cause@)),
        Err(UpdateFailure::Topic(cause)) => Some(in_context("failed to set room topic"@, cause@)),
    }
}

/// The direct-message room with a user.
pub enum DirectRoom {
    /// There is one already.
    Existing(String),
    /// One is to be created with this user.
    Create(String),
}

/// A direct-message room that was created.
pub struct CreatedRoom {
    pub room_id: String,
    /// The sync that follows. The room is marked as one for direct messages by a write of account
    /// data, which the client only sees after a sync: without one, the room would not be found by
    /// the next call, and that would create another.
    pub need: SyncNeed,
}

/// Takes note of the direct-message room that was to be created.
pub fn on_dm_created(outcome: Result<String, String>) -> (room: Result<CreatedRoom, String>)
    ensures
        fails_with(room, step_error(outcome, "failed to create DM room"@)),
        room matches Ok(room) ==> outcome == Ok::<String, String>(room.room_id) && room.need
            == SyncNeed::BestEffort,
{
    match outcome {
        Ok(room_id) => Ok(CreatedRoom { room_id, need: SyncNeed::BestEffort }),
        Err(cause) => Err(with_context("failed to create DM room", &cause)),
    }
}

impl MatrixManager {
    /// The error of an action on a member of a room, if it cannot begin.
    pub open spec fn member_operation_error(
        self,
        room_id: Seq<char>,
        room_found: bool,
        user_id: Seq<char>,
    ) -> Option<Seq<char>> {
        first_of(self.room_operation_error(room_id, room_found), user_id_error(user_id))
    }

    /// Whether a request is for an action on a member of a room.
    pub open spec fn targets(
        request: MemberRequest,
        room_id: Seq<char>,
        user_id: Seq<char>,
        reason: Option<Seq<char>>,
    ) -> bool {
        &&& request.room_id@ == room_id
        &&& request.user_id@ == user_id
        &&& text_of(request.reason) == reason
    }

    fn member_operation(
        &self,
        room_id: &str,
        room_found: bool,
        user_id: &str,
        reason: Option<&str>,
    ) -> (request: Result<MemberRequest, String>)
        ensures
            fails_with(request, self.member_operation_error(room_id@, room_found, user_id@)),
            request matches Ok(request) ==> Self::targets(
                request,
                room_id@,
                user_id@,
                slice_text(reason),
            ),
    {
        let room_id = match self.room_operation(room_id, room_found) {
            Ok(room_id) => room_id,
            Err(message) => return Err(message),
        };
        match parse_user_id(user_id) {
            Ok(user_id) => Ok(MemberRequest { room_id, user_id, reason: owned(reason) }),
            Err(message) => Err(message),
        }
    }

    /// List the rooms the account has joined, if there is an account to list them of. A sync comes
    /// first; if it fails, what is known already is still reported.
    pub fn list_rooms(&self) -> (need: Result<SyncNeed, String>)
        ensures
            fails_with(need, self.connection_error()),
            need matches Ok(need) ==> need == SyncNeed::BestEffort,
    {
        match self.connected_client() {
            Ok(_) => Ok(SyncNeed::BestEffort),
            Err(message) => Err(message),
        }
    }

    /// List the members of a room with their display name, membership state, and power level:
    /// gives the room.
    pub fn get_room_members(&self, room_id: &str, room_found: bool) -> (room: Result<
        String,
        String,
    >)
        ensures
            text_or_error(room, room_id@, self.room_operation_error(room_id@, room_found)),
    {
        self.room_operation(room_id, room_found)
    }

    /// Create a new room, optionally inviting users and enabling encryption.
    pub fn create_room(
        &self,
        name: Option<&str>,
        topic: Option<&str>,
        invite: &Vec<String>,
        public: bool,
        encrypted: bool,
        is_direct: bool,
    ) -> (request: Result<CreateRoomRequest, String>)
        ensures
            fails_with(
                request,
                first_of(self.connection_error(), invite_error(texts_of(invite@), 0)),
            ),
            request matches Ok(request) ==> {
                &&& text_of(request.name) == slice_text(name)
                &&& text_of(request.topic) == slice_text(topic)
                &&& texts_of(request.invite@) == texts_of(invite@)
                &&& request.is_direct == is_direct
                &&& request.visibility == if public {
                    Visibility::Public
                } else {
                    Visibility::Private
                }
                &&& request.preset == if public {
                    RoomPreset::PublicChat
                } else {
                    RoomPreset::PrivateChat
                }
                &&& request.encrypted == encrypted
            },
    {
        match self.connected_client() {
            Ok(_) => {},
            Err(message) => return Err(message),
        }
        let invite = match parse_invites(invite) {
            Ok(invite) => invite,
            Err(message) => return Err(message),
        };
        Ok(
            CreateRoomRequest {
                name: owned(name),
                topic: owned(topic),
                invite,
                is_direct,
                visibility: if public {
                    Visibility::Public
                } else {
                    Visibility::Private
                },
                preset: if public {
                    RoomPreset::PublicChat
                } else {
                    RoomPreset::PrivateChat
                },
                encrypted,
            },
        )
    }

    /// Invite a user to a room.
    pub fn invite_user(&self, room_id: &str, room_found: bool, user_id: &str) -> (request: Result<
        MemberRequest,
        String,
    >)
        ensures
            fails_with(request, self.member_operation_error(room_id@, room_found, user_id@)),
            request matches Ok(request) ==> Self::targets(request, room_id@, user_id@, None),
    {
        self.member_operation(room_id, room_found, user_id, None)
    }

    /// Leave a room.
    pub fn leave_room(&self, room_id: &str, room_found: bool) -> (room: Result<String, String>)
        ensures
            text_or_error(room, room_id@, self.room_operation_error(room_id@, room_found)),
    {
        self.room_operation(room_id, room_found)
    }

    /// Kick a member from a room, optionally with a reason.
    pub fn kick_room_member(
        &self,
        room_id: &str,
        room_found: bool,
        user_id: &str,
        reason: Option<&str>,
    ) -> (request: Result<MemberRequest, String>)
        ensures
            fails_with(request, self.member_operation_error(room_id@, room_found, user_id@)),
            request matches Ok(request) ==> Self::targets(
                request,
                room_id@,
                user_id@,
                slice_text(reason),
            ),
    {
        self.member_operation(room_id, room_found, user_id, reason)
    }

    /// Ban a member from a room, optionally with a reason.
    pub fn ban_room_member(
        &self,
        room_id: &str,
        room_found: bool,
        user_id: &str,
        reason: Option<&str>,
    ) -> (request: Result<MemberRequest, String>)
        ensures
            fails_with(request, self.member_operation_error(room_id@, room_found, user_id@)),
            request matches Ok(request) ==> Self::targets(
                request,
                room_id@,
                user_id@,
                slice_text(reason),
            ),
    {
        self.member_operation(room_id, room_found, user_id, reason)
    }

    /// Unban a previously-banned member from a room, optionally with a reason.
    pub fn unban_room_member(
        &self,
        room_id: &str,
        room_found: bool,
        user_id: &str,
        reason: Option<&str>,
    ) -> (request: Result<MemberRequest, String>)
        ensures
            fails_with(request, self.member_operation_error(room_id@, room_found, user_id@)),
            request matches Ok(request) ==> Self::targets(
                request,
                room_id@,
                user_id@,
                slice_text(reason),
            ),
    {
        self.member_operation(room_id, room_found, user_id, reason)
    }

    /// Update a room's name and/or topic. Only the fields provided are changed.
    pub fn update_room(
        &self,
        room_id: &str,
        room_found: bool,
        name: Option<&str>,
        topic: Option<&str>,
    ) -> (request: Result<UpdateRequest, String>)
        ensures
            fails_with(request, self.room_operation_error(room_id@, room_found)),
            request matches Ok(request) ==> {
                &&& request.room_id@ == room_id@
                &&& text_of(request.name) == slice_text(name)
                &&& text_of(request.topic) == slice_text(topic)
            },
    {
        match self.room_operation(room_id, room_found) {
            Ok(room_id) => Ok(
                UpdateRequest { room_id, name: owned(name), topic: owned(topic) },
            ),
            Err(message) => Err(message),
        }
    }

    /// Get or create a direct-message room with a user. `existing` is the room that the client
    /// knows for a user id that is one, if any: it is used again.
    pub fn create_dm(&self, user_id: &str, existing: Option<&str>) -> (room: Result<
        DirectRoom,
        String,
    >)
        ensures
            fails_with(room, first_of(self.connection_error(), user_id_error(user_id@))),
            room matches Ok(room) ==> match existing {
                Some(existing) => room matches DirectRoom::Existing(id) && id@ == existing@,
                None => room matches DirectRoom::Create(user) && user@ == user_id@,
            },
    {
        match self.connected_client() {
            Ok(_) => {},
            Err(message) => return Err(message),
        }
        match parse_user_id(user_id) {
            Ok(user_id) => match existing {
                Some(room_id) => Ok(DirectRoom::Existing(room_id.to_owned())),
                None => Ok(DirectRoom::Create(user_id)),
            },
            Err(message) => Err(message),
        }
    }

    /// Join a room by its id (`!room:server`) or alias (`#room:server`).
    pub fn join_room(&self, room: &str) -> (target: Result<String, String>)
        ensures
            text_or_error(
                target,
                room@,
                first_of(self.connection_error(), room_or_alias_error(room@)),
            ),
    {
        match self.connected_client() {
            Ok(_) => parse_room_or_alias(room),
            Err(message) => Err(message),
        }
    }
}

/// All users can be invited exactly if each of them has a user id that is one; otherwise the first
/// that has not is the one that is reported.
pub proof fn law_first_bad_invite_is_reported(users: Seq<Seq<char>>, from: int)
    requires
        0 <= from <= users.len(),
    ensures
        invite_error(users, from) is None <==> forall|i: int|
            from <= i < users.len() ==> user_id_error(#[trigger] users[i]) is None,
        forall|i: int|
            from <= i < users.len() && user_id_error(#[trigger] users[i]) is Some && (forall|k: int|
                from <= k < i ==> user_id_error(#[trigger] users[k]) is None) ==> invite_error(
                users,
                from,
            ) == user_id_error(users[i]),
    decreases users.len() - from,
{
    if from < users.len() {
        law_first_bad_invite_is_reported(users, from + 1);
        if user_id_error(users[from]) is None {
            assert(invite_error(users, from) == invite_error(users, from + 1));
        }
    }
}

} // verus!
