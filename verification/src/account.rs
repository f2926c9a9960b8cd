//! The account: who is logged in, and the profiles of users.

use vstd::prelude::*;

use crate::backup::BackupState;
use crate::ids::{parse_user_id, user_id_error};
use crate::json::{
    no_members, optional_bool_json, optional_json, Fields, Json, JsonView,
};
use crate::manager::MatrixManager;
use crate::outcome::fails_with;
use crate::text::{first_of, in_context, slice_text, text_of, with_context};

verus! {

/// What a connected client says of itself.
pub struct ClientStatus {
    pub user_id: Option<String>,
    pub device_id: Option<String>,
    pub homeserver: String,
    pub joined_rooms: usize,
    /// Whether another session has cross-signed this device, where that can be told.
    pub device_verified: Option<bool>,
    pub key_backup: BackupState,
}

pub open spec fn connected_json(status: ClientStatus) -> JsonView {
    JsonView::Object(
        no_members().push(("logged_in"@, JsonView::Bool(true))).push(
            ("user_id"@, optional_json(text_of(status.user_id))),
        ).push(("device_id"@, optional_json(text_of(status.device_id)))).push(
            ("homeserver"@, JsonView::Text(status.homeserver@)),
        ).push(("joined_rooms"@, JsonView::Count(status.joined_rooms as nat))).push(
            ("device_verified"@, optional_bool_json(status.device_verified)),
        ).push(("key_backup"@, JsonView::Text(status.key_backup.title()))),
    )
}

pub open spec fn disconnected_json(default_homeserver: Option<Seq<char>>) -> JsonView {
    JsonView::Object(
        no_members().push(("logged_in"@, JsonView::Bool(false))).push(
            ("default_homeserver"@, optional_json(default_homeserver)),
        ).push(
            (
                "hint"@,
                JsonView::Text(
                    "Use the `login` tool with username and password, or set MATRIX_USER/MATRIX_PASSWORD."@,
                ),
            ),
        ),
    )
}

pub open spec fn status_of(client: Option<&ClientStatus>) -> Option<ClientStatus> {
    match client {
        Some(status) => Some(*status),
        None => None,
    }
}

/// What a probe of the login state is answered. Somebody is logged in only while there is a
/// session; what is told of it is what its client says.
pub open spec fn whoami_json(manager: MatrixManager, client: Option<ClientStatus>) -> JsonView {
    match (manager.session, client) {
        (Some(_), Some(status)) => connected_json(status),
        _ => disconnected_json(text_of(manager.default_homeserver)),
    }
}

/// A user's profile.
pub struct Profile {
    pub display_name: Option<String>,
    pub avatar_url: Option<String>,
}

/// How looking a profile up failed.
pub enum ProfileFailure {
    Fetch(String),
    DisplayName(String),
    AvatarUrl(String),
}

pub open spec fn profile_error(outcome: Result<Profile, ProfileFailure>) -> Option<Seq<char>> {
    match outcome {
        Ok(_) => None,
        Err(ProfileFailure::Fetch(cause)) => Some(in_context("failed to fetch profile"@, cause@)),
        Err(ProfileFailure::DisplayName(cause)) => Some(
            in_context("failed to parse display name"@, cause@),
        ),
        Err(ProfileFailure::AvatarUrl(cause)) => Some(
            in_context("failed to parse avatar url"@, cause@),
        ),
    }
}

pub open spec fn profile_json(user_id: Seq<char>, profile: Profile) -> JsonView {
    JsonView::Object(
        no_members().push(("user_id"@, JsonView::Text(user_id))).push(
            ("display_name"@, optional_json(text_of(profile.display_name))),
        ).push(("avatar_url"@, optional_json(text_of(profile.avatar_url)))),
    )
}

/// Reports a profile that was looked up.
pub fn profile_fetched(user_id: &str, outcome: Result<Profile, ProfileFailure>) -> (reply: Result<
    Json,
    String,
>)
    ensures
        fails_with(reply, profile_error(outcome)),
        reply matches Ok(reply) ==> outcome is Ok && reply@ == profile_json(
            user_id@,
            outcome->Ok_0,
        ),
{
    match outcome {
        Ok(profile) => Ok(
            Fields::new().with("user_id", Json::text(user_id)).with(
                "display_name",
                Json::optional(&profile.display_name),
            ).with("avatar_url", Json::optional(&profile.avatar_url)).done(),
        ),
        Err(ProfileFailure::Fetch(cause)) => Err(with_context("failed to fetch profile", &cause)),
        Err(ProfileFailure::DisplayName(cause)) => Err(
            with_context("failed to parse display name", &cause),
        ),
        Err(ProfileFailure::AvatarUrl(cause)) => Err(
            with_context("failed to parse avatar url", &cause),
        ),
    }
}

impl MatrixManager {
    /// Report the current login state: of a session, what its client says of itself. Never errors
    /// so it can be used to probe connectivity.
    pub fn whoami(&self, client: Option<&ClientStatus>) -> (reply: Json)
        ensures
            reply@ == whoami_json(*self, status_of(client)),
    {
        match (&self.session, client) {
            (Some(_), Some(status)) => Fields::new().with("logged_in", Json::Bool(true)).with(
                "user_id",
                Json::optional(&status.user_id),
            ).with("device_id", Json::optional(&status.device_id)).with(
                "homeserver",
                Json::text(&status.homeserver),
            ).with("joined_rooms", Json::Count(status.joined_rooms as u64)).with(
                "device_verified",
                Json::optional_bool(status.device_verified),
            ).with("key_backup", Json::Text(status.key_backup.name())).done(),
            _ => Fields::new().with("logged_in", Json::Bool(false)).with(
                "default_homeserver",
                Json::optional(&self.default_homeserver),
            ).with(
                "hint",
                Json::text(
                    "Use the `login` tool with username and password, or set MATRIX_USER/MATRIX_PASSWORD.",
                ),
            ).done(),
        }
    }

    /// The error of looking up the profile of a user, or of the logged-in user if none is given.
    pub open spec fn profile_target_error(self, user_id: Option<Seq<char>>) -> Option<Seq<char>> {
        first_of(
            self.connection_error(),
            match user_id {
                Some(user_id) => user_id_error(user_id),
                None => match self.session {
                    Some(session) => if session.user_id is None {
                        Some("not logged in"@)
                    } else {
                        None
                    },
                    None => None,
                },
            },
        )
    }

    /// Look up a user's profile (display name and avatar). Defaults to the logged-in user when
    /// `user_id` is omitted: gives the user whose profile is to be fetched.
    pub fn get_profile(&self, user_id: Option<&str>) -> (target: Result<String, String>)
        ensures
            fails_with(target, self.profile_target_error(slice_text(user_id))),
            target matches Ok(target) ==> match user_id {
                Some(user_id) => target@ == user_id@,
                None => self.session matches Some(session) && session.user_id == Some(target),
            },
    {
        let session = match self.connected_client() {
            Ok(session) => session,
            Err(message) => return Err(message),
        };
        match user_id {
            Some(user_id) => parse_user_id(user_id),
            None => match &session.user_id {
                Some(user_id) => Ok(user_id.clone()),
                None => Err("not logged in".to_owned()),
            },
        }
    }
}

/// A probe says that somebody is logged in exactly if there is a session and a client to tell of it.
pub proof fn law_login_is_told_of_sessions_alone(
    manager: MatrixManager,
    client: Option<ClientStatus>,
)
    ensures
        whoami_json(manager, client) matches JsonView::Object(members) && members[0] == (
            "logged_in"@,
            JsonView::Bool(manager.session is Some && client is Some),
        ),
{
}

} // verus!
