//! The manager: the settings of the server, and what it remembers between calls.

use vstd::prelude::*;

use crate::path::{
    default_session_path, default_store_path, file_name_of, joined, law_store_is_beside_session,
    parent_of, session_dir, session_path_default,
};
use crate::text::{
    blank, borrowed, is_blank, lowered, lowered_is, number_in, parse_number, slice_text, text_of,
};

verus! {

/// The address that the HTTP transport binds unless another one is set.
pub const DEFAULT_HTTP_ADDRESS: &'static str = "127.0.0.1:8000";

/// The path that the HTTP transport serves unless another one is set.
pub const DEFAULT_HTTP_PATH: &'static str = "/mcp";

/// Per-call budget, in seconds, for a verification step to make progress before it is reported as
/// still pending. Kept well under a typical client's request timeout of a minute.
pub const DEFAULT_VERIFICATION_TIMEOUT: u64 = 35;

/// How long a single sync may run, in seconds.
pub const SYNC_TIMEOUT: u64 = 30;

/// How long the browser flow of a single-sign-on login may take, in seconds.
pub const SSO_LOGIN_TIMEOUT: u64 = 300;

/// How long to wait for room keys to be uploaded to the key backup, in seconds.
pub const BACKUP_UPLOAD_TIMEOUT: u64 = 30;

/// How long to wait, once a verification is confirmed, for the other device to hand over its
/// secrets, in seconds.
pub const SECRET_GOSSIP_BUDGET: u64 = 15;

/// How long the server may hold back each sync while a verification is driven, in seconds.
pub const VERIFICATION_SYNC_POLL: u64 = 2;

/// The values of the environment variables that the manager is set up from. One that is unset, or
/// is not Unicode, is `None`.
pub struct Environment {
    /// `MATRIX_HOMESERVER`
    pub homeserver: Option<String>,
    /// `MATRIX_USER`
    pub user: Option<String>,
    /// `MATRIX_PASSWORD`
    pub password: Option<String>,
    /// `MATRIX_ACCESS_TOKEN`
    pub access_token: Option<String>,
    /// `MATRIX_USER_ID`
    pub user_id: Option<String>,
    /// `MATRIX_DEVICE_ID`
    pub device_id: Option<String>,
    /// `MATRIX_DEVICE_NAME`
    pub device_name: Option<String>,
    /// `MATRIX_SESSION_FILE`
    pub session_file: Option<String>,
    /// `MATRIX_STORE_PATH`
    pub store_path: Option<String>,
    /// `MATRIX_VERIFICATION_TIMEOUT`
    pub verification_timeout: Option<String>,
    /// `XDG_STATE_HOME`
    pub state_home: Option<String>,
    /// `HOME`
    pub home: Option<String>,
}

/// The account that the client is logged in to.
pub struct Session {
    pub user_id: Option<String>,
}

/// Holds the configuration and what is known of the connected client. The client itself, and the
/// verification objects that it hands out, are the driver's to keep.
pub struct MatrixManager {
    pub default_homeserver: Option<String>,
    pub env_user: Option<String>,
    pub env_password: Option<String>,
    pub env_access_token: Option<String>,
    pub env_user_id: Option<String>,
    pub env_device_id: Option<String>,
    pub device_name: String,
    pub session_path: String,
    pub store_path: String,
    /// In seconds.
    pub verification_timeout: u64,
    /// The live session, if any.
    pub session: Option<Session>,
    /// Whether a verification request is in flight.
    pub pending_verification: bool,
    /// Whether a short authentication string awaits its confirmation.
    pub pending_sas: bool,
}

/// A variable that is set to something else than white space.
pub open spec fn non_empty(value: Option<Seq<char>>) -> Option<Seq<char>> {
    match value {
        Some(text) => if blank(text) {
            None
        } else {
            Some(text)
        },
        None => None,
    }
}

fn take_non_empty(value: &Option<String>) -> (kept: Option<String>)
    ensures
        text_of(kept) == non_empty(text_of(*value)),
{
    match value {
        Some(text) => if is_blank(text) {
            None
        } else {
            Some(text.clone())
        },
        None => None,
    }
}

/// The timeout that a variable asks for; the default if it is no number.
pub open spec fn timeout_of(value: Option<Seq<char>>) -> nat {
    match non_empty(value) {
        Some(text) => match number_in(text) {
            Some(seconds) => seconds,
            None => DEFAULT_VERIFICATION_TIMEOUT as nat,
        },
        None => DEFAULT_VERIFICATION_TIMEOUT as nat,
    }
}

/// The session file that the environment asks for.
pub open spec fn session_path_of(env: Environment) -> Seq<char> {
    match non_empty(text_of(env.session_file)) {
        Some(path) => path,
        None => session_path_default(text_of(env.state_home), text_of(env.home)),
    }
}

/// The store directory that the environment asks for.
pub open spec fn store_path_of(env: Environment) -> Seq<char> {
    match non_empty(text_of(env.store_path)) {
        Some(path) => path,
        None => joined(session_dir(session_path_of(env)), "store"@),
    }
}

impl MatrixManager {
    /// What always holds of a manager: a verification is in progress only while logged in.
    pub open spec fn well_formed(self) -> bool {
        self.session is None ==> !self.pending_verification && !self.pending_sas
    }

    /// Whether two managers are set up alike, whatever they remember.
    pub open spec fn same_settings(self, other: MatrixManager) -> bool {
        &&& self.default_homeserver == other.default_homeserver
        &&& self.env_user == other.env_user
        &&& self.env_password == other.env_password
        &&& self.env_access_token == other.env_access_token
        &&& self.env_user_id == other.env_user_id
        &&& self.env_device_id == other.env_device_id
        &&& self.device_name == other.device_name
        &&& self.session_path == other.session_path
        &&& self.store_path == other.store_path
        &&& self.verification_timeout == other.verification_timeout
    }

    /// The error of an operation that needs a session, if there is none.
    pub open spec fn connection_error(self) -> Option<Seq<char>> {
        if self.session is None {
            Some(
                "not logged in - use the `login` tool or set the MATRIX_* environment variables"@,
            )
        } else {
            None
        }
    }

    /// The session, or a helpful error if not logged in.
    pub fn connected_client(&self) -> (session: Result<&Session, String>)
        ensures
            match session {
                Ok(s) => self.connection_error() is None && self.session == Some(*s),
                Err(message) => self.connection_error() == Some(message@),
            },
    {
        match &self.session {
            Some(session) => Ok(session),
            None => Err(
                "not logged in - use the `login` tool or set the MATRIX_* environment variables".to_owned(),
            ),
        }
    }

    /// Build a manager from environment variables:
    ///
    /// * `MATRIX_HOMESERVER`  - default homeserver URL (e.g. `https://matrix.org`)
    /// * `MATRIX_USER`        - username for optional auto-login
    /// * `MATRIX_PASSWORD`    - password for optional auto-login
    /// * `MATRIX_ACCESS_TOKEN`, `MATRIX_USER_ID`, `MATRIX_DEVICE_ID` - a pre-obtained access token
    ///   for optional auto-login, for homeservers that require SSO/OAuth
    /// * `MATRIX_DEVICE_NAME` - display name for this device (default `matrix-mcp`)
    /// * `MATRIX_SESSION_FILE`- where to persist the session (default under XDG state dir)
    /// * `MATRIX_STORE_PATH`  - directory for the crypto/state store (default: a `store` directory
    ///   next to the session file)
    /// * `MATRIX_VERIFICATION_TIMEOUT` - seconds each interactive device-verification poll waits
    ///   for the other device (default 35)
    pub fn from_env(env: &Environment) -> (manager: MatrixManager)
        ensures
            text_of(manager.default_homeserver) == non_empty(text_of(env.homeserver)),
            text_of(manager.env_user) == non_empty(text_of(env.user)),
            text_of(manager.env_password) == non_empty(text_of(env.password)),
            text_of(manager.env_access_token) == non_empty(text_of(env.access_token)),
            text_of(manager.env_user_id) == non_empty(text_of(env.user_id)),
            text_of(manager.env_device_id) == non_empty(text_of(env.device_id)),
            manager.device_name@ == match non_empty(text_of(env.device_name)) {
                Some(name) => name,
                None => "matrix-mcp"@,
            },
            manager.session_path@ == session_path_of(*env),
            manager.store_path@ == store_path_of(*env),
            manager.verification_timeout == timeout_of(text_of(env.verification_timeout)),
            manager.session is None,
            !manager.pending_verification,
            !manager.pending_sas,
            manager.well_formed(),
    {
        let session_path = match take_non_empty(&env.session_file) {
            Some(path) => path,
            None => default_session_path(borrowed(&env.state_home), borrowed(&env.home)),
        };
        let store_path = match take_non_empty(&env.store_path) {
            Some(path) => path,
            None => default_store_path(&session_path),
        };
        let verification_timeout: u64 = match take_non_empty(&env.verification_timeout) {
            Some(text) => match parse_number(&text) {
                Some(seconds) => seconds,
                None => DEFAULT_VERIFICATION_TIMEOUT,
            },
            None => DEFAULT_VERIFICATION_TIMEOUT,
        };
        MatrixManager {
            default_homeserver: take_non_empty(&env.homeserver),
            env_user: take_non_empty(&env.user),
            env_password: take_non_empty(&env.password),
            env_access_token: take_non_empty(&env.access_token),
            env_user_id: take_non_empty(&env.user_id),
            env_device_id: take_non_empty(&env.device_id),
            device_name: match take_non_empty(&env.device_name) {
                Some(name) => name,
                None => "matrix-mcp".to_owned(),
            },
            session_path,
            store_path,
            verification_timeout,
            session: None,
            pending_verification: false,
            pending_sas: false,
        }
    }
}

/// How the server talks to its clients.
#[derive(Clone, Copy, PartialEq, Eq, Debug, Structural)]
pub enum Transport {
    Stdio,
    Http,
}

/// The transport that `MATRIX_MCP_TRANSPORT` asks for, without regard to ASCII case.
pub open spec fn transport_of(value: Option<Seq<char>>) -> Transport {
    match value {
        Some(text) => {
            let name = lowered(text);
            if name == "http"@ || name == "sse"@ || name == "streamable-http"@ || name
                == "streamable_http"@ {
                Transport::Http
            } else {
                Transport::Stdio
            }
        },
        None => Transport::Stdio,
    }
}

/// Picks the transport from the value of `MATRIX_MCP_TRANSPORT`.
pub fn transport_kind(value: Option<&str>) -> (kind: Transport)
    ensures
        kind == transport_of(slice_text(value)),
{
    match value {
        Some(text) => {
            if lowered_is(text, "http") || lowered_is(text, "sse") || lowered_is(
                text,
                "streamable-http",
            ) || lowered_is(text, "streamable_http") {
                Transport::Http
            } else {
                Transport::Stdio
            }
        },
        None => Transport::Stdio,
    }
}

/// Where the HTTP transport listens.
pub struct HttpEndpoint {
    pub address: String,
    pub path: String,
}

/// The endpoint that `MATRIX_MCP_ADDRESS` and `MATRIX_MCP_PATH` ask for.
pub fn http_endpoint(address: &Option<String>, path: &Option<String>) -> (endpoint: HttpEndpoint)
    ensures
        endpoint.address@ == match *address {
            Some(a) => a@,
            None => DEFAULT_HTTP_ADDRESS@,
        },
        endpoint.path@ == match *path {
            Some(p) => p@,
            None => DEFAULT_HTTP_PATH@,
        },
{
    HttpEndpoint {
        address: match address {
            Some(a) => a.clone(),
            None => DEFAULT_HTTP_ADDRESS.to_owned(),
        },
        path: match path {
            Some(p) => p.clone(),
            None => DEFAULT_HTTP_PATH.to_owned(),
        },
    }
}

/// A variable that holds nothing but white space counts as one that is not set.
pub proof fn law_blank_is_unset(value: Seq<char>)
    ensures
        blank(value) ==> non_empty(Some(value)) == non_empty(None),
        !blank(value) ==> non_empty(Some(value)) == Some(value),
{
}

/// The store lies beside the session file, unless it is put elsewhere.
pub proof fn law_default_store_is_beside_the_session(env: Environment)
    requires
        non_empty(text_of(env.store_path)) is None,
    ensures
        parent_of(store_path_of(env)) == Some(session_dir(session_path_of(env))),
        file_name_of(store_path_of(env)) == Some("store"@),
{
    law_store_is_beside_session(session_path_of(env));
}

} // verus!
