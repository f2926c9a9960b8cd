//! Logging in.
//!
//! A driver performs the steps that the functions here ask for and reports back how they ended;
//! the functions decide what comes next.

use vstd::prelude::*;

use crate::ids::{parse_user_id, user_id_error};
use crate::manager::{MatrixManager, Session};
use crate::outcome::fails_with;
use crate::path::{parent, parent_of};
use crate::text::{first_of, in_context, owned, slice_text, text_of, with_context};

verus! {

/// Summary returned after a successful login.
pub struct LoginInfo {
    pub user_id: String,
    pub device_id: String,
    pub homeserver: String,
}

/// What is wrong with a crypto store.
#[derive(Clone, Copy, PartialEq, Eq, Debug, Structural)]
pub enum StoreFault {
    /// It holds another device's account.
    MismatchedAccount,
    Other,
}

/// What is wrong with a session that could not be loaded.
#[derive(Clone, Copy, PartialEq, Eq, Debug, Structural)]
pub enum SessionFault {
    /// The crypto store.
    CryptoStore(StoreFault),
    /// The crypto store, as the encryption machinery reports it.
    OlmStore(StoreFault),
    Other,
}

/// What kind of error a homeserver answers with.
#[derive(Clone, Copy, PartialEq, Eq, Debug, Structural)]
pub enum ApiFault {
    UnknownToken,
    Other,
}

/// A request that the homeserver refused, or that did not reach it.
pub struct ApiFailure {
    /// What the homeserver answered, if it did.
    pub fault: Option<ApiFault>,
    pub message: String,
}

/// Whether a fault means that the crypto store holds another device's account.
pub open spec fn mismatched(fault: SessionFault) -> bool {
    match fault {
        SessionFault::CryptoStore(store) => store == StoreFault::MismatchedAccount,
        SessionFault::OlmStore(store) => store == StoreFault::MismatchedAccount,
        SessionFault::Other => false,
    }
}

/// Whether a fault means the crypto store holds a different device's account than the session
/// being loaded - i.e. the store was left behind by another device and cannot be used for this
/// one. Restoring a session surfaces it through the encryption machinery; other paths report the
/// store's fault directly.
pub fn is_mismatched_account(fault: SessionFault) -> (yes: bool)
    ensures
        yes == mismatched(fault),
{
    let store = match fault {
        SessionFault::CryptoStore(store) => Some(store),
        SessionFault::OlmStore(store) => Some(store),
        SessionFault::Other => None,
    };
    matches!(store, Some(StoreFault::MismatchedAccount))
}

/// Whether the homeserver says that the access token is not (or no longer) known.
pub fn is_unknown_token(failure: &ApiFailure) -> (yes: bool)
    ensures
        yes == (failure.fault == Some(ApiFault::UnknownToken)),
{
    matches!(failure.fault, Some(ApiFault::UnknownToken))
}

/// How a login authenticates.
pub enum Credentials {
    /// A username and password. The device that the login mints gets the display name given, which
    /// the other ways of logging in have no use for.
    Password { username: String, password: String, device_name: String },
    /// A session made of a pre-obtained access token.
    Token(AccountSession<String>),
    /// The homeserver's browser flow.
    Sso { identity_provider_id: Option<String> },
}

/// The three ways to log in.
#[derive(Clone, Copy, PartialEq, Eq, Debug, Structural)]
pub enum LoginKind {
    Password,
    Token,
    Sso,
}

/// The session of an account on a device.
pub struct AccountSession<S> {
    pub user_id: S,
    pub device_id: S,
    pub access_token: S,
    pub refresh_token: Option<S>,
}

/// A session as it is written to disk. The homeserver is kept alongside it, so that the client can
/// be built again at the next start.
pub struct SavedSession<S> {
    pub homeserver: S,
    pub session: AccountSession<S>,
}

/// A session file to write.
pub struct SessionFile<S> {
    pub path: S,
    /// The directory that the file is in, which is made first where there is none.
    pub directory: Option<S>,
    pub saved: SavedSession<S>,
}

/// What the driver of a login does next.
pub enum LoginStep<S> {
    /// Drop the client, if there is one, and delete the local state.
    ClearState,
    BuildClient,
    Authenticate,
    /// Ask the client for its session.
    TakeSession,
    /// Write the session file.
    Persist(SessionFile<S>),
    Sync,
    /// The login has succeeded.
    Connected,
    /// The login has failed, with the error given.
    Fail(S),
}

/// How an authentication ended.
pub enum AuthOutcome<S> {
    Done,
    /// The browser flow was not completed in time. The URL is the one to complete it at, if the
    /// homeserver gave one.
    TimedOut { url: Option<S> },
    Failed { fault: SessionFault, message: S },
}

/// How writing the session file ended.
pub enum PersistOutcome<S> {
    Done,
    /// The session could not be turned into JSON.
    Encode(S),
    /// The file could not be written.
    Write(S),
}

pub open spec fn account_view(session: AccountSession<String>) -> AccountSession<Seq<char>> {
    AccountSession {
        user_id: session.user_id@,
        device_id: session.device_id@,
        access_token: session.access_token@,
        refresh_token: text_of(session.refresh_token),
    }
}

pub open spec fn account_of(session: Option<AccountSession<String>>) -> Option<
    AccountSession<Seq<char>>,
> {
    match session {
        Some(session) => Some(account_view(session)),
        None => None,
    }
}

pub open spec fn saved_view(saved: SavedSession<String>) -> SavedSession<Seq<char>> {
    SavedSession { homeserver: saved.homeserver@, session: account_view(saved.session) }
}

pub open spec fn session_file_view(file: SessionFile<String>) -> SessionFile<Seq<char>> {
    SessionFile {
        path: file.path@,
        directory: text_of(file.directory),
        saved: saved_view(file.saved),
    }
}

pub open spec fn login_step_view(step: LoginStep<String>) -> LoginStep<Seq<char>> {
    match step {
        LoginStep::ClearState => LoginStep::ClearState,
        LoginStep::BuildClient => LoginStep::BuildClient,
        LoginStep::Authenticate => LoginStep::Authenticate,
        LoginStep::TakeSession => LoginStep::TakeSession,
        LoginStep::Persist(file) => LoginStep::Persist(session_file_view(file)),
        LoginStep::Sync => LoginStep::Sync,
        LoginStep::Connected => LoginStep::Connected,
        LoginStep::Fail(message) => LoginStep::Fail(message@),
    }
}

pub open spec fn auth_view(outcome: AuthOutcome<String>) -> AuthOutcome<Seq<char>> {
    match outcome {
        AuthOutcome::Done => AuthOutcome::Done,
        AuthOutcome::TimedOut { url } => AuthOutcome::TimedOut { url: text_of(url) },
        AuthOutcome::Failed { fault, message } => AuthOutcome::Failed { fault, message: message@ },
    }
}

pub open spec fn persist_view(outcome: PersistOutcome<String>) -> PersistOutcome<Seq<char>> {
    match outcome {
        PersistOutcome::Done => PersistOutcome::Done,
        PersistOutcome::Encode(cause) => PersistOutcome::Encode(cause@),
        PersistOutcome::Write(cause) => PersistOutcome::Write(cause@),
    }
}

pub open spec fn cause_of(outcome: Result<(), String>) -> Option<Seq<char>> {
    match outcome {
        Ok(_) => None,
        Err(cause) => Some(cause@),
    }
}

/// The error of a client that could not be built.
pub open spec fn build_error(homeserver: Seq<char>, cause: Seq<char>) -> Seq<char> {
    in_context("failed to build client for homeserver "@ + homeserver, cause)
}

/// Reports a client that could not be built.
pub fn build_error_message(homeserver: &str, cause: &str) -> (message: String)
    ensures
        message@ == build_error(homeserver@, cause@),
{
    with_context(&"failed to build client for homeserver ".to_owned().concat(homeserver), cause)
}

/// What comes first in a login. A password or browser login always mints a new device, so whatever
/// is on disk belongs to some other device and can never be reused. A token's device is known up
/// front, so a store that already belongs to it is kept, along with its keys.
pub open spec fn first_login_step(kind: LoginKind) -> LoginStep<Seq<char>> {
    match kind {
        LoginKind::Token => LoginStep::BuildClient,
        _ => LoginStep::ClearState,
    }
}

/// What follows a step: the failure of the login, if the step has an error, or else the next step.
pub open spec fn unless_failed(
    error: Option<Seq<char>>,
    next: LoginStep<Seq<char>>,
) -> LoginStep<Seq<char>> {
    match error {
        Some(message) => LoginStep::Fail(message),
        None => next,
    }
}

/// The error of building the client, if it failed.
pub open spec fn build_failure(homeserver: Seq<char>, failure: Option<Seq<char>>) -> Option<
    Seq<char>,
> {
    match failure {
        Some(cause) => Some(build_error(homeserver, cause)),
        None => None,
    }
}

/// What follows once the client was built, or why it was not.
pub open spec fn after_build(homeserver: Seq<char>, failure: Option<Seq<char>>) -> LoginStep<
    Seq<char>,
> {
    unless_failed(build_failure(homeserver, failure), LoginStep::Authenticate)
}

/// Whether an authentication is to be tried once more, without the local state: loading a token's
/// session makes no network call, so where the store turns out to belong to a different device it
/// is safe to discard it.
pub open spec fn to_be_retried(
    kind: LoginKind,
    retried: bool,
    outcome: AuthOutcome<Seq<char>>,
) -> bool {
    kind == LoginKind::Token && !retried && match outcome {
        AuthOutcome::Failed { fault, .. } => mismatched(fault),
        _ => false,
    }
}

pub open spec fn auth_context(kind: LoginKind) -> Seq<char> {
    match kind {
        LoginKind::Password => "login failed"@,
        LoginKind::Token => "failed to load the provided session"@,
        LoginKind::Sso => "SSO login failed"@,
    }
}

/// What is said of a browser flow that was not completed in time. Where the homeserver gave a URL
/// for it, that is told, so that it can be opened by hand where no browser was.
pub open spec fn timed_out_text(url: Option<Seq<char>>) -> Seq<char> {
    let text =
        "timed out after 300s waiting for the SSO browser flow to complete - run login_sso again"@;
    match url {
        Some(url) => text + "; if no browser opens, open the URL by hand: "@ + url,
        None => text,
    }
}

fn timed_out_message(url: &Option<String>) -> (message: String)
    ensures
        message@ == timed_out_text(text_of(*url)),
{
    let text =
        "timed out after 300s waiting for the SSO browser flow to complete - run login_sso again".to_owned();
    match url {
        Some(url) => text.concat("; if no browser opens, open the URL by hand: ").concat(url),
        None => text,
    }
}

/// The error of an authentication, if it failed.
pub open spec fn auth_error(kind: LoginKind, outcome: AuthOutcome<Seq<char>>) -> Option<Seq<char>> {
    match outcome {
        AuthOutcome::Done => None,
        AuthOutcome::TimedOut { url } => Some(timed_out_text(url)),
        AuthOutcome::Failed { message, .. } => Some(in_context(auth_context(kind), message)),
    }
}

/// What follows an authentication.
pub open spec fn after_authentication(
    kind: LoginKind,
    retried: bool,
    outcome: AuthOutcome<Seq<char>>,
) -> LoginStep<Seq<char>> {
    if to_be_retried(kind, retried, outcome) {
        LoginStep::ClearState
    } else {
        unless_failed(auth_error(kind, outcome), LoginStep::TakeSession)
    }
}

/// The error of the client's session, if it has none.
pub open spec fn session_error(session: Option<AccountSession<Seq<char>>>) -> Option<Seq<char>> {
    if session is None {
        Some("no session available to persist after login"@)
    } else {
        None
    }
}

/// The file that a session is written to, with the homeserver of the login.
pub open spec fn session_file(
    homeserver: Seq<char>,
    session_path: Seq<char>,
    session: AccountSession<Seq<char>>,
) -> SessionFile<Seq<char>> {
    SessionFile {
        path: session_path,
        directory: parent_of(session_path),
        saved: SavedSession { homeserver, session },
    }
}

/// What follows the session that the client has: it is written.
pub open spec fn after_session(
    homeserver: Seq<char>,
    session_path: Seq<char>,
    session: Option<AccountSession<Seq<char>>>,
) -> LoginStep<Seq<char>> {
    unless_failed(
        session_error(session),
        LoginStep::Persist(session_file(homeserver, session_path, session->Some_0)),
    )
}

/// The error of writing the session file, if it failed.
pub open spec fn persist_error(
    session_path: Seq<char>,
    outcome: PersistOutcome<Seq<char>>,
) -> Option<Seq<char>> {
    match outcome {
        PersistOutcome::Done => None,
        PersistOutcome::Encode(cause) => Some(cause),
        PersistOutcome::Write(cause) => Some(
            in_context("writing session file "@ + session_path, cause),
        ),
    }
}

/// What follows once the session file was written, or was not.
pub open spec fn after_persist(
    session_path: Seq<char>,
    outcome: PersistOutcome<Seq<char>>,
) -> LoginStep<Seq<char>> {
    unless_failed(persist_error(session_path, outcome), LoginStep::Sync)
}

/// The error of the initial sync, if its failure fails the login. Loading a token's session makes
/// no network call, so nothing has verified the token before; the other kinds have validated their
/// credentials already.
pub open spec fn first_sync_error(kind: LoginKind, failure: Option<Seq<char>>) -> Option<
    Seq<char>,
> {
    match failure {
        Some(cause) => if kind == LoginKind::Token {
            Some(
                in_context(
                    "initial sync failed - check the token, user id, and device id are correct and the token hasn't been revoked"@,
                    cause,
                ),
            )
        } else {
            None
        },
        None => None,
    }
}

/// What follows the initial sync.
pub open spec fn after_first_sync(kind: LoginKind, failure: Option<Seq<char>>) -> LoginStep<
    Seq<char>,
> {
    unless_failed(first_sync_error(kind, failure), LoginStep::Connected)
}

/// A login under way.
pub struct Login {
    pub homeserver: String,
    pub session_path: String,
    pub credentials: Credentials,
    /// Whether the local state was found to belong to another device, and discarded.
    pub retried: bool,
}

impl Login {
    pub open spec fn kind(self) -> LoginKind {
        match self.credentials {
            Credentials::Password { .. } => LoginKind::Password,
            Credentials::Token(_) => LoginKind::Token,
            Credentials::Sso { .. } => LoginKind::Sso,
        }
    }

    fn login_kind(&self) -> (kind: LoginKind)
        ensures
            kind == self.kind(),
    {
        match &self.credentials {
            Credentials::Password { .. } => LoginKind::Password,
            Credentials::Token(_) => LoginKind::Token,
            Credentials::Sso { .. } => LoginKind::Sso,
        }
    }

    /// What comes first.
    pub fn begin(&self) -> (step: LoginStep<String>)
        ensures
            login_step_view(step) == first_login_step(self.kind()),
    {
        match self.login_kind() {
            LoginKind::Token => LoginStep::BuildClient,
            _ => LoginStep::ClearState,
        }
    }

    /// Goes on once the local state has been deleted, as far as that was possible.
    pub fn on_cleared(&self) -> (step: LoginStep<String>)
        ensures
            login_step_view(step) == LoginStep::<Seq<char>>::BuildClient,
    {
        LoginStep::BuildClient
    }

    pub fn on_built(&self, outcome: Result<(), String>) -> (step: LoginStep<String>)
        ensures
            login_step_view(step) == after_build(self.homeserver@, cause_of(outcome)),
    {
        match outcome {
            Ok(()) => LoginStep::Authenticate,
            Err(cause) => LoginStep::Fail(build_error_message(&self.homeserver, &cause)),
        }
    }

    pub fn on_authenticated(&mut self, outcome: AuthOutcome<String>) -> (step: LoginStep<String>)
        ensures
            login_step_view(step) == after_authentication(
                old(self).kind(),
                old(self).retried,
                auth_view(outcome),
            ),
            final(self).retried == (old(self).retried || to_be_retried(
                old(self).kind(),
                old(self).retried,
                auth_view(outcome),
            )),
            final(self).homeserver == old(self).homeserver,
            final(self).session_path == old(self).session_path,
            final(self).credentials == old(self).credentials,
    {
        let kind = self.login_kind();
        match outcome {
            AuthOutcome::Done => LoginStep::TakeSession,
            AuthOutcome::TimedOut { url } => LoginStep::Fail(timed_out_message(&url)),
            AuthOutcome::Failed { fault, message } => match kind {
                LoginKind::Password => LoginStep::Fail(with_context("login failed", &message)),
                LoginKind::Token => {
                    if !self.retried && is_mismatched_account(fault) {
                        self.retried = true;
                        LoginStep::ClearState
                    } else {
                        LoginStep::Fail(
                            with_context("failed to load the provided session", &message),
                        )
                    }
                },
                LoginKind::Sso => LoginStep::Fail(with_context("SSO login failed", &message)),
            },
        }
    }

    pub fn on_session(&self, session: Option<AccountSession<String>>) -> (step: LoginStep<String>)
        ensures
            login_step_view(step) == after_session(
                self.homeserver@,
                self.session_path@,
                account_of(session),
            ),
    {
        match session {
            Some(session) => LoginStep::Persist(
                SessionFile {
                    path: self.session_path.clone(),
                    directory: parent(&self.session_path),
                    saved: SavedSession { homeserver: self.homeserver.clone(), session },
                },
            ),
            None => LoginStep::Fail("no session available to persist after login".to_owned()),
        }
    }

    pub fn on_persisted(&self, outcome: PersistOutcome<String>) -> (step: LoginStep<String>)
        ensures
            login_step_view(step) == after_persist(self.session_path@, persist_view(outcome)),
    {
        match outcome {
            PersistOutcome::Done => LoginStep::Sync,
            PersistOutcome::Encode(cause) => LoginStep::Fail(cause),
            PersistOutcome::Write(cause) => LoginStep::Fail(
                with_context(
                    &"writing session file ".to_owned().concat(&self.session_path),
                    &cause,
                ),
            ),
        }
    }

    pub fn on_synced(&self, outcome: Result<(), String>) -> (step: LoginStep<String>)
        ensures
            login_step_view(step) == after_first_sync(self.kind(), cause_of(outcome)),
    {
        match outcome {
            Ok(()) => LoginStep::Connected,
            Err(cause) => match self.login_kind() {
                LoginKind::Token => LoginStep::Fail(
                    with_context(
                        "initial sync failed - check the token, user id, and device id are correct and the token hasn't been revoked",
                        &cause,
                    ),
                ),
                _ => LoginStep::Connected,
            },
        }
    }
}

/// How the steps of a login end, whether or not the login takes them. The client is built, and the
/// account authenticated, a second time where the first attempt is retried.
pub ghost struct LoginSight {
    pub built: Option<Seq<char>>,
    pub authenticated: AuthOutcome<Seq<char>>,
    pub rebuilt: Option<Seq<char>>,
    pub reauthenticated: AuthOutcome<Seq<char>>,
    pub session: Option<AccountSession<Seq<char>>>,
    pub persisted: PersistOutcome<Seq<char>>,
    pub synced: Option<Seq<char>>,
}

/// How a login ends: its error, if it fails, how often the local state was cleared, and what was
/// written to the session file, if anything was.
pub ghost struct LoginEnd {
    pub error: Option<Seq<char>>,
    pub cleared: nat,
    pub saved: Option<SessionFile<Seq<char>>>,
}

/// The session file that there is once writing it has ended, if that succeeded.
pub open spec fn written(
    file: SessionFile<Seq<char>>,
    outcome: PersistOutcome<Seq<char>>,
) -> Option<SessionFile<Seq<char>>> {
    if outcome is Done {
        Some(file)
    } else {
        None
    }
}

/// A login as a whole: the client is built and the account authenticated - a second time, with the
/// local state discarded, where a token's store belongs to another device - then the session is
/// written and the first sync run. The first of these to fail is the login's error.
pub open spec fn login_end(
    kind: LoginKind,
    homeserver: Seq<char>,
    session_path: Seq<char>,
    sight: LoginSight,
) -> LoginEnd {
    let retry = sight.built is None && to_be_retried(kind, false, sight.authenticated);
    let unsaved = first_of(
        build_failure(homeserver, sight.built),
        first_of(
            if retry {
                first_of(
                    build_failure(homeserver, sight.rebuilt),
                    auth_error(kind, sight.reauthenticated),
                )
            } else {
                auth_error(kind, sight.authenticated)
            },
            session_error(sight.session),
        ),
    );
    LoginEnd {
        error: first_of(
            unsaved,
            first_of(
                persist_error(session_path, sight.persisted),
                first_sync_error(kind, sight.synced),
            ),
        ),
        saved: if unsaved is None {
            written(
                session_file(homeserver, session_path, sight.session->Some_0),
                sight.persisted,
            )
        } else {
            None
        },
        cleared: if kind != LoginKind::Token {
            1
        } else if retry {
            1
        } else {
            0
        },
    }
}

/// What a driver that is asked for a step comes to, if it needs no more steps than given.
pub open spec fn login_driven(
    kind: LoginKind,
    homeserver: Seq<char>,
    session_path: Seq<char>,
    retried: bool,
    step: LoginStep<Seq<char>>,
    sight: LoginSight,
    cleared: nat,
    saved: Option<SessionFile<Seq<char>>>,
    steps: nat,
) -> Option<LoginEnd>
    decreases steps,
{
    if steps == 0 {
        None
    } else {
        let left = (steps - 1) as nat;
        match step {
            LoginStep::ClearState => login_driven(
                kind,
                homeserver,
                session_path,
                retried,
                LoginStep::BuildClient,
                sight,
                cleared + 1,
                saved,
                left,
            ),
            LoginStep::BuildClient => login_driven(
                kind,
                homeserver,
                session_path,
                retried,
                after_build(
                    homeserver,
                    if retried {
                        sight.rebuilt
                    } else {
                        sight.built
                    },
                ),
                sight,
                cleared,
                saved,
                left,
            ),
            LoginStep::Authenticate => {
                let outcome = if retried {
                    sight.reauthenticated
                } else {
                    sight.authenticated
                };
                login_driven(
                    kind,
                    homeserver,
                    session_path,
                    retried || to_be_retried(kind, retried, outcome),
                    after_authentication(kind, retried, outcome),
                    sight,
                    cleared,
                    saved,
                    left,
                )
            },
            LoginStep::TakeSession => login_driven(
                kind,
                homeserver,
                session_path,
                retried,
                after_session(homeserver, session_path, sight.session),
                sight,
                cleared,
                saved,
                left,
            ),
            LoginStep::Persist(file) => login_driven(
                kind,
                homeserver,
                session_path,
                retried,
                after_persist(session_path, sight.persisted),
                sight,
                cleared,
                written(file, sight.persisted),
                left,
            ),
            LoginStep::Sync => login_driven(
                kind,
                homeserver,
                session_path,
                retried,
                after_first_sync(kind, sight.synced),
                sight,
                cleared,
                saved,
                left,
            ),
            LoginStep::Connected => Some(LoginEnd { error: None, cleared, saved }),
            LoginStep::Fail(message) => Some(LoginEnd { error: Some(message), cleared, saved }),
        }
    }
}

/// A driver that does what the steps ask for carries out the login, in no more than nine steps.
pub proof fn law_steps_make_a_login(
    kind: LoginKind,
    homeserver: Seq<char>,
    session_path: Seq<char>,
    sight: LoginSight,
)
    ensures
        login_driven(
            kind,
            homeserver,
            session_path,
            false,
            first_login_step(kind),
            sight,
            0,
            None,
            9,
        ) == Some(login_end(kind, homeserver, session_path, sight)),
{
    reveal_with_fuel(login_driven, 10);
}

/// A login that mints a new device clears the local state, exactly once; one with a token keeps
/// it, unless the state turns out to belong to another device, and clears it once at most.
pub proof fn law_logins_clear_what_is_not_theirs(
    kind: LoginKind,
    homeserver: Seq<char>,
    session_path: Seq<char>,
    sight: LoginSight,
)
    ensures
        kind != LoginKind::Token ==> login_end(kind, homeserver, session_path, sight).cleared == 1,
        kind == LoginKind::Token ==> (login_end(kind, homeserver, session_path, sight).cleared == 1
            <==> sight.built is None && match sight.authenticated {
            AuthOutcome::Failed { fault, .. } => mismatched(fault),
            _ => false,
        }),
        login_end(kind, homeserver, session_path, sight).cleared <= 1,
{
}

/// A login succeeds only with its session, and the homeserver, written to disk; one with a token only if the initial
/// sync went through, too.
pub proof fn law_success_is_checked(
    kind: LoginKind,
    homeserver: Seq<char>,
    session_path: Seq<char>,
    sight: LoginSight,
)
    ensures
        login_end(kind, homeserver, session_path, sight).error is None ==> {
            &&& sight.session matches Some(session) && login_end(
                kind,
                homeserver,
                session_path,
                sight,
            ).saved == Some(session_file(homeserver, session_path, session))
            &&& kind == LoginKind::Token ==> sight.synced is None
            &&& sight.authenticated is Done || (kind == LoginKind::Token
                && sight.reauthenticated is Done)
        },
{
}

/// What is known of the account once logged in.
pub struct Account {
    pub user_id: Option<String>,
    pub device_id: Option<String>,
    pub homeserver: String,
}

/// What connecting an account leaves behind.
pub open spec fn connected(
    before: MatrixManager,
    after: MatrixManager,
    user_id: Option<String>,
) -> bool {
    &&& after.same_settings(before)
    &&& after.session == Some(Session { user_id })
    &&& after.pending_verification == before.pending_verification
    &&& after.pending_sas == before.pending_sas
}

pub open spec fn text_or_empty(text: Option<Seq<char>>) -> Seq<char> {
    match text {
        Some(s) => s,
        None => Seq::empty(),
    }
}

fn or_empty(text: &Option<String>) -> (s: String)
    ensures
        s@ == text_or_empty(text_of(*text)),
{
    match text {
        Some(s) => s.clone(),
        None => String::new(),
    }
}

impl MatrixManager {
    /// The homeserver to log in to: the one given, or else the default.
    pub open spec fn homeserver_for(self, given: Option<Seq<char>>) -> Option<Seq<char>> {
        first_of(given, text_of(self.default_homeserver))
    }

    /// The error of a login without a homeserver.
    pub open spec fn homeserver_error(self, given: Option<Seq<char>>) -> Option<Seq<char>> {
        if self.homeserver_for(given) is None {
            Some("no homeserver provided and MATRIX_HOMESERVER is not set"@)
        } else {
            None
        }
    }

    /// The error of a login while a session is live.
    pub open spec fn logged_in_error(self) -> Option<Seq<char>> {
        match self.session {
            Some(session) => Some(
                "already logged in as "@ + match session.user_id {
                    Some(user_id) => user_id@,
                    None => "an existing account"@,
                } + " - use the `logout` tool first to switch accounts"@,
            ),
            None => None,
        }
    }

    /// The error of a login, if it cannot begin.
    pub open spec fn login_error(self, given: Option<Seq<char>>) -> Option<Seq<char>> {
        first_of(self.homeserver_error(given), self.logged_in_error())
    }

    /// Whether a login is set up as the manager says, for the given homeserver.
    pub open spec fn sets_up(self, login: Login, given: Option<Seq<char>>) -> bool {
        &&& Some(login.homeserver@) == self.homeserver_for(given)
        &&& login.session_path == self.session_path
        &&& !login.retried
    }

    fn homeserver(&self, given: Option<&str>) -> (homeserver: Result<String, String>)
        ensures
            fails_with(homeserver, self.homeserver_error(slice_text(given))),
            homeserver matches Ok(h) ==> Some(h@) == self.homeserver_for(slice_text(given)),
    {
        match given {
            Some(homeserver) => Ok(homeserver.to_owned()),
            None => match &self.default_homeserver {
                Some(homeserver) => Ok(homeserver.clone()),
                None => Err(
                    "no homeserver provided and MATRIX_HOMESERVER is not set".to_owned(),
                ),
            },
        }
    }

    /// Fail if a session is live. Every login creates or adopts a device and needs the local store
    /// to itself, so switching accounts goes through `logout` first rather than silently replacing
    /// a working session.
    pub fn ensure_logged_out(&self) -> (free: Result<(), String>)
        ensures
            fails_with(free, self.logged_in_error()),
    {
        match &self.session {
            Some(session) => {
                let who = match &session.user_id {
                    Some(user_id) => user_id.clone(),
                    None => "an existing account".to_owned(),
                };
                Err(
                    "already logged in as ".to_owned().concat(&who).concat(
                        " - use the `logout` tool first to switch accounts",
                    ),
                )
            },
            None => Ok(()),
        }
    }

    /// Sets a login up, with the given credentials.
    fn set_up(&self, homeserver: Option<&str>, credentials: Credentials) -> (login: Result<
        Login,
        String,
    >)
        ensures
            fails_with(login, self.login_error(slice_text(homeserver))),
            login matches Ok(login) ==> self.sets_up(login, slice_text(homeserver))
                && login.credentials == credentials,
    {
        let homeserver = match self.homeserver(homeserver) {
            Ok(homeserver) => homeserver,
            Err(message) => return Err(message),
        };
        match self.ensure_logged_out() {
            Ok(()) => Ok(
                Login {
                    homeserver,
                    session_path: self.session_path.clone(),
                    credentials,
                    retried: false,
                },
            ),
            Err(message) => Err(message),
        }
    }

    /// Log in with a username and password, persist the session, and run an initial sync so the
    /// room list is populated.
    pub fn login(&self, homeserver: Option<&str>, username: &str, password: &str) -> (login: Result<
        Login,
        String,
    >)
        ensures
            fails_with(login, self.login_error(slice_text(homeserver))),
            login matches Ok(login) ==> {
                &&& self.sets_up(login, slice_text(homeserver))
                &&& login.credentials matches Credentials::Password {
                    username: u,
                    password: p,
                    device_name: d,
                } && u@ == username@ && p@ == password@ && d == self.device_name
            },
    {
        self.set_up(
            homeserver,
            Credentials::Password {
                username: username.to_owned(),
                password: password.to_owned(),
                device_name: self.device_name.clone(),
            },
        )
    }

    /// Log in using a pre-obtained access token rather than a password. A token for a
    /// dedicated/fresh device is strongly preferred: reusing another client's device id for
    /// encrypted rooms will cause the two clients' local crypto state to fight over the same
    /// device identity.
    pub fn login_with_token(
        &self,
        homeserver: Option<&str>,
        user_id: &str,
        device_id: &str,
        access_token: &str,
    ) -> (login: Result<Login, String>)
        ensures
            fails_with(
                login,
                first_of(self.login_error(slice_text(homeserver)), user_id_error(user_id@)),
            ),
            login matches Ok(login) ==> {
                &&& self.sets_up(login, slice_text(homeserver))
                &&& login.credentials matches Credentials::Token(session) && account_view(session)
                    == (AccountSession {
                    user_id: user_id@,
                    device_id: device_id@,
                    access_token: access_token@,
                    refresh_token: None,
                })
            },
    {
        let login = self.set_up(
            homeserver,
            Credentials::Token(
                AccountSession {
                    user_id: user_id.to_owned(),
                    device_id: device_id.to_owned(),
                    access_token: access_token.to_owned(),
                    refresh_token: None,
                },
            ),
        );
        match login {
            Ok(login) => match parse_user_id(user_id) {
                Ok(_) => Ok(login),
                Err(message) => Err(message),
            },
            Err(message) => Err(message),
        }
    }

    /// Log in via the homeserver's browser flow, with the given identity provider or a choice of
    /// them.
    pub fn login_sso(
        &self,
        homeserver: Option<&str>,
        identity_provider_id: Option<&str>,
    ) -> (login: Result<Login, String>)
        ensures
            fails_with(login, self.login_error(slice_text(homeserver))),
            login matches Ok(login) ==> {
                &&& self.sets_up(login, slice_text(homeserver))
                &&& login.credentials matches Credentials::Sso { identity_provider_id: p }
                    && text_of(p) == slice_text(identity_provider_id)
            },
    {
        self.set_up(
            homeserver,
            Credentials::Sso { identity_provider_id: owned(identity_provider_id) },
        )
    }

    /// Record the account that a login has connected, and sum the login up.
    pub fn finish_login(&mut self, account: Account) -> (info: LoginInfo)
        ensures
            connected(*old(self), *final(self), account.user_id),
            final(self).well_formed(),
            info.user_id@ == text_or_empty(text_of(account.user_id)),
            info.device_id@ == text_or_empty(text_of(account.device_id)),
            info.homeserver@ == account.homeserver@,
    {
        let info = LoginInfo {
            user_id: or_empty(&account.user_id),
            device_id: or_empty(&account.device_id),
            homeserver: account.homeserver,
        };
        self.session = Some(Session { user_id: account.user_id });
        info
    }

    /// If not already connected and credentials are present in the environment, perform an
    /// automatic login: password login takes priority if both `MATRIX_USER`/`MATRIX_PASSWORD` and
    /// the access-token variables are set.
    pub fn maybe_login_from_env(&self) -> (login: Result<Option<Login>, String>)
        ensures
            match self.automatic_login() {
                None => login matches Ok(None),
                Some(LoginKind::Token) => {
                    &&& fails_with(
                        login,
                        first_of(
                            self.login_error(None),
                            user_id_error(text_or_empty(text_of(self.env_user_id))),
                        ),
                    )
                    &&& login matches Ok(login) ==> {
                        &&& login matches Some(login) && self.sets_up(login, None)
                        &&& login->Some_0.credentials matches Credentials::Token(session) && Some(
                            session.user_id@,
                        ) == text_of(self.env_user_id) && Some(session.device_id@) == text_of(
                            self.env_device_id,
                        ) && Some(session.access_token@) == text_of(self.env_access_token)
                            && session.refresh_token is None
                    }
                },
                Some(_) => {
                    &&& fails_with(login, self.login_error(None))
                    &&& login matches Ok(login) ==> {
                        &&& login matches Some(login) && self.sets_up(login, None)
                        &&& login->Some_0.credentials matches Credentials::Password {
                            username,
                            password,
                            device_name,
                        } && Some(username@) == text_of(self.env_user) && Some(password@)
                            == text_of(self.env_password) && device_name == self.device_name
                    }
                },
            },
    {
        if self.session.is_some() {
            return Ok(None);
        }
        match (&self.env_user, &self.env_password) {
            (Some(user), Some(password)) => {
                return match self.login(None, user, password) {
                    Ok(login) => Ok(Some(login)),
                    Err(message) => Err(message),
                };
            },
            _ => {},
        }
        match (&self.env_user_id, &self.env_device_id, &self.env_access_token) {
            (Some(user_id), Some(device_id), Some(access_token)) => {
                match self.login_with_token(None, user_id, device_id, access_token) {
                    Ok(login) => Ok(Some(login)),
                    Err(message) => Err(message),
                }
            },
            _ => Ok(None),
        }
    }

    /// The automatic login that the environment asks for, if any.
    pub open spec fn automatic_login(self) -> Option<LoginKind> {
        if self.session is Some {
            None
        } else if self.env_user is Some && self.env_password is Some {
            Some(LoginKind::Password)
        } else if self.env_user_id is Some && self.env_device_id is Some
            && self.env_access_token is Some {
            Some(LoginKind::Token)
        } else {
            None
        }
    }
}

/// An account that has just been connected has no verification in progress, as there was none while
/// nobody was logged in; and a second login is refused.
pub proof fn law_new_sessions_start_clean(
    before: MatrixManager,
    after: MatrixManager,
    user_id: Option<String>,
)
    requires
        before.well_formed(),
        before.logged_in_error() is None,
        connected(before, after, user_id),
    ensures
        after.well_formed(),
        !after.pending_verification,
        !after.pending_sas,
        after.connection_error() is None,
        forall|given: Option<Seq<char>>| #[trigger] after.login_error(given) is Some,
{
}

/// Automatic login: none while a session is live, a password login if there are a username and a
/// password, whatever else there is, and a login with a token only without these.
pub proof fn law_password_takes_priority(manager: MatrixManager)
    ensures
        manager.session is Some ==> manager.automatic_login() is None,
        manager.session is None && manager.env_user is Some && manager.env_password is Some
            ==> manager.automatic_login() == Some(LoginKind::Password),
        manager.automatic_login() == Some(LoginKind::Token) ==> manager.env_user is None
            || manager.env_password is None,
{
}

/// A browser flow that ran out of time still tells the URL, where there is one: the error ends with
/// it.
pub proof fn law_timed_out_flow_tells_its_url(retried: bool, url: Seq<char>)
    ensures
        after_authentication(
            LoginKind::Sso,
            retried,
            AuthOutcome::TimedOut { url: Some(url) },
        ) matches LoginStep::Fail(message) && message.skip(message.len() - url.len()) == url,
{
    let message = timed_out_text(Some(url));
    assert(message.skip(message.len() - url.len()) =~= url);
}

} // verus!
