//! Sessions: logging in, restoring, and logging out.

use vstd::prelude::*;

use crate::args::{LoginArgs, LoginSsoArgs, LoginWithTokenArgs};
use crate::ids::user_id_fault;
use crate::laws::verifying::set_up_alike;
use crate::laws::{advice_to_log_in, alike, done_unless, misspelt, or_else, refused};
use crate::manager::{MatrixManager, Session};
use crate::restore::{
    is_store_file, on_client_rebuilt, on_session_file_read, on_session_loaded, on_token_checked,
    ClearPlan, FileOutcome, Listing, LogoutStep, RestoreStep,
};
use crate::server::MatrixServer;
use crate::session::{
    build_error_message, is_mismatched_account, is_unknown_token, Account, AccountSession,
    ApiFailure, ApiFault, AuthOutcome, Credentials, Login, LoginInfo, LoginStep, PersistOutcome,
    SavedSession, SessionFault, StoreFault,
};

verus! {

/// Why no login can begin, if so: there is no homeserver to log in to, or somebody is logged in
/// already.
pub open spec fn no_login(manager: MatrixManager, given: Option<String>) -> Option<Seq<char>> {
    if given is None && manager.default_homeserver is None {
        Some("no homeserver provided and MATRIX_HOMESERVER is not set"@)
    } else {
        match manager.session {
            Some(session) => Some(
                "already logged in as "@ + match session.user_id {
                    Some(user_id) => user_id@,
                    None => "an existing account"@,
                } + " - use the `logout` tool first to switch accounts"@,
            ),
            None => None,
        }
    }
}

/// Whether a login goes to the homeserver that was given, or else to the default one, keeps its
/// session where the manager does, and has not been tried before.
pub open spec fn goes_to(login: Login, manager: MatrixManager, given: Option<String>) -> bool {
    &&& match (given, manager.default_homeserver) {
        (Some(homeserver), _) => login.homeserver@ == homeserver@,
        (None, Some(homeserver)) => login.homeserver@ == homeserver@,
        (None, None) => false,
    }
    &&& login.session_path@ == manager.session_path@
    &&& !login.retried
}

/// A login with a password uses the name and the password that were given, whole.
pub proof fn law_password_logins(
    server: MatrixServer,
    args: LoginArgs,
    login: Result<Login, String>,
)
    requires
        call_ensures(MatrixServer::login, (&server, &args), login),
    ensures
        done_unless(login, no_login(server.matrix, args.homeserver)),
        login matches Ok(login) ==> {
            &&& goes_to(login, server.matrix, args.homeserver)
            &&& login.credentials matches Credentials::Password { username, password, device_name }
                && username@ == args.username@ && password@ == args.password@ && device_name@
                == server.matrix.device_name@
        },
{
}

/// A login with a token uses the account, the device and the token that were given.
pub proof fn law_token_logins(
    server: MatrixServer,
    args: LoginWithTokenArgs,
    login: Result<Login, String>,
)
    requires
        call_ensures(MatrixServer::login_with_token, (&server, &args), login),
    ensures
        done_unless(
            login,
            or_else(
                no_login(server.matrix, args.homeserver),
                misspelt("user id"@, args.user_id@, user_id_fault(args.user_id@)),
            ),
        ),
        login matches Ok(login) ==> {
            &&& goes_to(login, server.matrix, args.homeserver)
            &&& login.credentials matches Credentials::Token(session) && session.user_id@
                == args.user_id@ && session.device_id@ == args.device_id@ && session.access_token@
                == args.access_token@ && session.refresh_token is None
        },
{
}

/// A login by the browser flow uses the identity provider that was given, if one was.
pub proof fn law_browser_logins(
    server: MatrixServer,
    args: LoginSsoArgs,
    login: Result<Login, String>,
)
    requires
        call_ensures(MatrixServer::login_sso, (&server, &args), login),
    ensures
        done_unless(login, no_login(server.matrix, args.homeserver)),
        login matches Ok(login) ==> {
            &&& goes_to(login, server.matrix, args.homeserver)
            &&& login.credentials matches Credentials::Sso { identity_provider_id } && alike(
                identity_provider_id,
                args.identity_provider_id,
            )
        },
{
}

/// Somebody who is logged in keeps everybody else out, and is named.
pub proof fn law_one_login_at_a_time(manager: MatrixManager, free: Result<(), String>)
    requires
        call_ensures(MatrixManager::ensure_logged_out, (&manager,), free),
    ensures
        match manager.session {
            Some(Session { user_id: Some(user_id) }) => refused(
                free,
                "already logged in as "@ + user_id@
                    + " - use the `logout` tool first to switch accounts"@,
            ),
            Some(Session { user_id: None }) => refused(
                free,
                "already logged in as "@ + "an existing account"@
                    + " - use the `logout` tool first to switch accounts"@,
            ),
            None => free is Ok,
        },
{
}

/// Without a session, the variables log in by themselves: with the name and the password if both
/// are there, or else with the account, the device and the token if all three are.
pub proof fn law_variables_log_in(manager: MatrixManager, login: Result<Option<Login>, String>)
    requires
        call_ensures(MatrixManager::maybe_login_from_env, (&manager,), login),
    ensures
        ({
            let by_password = manager.env_user is Some && manager.env_password is Some;
            let by_token = manager.env_user_id is Some && manager.env_device_id is Some
                && manager.env_access_token is Some;
            if manager.session is Some || !by_password && !by_token {
                login matches Ok(None)
            } else if by_password {
                &&& done_unless(login, no_login(manager, None))
                &&& login matches Ok(login) ==> {
                    &&& login is Some
                    &&& goes_to(login->Some_0, manager, None)
                    &&& login->Some_0.credentials matches Credentials::Password {
                        username,
                        password,
                        device_name,
                    } && username@ == manager.env_user->Some_0@ && password@
                        == manager.env_password->Some_0@ && device_name@ == manager.device_name@
                }
            } else {
                &&& done_unless(
                    login,
                    or_else(
                        no_login(manager, None),
                        misspelt(
                            "user id"@,
                            manager.env_user_id->Some_0@,
                            user_id_fault(manager.env_user_id->Some_0@),
                        ),
                    ),
                )
                &&& login matches Ok(login) ==> {
                    &&& login is Some
                    &&& goes_to(login->Some_0, manager, None)
                    &&& login->Some_0.credentials matches Credentials::Token(session)
                        && session.user_id@ == manager.env_user_id->Some_0@ && session.device_id@
                        == manager.env_device_id->Some_0@ && session.access_token@
                        == manager.env_access_token->Some_0@ && session.refresh_token is None
                }
            }
        }),
{
}

/// A login mints a device, and drops the local state of others first, unless it is with a token,
/// whose device is known; then the client is built, and the account authenticated.
pub proof fn law_logins_begin(
    login: Login,
    first: LoginStep<String>,
    cleared: LoginStep<String>,
    outcome: Result<(), String>,
    built: LoginStep<String>,
)
    requires
        call_ensures(Login::begin, (&login,), first),
        call_ensures(Login::on_cleared, (&login,), cleared),
        call_ensures(Login::on_built, (&login, outcome), built),
    ensures
        login.credentials is Token ==> first is BuildClient,
        !(login.credentials is Token) ==> first is ClearState,
        cleared is BuildClient,
        match outcome {
            Ok(_) => built is Authenticate,
            Err(cause) => built matches LoginStep::Fail(message) && message@
                == "failed to build client for homeserver "@ + login.homeserver@ + ": "@ + cause@,
        },
{
}

/// Whether a fault says that the store is another device's.
pub open spec fn of_another_device(fault: SessionFault) -> bool {
    fault == SessionFault::CryptoStore(StoreFault::MismatchedAccount) || fault
        == SessionFault::OlmStore(StoreFault::MismatchedAccount)
}

/// Once authenticated, a login goes on to its session. A token whose store is another device's is
/// tried once more without that store; any other failure ends the login with its cause, and a
/// browser flow that ran out of time tells the URL of it.
pub proof fn law_authentication_leads_on(
    login: &mut Login,
    outcome: AuthOutcome<String>,
    step: LoginStep<String>,
)
    requires
        call_ensures(Login::on_authenticated, (login, outcome), step),
    ensures
        final(login).homeserver == old(login).homeserver,
        final(login).session_path == old(login).session_path,
        final(login).credentials == old(login).credentials,
        match outcome {
            AuthOutcome::Done => step is TakeSession && final(login).retried == old(login).retried,
            AuthOutcome::TimedOut { url } => final(login).retried == old(login).retried && (
            step matches LoginStep::Fail(message) && message@ == match url {
                Some(url) =>
                    "timed out after 300s waiting for the SSO browser flow to complete - run login_sso again"@
                    + "; if no browser opens, open the URL by hand: "@ + url@,
                None =>
                    "timed out after 300s waiting for the SSO browser flow to complete - run login_sso again"@,
            }),
            AuthOutcome::Failed { fault, message } => if old(login).credentials is Token && !old(
                login,
            ).retried && of_another_device(fault) {
                step is ClearState && final(login).retried
            } else {
                final(login).retried == old(login).retried && (step matches LoginStep::Fail(error)
                    && error@ == match old(login).credentials {
                    Credentials::Password { .. } => "login failed"@,
                    Credentials::Token(_) => "failed to load the provided session"@,
                    Credentials::Sso { .. } => "SSO login failed"@,
                } + ": "@ + message@)
            },
        },
{
}

/// Whether two accounts' sessions hold the same.
pub open spec fn same_account(a: AccountSession<String>, b: AccountSession<String>) -> bool {
    &&& a.user_id@ == b.user_id@
    &&& a.device_id@ == b.device_id@
    &&& a.access_token@ == b.access_token@
    &&& alike(a.refresh_token, b.refresh_token)
}

/// The session that a login came to is written in full, along with the homeserver, to the session
/// file, whose directory is made first.
pub proof fn law_sessions_are_saved_in_full(
    login: Login,
    session: Option<AccountSession<String>>,
    step: LoginStep<String>,
    path: &str,
    directory: Option<String>,
)
    requires
        call_ensures(Login::on_session, (&login, session), step),
        path@ == login.session_path@,
        call_ensures(crate::path::parent, (path,), directory),
    ensures
        match session {
            Some(session) => step matches LoginStep::Persist(file) && file.path@
                == login.session_path@ && alike(file.directory, directory)
                && file.saved.homeserver@ == login.homeserver@ && same_account(
                file.saved.session,
                session,
            ),
            None => step matches LoginStep::Fail(message) && message@
                == "no session available to persist after login"@,
        },
{
    if session is Some {
        assert(step is Persist);
        let file = step->Persist_0;
        assert(crate::text::text_of(file.directory) == crate::path::parent_of(path@));
        assert(crate::session::account_view(file.saved.session)
            == crate::session::account_view(session->Some_0));
        assert(crate::text::text_of(file.saved.session.refresh_token) == crate::text::text_of(
            session->Some_0.refresh_token,
        ));
    }
}

/// A login whose session was written goes on to a sync, and then is done; only a token has not been
/// tested before that sync, and fails with it.
pub proof fn law_logins_end(
    login: Login,
    outcome: PersistOutcome<String>,
    persisted: LoginStep<String>,
    sync: Result<(), String>,
    synced: LoginStep<String>,
)
    requires
        call_ensures(Login::on_persisted, (&login, outcome), persisted),
        call_ensures(Login::on_synced, (&login, sync), synced),
    ensures
        match outcome {
            PersistOutcome::Done => persisted is Sync,
            PersistOutcome::Encode(cause) => persisted matches LoginStep::Fail(message) && message@
                == cause@,
            PersistOutcome::Write(cause) => persisted matches LoginStep::Fail(message) && message@
                == "writing session file "@ + login.session_path@ + ": "@ + cause@,
        },
        sync is Ok || !(login.credentials is Token) ==> synced is Connected,
        sync matches Err(cause) ==> login.credentials is Token ==> (synced matches LoginStep::Fail(
            message,
        ) && message@
            == "initial sync failed - check the token, user id, and device id are correct and the token hasn't been revoked"@
            + ": "@ + cause@),
{
}

/// A login that is done leaves the account as the session, changes no setting, and is summed up by
/// what is known of the account.
pub proof fn law_logins_leave_a_session(
    manager: &mut MatrixManager,
    account: Account,
    info: LoginInfo,
)
    requires
        call_ensures(MatrixManager::finish_login, (manager, account), info),
    ensures
        set_up_alike(*old(manager), *final(manager)),
        final(manager).session == Some(Session { user_id: account.user_id }),
        final(manager).pending_verification == old(manager).pending_verification,
        final(manager).pending_sas == old(manager).pending_sas,
        match account.user_id {
            Some(user_id) => info.user_id@ == user_id@,
            None => info.user_id@.len() == 0,
        },
        match account.device_id {
            Some(device_id) => info.device_id@ == device_id@,
            None => info.device_id@.len() == 0,
        },
        info.homeserver@ == account.homeserver@,
{
}

/// A restored session is that of the account, and changes no setting.
pub proof fn law_restored_sessions_are_of_the_account(
    manager: &mut MatrixManager,
    user_id: Option<String>,
)
    requires
        call_ensures(MatrixManager::restored, (manager, user_id), ()),
    ensures
        set_up_alike(*old(manager), *final(manager)),
        final(manager).session == Some(Session { user_id }),
        final(manager).pending_verification == old(manager).pending_verification,
        final(manager).pending_sas == old(manager).pending_sas,
{
}

/// Faults and failures are told by what they say: a store of another device, and a token that the
/// homeserver does not know.
pub proof fn law_faults_are_told_apart(
    fault: SessionFault,
    mismatched: bool,
    failure: ApiFailure,
    unknown: bool,
    homeserver: &str,
    cause: &str,
    message: String,
)
    requires
        call_ensures(is_mismatched_account, (fault,), mismatched),
        call_ensures(is_unknown_token, (&failure,), unknown),
        call_ensures(build_error_message, (homeserver, cause), message),
    ensures
        mismatched <==> of_another_device(fault),
        unknown <==> failure.fault == Some(ApiFault::UnknownToken),
        message@ == "failed to build client for homeserver "@ + homeserver@ + ": "@ + cause@,
{
}

/// What was saved is what is restored: the session in the file is loaded into a client for the
/// homeserver in the file.
pub proof fn law_what_was_saved_is_restored(
    manager: MatrixManager,
    file_exists: bool,
    first: RestoreStep<String>,
    path: &str,
    outcome: FileOutcome<String>,
    read: RestoreStep<String>,
    saved: SavedSession<String>,
    built: Result<(), String>,
    rebuilt: RestoreStep<String>,
)
    requires
        call_ensures(MatrixManager::try_restore, (&manager, file_exists), first),
        call_ensures(on_session_file_read, (path, outcome), read),
        call_ensures(on_client_rebuilt, (saved, built), rebuilt),
    ensures
        file_exists ==> (first matches RestoreStep::ReadFile(file) && file@
            == manager.session_path@),
        !file_exists ==> first is NotRestored,
        match outcome {
            FileOutcome::Done(found) => read matches RestoreStep::BuildClient(kept)
                && kept.homeserver@ == found.homeserver@ && same_account(
                kept.session,
                found.session,
            ),
            FileOutcome::Read(cause) => read matches RestoreStep::Fail(message) && message@
                == "reading session file "@ + path@ + ": "@ + cause@,
            FileOutcome::Parse(cause) => read matches RestoreStep::Fail(message) && message@
                == "parsing saved session file"@ + ": "@ + cause@,
        },
        match built {
            Ok(_) => rebuilt matches RestoreStep::LoadSession(session) && same_account(
                session,
                saved.session,
            ),
            Err(cause) => rebuilt matches RestoreStep::Fail(message) && message@
                == "failed to build client for homeserver "@ + saved.homeserver@ + ": "@ + cause@,
        },
{
    if outcome is Done {
        assert(read is BuildClient);
        let kept = read->BuildClient_0;
        let found = outcome->Done_0;
        assert(crate::session::account_view(kept.session) == crate::session::account_view(
            found.session,
        ));
        assert(crate::text::text_of(kept.session.refresh_token) == crate::text::text_of(
            found.session.refresh_token,
        ));
    }
    if built is Ok {
        assert(rebuilt is LoadSession);
        assert(crate::session::account_view(rebuilt->LoadSession_0)
            == crate::session::account_view(saved.session));
        assert(crate::text::text_of(rebuilt->LoadSession_0.refresh_token)
            == crate::text::text_of(saved.session.refresh_token));
    }
}

/// A session is discarded exactly if its store is another device's, or the homeserver says that it
/// does not know its token; in particular not because the homeserver could not be asked.
pub proof fn law_sessions_are_discarded_for_cause(
    loaded: Result<(), (SessionFault, String)>,
    step: RestoreStep<String>,
    checked: Result<(), ApiFailure>,
    next: RestoreStep<String>,
)
    requires
        call_ensures(on_session_loaded, (loaded,), step),
        call_ensures(on_token_checked, (checked,), next),
    ensures
        match loaded {
            Ok(_) => step is CheckToken,
            Err((fault, cause)) => if of_another_device(fault) {
                step is Discard
            } else {
                step matches RestoreStep::Fail(message) && message@ == "restoring saved session"@
                    + ": "@ + cause@
            },
        },
        match checked {
            Err(ApiFailure { fault: Some(ApiFault::UnknownToken), .. }) => next is Discard,
            _ => next is Sync,
        },
{
}

/// A logout takes a session. It forgets the session and any verification once the token is invalid,
/// by this logout or before; if it fails, nothing changes.
pub proof fn law_logouts_forget_the_session(
    manager: &mut MatrixManager,
    outcome: Result<(), ApiFailure>,
    step: LogoutStep<String>,
)
    requires
        call_ensures(MatrixManager::on_logged_out, (manager, outcome), step),
    ensures
        ({
            let gone = match outcome {
                Ok(_) => true,
                Err(failure) => failure.fault == Some(ApiFault::UnknownToken),
            };
            if gone {
                &&& step is ClearState
                &&& set_up_alike(*old(manager), *final(manager))
                &&& final(manager).session is None
                &&& !final(manager).pending_verification
                &&& !final(manager).pending_sas
            } else {
                &&& step matches LogoutStep::Fail(message) && message@ == "logout failed"@ + ": "@
                    + outcome->Err_0.message@
                &&& *final(manager) == *old(manager)
            }
        }),
{
}

/// Whoever is logged in can log out.
pub proof fn law_logouts_take_a_session(manager: MatrixManager, session: Result<(), String>)
    requires
        call_ensures(MatrixManager::logout, (&manager,), session),
    ensures
        manager.session is Some ==> session is Ok,
        manager.session is None ==> refused(session, advice_to_log_in()),
{
}

/// Whether a name is that of a database of the client's or of one of the files beside it, of one
/// kind.
pub open spec fn database_file(name: Seq<char>, kind: Seq<char>) -> bool {
    let database = "matrix-sdk-"@ + kind + ".sqlite3"@;
    name == database || name == database + "-wal"@ || name == database + "-shm"@ || name == database
        + "-journal"@
}

/// Whether a name is that of one of the client's own files.
pub open spec fn own_file(name: Seq<char>) -> bool {
    database_file(name, "state"@) || database_file(name, "crypto"@) || database_file(
        name,
        "event-cache"@,
    ) || database_file(name, "media"@)
}

proof fn lemma_own_files(name: Seq<char>)
    ensures
        crate::restore::store_file(name) <==> own_file(name),
{
    reveal_strlit("");
    if own_file(name) {
        let kind = if database_file(name, "state"@) {
            "state"@
        } else if database_file(name, "crypto"@) {
            "crypto"@
        } else if database_file(name, "event-cache"@) {
            "event-cache"@
        } else {
            "media"@
        };
        let database = "matrix-sdk-"@ + kind + ".sqlite3"@;
        assert(crate::restore::store_kind(kind));
        assert(database + ""@ =~= database);
        if name == database {
            assert(name == crate::restore::store_name(kind, ""@));
        } else if name == database + "-wal"@ {
            assert(name == crate::restore::store_name(kind, "-wal"@));
        } else if name == database + "-shm"@ {
            assert(name == crate::restore::store_name(kind, "-shm"@));
        } else {
            assert(name == crate::restore::store_name(kind, "-journal"@));
        }
    }
    if crate::restore::store_file(name) {
        let (kind, companion) = choose|kind: Seq<char>, companion: Seq<char>|
            crate::restore::store_kind(kind) && crate::restore::store_companion(companion) && name
                == #[trigger] crate::restore::store_name(kind, companion);
        let database = "matrix-sdk-"@ + kind + ".sqlite3"@;
        assert(database + ""@ =~= database);
        assert(database_file(name, kind));
    }
}

/// The client's own files are known by their names.
pub proof fn law_own_files_are_known(name: &str, yes: bool)
    requires
        call_ensures(is_store_file, (name,), yes),
    ensures
        yes <==> own_file(name@),
{
    lemma_own_files(name@);
}

/// Clearing the local state takes the session file and, of the store directory, exactly the client's
/// own files, all of them; the directory goes only if it could be read.
pub proof fn law_own_files_are_cleared(
    manager: MatrixManager,
    names: Vec<String>,
    plan: ClearPlan,
    missing: ClearPlan,
    unreadable: ClearPlan,
    i: int,
)
    requires
        call_ensures(
            MatrixManager::clear_local_state,
            (&manager, &Listing::Entries(names)),
            plan,
        ),
        call_ensures(MatrixManager::clear_local_state, (&manager, &Listing::Missing), missing),
        call_ensures(
            MatrixManager::clear_local_state,
            (&manager, &Listing::Unreadable),
            unreadable,
        ),
    ensures
        plan.session_file@ == manager.session_path@,
        missing.session_file@ == manager.session_path@,
        unreadable.session_file@ == manager.session_path@,
        plan.store@ == manager.store_path@,
        plan.directory,
        !missing.directory && missing.entries@.len() == 0,
        !unreadable.directory && unreadable.entries@.len() == 0,
        0 <= i < names@.len() && own_file(names@[i]@) ==> plan.entries@.contains(i as usize),
        0 <= i < plan.entries@.len() ==> plan.entries@[i] < names@.len() && own_file(
            names@[plan.entries@[i] as int]@,
        ),
        plan.entries@.no_duplicates(),
{
    assert(names@.len() == names.len());
    crate::restore::law_only_store_files_are_deleted(names@, names@.len());
    if 0 <= i < names@.len() {
        lemma_own_files(names@[i]@);
    }
    if 0 <= i < plan.entries@.len() {
        assert(plan.entries@.contains(plan.entries@[i]));
        lemma_own_files(names@[plan.entries@[i] as int]@);
    }
}

} // verus!
