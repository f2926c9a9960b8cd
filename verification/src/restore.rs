//! Restoring a saved session, logging out, and the local state that goes with a session.

use vstd::prelude::*;

use crate::account::{disconnected_json, whoami_json, ClientStatus};
use crate::manager::{session_path_of, Environment, MatrixManager, Session};
use crate::outcome::fails_with;
use crate::path::joined;
use crate::session::{
    account_view, build_error_message, build_failure, cause_of, connected, is_mismatched_account,
    is_unknown_token, login_end, mismatched, saved_view, AccountSession, ApiFailure, ApiFault,
    Login, LoginSight, SavedSession, SessionFault,
};
use crate::text::{begins_with, first_of, in_context, same_text, text_of, with_context};

verus! {

/// What the driver that restores a session does next.
pub enum RestoreStep<S> {
    /// Read the session file at this path.
    ReadFile(S),
    /// Build a client for the homeserver that was saved.
    BuildClient(SavedSession<S>),
    /// Load the session into the client.
    LoadSession(AccountSession<S>),
    /// Ask the homeserver whether the access token still works.
    CheckToken,
    /// Drop the client and delete the local state; nothing is restored.
    Discard,
    /// Sync, as far as that is possible; then the session is restored.
    Sync,
    /// There is no session to restore.
    NotRestored,
    Fail(S),
}

/// How reading the session file ended.
pub enum FileOutcome<S> {
    Done(SavedSession<S>),
    /// The file could not be read.
    Read(S),
    /// The file does not hold a session.
    Parse(S),
}

pub open spec fn restore_view(step: RestoreStep<String>) -> RestoreStep<Seq<char>> {
    match step {
        RestoreStep::ReadFile(path) => RestoreStep::ReadFile(path@),
        RestoreStep::BuildClient(saved) => RestoreStep::BuildClient(saved_view(saved)),
        RestoreStep::LoadSession(session) => RestoreStep::LoadSession(account_view(session)),
        RestoreStep::CheckToken => RestoreStep::CheckToken,
        RestoreStep::Discard => RestoreStep::Discard,
        RestoreStep::Sync => RestoreStep::Sync,
        RestoreStep::NotRestored => RestoreStep::NotRestored,
        RestoreStep::Fail(message) => RestoreStep::Fail(message@),
    }
}

pub open spec fn file_view(outcome: FileOutcome<String>) -> FileOutcome<Seq<char>> {
    match outcome {
        FileOutcome::Done(saved) => FileOutcome::Done(saved_view(saved)),
        FileOutcome::Read(cause) => FileOutcome::Read(cause@),
        FileOutcome::Parse(cause) => FileOutcome::Parse(cause@),
    }
}

/// What follows from whether there is a session file.
pub open spec fn first_restore_step(session_path: Seq<char>, file_exists: bool) -> RestoreStep<
    Seq<char>,
> {
    if file_exists {
        RestoreStep::ReadFile(session_path)
    } else {
        RestoreStep::NotRestored
    }
}

/// What follows a step: the failure of the restoration, if the step has an error, or else the next
/// step.
pub open spec fn unless_failed(
    error: Option<Seq<char>>,
    next: RestoreStep<Seq<char>>,
) -> RestoreStep<Seq<char>> {
    match error {
        Some(message) => RestoreStep::Fail(message),
        None => next,
    }
}

/// The error of reading the session file, if it failed.
pub open spec fn file_error(session_path: Seq<char>, outcome: FileOutcome<Seq<char>>) -> Option<
    Seq<char>,
> {
    match outcome {
        FileOutcome::Done(_) => None,
        FileOutcome::Read(cause) => Some(
            in_context("reading session file "@ + session_path, cause),
        ),
        FileOutcome::Parse(cause) => Some(in_context("parsing saved session file"@, cause)),
    }
}

/// What follows once the session file was read.
pub open spec fn after_file(session_path: Seq<char>, outcome: FileOutcome<Seq<char>>) -> RestoreStep<
    Seq<char>,
> {
    unless_failed(file_error(session_path, outcome), RestoreStep::BuildClient(outcome->Done_0))
}

/// What follows once the client was built, or why it was not.
pub open spec fn after_rebuild(
    saved: SavedSession<Seq<char>>,
    failure: Option<Seq<char>>,
) -> RestoreStep<Seq<char>> {
    unless_failed(
        build_failure(saved.homeserver, failure),
        RestoreStep::LoadSession(saved.session),
    )
}

/// Whether loading the session failed because the session file and the store belong to different
/// devices.
pub open spec fn load_mismatched(failure: Option<(SessionFault, Seq<char>)>) -> bool {
    failure matches Some((fault, _)) && mismatched(fault)
}

/// The error of loading the session, if it failed for any other reason.
pub open spec fn load_error(failure: Option<(SessionFault, Seq<char>)>) -> Option<Seq<char>> {
    match failure {
        Some((fault, message)) => if mismatched(fault) {
            None
        } else {
            Some(in_context("restoring saved session"@, message))
        },
        None => None,
    }
}

/// What follows once the session was loaded, or why it was not. Where the session file and the
/// store belong to different devices neither can be trusted, and both are discarded.
pub open spec fn after_load(failure: Option<(SessionFault, Seq<char>)>) -> RestoreStep<Seq<char>> {
    if load_mismatched(failure) {
        RestoreStep::Discard
    } else {
        unless_failed(load_error(failure), RestoreStep::CheckToken)
    }
}

/// Whether the homeserver says that it does not know the access token, given how asking it failed.
pub open spec fn token_unknown(failure: Option<(Option<ApiFault>, Seq<char>)>) -> bool {
    failure matches Some((fault, _)) && fault == Some(ApiFault::UnknownToken)
}

/// What follows from whether the access token still works, where the homeserver could be asked.
/// Only a definite "unknown token" discards the session: any other failure keeps it, so a
/// transient network problem never logs anyone out.
pub open spec fn after_check(failure: Option<(Option<ApiFault>, Seq<char>)>) -> RestoreStep<
    Seq<char>,
> {
    if token_unknown(failure) {
        RestoreStep::Discard
    } else {
        RestoreStep::Sync
    }
}

pub open spec fn load_failure(outcome: Result<(), (SessionFault, String)>) -> Option<
    (SessionFault, Seq<char>),
> {
    match outcome {
        Ok(_) => None,
        Err((fault, message)) => Some((fault, message@)),
    }
}

pub open spec fn check_failure(outcome: Result<(), ApiFailure>) -> Option<
    (Option<ApiFault>, Seq<char>),
> {
    match outcome {
        Ok(_) => None,
        Err(failure) => Some((failure.fault, failure.message@)),
    }
}

pub fn on_session_file_read(session_path: &str, outcome: FileOutcome<String>) -> (step: RestoreStep<
    String,
>)
    ensures
        restore_view(step) == after_file(session_path@, file_view(outcome)),
{
    match outcome {
        FileOutcome::Done(saved) => RestoreStep::BuildClient(saved),
        FileOutcome::Read(cause) => RestoreStep::Fail(
            with_context(&"reading session file ".to_owned().concat(session_path), &cause),
        ),
        FileOutcome::Parse(cause) => RestoreStep::Fail(
            with_context("parsing saved session file", &cause),
        ),
    }
}

pub fn on_client_rebuilt(saved: SavedSession<String>, outcome: Result<(), String>) -> (step:
    RestoreStep<String>)
    ensures
        restore_view(step) == after_rebuild(saved_view(saved), cause_of(outcome)),
{
    match outcome {
        Ok(()) => RestoreStep::LoadSession(saved.session),
        Err(cause) => RestoreStep::Fail(build_error_message(&saved.homeserver, &cause)),
    }
}

pub fn on_session_loaded(outcome: Result<(), (SessionFault, String)>) -> (step: RestoreStep<String>)
    ensures
        restore_view(step) == after_load(load_failure(outcome)),
{
    match outcome {
        Ok(()) => RestoreStep::CheckToken,
        Err((fault, message)) => {
            if is_mismatched_account(fault) {
                RestoreStep::Discard
            } else {
                RestoreStep::Fail(with_context("restoring saved session", &message))
            }
        },
    }
}

pub fn on_token_checked(outcome: Result<(), ApiFailure>) -> (step: RestoreStep<String>)
    ensures
        restore_view(step) == after_check(check_failure(outcome)),
{
    match outcome {
        Ok(()) => RestoreStep::Sync,
        Err(failure) => if is_unknown_token(&failure) {
            RestoreStep::Discard
        } else {
            RestoreStep::Sync
        },
    }
}

/// How the steps of a restoration end, whether or not it takes them.
pub ghost struct RestoreSight {
    pub file_exists: bool,
    pub file: FileOutcome<Seq<char>>,
    pub built: Option<Seq<char>>,
    pub loaded: Option<(SessionFault, Seq<char>)>,
    pub checked: Option<(Option<ApiFault>, Seq<char>)>,
}

/// How a restoration ends.
pub ghost enum RestoreEnd {
    /// The session that is given lives on, on a client for the homeserver that is given.
    Restored(SavedSession<Seq<char>>),
    /// Nothing is restored; `discarded` if the local state was deleted.
    NotRestored { discarded: bool },
    Failed(Seq<char>),
}

/// A restoration as a whole.
pub open spec fn restore_end(
    session_path: Seq<char>,
    sight: RestoreSight,
) -> RestoreEnd {
    let saved = sight.file->Done_0;
    let error = first_of(
        file_error(session_path, sight.file),
        first_of(build_failure(saved.homeserver, sight.built), load_error(sight.loaded)),
    );
    if !sight.file_exists {
        RestoreEnd::NotRestored { discarded: false }
    } else {
        match error {
            Some(message) => RestoreEnd::Failed(message),
            None => if load_mismatched(sight.loaded) || token_unknown(sight.checked) {
                RestoreEnd::NotRestored { discarded: true }
            } else {
                RestoreEnd::Restored(saved)
            },
        }
    }
}

/// What a driver that is asked for a step comes to, if it needs no more steps than given. The
/// homeserver and the session are those that it was last asked to build a client for and to load.
pub open spec fn restore_driven(
    session_path: Seq<char>,
    step: RestoreStep<Seq<char>>,
    sight: RestoreSight,
    homeserver: Seq<char>,
    session: AccountSession<Seq<char>>,
    steps: nat,
) -> Option<RestoreEnd>
    decreases steps,
{
    if steps == 0 {
        None
    } else {
        let left = (steps - 1) as nat;
        match step {
            RestoreStep::ReadFile(path) => restore_driven(
                session_path,
                after_file(path, sight.file),
                sight,
                homeserver,
                session,
                left,
            ),
            RestoreStep::BuildClient(saved) => restore_driven(
                session_path,
                after_rebuild(saved, sight.built),
                sight,
                saved.homeserver,
                session,
                left,
            ),
            RestoreStep::LoadSession(loaded) => restore_driven(
                session_path,
                after_load(sight.loaded),
                sight,
                homeserver,
                loaded,
                left,
            ),
            RestoreStep::CheckToken => restore_driven(
                session_path,
                after_check(sight.checked),
                sight,
                homeserver,
                session,
                left,
            ),
            RestoreStep::Discard => Some(RestoreEnd::NotRestored { discarded: true }),
            RestoreStep::Sync => Some(
                RestoreEnd::Restored(SavedSession { homeserver, session }),
            ),
            RestoreStep::NotRestored => Some(RestoreEnd::NotRestored { discarded: false }),
            RestoreStep::Fail(message) => Some(RestoreEnd::Failed(message)),
        }
    }
}

/// A driver that does what the steps ask for carries out the restoration, in no more than five
/// steps, whatever it held before.
pub proof fn law_steps_make_a_restoration(
    session_path: Seq<char>,
    sight: RestoreSight,
    homeserver: Seq<char>,
    session: AccountSession<Seq<char>>,
)
    ensures
        restore_driven(
            session_path,
            first_restore_step(session_path, sight.file_exists),
            sight,
            homeserver,
            session,
            5,
        ) == Some(restore_end(session_path, sight)),
{
    reveal_with_fuel(restore_driven, 6);
}

/// The local state is discarded only if the session file and the store belong to different
/// devices, or if the homeserver says that it does not know the access token: a session whose
/// token could not be checked is kept, and restored.
pub proof fn law_only_dead_sessions_are_discarded(session_path: Seq<char>, sight: RestoreSight)
    ensures
        restore_end(session_path, sight) == (RestoreEnd::NotRestored { discarded: true })
            ==> match sight.loaded {
            Some((fault, _)) => mismatched(fault),
            None => token_unknown(sight.checked),
        },
        sight.file_exists && sight.file is Done && sight.built is None && sight.loaded is None
            && !token_unknown(sight.checked) ==> restore_end(session_path, sight) is Restored,
{
}

/// A session is restored as it was saved: a login that succeeds has written its session, with its
/// homeserver, to the file that the next start under the same environment reads; and where that
/// file still holds what was written, the client is built for that homeserver and that session is
/// the one that lives on, unless the client refuses it or the homeserver no longer knows its token.
pub proof fn law_saved_session_is_restored(
    env: Environment,
    before: MatrixManager,
    after: MatrixManager,
    login: Login,
    given: Option<Seq<char>>,
    login_sight: LoginSight,
    restore_sight: RestoreSight,
)
    requires
        before.session_path@ == session_path_of(env),
        after.session_path@ == session_path_of(env),
        before.sets_up(login, given),
        login_end(login.kind(), login.homeserver@, login.session_path@, login_sight).error is None,
        restore_sight.file_exists,
        login_end(
            login.kind(),
            login.homeserver@,
            login.session_path@,
            login_sight,
        ).saved matches Some(file) && restore_sight.file == FileOutcome::Done(file.saved),
        restore_sight.built is None,
        restore_sight.loaded is None,
        !token_unknown(restore_sight.checked),
    ensures
        login_end(
            login.kind(),
            login.homeserver@,
            login.session_path@,
            login_sight,
        ).saved matches Some(file) && file.path == after.session_path@,
        login_sight.session matches Some(session) && restore_end(
            after.session_path@,
            restore_sight,
        ) == RestoreEnd::Restored(SavedSession { homeserver: login.homeserver@, session }),
{
}

/// The error of a logout, if it fails. A revoked token means the device is already gone
/// server-side, which is what logout was for.
pub open spec fn logout_error(outcome: Result<(), ApiFailure>) -> Option<Seq<char>> {
    match outcome {
        Ok(_) => None,
        Err(failure) => if failure.fault == Some(ApiFault::UnknownToken) {
            None
        } else {
            Some(in_context("logout failed"@, failure.message@))
        },
    }
}

/// What the driver of a logout does next.
pub enum LogoutStep<S> {
    /// Drop the client, and delete the local state as [`MatrixManager::clear_local_state`] plans
    /// it; then the logout is done.
    ClearState,
    /// The logout has failed, with the error given.
    Fail(S),
}

pub open spec fn logout_view(step: LogoutStep<String>) -> LogoutStep<Seq<char>> {
    match step {
        LogoutStep::ClearState => LogoutStep::ClearState,
        LogoutStep::Fail(message) => LogoutStep::Fail(message@),
    }
}

/// What follows once the access token was invalidated, or was not.
pub open spec fn after_logout(outcome: Result<(), ApiFailure>) -> LogoutStep<Seq<char>> {
    match logout_error(outcome) {
        Some(message) => LogoutStep::Fail(message),
        None => LogoutStep::ClearState,
    }
}

/// What a logout leaves behind.
pub open spec fn logged_out(
    before: MatrixManager,
    after: MatrixManager,
    outcome: Result<(), ApiFailure>,
    step: LogoutStep<String>,
) -> bool {
    &&& logout_view(step) == after_logout(outcome)
    &&& match step {
        LogoutStep::ClearState => {
            &&& after.same_settings(before)
            &&& after.session is None
            &&& !after.pending_verification
            &&& !after.pending_sas
        },
        LogoutStep::Fail(_) => after == before,
    }
}

impl MatrixManager {
    /// Restore a previously saved session from disk, if one exists.
    pub fn try_restore(&self, file_exists: bool) -> (step: RestoreStep<String>)
        ensures
            restore_view(step) == first_restore_step(self.session_path@, file_exists),
    {
        if file_exists {
            RestoreStep::ReadFile(self.session_path.clone())
        } else {
            RestoreStep::NotRestored
        }
    }

    /// Record the account whose session was restored.
    pub fn restored(&mut self, user_id: Option<String>)
        ensures
            connected(*old(self), *final(self), user_id),
            final(self).well_formed(),
    {
        self.session = Some(Session { user_id });
    }

    /// Log out of the current session: whether there is one.
    pub fn logout(&self) -> (session: Result<(), String>)
        ensures
            fails_with(session, self.connection_error()),
    {
        match self.connected_client() {
            Ok(_) => Ok(()),
            Err(message) => Err(message),
        }
    }

    /// Takes note of how invalidating the access token ended. Once logged out, the session is
    /// forgotten along with any verification in progress, which belongs to the device being logged
    /// out, and the local state is to be cleared; a logout that failed changes nothing.
    pub fn on_logged_out(&mut self, outcome: Result<(), ApiFailure>) -> (step: LogoutStep<String>)
        ensures
            logged_out(*old(self), *final(self), outcome, step),
            old(self).well_formed() ==> final(self).well_formed(),
    {
        match outcome {
            Ok(()) => {},
            Err(failure) => {
                if !is_unknown_token(&failure) {
                    return LogoutStep::Fail(with_context("logout failed", &failure.message));
                }
            },
        }
        self.session = None;
        self.pending_verification = false;
        self.pending_sas = false;
        LogoutStep::ClearState
    }
}

/// What the client keeps in a database of its own.
pub open spec fn store_kind(kind: Seq<char>) -> bool {
    kind == "state"@ || kind == "crypto"@ || kind == "event-cache"@ || kind == "media"@
}

/// What follows the name of a database: nothing, or the mark of one of the files that SQLite keeps
/// beside it.
pub open spec fn store_companion(companion: Seq<char>) -> bool {
    companion == ""@ || companion == "-wal"@ || companion == "-shm"@ || companion == "-journal"@
}

/// The name of a database of the client's, or of a file beside it.
pub open spec fn store_name(kind: Seq<char>, companion: Seq<char>) -> Seq<char> {
    "matrix-sdk-"@ + kind + ".sqlite3"@ + companion
}

/// Whether a file in the store directory is one of the client's own:
/// `matrix-sdk-{state,crypto,event-cache,media}.sqlite3`, or its `-wal`, `-shm` or `-journal`
/// companion.
pub open spec fn store_file(name: Seq<char>) -> bool {
    exists|kind: Seq<char>, companion: Seq<char>|
        store_kind(kind) && store_companion(companion) && name == #[trigger] store_name(
            kind,
            companion,
        )
}

fn is_database_file(name: &str, kind: &str) -> (yes: bool)
    ensures
        yes == exists|companion: Seq<char>|
            store_companion(companion) && name@ == #[trigger] store_name(kind@, companion),
{
    let database = "matrix-sdk-".to_owned().concat(kind).concat(".sqlite3");
    let alone: bool = same_text(name, &database.as_str().to_owned().concat(""));
    let wal: bool = same_text(name, &database.as_str().to_owned().concat("-wal"));
    let shm: bool = same_text(name, &database.as_str().to_owned().concat("-shm"));
    let journal: bool = same_text(name, &database.as_str().to_owned().concat("-journal"));
    assert(alone == (name@ == store_name(kind@, ""@)));
    assert(wal == (name@ == store_name(kind@, "-wal"@)));
    assert(shm == (name@ == store_name(kind@, "-shm"@)));
    assert(journal == (name@ == store_name(kind@, "-journal"@)));
    alone || wal || shm || journal
}

pub fn is_store_file(name: &str) -> (yes: bool)
    ensures
        yes == store_file(name@),
{
    is_database_file(name, "state") || is_database_file(name, "crypto") || is_database_file(
        name,
        "event-cache",
    ) || is_database_file(name, "media")
}

/// What reading the store directory gave.
pub enum Listing {
    /// There is no such directory.
    Missing,
    Unreadable,
    /// The names of its entries.
    Entries(Vec<String>),
}

impl Listing {
    /// The names of the entries that were found.
    pub open spec fn names(self) -> Seq<String> {
        match self {
            Listing::Entries(names) => names@,
            _ => Seq::empty(),
        }
    }
}

/// What is deleted of the local state.
pub struct ClearPlan {
    /// The session file, which goes first.
    pub session_file: String,
    /// The store directory.
    pub store: String,
    /// The entries of the store directory to delete, by their places in the listing.
    pub entries: Vec<usize>,
    /// Whether to remove the store directory, which succeeds only if nothing else lives there.
    pub directory: bool,
}

/// The places, in order, of the client's own files among the first `n` names.
pub open spec fn store_files(names: Seq<String>, n: nat) -> Seq<usize>
    decreases n,
{
    if n == 0 || n > names.len() {
        Seq::empty()
    } else {
        let before = store_files(names, (n - 1) as nat);
        if store_file(names[n - 1]@) {
            before.push((n - 1) as usize)
        } else {
            before
        }
    }
}

/// What is planned for the local state of a manager, given what its store directory holds.
pub open spec fn planned(manager: MatrixManager, listing: Listing, plan: ClearPlan) -> bool {
    &&& plan.session_file@ == manager.session_path@
    &&& plan.store@ == manager.store_path@
    &&& plan.entries@ == store_files(listing.names(), listing.names().len())
    &&& plan.directory == (listing is Entries)
}

/// The places of the client's own files among the names of a listing.
fn find_store_files(names: &Vec<String>) -> (entries: Vec<usize>)
    ensures
        entries@ == store_files(names@, names@.len()),
{
    let mut entries: Vec<usize> = Vec::new();
    let mut i: usize = 0;
    while i < names.len()
        invariant
            i <= names.len(),
            entries@ == store_files(names@, i as nat),
        decreases names.len() - i,
    {
        if is_store_file(&names[i]) {
            entries.push(i);
        }
        i = i + 1;
    }
    entries
}

impl MatrixManager {
    /// Plans the deletion of the session file and of the store.
    ///
    /// Only the files the client itself creates are removed from the store directory (which is
    /// then removed if it is left empty), never the whole tree: `MATRIX_STORE_PATH` is
    /// user-configurable, and a blanket recursive delete on a misconfigured path could take
    /// unrelated files with it.
    pub fn clear_local_state(&self, listing: &Listing) -> (plan: ClearPlan)
        ensures
            planned(*self, *listing, plan),
    {
        let (entries, directory) = match listing {
            Listing::Entries(names) => (find_store_files(names), true),
            Listing::Missing => (Vec::new(), false),
            Listing::Unreadable => (Vec::new(), false),
        };
        ClearPlan {
            session_file: self.session_path.clone(),
            store: self.store_path.clone(),
            entries,
            directory,
        }
    }
}

/// Whether a plan deletes the file at a path, where the store directory holds the names given.
pub open spec fn deletes(plan: ClearPlan, names: Seq<String>, path: Seq<char>) -> bool {
    path == plan.session_file@ || exists|i: usize|
        i < names.len() && plan.entries@.contains(i) && path == #[trigger] joined(
            plan.store@,
            names[i as int]@,
        )
}

/// The files that a plan leaves on the disk, once it was carried out.
pub open spec fn left_on_disk(
    disk: Set<Seq<char>>,
    plan: ClearPlan,
    names: Seq<String>,
) -> Set<Seq<char>> {
    disk.filter(|path: Seq<char>| !deletes(plan, names, path))
}

/// Whether a plan leaves the store directory in place: it is not even tried to remove it, or
/// something that is not deleted lives there.
pub open spec fn store_stays(plan: ClearPlan, names: Seq<String>) -> bool {
    !plan.directory || exists|i: int|
        0 <= i < names.len() && !plan.entries@.contains(#[trigger] (i as usize))
}

/// Clearing the local state takes the session file and the client's own files in the store
/// directory, and nothing else; and of the directory itself, nothing is left if nothing but these
/// was in it.
pub proof fn law_clearing_takes_the_local_state_alone(
    manager: MatrixManager,
    names: Vec<String>,
    plan: ClearPlan,
    disk: Set<Seq<char>>,
)
    requires
        planned(manager, Listing::Entries(names), plan),
    ensures
        !left_on_disk(disk, plan, names@).contains(manager.session_path@),
        forall|i: int|
            0 <= i < names@.len() && store_file(names@[i]@) ==> !left_on_disk(
                disk,
                plan,
                names@,
            ).contains(#[trigger] joined(manager.store_path@, names@[i]@)),
        forall|path: Seq<char>|
            #![trigger left_on_disk(disk, plan, names@).contains(path)]
            disk.contains(path) && path != manager.session_path@ && (forall|i: int|
                0 <= i < names@.len() && store_file(names@[i]@) ==> path != #[trigger] joined(
                    manager.store_path@,
                    names@[i]@,
                )) ==> left_on_disk(disk, plan, names@).contains(path),
        store_stays(plan, names@) <==> exists|i: int|
            0 <= i < names@.len() && !store_file((#[trigger] names@[i])@),
{
    let all = names@;
    assert(all.len() == names.len());
    law_only_store_files_are_deleted(all, all.len());
    assert forall|i: int| 0 <= i < all.len() && store_file(all[i]@) implies !left_on_disk(
        disk,
        plan,
        all,
    ).contains(#[trigger] joined(manager.store_path@, all[i]@)) by {
        let k = i as usize;
        assert(plan.entries@.contains(k));
        assert(joined(plan.store@, all[k as int]@) == joined(manager.store_path@, all[i]@));
    }
    assert forall|path: Seq<char>|
        #![trigger left_on_disk(disk, plan, all).contains(path)]
        disk.contains(path) && path != manager.session_path@ && (forall|i: int|
            0 <= i < all.len() && store_file(all[i]@) ==> path != #[trigger] joined(
                manager.store_path@,
                all[i]@,
            )) implies left_on_disk(disk, plan, all).contains(path) by {
        if deletes(plan, all, path) {
            let i = choose|i: usize|
                i < all.len() && plan.entries@.contains(i) && path == #[trigger] joined(
                    plan.store@,
                    all[i as int]@,
                );
            assert(store_file(all[i as int]@));
            assert(path == joined(manager.store_path@, all[i as int]@));
        }
    }
    if store_stays(plan, all) {
        let i = choose|i: int| 0 <= i < all.len() && !plan.entries@.contains(#[trigger] (i as usize));
        assert(!store_file(all[i]@));
    }
    if exists|i: int| 0 <= i < all.len() && !store_file((#[trigger] all[i])@) {
        let i = choose|i: int| 0 <= i < all.len() && !store_file((#[trigger] all[i])@);
        assert(!plan.entries@.contains(i as usize));
    }
}

/// Exactly the client's own files are deleted: an entry is in the plan if and only if its name is
/// that of one, and no entry is in it twice.
pub proof fn law_only_store_files_are_deleted(names: Seq<String>, n: nat)
    requires
        n <= names.len() <= usize::MAX,
    ensures
        forall|i: usize|
            #![trigger store_files(names, n).contains(i)]
            store_files(names, n).contains(i) <==> i < n && store_file(names[i as int]@),
        store_files(names, n).no_duplicates(),
    decreases n,
{
    if n > 0 {
        let m = (n - 1) as nat;
        law_only_store_files_are_deleted(names, m);
        let before = store_files(names, m);
        let after = store_files(names, n);
        assert forall|i: usize|
            #![trigger store_files(names, n).contains(i)]
            after.contains(i) <==> i < n && store_file(names[i as int]@) by {
            if store_file(names[m as int]@) {
                assert(after == before.push(m as usize));
                assert(after[before.len() as int] == m as usize);
                if before.contains(i) {
                    let k = choose|k: int| 0 <= k < before.len() && before[k] == i;
                    assert(after[k] == i);
                }
                if after.contains(i) && i != m {
                    let k = choose|k: int| 0 <= k < after.len() && after[k] == i;
                    assert(before[k] == i);
                }
                assert(before.contains(i) <==> i < m && store_file(names[i as int]@));
            } else {
                assert(before.contains(i) <==> i < m && store_file(names[i as int]@));
            }
        }
        if store_file(names[m as int]@) {
            assert(!before.contains(m as usize));
            assert(after.no_duplicates()) by {
                assert forall|a: int, b: int|
                    0 <= a < after.len() && 0 <= b < after.len() && a != b implies after[a]
                    != after[b] by {
                    if a == before.len() {
                        assert(before.contains(before[b]));
                    }
                    if b == before.len() {
                        assert(before.contains(before[a]));
                    }
                }
            }
        }
    }
}

/// The files that the client creates are recognised, whichever database they belong to and
/// whichever companion of it they are.
pub proof fn law_client_files_are_store_files(kind: Seq<char>, companion: Seq<char>)
    requires
        store_kind(kind),
        store_companion(companion),
    ensures
        store_file("matrix-sdk-"@ + kind + ".sqlite3"@ + companion),
{
    assert(store_file(store_name(kind, companion)));
}

/// A file whose name does not begin as the client's own do is never deleted.
pub proof fn law_foreign_files_stay(name: Seq<char>)
    requires
        !begins_with(name, "matrix-sdk-"@),
    ensures
        !store_file(name),
{
    if store_file(name) {
        let (kind, companion) = choose|kind: Seq<char>, companion: Seq<char>|
            store_kind(kind) && store_companion(companion) && name == #[trigger] store_name(
                kind,
                companion,
            );
        assert(name.take("matrix-sdk-"@.len() as int) =~= "matrix-sdk-"@);
    }
}

/// A file whose name goes on after that of a database with anything but the mark of a companion is
/// never deleted, though it begins like one of the client's own.
pub proof fn law_files_named_after_a_database_stay(kind: Seq<char>, rest: Seq<char>)
    requires
        store_kind(kind),
        !store_companion(rest),
    ensures
        !store_file("matrix-sdk-"@ + kind + ".sqlite3"@ + rest),
{
    let name = store_name(kind, rest);
    if store_file(name) {
        let (other, companion) = choose|other: Seq<char>, companion: Seq<char>|
            store_kind(other) && store_companion(companion) && name == #[trigger] store_name(
                other,
                companion,
            );
        reveal_strlit("matrix-sdk-");
        reveal_strlit("state");
        reveal_strlit("crypto");
        reveal_strlit("event-cache");
        reveal_strlit("media");
        let n = "matrix-sdk-"@.len() as int;
        assert(name[n] == kind[0]);
        assert(name[n] == other[0]);
        assert(kind == other);
        let database = "matrix-sdk-"@ + kind + ".sqlite3"@;
        assert(name.skip(database.len() as int) =~= rest);
        assert(name.skip(database.len() as int) =~= companion);
    }
}

/// After a logout there is no session: nothing can be continued, confirmed or sent, and a new login
/// is not refused for an old session. A token that the homeserver no longer knows does not stand in
/// the way.
pub proof fn law_logout_leaves_nothing(
    before: MatrixManager,
    after: MatrixManager,
    outcome: Result<(), ApiFailure>,
    step: LogoutStep<String>,
)
    requires
        logged_out(before, after, outcome, step),
        outcome is Ok || outcome->Err_0.fault == Some(ApiFault::UnknownToken),
    ensures
        step is ClearState,
        after.well_formed(),
        after.connection_error() is Some,
        after.logged_in_error() is None,
        after.continue_error() is Some,
        after.confirm_error() is Some,
{
}

/// After a logout, once the local state was deleted as it asks for, nothing is restored: the session
/// file is gone, whatever the store directory held, so the next start finds none.
pub proof fn law_nothing_is_restored_after_a_logout(
    before: MatrixManager,
    after: MatrixManager,
    outcome: Result<(), ApiFailure>,
    step: LogoutStep<String>,
    listing: Listing,
    plan: ClearPlan,
    disk: Set<Seq<char>>,
    sight: RestoreSight,
)
    requires
        logged_out(before, after, outcome, step),
        step is ClearState,
        planned(after, listing, plan),
        sight.file_exists == left_on_disk(disk, plan, listing.names()).contains(
            before.session_path@,
        ),
    ensures
        !sight.file_exists,
        first_restore_step(before.session_path@, sight.file_exists) is NotRestored,
        restore_end(before.session_path@, sight) == (RestoreEnd::NotRestored { discarded: false }),
{
}

/// After a logout, a probe says that nobody is logged in, whatever a client that is left over says
/// of itself; and there is nothing to log out of a second time.
pub proof fn law_logout_shows(
    before: MatrixManager,
    after: MatrixManager,
    outcome: Result<(), ApiFailure>,
    step: LogoutStep<String>,
    client: Option<ClientStatus>,
)
    requires
        logged_out(before, after, outcome, step),
        step is ClearState,
    ensures
        whoami_json(after, client) == disconnected_json(text_of(before.default_homeserver)),
        after.connection_error() is Some,
{
}

/// A logout that fails changes nothing: the session can still be used.
pub proof fn law_failed_logout_changes_nothing(
    before: MatrixManager,
    after: MatrixManager,
    outcome: Result<(), ApiFailure>,
    step: LogoutStep<String>,
)
    requires
        logged_out(before, after, outcome, step),
        outcome is Err,
        outcome->Err_0.fault != Some(ApiFault::UnknownToken),
    ensures
        step is Fail,
        after == before,
{
}

/// Logging in is refused exactly while logged in: the operations that need a session, and the
/// logins that need there to be none, never both get past their first check.
pub proof fn law_login_and_session_exclude_each_other(manager: MatrixManager)
    ensures
        manager.connection_error() is None <==> manager.logged_in_error() is Some,
{
}

} // verus!
