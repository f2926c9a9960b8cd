//! Reading messages and threads.

use vstd::prelude::*;

use crate::backup::BackupState;
use crate::events::{
    count_undecryptable, decryption_hint, event_message, event_messages, event_thread, format_event,
    format_events, hint_for, is_undecryptable, message_of, message_views, messages_json,
    messages_to_json, raw_views, reversed, thread_root_of, undecryptable, undecryptable_among,
    Message, MessageView, RawEvent, RawEventView,
};
use crate::ids::{event_id_error, parse_event_id, resolve_room, room_error};
use crate::json::{no_members, optional_json, Fields, Json, JsonView};
use crate::manager::MatrixManager;
use crate::outcome::fails_with;
use crate::text::{copied, first_of, in_context, owned, slice_text, text_of, with_context};

verus! {

/// A page of events.
pub struct Page {
    pub events: Vec<RawEvent>,
    /// Where the next page begins, if there is one.
    pub next: Option<String>,
}

/// What a [`Page`] is.
pub ghost struct PageView {
    pub events: Seq<RawEventView>,
    pub next: Option<Seq<char>>,
}

impl View for Page {
    type V = PageView;

    open spec fn view(&self) -> PageView {
        PageView { events: raw_views(self.events@), next: text_of(self.next) }
    }
}

/// Whether room keys are to be imported for a page: where something on it could not be decrypted,
/// and the key backup is unlocked.
pub open spec fn keys_needed(events: Seq<RawEventView>, state: BackupState) -> bool {
    state == BackupState::Enabled && exists|i: int|
        0 <= i < events.len() && undecryptable(#[trigger] events[i])
}

/// If any event in `chunk` couldn't be decrypted, and the server-side key backup is unlocked, this
/// room's keys are to be imported from it. Messages sent before this device existed are encrypted
/// with keys it never received, and those keys live in the backup.
///
/// Once they are imported, requesting the same page again decodes it against them.
pub fn recover_room_keys(chunk: &Vec<RawEvent>, state: BackupState) -> (needed: bool)
    ensures
        needed == keys_needed(raw_views(chunk@), state),
{
    if !state.is_enabled() {
        return false;
    }
    let ghost events = raw_views(chunk@);
    let mut i: usize = 0;
    while i < chunk.len()
        invariant
            i <= chunk.len(),
            events == raw_views(chunk@),
            state == BackupState::Enabled,
            forall|k: int| 0 <= k < i ==> !undecryptable(#[trigger] events[k]),
        decreases chunk.len() - i,
    {
        if is_undecryptable(&chunk[i]) {
            proof {
                assert(undecryptable(events[i as int]));
            }
            return true;
        }
        i = i + 1;
    }
    false
}

/// The order in which a page is read: from the newest event back, or from the oldest on.
#[derive(Clone, Copy, PartialEq, Eq, Debug, Structural)]
pub enum Direction {
    Backward,
    Forward,
}

/// The page of a room's events that is fetched.
pub struct MessagesQuery<S> {
    pub direction: Direction,
    pub limit: u32,
    pub from: Option<S>,
}

pub open spec fn messages_query_view(query: MessagesQuery<String>) -> MessagesQuery<Seq<char>> {
    MessagesQuery { direction: query.direction, limit: query.limit, from: text_of(query.from) }
}

/// The page of a thread's events that is fetched: those that relate to the root.
pub struct RepliesQuery<S> {
    pub root_id: S,
    pub direction: Direction,
    pub limit: u32,
    pub from: Option<S>,
    /// The type of the relations that are followed.
    pub rel_type: S,
    /// Whether the relations of what relates to the root are followed, too.
    pub recurse: bool,
}

pub open spec fn replies_query_view(query: RepliesQuery<String>) -> RepliesQuery<Seq<char>> {
    RepliesQuery {
        root_id: query.root_id@,
        direction: query.direction,
        limit: query.limit,
        from: text_of(query.from),
        rel_type: query.rel_type@,
        recurse: query.recurse,
    }
}

/// A request for a page of messages, backward from where it begins.
pub struct MessagesRequest {
    pub room_id: String,
    pub limit: u32,
    pub from: Option<String>,
}

impl MessagesRequest {
    /// What is fetched: the events before where the page begins, newest first.
    pub fn query(&self) -> (query: MessagesQuery<String>)
        ensures
            messages_query_view(query) == (MessagesQuery {
                direction: Direction::Backward,
                limit: self.limit,
                from: text_of(self.from),
            }),
    {
        MessagesQuery {
            direction: Direction::Backward,
            limit: self.limit,
            from: copied(&self.from),
        }
    }
}

/// What reading messages is answered.
pub open spec fn messages_reply(room_id: Seq<char>, page: PageView, recovered: bool) -> JsonView {
    let messages = event_messages(page.events).reverse();
    let undecryptable = undecryptable_among(messages);
    JsonView::Object(
        no_members().push(("room_id"@, JsonView::Text(room_id))).push(
            ("count"@, JsonView::Count(messages.len())),
        ).push(("messages"@, messages_json(messages))).push(
            ("next_token"@, optional_json(page.next)),
        ).push(("undecryptable_count"@, JsonView::Count(undecryptable))).push(
            ("recovered_keys_from_backup"@, JsonView::Bool(recovered)),
        ).push(("hint"@, optional_json(hint_for(undecryptable)))),
    )
}

/// Renders a page of messages, in chronological order: a page read backward comes newest first.
fn render_messages(room_id: &str, page: &Page, recovered: bool) -> (reply: Json)
    ensures
        reply@ == messages_reply(room_id@, page@, recovered),
{
    let messages = reversed(format_events(&page.events));
    let undecryptable: usize = count_undecryptable(&messages);
    proof {
        assert(message_views(messages@).len() == messages@.len());
    }
    Fields::new().with("room_id", Json::text(room_id)).with(
        "count",
        Json::Count(messages.len() as u64),
    ).with("messages", messages_to_json(&messages)).with(
        "next_token",
        Json::optional(&page.next),
    ).with("undecryptable_count", Json::Count(undecryptable as u64)).with(
        "recovered_keys_from_backup",
        Json::Bool(recovered),
    ).with("hint", Json::optional(&decryption_hint(undecryptable))).done()
}

/// What the driver that reads messages does next.
pub enum MessagesStep {
    /// Request the page, and report to [`MessagesRequest::on_messages`].
    Fetch(MessagesRequest),
    /// Import the room's keys from the backup, and report to [`MessagesRequest::on_keys`].
    DownloadKeys(MessagesRequest, Page),
    /// Request the same page once more, and report to [`MessagesRequest::on_messages_again`].
    FetchAgain(MessagesRequest, Page),
    Reply(Json),
    Fail(String),
}

/// What a [`MessagesRequest`] is.
pub ghost struct MessagesRequestView {
    pub room_id: Seq<char>,
    pub limit: u32,
    pub from: Option<Seq<char>>,
}

impl View for MessagesRequest {
    type V = MessagesRequestView;

    open spec fn view(&self) -> MessagesRequestView {
        MessagesRequestView {
            room_id: self.room_id@,
            limit: self.limit,
            from: text_of(self.from),
        }
    }
}

/// What a [`MessagesStep`] is.
pub ghost enum MessagesStepView {
    Fetch(MessagesRequestView),
    DownloadKeys(MessagesRequestView, PageView),
    FetchAgain(MessagesRequestView, PageView),
    Reply(JsonView),
    Fail(Seq<char>),
}

impl View for MessagesStep {
    type V = MessagesStepView;

    open spec fn view(&self) -> MessagesStepView {
        match self {
            MessagesStep::Fetch(request) => MessagesStepView::Fetch(request@),
            MessagesStep::DownloadKeys(request, page) => MessagesStepView::DownloadKeys(
                request@,
                page@,
            ),
            MessagesStep::FetchAgain(request, page) => MessagesStepView::FetchAgain(
                request@,
                page@,
            ),
            MessagesStep::Reply(json) => MessagesStepView::Reply(json@),
            MessagesStep::Fail(message) => MessagesStepView::Fail(message@),
        }
    }
}

pub open spec fn page_outcome(outcome: Result<Page, String>) -> Result<PageView, Seq<char>> {
    match outcome {
        Ok(page) => Ok(page@),
        Err(cause) => Err(cause@),
    }
}

pub open spec fn page_of(page: Option<Page>) -> Option<PageView> {
    match page {
        Some(page) => Some(page@),
        None => None,
    }
}

/// What follows the page that was requested.
pub open spec fn after_messages(
    request: MessagesRequestView,
    outcome: Result<PageView, Seq<char>>,
    state: BackupState,
) -> MessagesStepView {
    match outcome {
        Ok(page) => if keys_needed(page.events, state) {
            MessagesStepView::DownloadKeys(request, page)
        } else {
            MessagesStepView::Reply(messages_reply(request.room_id, page, false))
        },
        Err(cause) => MessagesStepView::Fail(in_context("failed to fetch messages"@, cause)),
    }
}

/// What follows from whether the keys were imported.
pub open spec fn after_keys(
    request: MessagesRequestView,
    page: PageView,
    imported: bool,
) -> MessagesStepView {
    if imported {
        MessagesStepView::FetchAgain(request, page)
    } else {
        MessagesStepView::Reply(messages_reply(request.room_id, page, false))
    }
}

/// What follows the page that was requested once more: it takes the place of the first, if it
/// came.
pub open spec fn after_messages_again(
    request: MessagesRequestView,
    page: PageView,
    again: Option<PageView>,
) -> MessagesStepView {
    match again {
        Some(again) => MessagesStepView::Reply(messages_reply(request.room_id, again, true)),
        None => MessagesStepView::Reply(messages_reply(request.room_id, page, false)),
    }
}

impl MessagesRequest {
    /// Reacts to the page that was requested; `state` is that of the key backup.
    pub fn on_messages(self, outcome: Result<Page, String>, state: BackupState) -> (step:
        MessagesStep)
        ensures
            step@ == after_messages(self@, page_outcome(outcome), state),
    {
        match outcome {
            Ok(page) => if recover_room_keys(&page.events, state) {
                MessagesStep::DownloadKeys(self, page)
            } else {
                MessagesStep::Reply(render_messages(&self.room_id, &page, false))
            },
            Err(cause) => MessagesStep::Fail(with_context("failed to fetch messages", &cause)),
        }
    }

    /// Reacts to the keys that were imported, or not.
    pub fn on_keys(self, page: Page, imported: bool) -> (step: MessagesStep)
        ensures
            step@ == after_keys(self@, page@, imported),
    {
        if imported {
            MessagesStep::FetchAgain(self, page)
        } else {
            MessagesStep::Reply(render_messages(&self.room_id, &page, false))
        }
    }

    /// Reacts to the page that was requested once more, if it came.
    pub fn on_messages_again(self, page: Page, again: Option<Page>) -> (step: MessagesStep)
        ensures
            step@ == after_messages_again(self@, page@, page_of(again)),
    {
        match again {
            Some(again) => MessagesStep::Reply(render_messages(&self.room_id, &again, true)),
            None => MessagesStep::Reply(render_messages(&self.room_id, &page, false)),
        }
    }
}

/// How the steps of reading messages end, whether or not they are taken.
pub ghost struct MessagesSight {
    pub first: Result<PageView, Seq<char>>,
    pub state: BackupState,
    pub imported: bool,
    pub again: Option<PageView>,
}

/// Reading messages as a whole: where something on the page could not be decrypted, and the key
/// backup is unlocked and gives the room's keys, the page is read once more.
pub open spec fn messages_end(room_id: Seq<char>, sight: MessagesSight) -> Result<
    JsonView,
    Seq<char>,
> {
    match sight.first {
        Err(cause) => Err(in_context("failed to fetch messages"@, cause)),
        Ok(page) => {
            let recovered = keys_needed(page.events, sight.state) && sight.imported
                && sight.again is Some;
            Ok(
                messages_reply(
                    room_id,
                    if recovered {
                        sight.again->Some_0
                    } else {
                        page
                    },
                    recovered,
                ),
            )
        },
    }
}

/// What a driver that is asked for a step comes to, if it needs no more steps than given.
pub open spec fn messages_driven(step: MessagesStepView, sight: MessagesSight, steps: nat) -> Option<
    Result<JsonView, Seq<char>>,
>
    decreases steps,
{
    if steps == 0 {
        None
    } else {
        let left = (steps - 1) as nat;
        match step {
            MessagesStepView::Fetch(request) => messages_driven(
                after_messages(request, sight.first, sight.state),
                sight,
                left,
            ),
            MessagesStepView::DownloadKeys(request, page) => messages_driven(
                after_keys(request, page, sight.imported),
                sight,
                left,
            ),
            MessagesStepView::FetchAgain(request, page) => messages_driven(
                after_messages_again(request, page, sight.again),
                sight,
                left,
            ),
            MessagesStepView::Reply(json) => Some(Ok(json)),
            MessagesStepView::Fail(message) => Some(Err(message)),
        }
    }
}

/// A driver that does what the steps ask for reads the messages, in no more than four steps.
pub proof fn law_steps_read_messages(request: MessagesRequestView, sight: MessagesSight)
    ensures
        messages_driven(MessagesStepView::Fetch(request), sight, 4) == Some(
            messages_end(request.room_id, sight),
        ),
{
    reveal_with_fuel(messages_driven, 5);
}

/// A request for a page of a thread, forward from where it begins.
pub struct ThreadRequest {
    pub room_id: String,
    /// The event that was asked for: the thread's root, or any message in the thread.
    pub requested: String,
    pub limit: u32,
    pub from: Option<String>,
}

/// A thread whose root is known.
pub struct ThreadRun {
    pub room_id: String,
    pub root_id: String,
    /// The root itself, which only belongs on the first page.
    pub root: Option<RawEvent>,
    pub limit: u32,
    pub from: Option<String>,
}

impl ThreadRun {
    /// What is fetched: the replies in the thread, and nothing that merely relates to them, in the
    /// order of the conversation.
    pub fn query(&self) -> (query: RepliesQuery<String>)
        ensures
            replies_query_view(query) == (RepliesQuery {
                root_id: self.root_id@,
                direction: Direction::Forward,
                limit: self.limit,
                from: text_of(self.from),
                rel_type: "m.thread"@,
                recurse: false,
            }),
    {
        RepliesQuery {
            root_id: self.root_id.clone(),
            direction: Direction::Forward,
            limit: self.limit,
            from: copied(&self.from),
            rel_type: "m.thread".to_owned(),
            recurse: false,
        }
    }
}

/// What the driver that reads a thread does next.
pub enum ThreadStep {
    /// Fetch the event that was asked for, and report to [`ThreadRequest::on_event`].
    FetchEvent(ThreadRequest),
    /// Fetch the root that is named, and report to [`ThreadRequest::on_root`].
    FetchRoot(ThreadRequest, String),
    /// Request the page of replies, and report to [`ThreadRun::on_replies`].
    FetchReplies(ThreadRun),
    /// Import the room's keys from the backup, and report to [`ThreadRun::on_keys`].
    DownloadKeys(ThreadRun, Page),
    /// Request the same page once more, and report to [`ThreadRun::on_replies_again`].
    FetchRepliesAgain(ThreadRun, Page),
    /// Fetch the root once more, and report to [`ThreadRun::on_root_again`].
    FetchRootAgain(ThreadRun, Page),
    Reply(Json),
    Fail(String),
}

/// What a [`ThreadRequest`] is.
pub ghost struct ThreadRequestView {
    pub room_id: Seq<char>,
    pub requested: Seq<char>,
    pub limit: u32,
    pub from: Option<Seq<char>>,
}

/// What a [`ThreadRun`] is.
pub ghost struct ThreadRunView {
    pub room_id: Seq<char>,
    pub root_id: Seq<char>,
    pub root: Option<RawEventView>,
    pub limit: u32,
    pub from: Option<Seq<char>>,
}

/// What a [`ThreadStep`] is.
pub ghost enum ThreadStepView {
    FetchEvent(ThreadRequestView),
    FetchRoot(ThreadRequestView, Seq<char>),
    FetchReplies(ThreadRunView),
    DownloadKeys(ThreadRunView, PageView),
    FetchRepliesAgain(ThreadRunView, PageView),
    FetchRootAgain(ThreadRunView, PageView),
    Reply(JsonView),
    Fail(Seq<char>),
}

impl View for ThreadRequest {
    type V = ThreadRequestView;

    open spec fn view(&self) -> ThreadRequestView {
        ThreadRequestView {
            room_id: self.room_id@,
            requested: self.requested@,
            limit: self.limit,
            from: text_of(self.from),
        }
    }
}

impl View for ThreadRun {
    type V = ThreadRunView;

    open spec fn view(&self) -> ThreadRunView {
        ThreadRunView {
            room_id: self.room_id@,
            root_id: self.root_id@,
            root: raw_of(self.root),
            limit: self.limit,
            from: text_of(self.from),
        }
    }
}

impl View for ThreadStep {
    type V = ThreadStepView;

    open spec fn view(&self) -> ThreadStepView {
        match self {
            ThreadStep::FetchEvent(request) => ThreadStepView::FetchEvent(request@),
            ThreadStep::FetchRoot(request, root_id) => ThreadStepView::FetchRoot(
                request@,
                root_id@,
            ),
            ThreadStep::FetchReplies(run) => ThreadStepView::FetchReplies(run@),
            ThreadStep::DownloadKeys(run, page) => ThreadStepView::DownloadKeys(run@, page@),
            ThreadStep::FetchRepliesAgain(run, page) => ThreadStepView::FetchRepliesAgain(
                run@,
                page@,
            ),
            ThreadStep::FetchRootAgain(run, page) => ThreadStepView::FetchRootAgain(run@, page@),
            ThreadStep::Reply(json) => ThreadStepView::Reply(json@),
            ThreadStep::Fail(message) => ThreadStepView::Fail(message@),
        }
    }
}

pub open spec fn raw_of(event: Option<RawEvent>) -> Option<RawEventView> {
    match event {
        Some(event) => Some(event@),
        None => None,
    }
}

/// The error of an event that could not be fetched.
pub open spec fn fetch_event_error(event_id: Seq<char>, cause: Seq<char>) -> Seq<char> {
    in_context("failed to fetch event "@ + event_id + " - is it a message in this room?"@, cause)
}

/// The error of a thread root that could not be fetched.
pub open spec fn fetch_root_error(root_id: Seq<char>, cause: Seq<char>) -> Seq<char> {
    in_context("failed to fetch thread root "@ + root_id, cause)
}

/// The message that a root is rendered as, if there is a root and its JSON can be read.
pub open spec fn root_message(root: Option<RawEventView>) -> Option<MessageView> {
    match root {
        Some(event) => event_message(event),
        None => None,
    }
}

/// Whether the root is to be fetched again: it was fetched before any keys were imported, so where
/// the replies triggered a recovery and the root could not be decrypted, it may be now.
pub open spec fn root_outdated(root: Option<RawEventView>, recovered: bool) -> bool {
    recovered && match root_message(root) {
        Some(message) => message.unable_to_decrypt,
        None => false,
    }
}

/// The root message that is shown: that of the root that was fetched again, if it came and can be
/// read, or else the first.
pub open spec fn shown_root(root: Option<RawEventView>, again: Option<RawEventView>) -> Option<
    MessageView,
> {
    first_of(root_message(again), root_message(root))
}

/// The messages of a thread: its root, if it is shown, and its replies.
pub open spec fn thread_messages(root: Option<MessageView>, replies: Seq<RawEventView>) -> Seq<
    MessageView,
> {
    match root {
        Some(message) => Seq::empty().push(message) + event_messages(replies),
        None => event_messages(replies),
    }
}

/// The hint that goes with a thread.
pub open spec fn thread_hint(undecryptable: nat, replies: nat, first_page: bool) -> Option<
    Seq<char>,
> {
    first_of(
        hint_for(undecryptable),
        if replies == 0 && first_page {
            Some(
                "This message has no threaded replies. Replies made with `send_message`'s reply_to_event_id are rich replies, not threads, and stay in the room timeline - read those with `read_messages`."@,
            )
        } else {
            None
        },
    )
}

/// What reading a thread is answered.
pub open spec fn thread_reply(
    room_id: Seq<char>,
    root_id: Seq<char>,
    root: Option<MessageView>,
    page: PageView,
    recovered: bool,
    first_page: bool,
) -> JsonView {
    let messages = thread_messages(root, page.events);
    let undecryptable = undecryptable_among(messages);
    JsonView::Object(
        no_members().push(("room_id"@, JsonView::Text(room_id))).push(
            ("thread_root"@, JsonView::Text(root_id)),
        ).push(("count"@, JsonView::Count(messages.len()))).push(
            ("reply_count"@, JsonView::Count(page.events.len())),
        ).push(("messages"@, messages_json(messages))).push(
            ("next_token"@, optional_json(page.next)),
        ).push(("undecryptable_count"@, JsonView::Count(undecryptable))).push(
            ("recovered_keys_from_backup"@, JsonView::Bool(recovered)),
        ).push(
            ("hint"@, optional_json(thread_hint(undecryptable, page.events.len(), first_page))),
        ),
    )
}

fn format_root(root: &Option<RawEvent>) -> (message: Option<Message>)
    ensures
        message_of(message) == root_message(raw_of(*root)),
{
    match root {
        Some(event) => format_event(event),
        None => None,
    }
}

fn refetch_root(root: &Option<RawEvent>, recovered: bool) -> (again: bool)
    ensures
        again == root_outdated(raw_of(*root), recovered),
{
    if !recovered {
        return false;
    }
    match format_root(root) {
        Some(message) => message.unable_to_decrypt,
        None => false,
    }
}

fn render_root(root: &Option<RawEvent>, again: &Option<RawEvent>) -> (message: Option<Message>)
    ensures
        message_of(message) == shown_root(raw_of(*root), raw_of(*again)),
{
    match format_root(again) {
        Some(message) => Some(message),
        None => format_root(root),
    }
}

/// Renders a page of a thread: the root message followed by its replies, oldest first.
fn render_thread(
    room_id: &str,
    root_id: &str,
    root: Option<Message>,
    page: &Page,
    recovered: bool,
    first_page: bool,
) -> (reply: Json)
    ensures
        reply@ == thread_reply(
            room_id@,
            root_id@,
            message_of(root),
            page@,
            recovered,
            first_page,
        ),
{
    let replies = format_events(&page.events);
    let messages = chain(root, replies);
    proof {
        assert(message_views(messages@) == thread_messages(message_of(root), raw_views(
            page.events@,
        )));
        assert(message_views(messages@).len() == messages@.len());
    }
    let undecryptable: usize = count_undecryptable(&messages);
    let reply_count: usize = page.events.len();
    let hint = match decryption_hint(undecryptable) {
        Some(hint) => Some(hint),
        None => if reply_count == 0 && first_page {
            Some(
                "This message has no threaded replies. Replies made with `send_message`'s reply_to_event_id are rich replies, not threads, and stay in the room timeline - read those with `read_messages`.".to_owned(),
            )
        } else {
            None
        },
    };
    Fields::new().with("room_id", Json::text(room_id)).with("thread_root", Json::text(root_id)).with(
        "count",
        Json::Count(messages.len() as u64),
    ).with("reply_count", Json::Count(reply_count as u64)).with(
        "messages",
        messages_to_json(&messages),
    ).with("next_token", Json::optional(&page.next)).with(
        "undecryptable_count",
        Json::Count(undecryptable as u64),
    ).with("recovered_keys_from_backup", Json::Bool(recovered)).with(
        "hint",
        Json::optional(&hint),
    ).done()
}

/// The root, if there is one, and then the replies.
fn chain(root: Option<Message>, replies: Vec<Message>) -> (messages: Vec<Message>)
    ensures
        message_views(messages@) == match message_of(root) {
            Some(message) => Seq::empty().push(message) + message_views(replies@),
            None => message_views(replies@),
        },
{
    let mut rest = replies;
    match root {
        Some(message) => {
            let mut messages: Vec<Message> = Vec::new();
            messages.push(message);
            messages.append(&mut rest);
            proof {
                assert(message_views(messages@) =~= Seq::empty().push(message@) + message_views(
                    replies@,
                ));
            }
            messages
        },
        None => rest,
    }
}

/// What comes first in reading a thread. A later page continues from the root that it names; for
/// the first, the event that was asked for is fetched.
pub open spec fn first_thread_step(request: ThreadRequestView) -> ThreadStepView {
    if request.from is Some {
        ThreadStepView::FetchReplies(thread_run(request, request.requested, None))
    } else {
        ThreadStepView::FetchEvent(request)
    }
}

/// The thread of a request, once its root is known.
pub open spec fn thread_run(
    request: ThreadRequestView,
    root_id: Seq<char>,
    root: Option<RawEventView>,
) -> ThreadRunView {
    ThreadRunView {
        room_id: request.room_id,
        root_id,
        root,
        limit: request.limit,
        from: request.from,
    }
}

/// What follows the event that was asked for.
pub open spec fn after_event(
    request: ThreadRequestView,
    outcome: Result<RawEventView, Seq<char>>,
) -> ThreadStepView {
    match outcome {
        Ok(event) => match event_thread(event) {
            Some(root_id) => ThreadStepView::FetchRoot(request, root_id),
            None => ThreadStepView::FetchReplies(
                thread_run(request, request.requested, Some(event)),
            ),
        },
        Err(cause) => ThreadStepView::Fail(fetch_event_error(request.requested, cause)),
    }
}

/// What follows the root that an event led to.
pub open spec fn after_root(
    request: ThreadRequestView,
    root_id: Seq<char>,
    outcome: Result<RawEventView, Seq<char>>,
) -> ThreadStepView {
    match outcome {
        Ok(event) => ThreadStepView::FetchReplies(thread_run(request, root_id, Some(event))),
        Err(cause) => ThreadStepView::Fail(fetch_root_error(root_id, cause)),
    }
}

/// The answer to a thread that was read.
pub open spec fn thread_answer(
    run: ThreadRunView,
    page: PageView,
    again: Option<RawEventView>,
    recovered: bool,
) -> ThreadStepView {
    ThreadStepView::Reply(
        thread_reply(
            run.room_id,
            run.root_id,
            shown_root(run.root, again),
            page,
            recovered,
            run.from is None,
        ),
    )
}

/// What follows the page of replies.
pub open spec fn after_replies(
    run: ThreadRunView,
    outcome: Result<PageView, Seq<char>>,
    state: BackupState,
) -> ThreadStepView {
    match outcome {
        Ok(page) => if keys_needed(page.events, state) {
            ThreadStepView::DownloadKeys(run, page)
        } else {
            thread_answer(run, page, None, false)
        },
        Err(cause) => ThreadStepView::Fail(in_context("failed to fetch thread replies"@, cause)),
    }
}

/// What follows from whether the keys were imported.
pub open spec fn after_thread_keys(
    run: ThreadRunView,
    page: PageView,
    imported: bool,
) -> ThreadStepView {
    if imported {
        ThreadStepView::FetchRepliesAgain(run, page)
    } else {
        thread_answer(run, page, None, false)
    }
}

/// What follows the page of replies that was requested once more.
pub open spec fn after_replies_again(
    run: ThreadRunView,
    page: PageView,
    again: Option<PageView>,
) -> ThreadStepView {
    match again {
        Some(again) => if root_outdated(run.root, true) {
            ThreadStepView::FetchRootAgain(run, again)
        } else {
            thread_answer(run, again, None, true)
        },
        None => thread_answer(run, page, None, false),
    }
}

pub open spec fn event_outcome(outcome: Result<RawEvent, String>) -> Result<
    RawEventView,
    Seq<char>,
> {
    match outcome {
        Ok(event) => Ok(event@),
        Err(cause) => Err(cause@),
    }
}

impl ThreadRequest {
    /// What comes first. The root only belongs on the first page; later pages continue from a
    /// token and would otherwise repeat it.
    pub fn begin(self) -> (step: ThreadStep)
        ensures
            step@ == first_thread_step(self@),
    {
        match self.from {
            Some(from) => ThreadStep::FetchReplies(
                ThreadRun {
                    room_id: self.room_id,
                    root_id: self.requested,
                    root: None,
                    limit: self.limit,
                    from: Some(from),
                },
            ),
            None => ThreadStep::FetchEvent(
                ThreadRequest {
                    room_id: self.room_id,
                    requested: self.requested,
                    limit: self.limit,
                    from: None,
                },
            ),
        }
    }

    /// Reacts to the event that was asked for. Callers reading `read_messages` output see replies,
    /// not the root, so the id of any message *inside* the thread leads to the root it relates to
    /// instead of a confusingly empty thread.
    pub fn on_event(self, outcome: Result<RawEvent, String>) -> (step: ThreadStep)
        ensures
            step@ == after_event(self@, event_outcome(outcome)),
    {
        match outcome {
            Ok(event) => match thread_root_of(&event) {
                Some(root_id) => ThreadStep::FetchRoot(self, root_id),
                None => ThreadStep::FetchReplies(
                    ThreadRun {
                        room_id: self.room_id,
                        root_id: self.requested,
                        root: Some(event),
                        limit: self.limit,
                        from: self.from,
                    },
                ),
            },
            Err(cause) => ThreadStep::Fail(
                with_context(
                    &"failed to fetch event ".to_owned().concat(&self.requested).concat(
                        " - is it a message in this room?",
                    ),
                    &cause,
                ),
            ),
        }
    }

    /// Reacts to the root that the event led to.
    pub fn on_root(self, root_id: String, outcome: Result<RawEvent, String>) -> (step: ThreadStep)
        ensures
            step@ == after_root(self@, root_id@, event_outcome(outcome)),
    {
        match outcome {
            Ok(event) => ThreadStep::FetchReplies(
                ThreadRun {
                    room_id: self.room_id,
                    root_id,
                    root: Some(event),
                    limit: self.limit,
                    from: self.from,
                },
            ),
            Err(cause) => ThreadStep::Fail(
                with_context(&"failed to fetch thread root ".to_owned().concat(&root_id), &cause),
            ),
        }
    }
}

impl ThreadRun {
    fn answer(self, page: &Page, again: &Option<RawEvent>, recovered: bool) -> (step: ThreadStep)
        ensures
            step@ == thread_answer(self@, page@, raw_of(*again), recovered),
    {
        let root = render_root(&self.root, again);
        ThreadStep::Reply(
            render_thread(
                &self.room_id,
                &self.root_id,
                root,
                page,
                recovered,
                self.from.is_none(),
            ),
        )
    }

    /// Reacts to the page of replies; `state` is that of the key backup.
    pub fn on_replies(self, outcome: Result<Page, String>, state: BackupState) -> (step: ThreadStep)
        ensures
            step@ == after_replies(self@, page_outcome(outcome), state),
    {
        match outcome {
            Ok(page) => if recover_room_keys(&page.events, state) {
                ThreadStep::DownloadKeys(self, page)
            } else {
                self.answer(&page, &None, false)
            },
            Err(cause) => ThreadStep::Fail(with_context("failed to fetch thread replies", &cause)),
        }
    }

    /// Reacts to the keys that were imported, or not.
    pub fn on_keys(self, page: Page, imported: bool) -> (step: ThreadStep)
        ensures
            step@ == after_thread_keys(self@, page@, imported),
    {
        if imported {
            ThreadStep::FetchRepliesAgain(self, page)
        } else {
            self.answer(&page, &None, false)
        }
    }

    /// Reacts to the page of replies that was requested once more, if it came.
    pub fn on_replies_again(self, page: Page, again: Option<Page>) -> (step: ThreadStep)
        ensures
            step@ == after_replies_again(self@, page@, page_of(again)),
    {
        match again {
            Some(again) => if refetch_root(&self.root, true) {
                ThreadStep::FetchRootAgain(self, again)
            } else {
                self.answer(&again, &None, true)
            },
            None => self.answer(&page, &None, false),
        }
    }

    /// Reacts to the root that was fetched once more, if it came.
    pub fn on_root_again(self, page: Page, again: Option<RawEvent>) -> (step: ThreadStep)
        ensures
            step@ == thread_answer(self@, page@, raw_of(again), true),
    {
        self.answer(&page, &again, true)
    }
}

/// How the steps of reading a thread end, whether or not they are taken.
pub ghost struct ThreadSight {
    pub event: Result<RawEventView, Seq<char>>,
    pub root: Result<RawEventView, Seq<char>>,
    pub replies: Result<PageView, Seq<char>>,
    pub state: BackupState,
    pub imported: bool,
    pub replies_again: Option<PageView>,
    pub root_again: Option<RawEventView>,
}

/// The root of the thread that a request is for: its id, and the root itself on the first page.
pub open spec fn thread_target(request: ThreadRequestView, sight: ThreadSight) -> Result<
    (Seq<char>, Option<RawEventView>),
    Seq<char>,
> {
    if request.from is Some {
        Ok((request.requested, None))
    } else {
        match sight.event {
            Err(cause) => Err(fetch_event_error(request.requested, cause)),
            Ok(event) => match event_thread(event) {
                None => Ok((request.requested, Some(event))),
                Some(root_id) => match sight.root {
                    Err(cause) => Err(fetch_root_error(root_id, cause)),
                    Ok(root) => Ok((root_id, Some(root))),
                },
            },
        }
    }
}

/// Reading a thread as a whole: its root is found, then its replies, which are read once more, as
/// is the root, where room keys could be recovered for what could not be decrypted.
pub open spec fn thread_end(request: ThreadRequestView, sight: ThreadSight) -> Result<
    JsonView,
    Seq<char>,
> {
    match thread_target(request, sight) {
        Err(message) => Err(message),
        Ok((root_id, root)) => match sight.replies {
            Err(cause) => Err(in_context("failed to fetch thread replies"@, cause)),
            Ok(page) => {
                let recovered = keys_needed(page.events, sight.state) && sight.imported
                    && sight.replies_again is Some;
                Ok(
                    thread_reply(
                        request.room_id,
                        root_id,
                        shown_root(
                            root,
                            if root_outdated(root, recovered) {
                                sight.root_again
                            } else {
                                None
                            },
                        ),
                        if recovered {
                            sight.replies_again->Some_0
                        } else {
                            page
                        },
                        recovered,
                        request.from is None,
                    ),
                )
            },
        },
    }
}

/// What a driver that is asked for a step comes to, if it needs no more steps than given.
pub open spec fn thread_driven(step: ThreadStepView, sight: ThreadSight, steps: nat) -> Option<
    Result<JsonView, Seq<char>>,
>
    decreases steps,
{
    if steps == 0 {
        None
    } else {
        let left = (steps - 1) as nat;
        match step {
            ThreadStepView::FetchEvent(request) => thread_driven(
                after_event(request, sight.event),
                sight,
                left,
            ),
            ThreadStepView::FetchRoot(request, root_id) => thread_driven(
                after_root(request, root_id, sight.root),
                sight,
                left,
            ),
            ThreadStepView::FetchReplies(run) => thread_driven(
                after_replies(run, sight.replies, sight.state),
                sight,
                left,
            ),
            ThreadStepView::DownloadKeys(run, page) => thread_driven(
                after_thread_keys(run, page, sight.imported),
                sight,
                left,
            ),
            ThreadStepView::FetchRepliesAgain(run, page) => thread_driven(
                after_replies_again(run, page, sight.replies_again),
                sight,
                left,
            ),
            ThreadStepView::FetchRootAgain(run, page) => thread_driven(
                thread_answer(run, page, sight.root_again, true),
                sight,
                left,
            ),
            ThreadStepView::Reply(json) => Some(Ok(json)),
            ThreadStepView::Fail(message) => Some(Err(message)),
        }
    }
}

/// A driver that does what the steps ask for reads the thread, in no more than seven steps.
pub proof fn law_steps_read_a_thread(request: ThreadRequestView, sight: ThreadSight)
    ensures
        thread_driven(first_thread_step(request), sight, 7) == Some(thread_end(request, sight)),
{
    reveal_with_fuel(thread_driven, 8);
}

/// Asking for any reply in a thread reads the same thread as asking for its root: the reply leads
/// to the root that it names.
pub proof fn law_replies_lead_to_their_thread(
    request: ThreadRequestView,
    sight: ThreadSight,
    reply: RawEventView,
    root: RawEventView,
)
    requires
        request.from is None,
        event_thread(reply) is Some,
        event_thread(root) is None,
        sight.event == Ok::<RawEventView, Seq<char>>(reply),
        sight.root == Ok::<RawEventView, Seq<char>>(root),
    ensures
        thread_end(request, sight) == thread_end(
            ThreadRequestView { requested: event_thread(reply)->Some_0, ..request },
            ThreadSight { event: Ok(root), ..sight },
        ),
{
}

impl MatrixManager {
    /// Read messages from a room, newest fetched, returned in chronological order. Without
    /// `before_token`, starts from the most recent message; to page further back, pass the
    /// `next_token` returned by the previous call.
    pub fn read_messages(
        &self,
        room_id: &str,
        room_found: bool,
        limit: u32,
        before_token: Option<&str>,
    ) -> (request: Result<MessagesRequest, String>)
        ensures
            fails_with(
                request,
                first_of(self.connection_error(), room_error(room_id@, room_found)),
            ),
            request matches Ok(request) ==> {
                &&& request.room_id@ == room_id@
                &&& request.limit == limit
                &&& text_of(request.from) == slice_text(before_token)
            },
    {
        match self.connected_client() {
            Ok(_) => {},
            Err(message) => return Err(message),
        }
        match resolve_room(room_id, room_found) {
            Ok(room_id) => Ok(MessagesRequest { room_id, limit, from: owned(before_token) }),
            Err(message) => Err(message),
        }
    }

    /// Read a single thread: the root message followed by its replies, oldest first. Threaded
    /// replies are ordinary events carrying an `m.thread` relation to the root, and do not appear
    /// in `read_messages` output in their conversational order.
    pub fn read_thread(
        &self,
        room_id: &str,
        room_found: bool,
        event_id: &str,
        limit: u32,
        from_token: Option<&str>,
    ) -> (request: Result<ThreadRequest, String>)
        ensures
            fails_with(
                request,
                first_of(
                    self.connection_error(),
                    first_of(room_error(room_id@, room_found), event_id_error(event_id@)),
                ),
            ),
            request matches Ok(request) ==> {
                &&& request.room_id@ == room_id@
                &&& request.requested@ == event_id@
                &&& request.limit == limit
                &&& text_of(request.from) == slice_text(from_token)
            },
    {
        match self.connected_client() {
            Ok(_) => {},
            Err(message) => return Err(message),
        }
        let room_id = match resolve_room(room_id, room_found) {
            Ok(room_id) => room_id,
            Err(message) => return Err(message),
        };
        match parse_event_id(event_id) {
            Ok(requested) => Ok(
                ThreadRequest { room_id, requested, limit, from: owned(from_token) },
            ),
            Err(message) => Err(message),
        }
    }
}

/// Messages come in chronological order, within a page and from page to page: as events come newest
/// first, those of two batches are the messages of the older batch and then those of the newer.
pub proof fn law_messages_are_chronological(newer: Seq<RawEventView>, older: Seq<RawEventView>)
    ensures
        event_messages(newer + older).reverse() == event_messages(older).reverse()
            + event_messages(newer).reverse(),
{
    crate::events::law_messages_keep_order(newer, older);
    assert(event_messages(newer + older).reverse() =~= event_messages(older).reverse()
        + event_messages(newer).reverse());
}

/// Turning messages around does not change how many of them could not be decrypted.
pub proof fn law_order_does_not_change_the_count(messages: Seq<MessageView>)
    ensures
        undecryptable_among(messages.reverse()) == undecryptable_among(messages),
    decreases messages.len(),
{
    if messages.len() > 0 {
        let last = messages.last();
        let front = messages.drop_last();
        law_order_does_not_change_the_count(front);
        assert(messages.reverse() =~= Seq::empty().push(last) + front.reverse());
        lemma_count_of_prepended(last, front.reverse());
    }
}

proof fn lemma_count_of_prepended(message: MessageView, messages: Seq<MessageView>)
    ensures
        undecryptable_among(Seq::empty().push(message) + messages) == undecryptable_among(messages)
            + if message.unable_to_decrypt {
            1nat
        } else {
            0nat
        },
    decreases messages.len(),
{
    let all = Seq::empty().push(message) + messages;
    if messages.len() == 0 {
        assert(all.drop_last() =~= Seq::empty());
        assert(all.last() == message);
        reveal_with_fuel(undecryptable_among, 2);
    } else {
        lemma_count_of_prepended(message, messages.drop_last());
        assert(all.drop_last() =~= Seq::empty().push(message) + messages.drop_last());
        assert(all.last() == messages.last());
    }
}

/// Every message of a page that could not be decrypted is counted, and the hint comes with the
/// first of them: it is there if and only if one of the messages is flagged.
pub proof fn law_hint_comes_with_undecryptable_messages(messages: Seq<MessageView>)
    ensures
        hint_for(undecryptable_among(messages)) is Some <==> exists|i: int|
            0 <= i < messages.len() && (#[trigger] messages[i]).unable_to_decrypt,
{
    crate::events::law_count_is_zero_when_all_is_readable(messages);
}

/// Room keys are asked for only where a message needs them: a page on which every event could be
/// decrypted is never fetched twice.
pub proof fn law_readable_pages_need_no_keys(page: PageView, state: BackupState)
    requires
        forall|i: int| 0 <= i < page.events.len() ==> !undecryptable(#[trigger] page.events[i]),
    ensures
        !keys_needed(page.events, state),
{
}

/// A later page of a thread holds its replies alone, and the first page its root before them.
pub proof fn law_root_is_on_the_first_page_only(
    root: RawEventView,
    replies: Seq<RawEventView>,
)
    ensures
        thread_messages(shown_root(None, None), replies) == event_messages(replies),
        event_message(root) matches Some(message) ==> thread_messages(
            shown_root(Some(root), None),
            replies,
        ) == Seq::empty().push(message) + event_messages(replies),
{
}

/// The pages of a thread, one after the other, make the thread: its root once, and then all of its
/// replies in their order.
pub proof fn law_pages_make_the_thread(
    root: Option<MessageView>,
    first: Seq<RawEventView>,
    later: Seq<RawEventView>,
)
    ensures
        thread_messages(root, first + later) == thread_messages(root, first) + thread_messages(
            None,
            later,
        ),
{
    crate::events::law_messages_keep_order(first, later);
    assert(thread_messages(root, first + later) =~= thread_messages(root, first) + thread_messages(
        None,
        later,
    ));
}

/// A root that was fetched again never hides what was known of it: where the second attempt cannot
/// be read, the first is shown.
pub proof fn law_root_is_not_lost(root: Option<RawEventView>, again: Option<RawEventView>)
    ensures
        root_message(root) is Some ==> shown_root(root, again) is Some,
        root_message(again) is Some ==> shown_root(root, again) == root_message(again),
{
}

} // verus!
