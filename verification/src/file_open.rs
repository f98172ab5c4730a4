//! Quick-open palette: search the selected chat's checkout and open a file in the viewer.

use vstd::prelude::*;

use crate::proto;
use crate::proto::{ChatRow, Engine, FileSearchMatch, RpcCall, RpcError};
use crate::size;
use crate::text;

verus! {

/// The predicate of the matches that are files.
pub open spec fn files() -> spec_fn(FileSearchMatch) -> bool {
    |entry: FileSearchMatch| !entry.is_dir
}

/// Drops directories: the file viewer cannot preview them.
pub fn openable_files(matches: Vec<FileSearchMatch>) -> (r: Vec<FileSearchMatch>)
    ensures
        r@ == matches@.filter(files()),
        r@.len() == file_count(matches@),
        forall|i: int|
            0 <= i < matches@.len() && !(#[trigger] matches@[i]).is_dir ==> r@.contains(
                matches@[i],
            ),
        forall|j: int|
            0 <= j < r@.len() ==> !(#[trigger] r@[j]).is_dir && matches@.contains(r@[j]),
{
    proof {
        law_every_file_is_offered(matches@);
    }
    let ghost all = matches@;
    let mut kept: Vec<FileSearchMatch> = Vec::new();
    assert(all.take(0).filter(files()) =~= Seq::empty()) by {
        reveal(Seq::filter);
    }
    for entry in it: matches
        invariant
            it.seq() == all,
            kept@ == all.take(it.index() as int).filter(files()),
    {
        let ghost n = it.index();
        proof {
            reveal(Seq::filter);
            assert(all.take(n + 1).drop_last() =~= all.take(n as int));
        }
        if !entry.is_dir {
            kept.push(entry);
        }
    }
    assert(all.take(all.len() as int) =~= all);
    kept
}

/// How many of the matches are not directories.
pub open spec fn file_count(matches: Seq<FileSearchMatch>) -> nat
    decreases matches.len(),
{
    if matches.len() == 0 {
        0
    } else {
        file_count(matches.drop_last()) + if matches.last().is_dir {
            0nat
        } else {
            1nat
        }
    }
}

/// Every match that is not a directory is offered, nothing else is, and there are as many as there
/// are such matches.
pub proof fn law_every_file_is_offered(matches: Seq<FileSearchMatch>)
    ensures
        forall|i: int|
            0 <= i < matches.len() && !(#[trigger] matches[i]).is_dir ==> matches.filter(
                files(),
            ).contains(matches[i]),
        forall|j: int|
            0 <= j < matches.filter(files()).len() ==> !(#[trigger] matches.filter(
                files(),
            )[j]).is_dir && matches.contains(matches.filter(files())[j]),
        matches.filter(files()).len() == file_count(matches),
    decreases matches.len(),
{
    reveal(Seq::filter);
    let offered = matches.filter(files());
    assert forall|i: int| 0 <= i < matches.len() && !(#[trigger] matches[i]).is_dir implies
        offered.contains(matches[i]) by {
        matches.lemma_filter_contains(files(), i);
    }
    if matches.len() > 0 {
        let front = matches.drop_last();
        law_every_file_is_offered(front);
        assert forall|j: int| 0 <= j < offered.len() implies !(#[trigger] offered[j]).is_dir
            && matches.contains(offered[j]) by {
            let kept = front.filter(files());
            if j < kept.len() {
                assert(offered[j] == kept[j]);
                let k = choose|k: int| 0 <= k < front.len() && front[k] == kept[j];
                assert(matches[k] == kept[j]);
            } else {
                assert(offered[j] == matches.last());
                assert(matches[matches.len() - 1] == offered[j]);
            }
        }
    }
}

/// The offered files keep the order of the matches: what two lists one after the other offer is what
/// they offer one after the other, and a single match is offered exactly where it is no directory.
pub proof fn law_offers_keep_the_order(
    first: Seq<FileSearchMatch>,
    second: Seq<FileSearchMatch>,
    entry: FileSearchMatch,
)
    ensures
        (first + second).filter(files()) == first.filter(files()) + second.filter(files()),
        entry.is_dir ==> seq![entry].filter(files()) == Seq::<FileSearchMatch>::empty(),
        !entry.is_dir ==> seq![entry].filter(files()) == seq![entry],
{
    Seq::filter_distributes_over_add(first, second, files());
    reveal(Seq::filter);
    let one = seq![entry];
    assert(one.drop_last() =~= Seq::<FileSearchMatch>::empty());
    assert(one.drop_last().filter(files()) =~= Seq::<FileSearchMatch>::empty());
    assert(one.last() == entry);
    assert(Seq::<FileSearchMatch>::empty().push(entry) =~= one);
}

/// What a failed search says.
pub open spec fn search_failure(error: RpcError) -> Seq<char> {
    match error {
        RpcError::UnknownMethod(_) =>
            "The session's device runs an older zeron — update it to search its files"@,
        RpcError::Transport(_) | RpcError::Closed => "The session's device is unreachable"@,
        RpcError::BadParams(_) | RpcError::Failed(_) => "File search failed"@,
    }
}

/// The message for a failed search.
pub fn search_error_message(error: &RpcError) -> (r: &'static str)
    ensures
        r@ == search_failure(*error),
        r@ == if error is UnknownMethod {
            "The session's device runs an older zeron — update it to search its files"@
        } else if error is Transport || error is Closed {
            "The session's device is unreachable"@
        } else {
            "File search failed"@
        },
{
    match error {
        RpcError::UnknownMethod(_) => {
            "The session's device runs an older zeron — update it to search its files"
        },
        RpcError::Transport(_) | RpcError::Closed => "The session's device is unreachable",
        RpcError::BadParams(_) | RpcError::Failed(_) => "File search failed",
    }
}

// ---------------------------------------------------------------------------
// One search over the wire
// ---------------------------------------------------------------------------

/// How long a search waits for the typing to pause, in milliseconds.
pub const DEBOUNCE_MILLIS: u64 = 80;

/// How long a search waits before it tries a lost connection again, in milliseconds.
pub const RETRY_MILLIS: u64 = 250;

/// Where a search stands between its start and its delivery.
#[derive(Debug, Clone, Copy, PartialEq, Eq, Structural)]
pub enum SearchPhase {
    /// Waiting for the typing to pause.
    Debouncing,
    /// The first call is out.
    Calling,
    /// The connection was lost; waiting to try again.
    BackingOff,
    /// The second call is out.
    Retrying,
    /// The last reply is to be delivered.
    Done,
}

/// What happens to a running search.
#[derive(Debug, Clone, Copy, PartialEq, Eq, Structural)]
pub enum SearchEvent {
    /// The wait is over.
    Elapsed,
    /// The call returned; the connection was lost, or not.
    Replied { connection_lost: bool },
}

/// What a running search asks for next.
#[derive(Debug, Clone, Copy, PartialEq, Eq, Structural)]
pub enum SearchStep {
    Wait { millis: u64 },
    Call,
    /// Deliver the last reply.
    Deliver,
    /// The event was not awaited: keep waiting.
    Nothing,
}

impl SearchPhase {
    /// The phase and the step that an event leads to.
    pub open spec fn after(self, event: SearchEvent) -> (SearchPhase, SearchStep) {
        match (self, event) {
            (SearchPhase::Debouncing, SearchEvent::Elapsed) => (
                SearchPhase::Calling,
                SearchStep::Call,
            ),
            (SearchPhase::Calling, SearchEvent::Replied { connection_lost: true }) => (
                SearchPhase::BackingOff,
                SearchStep::Wait { millis: RETRY_MILLIS },
            ),
            (SearchPhase::Calling, SearchEvent::Replied { connection_lost: false }) => (
                SearchPhase::Done,
                SearchStep::Deliver,
            ),
            (SearchPhase::BackingOff, SearchEvent::Elapsed) => (
                SearchPhase::Retrying,
                SearchStep::Call,
            ),
            (SearchPhase::Retrying, SearchEvent::Replied { .. }) => (
                SearchPhase::Done,
                SearchStep::Deliver,
            ),
            _ => (self, SearchStep::Nothing),
        }
    }

    /// A search begins by waiting for the typing to pause.
    pub fn start() -> (r: (SearchPhase, SearchStep))
        ensures
            r == (SearchPhase::Debouncing, SearchStep::Wait { millis: DEBOUNCE_MILLIS }),
            r.1 == (SearchStep::Wait { millis: 80 }),
    {
        (SearchPhase::Debouncing, SearchStep::Wait { millis: DEBOUNCE_MILLIS })
    }

    /// Takes an event and tells what to do next.
    pub fn advance(&mut self, event: SearchEvent) -> (r: SearchStep)
        ensures
            (*final(self), r) == old(self).after(event),
    {
        match (*self, event) {
            (SearchPhase::Debouncing, SearchEvent::Elapsed) => {
                *self = SearchPhase::Calling;
                SearchStep::Call
            },
            (SearchPhase::Calling, SearchEvent::Replied { connection_lost }) => {
                if connection_lost {
                    *self = SearchPhase::BackingOff;
                    SearchStep::Wait { millis: RETRY_MILLIS }
                } else {
                    *self = SearchPhase::Done;
                    SearchStep::Deliver
                }
            },
            (SearchPhase::BackingOff, SearchEvent::Elapsed) => {
                *self = SearchPhase::Retrying;
                SearchStep::Call
            },
            (SearchPhase::Retrying, SearchEvent::Replied { .. }) => {
                *self = SearchPhase::Done;
                SearchStep::Deliver
            },
            _ => SearchStep::Nothing,
        }
    }
}

// ---------------------------------------------------------------------------
// The palette
// ---------------------------------------------------------------------------

/// What the palette tells its surroundings.
#[derive(Debug, Clone, PartialEq, Eq)]
pub enum FileOpenEvent {
    /// Open the file at this path.
    Open(String),
    Dismissed,
}

/// A key as a menu understands it.
#[derive(Debug, Clone, Copy, PartialEq, Eq, Structural)]
pub enum MenuKey {
    Escape,
    Up,
    Down,
    Enter,
    ModEnter,
    Backspace,
    Other,
}

/// A call to make for a search, under the search's request.
#[derive(Debug, PartialEq, Eq)]
pub struct SearchCall {
    pub request: u64,
    pub call: RpcCall,
}

/// What a search brought.
#[derive(Debug, PartialEq, Eq)]
pub enum SearchOutcome {
    Matches(Vec<FileSearchMatch>),
    /// The reply could not be read, for this reason.
    Unreadable(String),
    Failed(RpcError),
}

/// What a key press leads to.
#[derive(Debug, PartialEq, Eq)]
pub struct KeyEffect {
    pub event: Option<FileOpenEvent>,
    /// The palette looks different now.
    pub redraw: bool,
    /// The key is used up: nothing else gets to see it.
    pub handled: bool,
}

/// The quick-open palette.
#[derive(Debug)]
pub struct FileOpenPalette {
    pub results: Vec<FileSearchMatch>,
    /// The marked row.
    pub active: Option<usize>,
    pub loading: bool,
    pub error: Option<String>,
    pub query: String,
    /// The id of the newest search.
    pub request: u64,
    /// The input is still to get the focus.
    pub focus_pending: bool,
}

/// What the palette holds.
pub struct PaletteState {
    pub results: Seq<FileSearchMatch>,
    pub active: Option<usize>,
    pub loading: bool,
    pub error: Option<Seq<char>>,
    pub query: Seq<char>,
    pub request: u64,
    pub focus_pending: bool,
}

impl View for FileOpenPalette {
    type V = PaletteState;

    open spec fn view(&self) -> PaletteState {
        PaletteState {
            results: self.results@,
            active: self.active,
            loading: self.loading,
            error: text::optional(self.error),
            query: self.query@,
            request: self.request,
            focus_pending: self.focus_pending,
        }
    }
}

/// The id after this one; ids wrap around.
pub open spec fn next_id(request: u64) -> u64 {
    if request < u64::MAX {
        (request + 1) as u64
    } else {
        0
    }
}

impl PaletteState {
    /// A palette before its first search.
    pub open spec fn blank() -> PaletteState {
        PaletteState {
            results: seq![],
            active: None,
            loading: false,
            error: None,
            query: seq![],
            request: 0,
            focus_pending: true,
        }
    }

    /// Nothing to choose from.
    pub open spec fn emptied(self, error: Seq<char>) -> PaletteState {
        PaletteState { results: seq![], active: None, loading: false, error: Some(error), ..self }
    }

    /// A new search begins, under a new request. Without a chat or without an engine it ends at
    /// once; otherwise the earlier results stay while it runs.
    pub open spec fn searched(self, chat: Option<ChatRow>, engine: Engine) -> PaletteState {
        let begun = PaletteState { request: next_id(self.request), ..self };
        if chat is None {
            begun.emptied("Open a session to search its files."@)
        } else if engine is Missing {
            begun.emptied("Engine not connected"@)
        } else {
            PaletteState { loading: true, error: None, ..begun }
        }
    }

    /// The input holds this text now: another one than before is searched for.
    pub open spec fn queried(
        self,
        query: Seq<char>,
        chat: Option<ChatRow>,
        engine: Engine,
    ) -> PaletteState {
        if query == self.query {
            self
        } else {
            (PaletteState { query, ..self }).searched(chat, engine)
        }
    }

    /// A search brought its outcome; that of an older search changes nothing.
    pub open spec fn finished(self, request: u64, outcome: SearchOutcome) -> PaletteState {
        if request != self.request {
            self
        } else {
            match outcome {
                SearchOutcome::Matches(matches) => {
                    let results = matches@.filter(files());
                    PaletteState {
                        results,
                        active: if results.len() > 0 {
                            Some(0)
                        } else {
                            None
                        },
                        loading: false,
                        error: None,
                        ..self
                    }
                },
                SearchOutcome::Unreadable(reason) => self.emptied(reason@),
                SearchOutcome::Failed(error) => self.emptied(search_failure(error)),
            }
        }
    }

    /// The path of the marked row.
    pub open spec fn chosen(self) -> Option<Seq<char>> {
        match self.active {
            Some(index) => if index < self.results.len() {
                Some(self.results[index as int].path@)
            } else {
                None
            },
            None => None,
        }
    }

    /// Only files are offered.
    pub open spec fn files_only(self) -> bool {
        forall|i: int| 0 <= i < self.results.len() ==> !(#[trigger] self.results[i]).is_dir
    }

    /// The mark is on a row.
    pub open spec fn mark_in_range(self) -> bool {
        self.active matches Some(index) ==> index < self.results.len()
    }
}

/// The call that a search takes, where there is a chat to search and an engine to ask.
pub open spec fn search_call_is(
    call: Option<SearchCall>,
    state: PaletteState,
    chat: Option<ChatRow>,
    engine: Engine,
) -> bool {
    match (chat, engine) {
        (Some(chat), Engine::Connected) => {
            &&& call matches Some(call)
            &&& call.request == state.request
            &&& call.call@ == proto::search_files(state.query, chat)
        },
        _ => call is None,
    }
}

/// Whether an event, or none, opens the chosen path, or nothing where none is chosen.
pub open spec fn opens_chosen(event: Option<FileOpenEvent>, chosen: Option<Seq<char>>) -> bool {
    match chosen {
        Some(path) => event matches Some(FileOpenEvent::Open(opened)) && opened@ == path,
        None => event is None,
    }
}

impl FileOpenPalette {
    /// `self` and `call` are what a new search for `query` in `before` leads to. It has the next
    /// request id, which no search before it had until ids wrap around. With a chat and an engine it loads, keeps the earlier
    /// results and their mark meanwhile, and makes a call that carries the query; otherwise it has
    /// nothing to offer and says why.
    pub open spec fn begun(
        self,
        before: FileOpenPalette,
        call: Option<SearchCall>,
        query: Seq<char>,
        chat: Option<ChatRow>,
        engine: Engine,
    ) -> bool {
        &&& self.query@ == query
        &&& self.focus_pending == before.focus_pending
        &&& self.request == (before.request + 1) % 0x1_0000_0000_0000_0000
        &&& match (chat, engine) {
            (Some(chat), Engine::Connected) => {
                &&& self.loading
                &&& self.error is None
                &&& self.results@ == before.results@
                &&& self.active == before.active
                &&& call matches Some(search)
                &&& search.request == self.request
                &&& search.call.searches(query, chat.id@, chat.device_id@)
            },
            _ => {
                &&& !self.loading
                &&& self.error matches Some(error)
                &&& error@ == if chat is None {
                    "Open a session to search its files."@
                } else {
                    "Engine not connected"@
                }
                &&& self.results@.len() == 0
                &&& self.active is None
                &&& call is None
            },
        }
    }

    /// A palette that searches for everything at once.
    pub fn new(chat: Option<ChatRow>, engine: Engine) -> (r: (FileOpenPalette, Option<SearchCall>))
        ensures
            r.0@ == PaletteState::blank().searched(chat, engine),
            search_call_is(r.1, r.0@, chat, engine),
            r.0.query@.len() == 0,
            r.0.results@.len() == 0,
            r.0.active is None,
            r.0.focus_pending,
            match (chat, engine) {
                (Some(chat), Engine::Connected) => {
                    &&& r.0.loading
                    &&& r.0.error is None
                    &&& r.1 matches Some(search)
                    &&& search.request == r.0.request
                    &&& search.call.searches(seq![], chat.id@, chat.device_id@)
                },
                _ => !r.0.loading && r.0.error is Some && r.1 is None,
            },
    {
        let mut page = FileOpenPalette {
            results: Vec::new(),
            active: None,
            loading: false,
            error: None,
            query: String::new(),
            request: 0,
            focus_pending: true,
        };
        assert(page@ == PaletteState::blank());
        let call = page.search(chat, engine);
        (page, call)
    }

    /// Takes the input's text, and searches where it changed. `None` where it did not; otherwise
    /// the call to make in place of the one that runs, if any is to be made.
    pub fn on_query(
        &mut self,
        query: String,
        chat: Option<ChatRow>,
        engine: Engine,
    ) -> (r: Option<Option<SearchCall>>)
        ensures
            final(self)@ == old(self)@.queried(query@, chat, engine),
            match r {
                None => query@ == old(self)@.query,
                Some(call) => query@ != old(self)@.query && search_call_is(
                    call,
                    final(self)@,
                    chat,
                    engine,
                ),
            },
            match r {
                None => *final(self) == *old(self),
                Some(call) => final(self).begun(*old(self), call, query@, chat, engine),
            },
    {
        if query == self.query {
            return None;
        }
        self.query = query;
        Some(self.search(chat, engine))
    }

    /// Begins a new search; gives the call to make in place of the one that runs, if any is to be
    /// made.
    pub fn search(&mut self, chat: Option<ChatRow>, engine: Engine) -> (r: Option<SearchCall>)
        ensures
            final(self)@ == old(self)@.searched(chat, engine),
            search_call_is(r, final(self)@, chat, engine),
            final(self).begun(*old(self), r, old(self).query@, chat, engine),
    {
        self.request = if self.request < u64::MAX {
            self.request + 1
        } else {
            0
        };
        self.error = None;
        let chat = match chat {
            Some(chat) => chat,
            None => {
                self.empty("Open a session to search its files.");
                return None;
            },
        };
        match engine {
            Engine::Missing => {
                self.empty("Engine not connected");
                None
            },
            Engine::Connected => {
                self.loading = true;
                let call = RpcCall::search_files(self.query.as_str(), &chat);
                Some(SearchCall { request: self.request, call })
            },
        }
    }

    /// Leaves nothing to choose from, and says why.
    fn empty(&mut self, error: &str)
        ensures
            final(self)@ == old(self)@.emptied(error@),
    {
        self.loading = false;
        self.results = Vec::new();
        self.active = None;
        self.error = Some(error.to_string());
    }

    /// Takes the outcome of a search, unless a newer search has begun; tells whether it did.
    pub fn finish(&mut self, request: u64, outcome: SearchOutcome) -> (r: bool)
        ensures
            final(self)@ == old(self)@.finished(request, outcome),
            r == (request == old(self)@.request),
            r == (request == old(self).request),
            !r ==> *final(self) == *old(self),
            final(self).query@ == old(self).query@,
            final(self).request == old(self).request,
            final(self).focus_pending == old(self).focus_pending,
            r ==> !final(self).loading,
            r ==> match outcome {
                SearchOutcome::Matches(matches) => {
                    &&& final(self).error is None
                    &&& final(self).results@ == matches@.filter(files())
                    &&& final(self).active == if file_count(matches@) > 0 {
                        Some(0usize)
                    } else {
                        None
                    }
                },
                SearchOutcome::Unreadable(reason) => {
                    &&& final(self).results@.len() == 0
                    &&& final(self).active is None
                    &&& final(self).error matches Some(error)
                    &&& error@ == reason@
                },
                SearchOutcome::Failed(failure) => {
                    &&& final(self).results@.len() == 0
                    &&& final(self).active is None
                    &&& final(self).error matches Some(error)
                    &&& error@ == search_failure(failure)
                },
            },
    {
        if self.request != request {
            return false;
        }
        match outcome {
            SearchOutcome::Matches(matches) => {
                self.loading = false;
                self.error = None;
                self.results = openable_files(matches);
                self.active = if self.results.len() > 0 {
                    Some(0)
                } else {
                    None
                };
            },
            SearchOutcome::Unreadable(reason) => self.empty(reason.as_str()),
            SearchOutcome::Failed(error) => self.empty(search_error_message(&error)),
        }
        true
    }

    /// Opens the marked file.
    pub fn select_active(&self) -> (r: Option<FileOpenEvent>)
        ensures
            opens_chosen(r, self@.chosen()),
            match self.active {
                Some(index) => if index < self.results@.len() {
                    r matches Some(FileOpenEvent::Open(path)) && path@
                        == self.results@[index as int].path@
                } else {
                    r is None
                },
                None => r is None,
            },
    {
        match self.active {
            Some(index) => if index < self.results.len() {
                Some(FileOpenEvent::Open(self.results[index].path.clone()))
            } else {
                None
            },
            None => None,
        }
    }

    /// How far a key moves the mark.
    pub fn step_delta(key: MenuKey) -> (r: Option<i32>)
        ensures
            r == match key {
                MenuKey::Up => Some(-1i32),
                MenuKey::Down => Some(1i32),
                _ => None,
            },
    {
        match key {
            MenuKey::Up => Some(-1),
            MenuKey::Down => Some(1),
            _ => None,
        }
    }

    /// Takes a key press. `landed` is the row where the mark lands when it moves by the key's
    /// step; keys that do not move it leave `landed` unread.
    pub fn on_key(&mut self, key: MenuKey, landed: Option<usize>) -> (r: KeyEffect)
        ensures
            match key {
                MenuKey::Escape => {
                    &&& *final(self) == *old(self)
                    &&& r == (KeyEffect {
                        event: Some(FileOpenEvent::Dismissed),
                        redraw: false,
                        handled: true,
                    })
                },
                MenuKey::Up | MenuKey::Down => {
                    &&& final(self)@ == (PaletteState { active: landed, ..old(self)@ })
                    &&& *final(self) == (FileOpenPalette { active: landed, ..*old(self) })
                    &&& r == (KeyEffect { event: None, redraw: true, handled: true })
                },
                MenuKey::Enter | MenuKey::ModEnter => {
                    &&& *final(self) == *old(self)
                    &&& opens_chosen(r.event, old(self)@.chosen())
                    &&& match old(self).active {
                        Some(index) => if index < old(self).results@.len() {
                            r.event matches Some(FileOpenEvent::Open(path)) && path@ == old(
                                self,
                            ).results@[index as int].path@
                        } else {
                            r.event is None
                        },
                        None => r.event is None,
                    }
                    &&& !r.redraw
                    &&& r.handled
                },
                MenuKey::Backspace | MenuKey::Other => {
                    &&& *final(self) == *old(self)
                    &&& r == (KeyEffect { event: None, redraw: false, handled: false })
                },
            },
    {
        match key {
            MenuKey::Escape => KeyEffect {
                event: Some(FileOpenEvent::Dismissed),
                redraw: false,
                handled: true,
            },
            MenuKey::Up | MenuKey::Down => {
                self.active = landed;
                KeyEffect { event: None, redraw: true, handled: true }
            },
            MenuKey::Enter | MenuKey::ModEnter => KeyEffect {
                event: self.select_active(),
                redraw: false,
                handled: true,
            },
            MenuKey::Backspace | MenuKey::Other => KeyEffect {
                event: None,
                redraw: false,
                handled: false,
            },
        }
    }

    /// Marks a clicked row and opens it.
    pub fn on_click(&mut self, index: usize) -> (r: Option<FileOpenEvent>)
        ensures
            final(self)@ == (PaletteState { active: Some(index), ..old(self)@ }),
            opens_chosen(r, final(self)@.chosen()),
            *final(self) == (FileOpenPalette { active: Some(index), ..*old(self) }),
            if index < old(self).results@.len() {
                r matches Some(FileOpenEvent::Open(path)) && path@
                    == old(self).results@[index as int].path@
            } else {
                r is None
            },
    {
        self.active = Some(index);
        self.select_active()
    }

    /// A mouse press outside the card dismisses the palette.
    pub fn on_click_outside(&self) -> (r: FileOpenEvent)
        ensures
            r is Dismissed,
    {
        FileOpenEvent::Dismissed
    }

    /// What the overlay shows; the input gets the focus on the first call.
    pub fn render_overlay(&mut self) -> (r: OverlayPane)
        ensures
            final(self)@ == (PaletteState { focus_pending: false, ..old(self)@ }),
            r.focus_input == old(self)@.focus_pending,
            r.body.shows(old(self)@),
            r.focus_input == old(self).focus_pending,
            *final(self) == (FileOpenPalette { focus_pending: false, ..*old(self) }),
            r.body.paints(*old(self)),
    {
        let focus_input: bool = self.focus_pending;
        self.focus_pending = false;
        let body = if self.loading && self.results.len() == 0 {
            OverlayBody::Skeleton
        } else if let Some(error) = &self.error {
            OverlayBody::Error(error.clone())
        } else if self.results.len() == 0 {
            if self.query.as_str().is_empty() {
                OverlayBody::Empty("No files available")
            } else {
                OverlayBody::Empty("No matching files")
            }
        } else {
            OverlayBody::Rows(self.rows())
        };
        OverlayPane { focus_input, body }
    }

    /// The result rows.
    fn rows(&self) -> (r: Vec<OverlayRow>)
        ensures
            r@.len() == self@.results.len(),
            forall|i: int| 0 <= i < r@.len() ==> (#[trigger] r@[i]).shows(self@, i),
            forall|i: int|
                0 <= i < r@.len() ==> {
                    &&& (#[trigger] r@[i]).path@ == self.results@[i].path@
                    &&& r@[i].key@ == "file-open-result-"@ + size::decimal(i as nat)
                    &&& r@[i].selected == (self.active is Some && self.active->0 == i)
                },
    {
        let mut rows: Vec<OverlayRow> = Vec::new();
        let mut index: usize = 0;
        while index < self.results.len()
            invariant
                index <= self.results.len(),
                rows@.len() == index,
                forall|i: int| 0 <= i < index ==> (#[trigger] rows@[i]).shows(self@, i),
                forall|i: int|
                    0 <= i < index ==> {
                        &&& (#[trigger] rows@[i]).path@ == self.results@[i].path@
                        &&& rows@[i].key@ == "file-open-result-"@ + size::decimal(i as nat)
                        &&& rows@[i].selected == (self.active is Some && self.active->0 == i)
                    },
            decreases self.results.len() - index,
        {
            let selected = match self.active {
                Some(active) => active == index,
                None => false,
            };
            let mut key = "file-open-result-".to_string();
            key.append(size::decimal_text(index as u64).as_str());
            rows.push(OverlayRow { key, path: self.results[index].path.clone(), selected });
            index += 1;
        }
        rows
    }
}

// ---------------------------------------------------------------------------
// What the overlay shows
// ---------------------------------------------------------------------------

/// One result row.
#[derive(Debug, PartialEq, Eq)]
pub struct OverlayRow {
    pub key: String,
    pub path: String,
    pub selected: bool,
}

impl OverlayRow {
    /// The row shows the result at this index.
    pub open spec fn shows(self, state: PaletteState, index: int) -> bool {
        &&& self.key@ == "file-open-result-"@ + size::decimal(index as nat)
        &&& self.path@ == state.results[index].path@
        &&& self.selected == (state.active is Some && state.active->0 == index)
    }
}

/// What stands below the input.
#[derive(Debug, PartialEq, Eq)]
pub enum OverlayBody {
    /// Placeholder rows while the first results are awaited.
    Skeleton,
    Error(String),
    /// There is nothing to offer, in these words.
    Empty(&'static str),
    Rows(Vec<OverlayRow>),
}

impl OverlayBody {
    /// The body holds what the palette holds: a row with the path of every result, the marked one
    /// selected, where there are results and no error; the error's text, whole, where there is one;
    /// and placeholders exactly while results are awaited and there are none.
    pub open spec fn paints(self, palette: FileOpenPalette) -> bool {
        match self {
            OverlayBody::Skeleton => palette.loading && palette.results@.len() == 0,
            OverlayBody::Error(shown) => {
                &&& !(palette.loading && palette.results@.len() == 0)
                &&& palette.error matches Some(error)
                &&& shown@ == error@
            },
            OverlayBody::Empty(words) => {
                &&& !palette.loading
                &&& palette.error is None
                &&& palette.results@.len() == 0
                &&& words@ == if palette.query@.len() == 0 {
                    "No files available"@
                } else {
                    "No matching files"@
                }
            },
            OverlayBody::Rows(rows) => {
                &&& palette.error is None
                &&& rows@.len() > 0
                &&& rows@.len() == palette.results@.len()
                &&& forall|i: int|
                    0 <= i < rows@.len() ==> {
                        &&& (#[trigger] rows@[i]).path@ == palette.results@[i].path@
                        &&& rows@[i].key@ == "file-open-result-"@ + size::decimal(i as nat)
                        &&& rows@[i].selected == (palette.active is Some && palette.active->0 == i)
                    }
            },
        }
    }

    /// The body shows this state: placeholders while a search runs without earlier results; else
    /// the error; else that there are no results; else the results.
    pub open spec fn shows(self, state: PaletteState) -> bool {
        if state.loading && state.results.len() == 0 {
            self is Skeleton
        } else if state.error is Some {
            self matches OverlayBody::Error(error) && error@ == state.error->0
        } else if state.results.len() == 0 {
            self matches OverlayBody::Empty(words) && words@ == if state.query.len() == 0 {
                "No files available"@
            } else {
                "No matching files"@
            }
        } else {
            &&& self matches OverlayBody::Rows(rows)
            &&& rows@.len() == state.results.len()
            &&& forall|i: int| 0 <= i < rows@.len() ==> (#[trigger] rows@[i]).shows(state, i)
        }
    }
}

/// The overlay.
#[derive(Debug, PartialEq, Eq)]
pub struct OverlayPane {
    /// The input is to get the focus.
    pub focus_input: bool,
    pub body: OverlayBody,
}

// ---------------------------------------------------------------------------
// Laws
// ---------------------------------------------------------------------------

/// The palette never offers a directory: a blank palette does not, and every transition keeps it
/// so.
pub proof fn law_only_files_are_offered(
    state: PaletteState,
    query: Seq<char>,
    chat: Option<ChatRow>,
    engine: Engine,
    request: u64,
    outcome: SearchOutcome,
    active: Option<usize>,
)
    requires
        state.files_only(),
    ensures
        PaletteState::blank().files_only(),
        state.searched(chat, engine).files_only(),
        state.queried(query, chat, engine).files_only(),
        state.finished(request, outcome).files_only(),
        (PaletteState { active, ..state }).files_only(),
{
    if let SearchOutcome::Matches(matches) = outcome {
        let results = matches@.filter(files());
        assert forall|i: int| 0 <= i < results.len() implies !(#[trigger] results[i]).is_dir by {
            matches@.lemma_filter_pred(files(), i);
        }
    }
}

/// The mark is on a row or there is none: every transition keeps it so, as long as the rows that
/// keys and clicks move it to exist.
pub proof fn law_mark_stays_on_a_row(
    state: PaletteState,
    query: Seq<char>,
    chat: Option<ChatRow>,
    engine: Engine,
    request: u64,
    outcome: SearchOutcome,
    landed: Option<usize>,
)
    requires
        state.mark_in_range(),
        landed matches Some(index) ==> index < state.results.len(),
    ensures
        PaletteState::blank().mark_in_range(),
        state.searched(chat, engine).mark_in_range(),
        state.queried(query, chat, engine).mark_in_range(),
        state.finished(request, outcome).mark_in_range(),
        (PaletteState { active: landed, ..state }).mark_in_range(),
{
}

/// The newest search wins: the outcome of the search before changes nothing once a new one has
/// begun, whether the new one was started afresh or by another query.
pub proof fn law_outdated_results_are_dropped(
    state: PaletteState,
    query: Seq<char>,
    chat: Option<ChatRow>,
    engine: Engine,
    outcome: SearchOutcome,
)
    ensures
        state.searched(chat, engine).finished(state.request, outcome) == state.searched(
            chat,
            engine,
        ),
        query != state.query ==> state.queried(query, chat, engine).finished(state.request, outcome)
            == state.queried(query, chat, engine),
{
}

/// What a search brought is there to choose from, its first file marked, and choosing it opens
/// that file; a search without files leaves nothing to open.
pub proof fn law_first_file_is_marked(state: PaletteState, matches: Vec<FileSearchMatch>)
    ensures
        ({
            let found = matches@.filter(files());
            let after = state.finished(state.request, SearchOutcome::Matches(matches));
            &&& !after.loading
            &&& after.error is None
            &&& after.results == found
            &&& found.len() > 0 ==> after.chosen() == Some(found[0].path@)
            &&& found.len() == 0 ==> after.chosen() is None
        }),
{
}

/// The steps of a search through a list of events.
pub open spec fn steps(phase: SearchPhase, events: Seq<SearchEvent>) -> Seq<SearchStep>
    decreases events.len(),
{
    if events.len() == 0 {
        seq![]
    } else {
        let (next, step) = phase.after(events[0]);
        seq![step] + steps(next, events.drop_first())
    }
}

/// How many calls there are among steps.
pub open spec fn calls(steps: Seq<SearchStep>) -> nat
    decreases steps.len(),
{
    if steps.len() == 0 {
        0
    } else {
        calls(steps.drop_first()) + if steps[0] is Call {
            1nat
        } else {
            0nat
        }
    }
}

/// How many calls a search may still make.
spec fn calls_left(phase: SearchPhase) -> nat {
    match phase {
        SearchPhase::Debouncing => 2,
        SearchPhase::Calling => 1,
        SearchPhase::BackingOff => 1,
        SearchPhase::Retrying => 0,
        SearchPhase::Done => 0,
    }
}

/// From any phase, a search makes no more calls than it may.
proof fn lemma_calls_bounded(phase: SearchPhase, events: Seq<SearchEvent>)
    ensures
        calls(steps(phase, events)) <= calls_left(phase),
        (forall|i: int|
            0 <= i < events.len() ==> #[trigger] events[i] != (SearchEvent::Replied {
                connection_lost: true,
            })) && (phase is Debouncing || phase is Calling) ==> calls(steps(phase, events))
            <= calls_left(phase) - 1,
    decreases events.len(),
{
    if events.len() > 0 {
        let (next, step) = phase.after(events[0]);
        let rest = events.drop_first();
        lemma_calls_bounded(next, rest);
        assert(steps(phase, events).drop_first() =~= steps(next, rest));
        if forall|i: int|
            0 <= i < events.len() ==> #[trigger] events[i] != (SearchEvent::Replied {
                connection_lost: true,
            }) {
            assert(events[0] != (SearchEvent::Replied { connection_lost: true }));
            assert forall|i: int| 0 <= i < rest.len() implies #[trigger] rest[i] != (
            SearchEvent::Replied { connection_lost: true }) by {
                assert(rest[i] == events[i + 1]);
            }
        }
    }
}

/// A search makes at most two calls, and only one unless the connection was lost.
pub proof fn law_a_search_calls_at_most_twice(events: Seq<SearchEvent>)
    ensures
        calls(steps(SearchPhase::Debouncing, events)) <= 2,
        (forall|i: int|
            0 <= i < events.len() ==> #[trigger] events[i] != (SearchEvent::Replied {
                connection_lost: true,
            })) ==> calls(steps(SearchPhase::Debouncing, events)) <= 1,
{
    lemma_calls_bounded(SearchPhase::Debouncing, events);
}

/// How many deliveries there are among steps.
pub open spec fn deliveries(steps: Seq<SearchStep>) -> nat
    decreases steps.len(),
{
    if steps.len() == 0 {
        0
    } else {
        deliveries(steps.drop_first()) + if steps[0] is Deliver {
            1nat
        } else {
            0nat
        }
    }
}

/// A search delivers no second time, from whatever phase it goes on.
pub proof fn law_a_search_delivers_at_most_once(phase: SearchPhase, events: Seq<SearchEvent>)
    ensures
        deliveries(steps(phase, events)) <= 1,
        phase is Done ==> deliveries(steps(phase, events)) == 0,
    decreases events.len(),
{
    if events.len() > 0 {
        let (next, step) = phase.after(events[0]);
        law_a_search_delivers_at_most_once(next, events.drop_first());
        assert(steps(phase, events).drop_first() =~= steps(next, events.drop_first()));
    }
}

/// What a failed search says depends on the kind of failure alone: an unknown method, a lost
/// connection, or any other.
pub proof fn law_search_failures_of_a_kind_read_alike(a: RpcError, b: RpcError)
    ensures
        a is UnknownMethod && b is UnknownMethod ==> search_failure(a) == search_failure(b),
        (a is Transport || a is Closed) && (b is Transport || b is Closed) ==> search_failure(a)
            == search_failure(b),
        (a is BadParams || a is Failed) && (b is BadParams || b is Failed) ==> search_failure(a)
            == search_failure(b),
{
}

/// Waits end in calls, calls end in another wait or in a delivery, and nothing else moves a search:
/// the end of a wait leads to a call exactly where the search waits; a reply leads to another try
/// exactly where it is the first and the connection was lost, and else to its delivery.
pub proof fn law_searches_take_their_course(phase: SearchPhase, connection_lost: bool)
    ensures
        ({
            let (next, step) = phase.after(SearchEvent::Elapsed);
            if phase is Debouncing || phase is BackingOff {
                &&& step is Call
                &&& phase is Debouncing ==> next is Calling
                &&& phase is BackingOff ==> next is Retrying
            } else {
                step is Nothing && next == phase
            }
        }),
        ({
            let (next, step) = phase.after(SearchEvent::Replied { connection_lost });
            if phase is Calling && connection_lost {
                next is BackingOff && step == (SearchStep::Wait { millis: 250 })
            } else if phase is Calling || phase is Retrying {
                next is Done && step is Deliver
            } else {
                step is Nothing && next == phase
            }
        }),
{
}

/// A new search for another query keeps what was found until its own outcome comes, and never has
/// the request id of the search before.
pub proof fn law_new_searches_keep_earlier_results(
    state: PaletteState,
    query: Seq<char>,
    chat: ChatRow,
)
    requires
        query != state.query,
    ensures
        ({
            let after = state.queried(query, Some(chat), Engine::Connected);
            &&& after.query == query
            &&& after.results == state.results
            &&& after.active == state.active
            &&& after.loading
            &&& after.error is None
            &&& after.request != state.request
        }),
{
}

/// After any number of searches short of the number of ids, the id is another one than at the start:
/// an outcome that comes late is not taken for that of a newer search.
pub proof fn law_request_ids_do_not_repeat(request: u64, searches: nat)
    requires
        0 < searches < 0x1_0000_0000_0000_0000,
    ensures
        id_after(request, searches) == (request + searches) % 0x1_0000_0000_0000_0000,
        id_after(request, searches) != request,
    decreases searches,
{
    if searches > 1 {
        law_request_ids_do_not_repeat(request, (searches - 1) as nat);
    } else {
        assert(id_after(request, 0) == request);
    }
}

/// The id after so many searches.
pub open spec fn id_after(request: u64, searches: nat) -> u64
    decreases searches,
{
    if searches == 0 {
        request
    } else {
        next_id(id_after(request, (searches - 1) as nat))
    }
}

/// The three kinds of failure read differently.
pub proof fn law_search_failures_are_told_apart(a: RpcError, b: RpcError)
    requires
        search_failure(a) == search_failure(b),
    ensures
        a is UnknownMethod <==> b is UnknownMethod,
        a is Transport || a is Closed <==> b is Transport || b is Closed,
{
    reveal_strlit("The session's device runs an older zeron — update it to search its files");
    reveal_strlit("The session's device is unreachable");
    reveal_strlit("File search failed");
    assert("The session's device runs an older zeron — update it to search its files"@.len() == 72);
    assert("The session's device is unreachable"@.len() == 35);
    assert("File search failed"@.len() == 18);
    assert(search_failure(a).len() == search_failure(b).len());
}

} // verus!
