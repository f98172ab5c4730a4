//! The file viewer panel: which file is open, its editor rows, and what the panel shows of them.

use vstd::prelude::*;

use crate::display;
use crate::display::LanguageId;
use crate::link;
use crate::link::LinkTarget;
use crate::proto;
use crate::proto::{
    CallError, ChatRow, Engine, RpcCall, RpcError, WorkspaceFileContent, WorkspaceFileRead,
};
use crate::text;
use crate::viewer::{CoreView, Shown, ViewerBody, ViewerCore};

verus! {

/// What the viewer tells its surroundings.
#[derive(Debug, Clone, Copy, PartialEq, Eq, Structural)]
pub enum FileViewerEvent {
    /// The user dismissed the viewer.
    Closed,
}

/// A highlighted source text: the spans of each line. The viewer hands spans through unread.
#[derive(Debug)]
pub struct HighlightedDocument<S> {
    pub lines: Vec<Vec<S>>,
}

/// One opened source file, split into editor rows.
#[derive(Debug)]
pub struct EditorBuffer<S> {
    pub request: u64,
    pub lines: Vec<String>,
    pub highlight: Option<HighlightedDocument<S>>,
}

/// The viewer: one file at a time, read-only.
#[derive(Debug)]
pub struct FileViewer<S> {
    pub open: Option<ViewerCore>,
    /// Monotonic across the viewer's lifetime: ids are never reused after a close and reopen, so a
    /// response from before the close cannot be applied.
    pub next_request: u64,
    /// The editor rows of a source text; none while loading, previewing markdown or showing a
    /// notice.
    pub editor: Option<EditorBuffer<S>>,
    /// How many rows the list shows: the editor rows and a spacer below them.
    pub rows: usize,
}

/// A call to make for an opened file; its outcome is applied under the request.
#[derive(Debug, PartialEq, Eq)]
pub struct ReadCall {
    pub request: u64,
    pub call: RpcCall,
}

/// What is asked of the surroundings when a file is opened. Without a selected chat there is no
/// workspace to read from, and nothing is asked.
#[derive(Debug, PartialEq, Eq)]
pub struct OpenEffect {
    /// Scroll the body back to its top: another file is open now.
    pub scroll_to_top: bool,
    /// Make this call in place of the one that runs.
    pub read: Option<ReadCall>,
}

/// The failure of a call that there is no engine for.
pub open spec fn engine_is_unavailable(error: RpcError) -> bool {
    error matches RpcError::Failed(message) && message@ == "engine unavailable"@
}

/// The failure of a call that there is no engine for.
pub fn engine_unavailable() -> (r: RpcError)
    ensures
        engine_is_unavailable(r),
        r matches RpcError::Failed(message) && message@ == "engine unavailable"@,
{
    RpcError::Failed("engine unavailable".to_string())
}

/// What is asked of the surroundings when a link in the previewed text is clicked.
#[derive(Debug, PartialEq, Eq)]
pub enum LinkEffect {
    Opened(OpenEffect),
    /// Hand this target to the platform.
    Url(String),
}

/// A source text to highlight, for the request that it was opened under.
#[derive(Debug, PartialEq, Eq)]
pub struct HighlightJob {
    pub path: String,
    pub text: String,
    pub request: u64,
}

/// What became of a response.
#[derive(Debug, PartialEq, Eq)]
pub enum ApplyEffect {
    /// It was stale, or nothing is open.
    Ignored,
    /// It is shown now; a source text is to be highlighted.
    Shown(Option<HighlightJob>),
}

// ---------------------------------------------------------------------------
// The state and its transitions
// ---------------------------------------------------------------------------

/// What an editor buffer holds.
pub struct EditorState<S> {
    pub request: u64,
    pub lines: Seq<Seq<char>>,
    pub highlight: Option<HighlightedDocument<S>>,
}

impl<S> View for EditorBuffer<S> {
    type V = EditorState<S>;

    open spec fn view(&self) -> EditorState<S> {
        EditorState {
            request: self.request,
            lines: display::texts(self.lines@),
            highlight: self.highlight,
        }
    }
}

/// What the viewer holds.
pub struct ViewerState<S> {
    pub open: Option<CoreView>,
    pub next_request: u64,
    pub editor: Option<EditorState<S>>,
    pub rows: usize,
}

impl<S> View for FileViewer<S> {
    type V = ViewerState<S>;

    open spec fn view(&self) -> ViewerState<S> {
        ViewerState {
            open: match self.open {
                Some(core) => Some(core@),
                None => None,
            },
            next_request: self.next_request,
            editor: match self.editor {
                Some(buffer) => Some(buffer@),
                None => None,
            },
            rows: self.rows,
        }
    }
}

/// The list rows for so many lines: one for each and one for the spacer below them.
pub open spec fn list_rows(lines: nat) -> usize {
    if lines < usize::MAX {
        (lines + 1) as usize
    } else {
        usize::MAX
    }
}

impl<S> ViewerState<S> {
    /// A viewer that has not opened anything yet.
    pub open spec fn fresh() -> ViewerState<S> {
        ViewerState { open: None, next_request: 0, editor: None, rows: 0 }
    }

    /// Without editor rows.
    pub open spec fn without_editor(self) -> ViewerState<S> {
        ViewerState { editor: None, rows: 0, ..self }
    }

    /// A file of a chat's checkout is requested, in place of whatever was open.
    pub open spec fn opened(self, path: Seq<char>, chat_id: Seq<char>) -> ViewerState<S> {
        let request = (self.next_request + 1) as u64;
        ViewerState {
            open: Some(CoreView { chat_id, path, request, body: Shown::Loading }),
            next_request: request,
            editor: None,
            rows: 0,
        }
    }

    /// A file of a chat's checkout is requested where there is no engine to ask: in place of
    /// whatever was open stands a notice with this explanation.
    pub open spec fn refused(
        self,
        path: Seq<char>,
        chat_id: Seq<char>,
        detail: Seq<char>,
    ) -> ViewerState<S> {
        let request = (self.next_request + 1) as u64;
        ViewerState {
            open: Some(
                CoreView {
                    chat_id,
                    path,
                    request,
                    body: Shown::Notice { title: "Couldn't open this file"@, detail },
                },
            ),
            next_request: request,
            editor: None,
            rows: 0,
        }
    }

    /// The user asked for a file: without a chat nothing changes; without an engine the file is
    /// refused with this explanation.
    pub open spec fn requested(
        self,
        path: Seq<char>,
        chat: Option<ChatRow>,
        engine: Engine,
        unavailable: Seq<char>,
    ) -> ViewerState<S> {
        match chat {
            None => self,
            Some(chat) => match engine {
                Engine::Connected => self.opened(path, chat.id@),
                Engine::Missing => self.refused(path, chat.id@, unavailable),
            },
        }
    }

    /// The source text that is open without editor rows of its own request.
    pub open spec fn pending_source(self) -> Option<(CoreView, Seq<char>)> {
        match self.open {
            Some(core) => match core.body {
                Shown::Text(source) => if self.editor is Some && self.editor->0.request
                    == core.request {
                    None
                } else {
                    Some((core, source))
                },
                _ => None,
            },
            None => None,
        }
    }

    /// The editor rows brought in line with what is open: a source text gets its rows unless its
    /// request has them already; without a source text there are none.
    pub open spec fn refreshed(self) -> ViewerState<S> {
        match self.pending_source() {
            Some((core, source)) => ViewerState {
                editor: Some(
                    EditorState {
                        request: core.request,
                        lines: display::lines(source),
                        highlight: None,
                    },
                ),
                rows: list_rows(display::lines(source).len()),
                ..self
            },
            None => if self.open is Some && self.open->0.body is Text {
                self
            } else {
                self.without_editor()
            },
        }
    }

    /// The open file shows a response, editor rows aside.
    pub open spec fn replied(
        self,
        request: u64,
        outcome: Result<WorkspaceFileRead, CallError>,
    ) -> ViewerState<S> {
        ViewerState {
            open: match self.open {
                Some(core) => Some(core.applied(request, outcome)),
                None => None,
            },
            ..self
        }
    }

    /// A response to this request is what the open file waits for.
    pub open spec fn awaits(self, request: u64) -> bool {
        self.open is Some && self.open->0.request == request
    }

    /// A response arrived.
    pub open spec fn applied(
        self,
        request: u64,
        outcome: Result<WorkspaceFileRead, CallError>,
    ) -> ViewerState<S> {
        if self.awaits(request) {
            self.replied(request, outcome).refreshed()
        } else {
            self
        }
    }

    /// The viewer is dismissed.
    pub open spec fn cleared(self) -> ViewerState<S> {
        if self.open is Some {
            ViewerState { open: None, editor: None, rows: 0, ..self }
        } else {
            self
        }
    }

    /// The open file belongs to another chat than this one.
    pub open spec fn foreign(self, chat_id: Option<Seq<char>>) -> bool {
        self.open is Some && Some(self.open->0.chat_id) != chat_id
    }

    /// The user went to this chat, or to none.
    pub open spec fn left_for(self, chat_id: Option<Seq<char>>) -> ViewerState<S> {
        if self.foreign(chat_id) {
            self.cleared()
        } else {
            self
        }
    }

    /// The editor waits for the highlighting of this request.
    pub open spec fn highlights(self, request: u64) -> bool {
        self.editor is Some && self.editor->0.request == request
    }

    /// A highlighting arrived.
    pub open spec fn highlighted(
        self,
        request: u64,
        document: Option<HighlightedDocument<S>>,
    ) -> ViewerState<S> {
        if self.highlights(request) {
            ViewerState {
                editor: Some(EditorState { highlight: document, ..self.editor->0 }),
                ..self
            }
        } else {
            self
        }
    }

    /// What holds of the viewer at all times: the open request was issued; there are editor rows
    /// exactly while a source text is open, and they are of its request; the list shows them.
    pub open spec fn consistent(self) -> bool {
        &&& self.open matches Some(core) ==> core.request <= self.next_request
        &&& self.editor is Some <==> (self.open is Some && self.open->0.body is Text)
        &&& self.editor matches Some(editor) ==> editor.request == self.open->0.request
            && self.rows == list_rows(editor.lines.len())
        &&& self.editor is None ==> self.rows == 0
    }

    /// The editor rows are those of the open source text.
    pub open spec fn rows_show_source(self) -> bool {
        self.editor matches Some(editor) ==> {
            &&& self.open matches Some(core)
            &&& core.body matches Shown::Text(source)
            &&& editor.lines == display::lines(source)
        }
    }
}

impl OpenEffect {
    /// The effect asks for what opening `path` in `chat` under `request` takes.
    pub open spec fn asks(
        self,
        path: Seq<char>,
        chat: Option<ChatRow>,
        engine: Engine,
        request: u64,
    ) -> bool {
        &&& self.scroll_to_top == (chat is Some)
        &&& match (chat, engine) {
            (Some(chat), Engine::Connected) => {
                &&& self.read matches Some(read)
                &&& read.request == request
                &&& read.call@ == proto::read_workspace_file(path, chat)
            },
            _ => self.read is None,
        }
    }
}

impl HighlightJob {
    /// The job is to highlight this source text of this file.
    pub open spec fn is_for(self, core: CoreView, source: Seq<char>) -> bool {
        self.path@ == core.path && self.text@ == source && self.request == core.request
    }
}

impl<S> FileViewer<S> {
    /// `self` and `effect` are what asking `before` for a file of a chat leads to: the file's path
    /// and chat stand under the next request id with no editor rows; with an engine the body waits
    /// for the reply to a call that carries the path; without one it is a notice with the
    /// explanation.
    pub open spec fn asked(
        self,
        before: FileViewer<S>,
        effect: OpenEffect,
        path: Seq<char>,
        chat: ChatRow,
        engine: Engine,
        unavailable: Seq<char>,
    ) -> bool {
        &&& self.next_request == before.next_request + 1
        &&& self.editor is None
        &&& self.rows == 0
        &&& effect.scroll_to_top
        &&& self.open matches Some(core)
        &&& core.path@ == path
        &&& core.chat_id@ == chat.id@
        &&& core.request == self.next_request
        &&& match engine {
            Engine::Connected => {
                &&& core.body is Loading
                &&& effect.read matches Some(read)
                &&& read.request == self.next_request
                &&& read.call.reads(path, chat.id@, chat.device_id@)
            },
            Engine::Missing => {
                &&& effect.read is None
                &&& core.body matches ViewerBody::Notice { title, detail }
                &&& title@ == "Couldn't open this file"@
                &&& detail@ == unavailable
            },
        }
    }

    /// There are editor rows, of the open request, exactly where the body is a source text.
    pub open spec fn rows_follow(self, core: ViewerCore) -> bool {
        match core.body {
            ViewerBody::Text(_) => self.editor matches Some(editor) && editor.request
                == core.request,
            _ => self.editor is None && self.rows == 0,
        }
    }

    /// The editor rows are the lines of a source text: joined with line feeds they are the text, no
    /// row holds a line feed, and the list has one row more.
    pub open spec fn splits(self, source: Seq<char>) -> bool {
        &&& self.editor matches Some(editor)
        &&& display::joined_lines(display::texts(editor.lines@)) == source
        &&& forall|i: int|
            0 <= i < editor.lines@.len() ==> !(#[trigger] editor.lines@[i])@.contains('\n')
        &&& editor.lines@.len() < usize::MAX ==> self.rows == editor.lines@.len() + 1
        &&& editor.highlight is None
    }

    /// A viewer with nothing open.
    pub fn new() -> (r: FileViewer<S>)
        ensures
            r@ == ViewerState::<S>::fresh(),
            r.open is None,
            r.editor is None,
            r.next_request == 0,
            r.rows == 0,
    {
        FileViewer { open: None, next_request: 0, editor: None, rows: 0 }
    }

    /// Whether a file is open.
    pub fn is_open(&self) -> (r: bool)
        ensures
            r == (self@.open is Some),
            r == (self.open is Some),
    {
        self.open.is_some()
    }

    /// Opens a file, in place of the one that was open. The request targets the selected chat's
    /// host device; without a selected chat the click is ignored. Without an engine the file is
    /// refused at once; `unavailable` is the text that `engine_unavailable()` is shown as.
    pub fn open(
        &mut self,
        path: String,
        chat: Option<ChatRow>,
        engine: Engine,
        unavailable: &str,
    ) -> (r: OpenEffect)
        requires
            chat is Some ==> old(self).next_request < u64::MAX,
        ensures
            r.asks(path@, chat, engine, final(self).next_request),
            final(self)@ == old(self)@.requested(path@, chat, engine, unavailable@),
            chat is None ==> *final(self) == *old(self) && r.read is None && !r.scroll_to_top,
            chat matches Some(chat) ==> final(self).asked(
                *old(self),
                r,
                path@,
                chat,
                engine,
                unavailable@,
            ),
    {
        let chat = match chat {
            Some(chat) => chat,
            None => return OpenEffect { scroll_to_top: false, read: None },
        };
        let ghost chat_id = chat.id@;
        self.next_request = self.next_request + 1;
        let request: u64 = self.next_request;
        let call = RpcCall::read_workspace_file(path.as_str(), &chat);
        self.open = Some(ViewerCore::new(chat.id, path, request));
        self.clear_editor();
        assert(self@ == old(self)@.opened(path@, chat_id));
        match engine {
            Engine::Connected => OpenEffect {
                scroll_to_top: true,
                read: Some(ReadCall { request, call }),
            },
            Engine::Missing => {
                let failure = CallError {
                    error: engine_unavailable(),
                    shown: unavailable.to_string(),
                };
                proof {
                    law_refusal_is_an_answered_request(old(self)@, path@, chat_id, failure);
                }
                self.apply(request, Err(failure));
                OpenEffect { scroll_to_top: true, read: None }
            },
        }
    }

    /// Applies a response to the open file.
    pub fn apply(
        &mut self,
        request: u64,
        outcome: Result<WorkspaceFileRead, CallError>,
    ) -> (r: ApplyEffect)
        ensures
            final(self)@ == old(self)@.applied(request, outcome),
            match r {
                ApplyEffect::Ignored => !old(self)@.awaits(request),
                ApplyEffect::Shown(job) => {
                    &&& old(self)@.awaits(request)
                    &&& match job {
                        Some(job) => {
                            &&& old(self)@.replied(request, outcome).pending_source() matches Some(
                                (core, source),
                            )
                            &&& job.is_for(core, source)
                        },
                        None => old(self)@.replied(request, outcome).pending_source() is None,
                    }
                },
            },
            final(self).next_request == old(self).next_request,
            match old(self).open {
                Some(before) => if before.request == request {
                    &&& final(self).open matches Some(core)
                    &&& core.request == request
                    &&& core.chat_id@ == before.chat_id@
                    &&& match outcome {
                        Ok(read) => core.path@ == read.path@ && core.body@
                            == crate::viewer::content_shown(read.path@, read.content),
                        Err(failure) => core.path@ == before.path@ && core.body@
                            == crate::viewer::failure_shown(failure),
                    }
                    &&& final(self).rows_follow(core)
                    &&& match (outcome, core.body) {
                        (Ok(read), ViewerBody::Markdown(source)) => read.content matches
                            WorkspaceFileContent::Text { text } && source@ == text@,
                        (Ok(read), ViewerBody::Text(source)) => read.content matches
                            WorkspaceFileContent::Text { text } && source@ == text@,
                        (Ok(read), ViewerBody::Notice { .. }) => read.content matches
                            WorkspaceFileContent::Text { text } ==> text@.len() == 0,
                        (_, body) => body is Notice,
                    }
                    &&& match core.body {
                        ViewerBody::Text(source) => if old(self).editor is Some && old(
                            self,
                        ).editor->0.request == request {
                            r matches ApplyEffect::Shown(None)
                        } else {
                            &&& final(self).splits(source@)
                            &&& r matches ApplyEffect::Shown(Some(job))
                            &&& job.path@ == core.path@
                            &&& job.text@ == source@
                            &&& job.request == request
                        },
                        _ => r matches ApplyEffect::Shown(None),
                    }
                } else {
                    *final(self) == *old(self) && r is Ignored
                },
                None => *final(self) == *old(self) && r is Ignored,
            },
    {
        let applied = match &mut self.open {
            Some(core) => core.apply(request, outcome),
            None => false,
        };
        if !applied {
            return ApplyEffect::Ignored;
        }
        assert(self@ == old(self)@.replied(request, outcome));
        let ghost core = self.open->0;
        let job = self.refresh_editor();
        proof {
            if let Shown::Text(source) = core.body@ {
                display::law_rows_make_up_the_text(source);
                if old(self)@.replied(request, outcome).pending_source() is Some {
                    let rows = self.editor->0.lines@;
                    assert(display::texts(rows) == display::lines(source));
                    assert forall|i: int| 0 <= i < rows.len() implies !(
                    #[trigger] rows[i])@.contains('\n') by {
                        assert(display::texts(rows)[i] == rows[i]@);
                    }
                }
            }
        }
        ApplyEffect::Shown(job)
    }

    /// Dismisses the viewer; tells whether a file was open.
    pub fn clear(&mut self) -> (r: bool)
        ensures
            final(self)@ == old(self)@.cleared(),
            r == (old(self)@.open is Some),
            r == (old(self).open is Some),
            final(self).open is None,
            final(self).next_request == old(self).next_request,
            r ==> final(self).editor is None && final(self).rows == 0,
            !r ==> *final(self) == *old(self),
    {
        if self.open.is_none() {
            return false;
        }
        self.open = None;
        self.clear_editor();
        true
    }

    /// Drops a file that belongs to a session the user has left: a preview from one chat is never
    /// presented as part of another chat's workspace. Tells whether it did.
    pub fn clear_if_not_chat(&mut self, chat_id: Option<&str>) -> (r: bool)
        ensures
            ({
                let chat = match chat_id {
                    Some(id) => Some(id@),
                    None => None,
                };
                final(self)@ == old(self)@.left_for(chat) && r == old(self)@.foreign(chat)
            }),
            r == match old(self).open {
                Some(core) => match chat_id {
                    Some(id) => id@ != core.chat_id@,
                    None => true,
                },
                None => false,
            },
            r ==> final(self).open is None && final(self).editor is None,
            !r ==> *final(self) == *old(self),
            final(self).next_request == old(self).next_request,
    {
        let stale = match &self.open {
            Some(core) => match chat_id {
                Some(id) => !text::same_text(core.chat_id.as_str(), id),
                None => true,
            },
            None => false,
        };
        if stale {
            self.clear()
        } else {
            false
        }
    }

    /// The user dismisses the viewer: it is cleared and says so, and tells whether a file was open.
    pub fn close(&mut self) -> (r: (bool, FileViewerEvent))
        ensures
            final(self)@ == old(self)@.cleared(),
            r.0 == (old(self)@.open is Some),
            r.1 is Closed,
            final(self).open is None,
            final(self).next_request == old(self).next_request,
    {
        (self.clear(), FileViewerEvent::Closed)
    }

    /// Routes a link clicked inside the previewed markdown: workspace paths replace the current
    /// file, everything else goes to the platform.
    pub fn open_link(
        &mut self,
        target: &str,
        chat: Option<ChatRow>,
        engine: Engine,
        unavailable: &str,
    ) -> (r: LinkEffect)
        requires
            chat is Some && link::classified(target@) is Some ==> old(self).next_request
                < u64::MAX,
        ensures
            match link::classified(target@) {
                Some(path) => {
                    &&& r matches LinkEffect::Opened(effect)
                    &&& effect.asks(path, chat, engine, final(self).next_request)
                    &&& final(self)@ == old(self)@.requested(path, chat, engine, unavailable@)
                    &&& chat is None ==> *final(self) == *old(self) && effect.read is None
                    &&& chat matches Some(chat) ==> final(self).asked(
                        *old(self),
                        effect,
                        path,
                        chat,
                        engine,
                        unavailable@,
                    )
                },
                None => {
                    &&& r matches LinkEffect::Url(url)
                    &&& url@ == target@
                    &&& *final(self) == *old(self)
                },
            },
    {
        match link::classify_link(target) {
            LinkTarget::WorkspacePath(path) => LinkEffect::Opened(
                self.open(path, chat, engine, unavailable),
            ),
            LinkTarget::External => LinkEffect::Url(target.to_string()),
        }
    }

    /// Drops the editor rows.
    fn clear_editor(&mut self)
        ensures
            final(self)@ == old(self)@.without_editor(),
            final(self).open == old(self).open,
    {
        self.editor = None;
        self.rows = 0;
    }

    /// Brings the editor rows in line with what is open; gives the source text to highlight where
    /// the rows are new.
    fn refresh_editor(&mut self) -> (r: Option<HighlightJob>)
        ensures
            final(self)@ == old(self)@.refreshed(),
            final(self).open == old(self).open,
            final(self).next_request == old(self).next_request,
            match r {
                Some(job) => {
                    &&& old(self)@.pending_source() matches Some((core, source))
                    &&& job.is_for(core, source)
                },
                None => old(self)@.pending_source() is None,
            },
    {
        let job = match &self.open {
            Some(core) => match &core.body {
                ViewerBody::Text(source) => {
                    let current = match &self.editor {
                        Some(buffer) => buffer.request == core.request,
                        None => false,
                    };
                    if current {
                        return None;
                    }
                    Some(
                        HighlightJob {
                            path: core.path.clone(),
                            text: source.clone(),
                            request: core.request,
                        },
                    )
                },
                _ => None,
            },
            None => None,
        };
        match &job {
            Some(job) => {
                let lines = display::split_editor_lines(job.text.as_str());
                self.rows = if lines.len() < usize::MAX {
                    lines.len() + 1
                } else {
                    usize::MAX
                };
                self.editor = Some(EditorBuffer { request: job.request, lines, highlight: None });
            },
            None => self.clear_editor(),
        }
        job
    }

    /// The highlighting to start for a job: none where the file is of no known language.
    pub fn kick_highlight(job: HighlightJob, language: Option<LanguageId>) -> (r: Option<
        HighlightJob,
    >)
        ensures
            match language {
                Some(_) => r == Some(job),
                None => r is None,
            },
    {
        match language {
            Some(_) => Some(job),
            None => None,
        }
    }

    /// Takes a finished highlighting, unless it is of another request than the editor rows; tells
    /// whether it did.
    pub fn finish_highlight(
        &mut self,
        request: u64,
        document: Option<HighlightedDocument<S>>,
    ) -> (r: bool)
        ensures
            final(self)@ == old(self)@.highlighted(request, document),
            r == old(self)@.highlights(request),
            r <==> (old(self).editor matches Some(editor) && editor.request == request),
            !r ==> *final(self) == *old(self),
            r ==> {
                &&& final(self).editor matches Some(editor)
                &&& editor.highlight == document
                &&& editor.lines@ == old(self).editor->0.lines@
                &&& editor.request == request
            },
            final(self).open == old(self).open,
            final(self).next_request == old(self).next_request,
            final(self).rows == old(self).rows,
    {
        match &mut self.editor {
            Some(buffer) => if buffer.request == request {
                buffer.highlight = document;
                true
            } else {
                false
            },
            None => false,
        }
    }
}

// ---------------------------------------------------------------------------
// Laws
// ---------------------------------------------------------------------------

/// A fresh viewer is consistent, and every transition keeps a viewer consistent.
pub proof fn law_transitions_keep_consistency<S>(
    state: ViewerState<S>,
    path: Seq<char>,
    chat_id: Seq<char>,
    request: u64,
    outcome: Result<WorkspaceFileRead, CallError>,
    chat: Option<Seq<char>>,
    document: Option<HighlightedDocument<S>>,
    detail: Seq<char>,
)
    requires
        state.consistent(),
    ensures
        ViewerState::<S>::fresh().consistent(),
        state.next_request < u64::MAX ==> state.opened(path, chat_id).consistent(),
        state.next_request < u64::MAX ==> state.refused(path, chat_id, detail).consistent(),
        state.applied(request, outcome).consistent(),
        state.cleared().consistent(),
        state.left_for(chat).consistent(),
        state.highlighted(request, document).consistent(),
{
}

/// The editor rows are those of the open source text: every transition keeps it so, as long as a
/// request is answered no second time with its rows already built.
pub proof fn law_editor_rows_show_the_source<S>(
    state: ViewerState<S>,
    path: Seq<char>,
    chat_id: Seq<char>,
    request: u64,
    outcome: Result<WorkspaceFileRead, CallError>,
    chat: Option<Seq<char>>,
    document: Option<HighlightedDocument<S>>,
    detail: Seq<char>,
)
    requires
        state.consistent(),
        state.rows_show_source(),
    ensures
        ViewerState::<S>::fresh().rows_show_source(),
        state.opened(path, chat_id).rows_show_source(),
        state.refused(path, chat_id, detail).rows_show_source(),
        !state.highlights(request) ==> state.applied(request, outcome).rows_show_source(),
        state.cleared().rows_show_source(),
        state.left_for(chat).rows_show_source(),
        state.highlighted(request, document).rows_show_source(),
{
}

/// Request ids are never reused: opening a file issues an id above every earlier one, and nothing
/// else changes which ids were issued.
pub proof fn law_request_ids_are_never_reused<S>(
    state: ViewerState<S>,
    path: Seq<char>,
    chat_id: Seq<char>,
    request: u64,
    outcome: Result<WorkspaceFileRead, CallError>,
    chat: Option<Seq<char>>,
    document: Option<HighlightedDocument<S>>,
    detail: Seq<char>,
)
    requires
        state.next_request < u64::MAX,
    ensures
        state.opened(path, chat_id).next_request == state.next_request + 1,
        state.opened(path, chat_id).open->0.request == state.next_request + 1,
        state.refused(path, chat_id, detail).next_request == state.next_request + 1,
        state.refused(path, chat_id, detail).open->0.request == state.next_request + 1,
        state.applied(request, outcome).next_request == state.next_request,
        state.cleared().next_request == state.next_request,
        state.left_for(chat).next_request == state.next_request,
        state.highlighted(request, document).next_request == state.next_request,
{
}

/// A response to a request issued before a file was opened changes nothing afterwards, whether the
/// file replaced another one or the viewer was closed in between.
pub proof fn law_earlier_responses_are_ignored<S>(
    state: ViewerState<S>,
    path: Seq<char>,
    chat_id: Seq<char>,
    request: u64,
    outcome: Result<WorkspaceFileRead, CallError>,
    detail: Seq<char>,
)
    requires
        state.next_request < u64::MAX,
        request <= state.next_request,
    ensures
        state.refused(path, chat_id, detail).applied(request, outcome) == state.refused(
            path,
            chat_id,
            detail,
        ),
        state.opened(path, chat_id).applied(request, outcome) == state.opened(path, chat_id),
        state.cleared().applied(request, outcome) == state.cleared(),
        state.cleared().opened(path, chat_id).applied(request, outcome) == state.cleared().opened(
            path,
            chat_id,
        ),
{
}

/// The newest file wins whichever response lands first: with two files opened one after the other,
/// the viewer ends up the same, the second file's response applied, whether the first file's
/// response lands before it, after it, or never.
pub proof fn law_newest_file_wins<S>(
    state: ViewerState<S>,
    first_path: Seq<char>,
    first_chat: Seq<char>,
    first_outcome: Result<WorkspaceFileRead, CallError>,
    second_path: Seq<char>,
    second_chat: Seq<char>,
    second_outcome: Result<WorkspaceFileRead, CallError>,
)
    requires
        state.next_request + 2 <= u64::MAX,
    ensures
        ({
            let first = (state.next_request + 1) as u64;
            let second = (state.next_request + 2) as u64;
            let both = state.opened(first_path, first_chat).opened(second_path, second_chat);
            let newest = both.applied(second, second_outcome);
            &&& both.applied(first, first_outcome).applied(second, second_outcome) == newest
            &&& newest.applied(first, first_outcome) == newest
            &&& newest.open->0.body == (match second_outcome {
                Ok(read) => crate::viewer::content_shown(read.path@, read.content),
                Err(failure) => crate::viewer::failure_shown(failure),
            })
        }),
{
}

/// After the user went to a chat, what is open belongs to that chat.
pub proof fn law_no_preview_from_another_chat<S>(state: ViewerState<S>, chat: Option<Seq<char>>)
    ensures
        state.left_for(chat).open matches Some(core) ==> Some(core.chat_id) == chat,
        state.open matches Some(core) && Some(core.chat_id) == chat ==> state.left_for(chat)
            == state,
{
}

/// A refusal is what answering the request with the failure that there is no engine would show.
pub proof fn law_refusal_is_an_answered_request<S>(
    state: ViewerState<S>,
    path: Seq<char>,
    chat_id: Seq<char>,
    failure: CallError,
)
    requires
        state.next_request < u64::MAX,
        engine_is_unavailable(failure.error),
    ensures
        state.opened(path, chat_id).applied((state.next_request + 1) as u64, Err(failure))
            == state.refused(path, chat_id, failure.shown@),
{
    reveal_strlit("engine unavailable");
    reveal_strlit("unknown method");
    let message = "engine unavailable"@;
    let part = "unknown method"@;
    assert forall|at: int| !#[trigger] text::occurs_at(message, part, at) by {
        if text::occurs_at(message, part, at) {
            assert(message.subrange(at, at + part.len())[0] == part[0]);
        }
    }
}

/// A file that is asked for is shown under its own path and chat and the next request id, and
/// nothing of the file before it stays.
pub proof fn law_opened_files_stand_as_asked<S>(
    state: ViewerState<S>,
    path: Seq<char>,
    chat: ChatRow,
    engine: Engine,
    unavailable: Seq<char>,
)
    requires
        state.next_request < u64::MAX,
    ensures
        ({
            let after = state.requested(path, Some(chat), engine, unavailable);
            &&& after.open matches Some(core)
            &&& core.path == path
            &&& core.chat_id == chat.id@
            &&& core.request == state.next_request + 1
            &&& after.next_request == state.next_request + 1
            &&& after.editor is None
            &&& engine is Connected ==> core.body is Loading
            &&& engine is Missing ==> (core.body matches Shown::Notice { detail, .. } && detail
                == unavailable)
        }),
{
}

/// The call that opening a file asks for carries the path, the chat and the device as they are,
/// under the request.
pub proof fn law_opening_asks_for_the_path(
    effect: OpenEffect,
    path: Seq<char>,
    chat: ChatRow,
    request: u64,
)
    requires
        effect.asks(path, Some(chat), Engine::Connected, request),
    ensures
        effect.read matches Some(read) && read.request == request && read.call.reads(
            path,
            chat.id@,
            chat.device_id@,
        ),
{
    proto::law_read_calls_carry_the_path(effect.read->0.call, path, chat);
}

/// A source text that arrives is split into rows that make it up again, one list row for each and
/// one more.
pub proof fn law_arriving_sources_are_split_whole<S>(
    state: ViewerState<S>,
    request: u64,
    outcome: Result<WorkspaceFileRead, CallError>,
    source: Seq<char>,
)
    requires
        state.awaits(request),
        state.editor is None,
        state.replied(request, outcome).open->0.body == Shown::Text(source),
    ensures
        ({
            let after = state.applied(request, outcome);
            &&& after.editor matches Some(editor)
            &&& editor.request == request
            &&& display::joined_lines(editor.lines) == source
            &&& editor.lines.len() == display::line_feeds(source) + 1
            &&& editor.highlight is None
            &&& editor.lines.len() < usize::MAX ==> after.rows == editor.lines.len() + 1
        }),
{
    display::law_rows_make_up_the_text(source);
}

/// A highlighting changes the highlighting alone.
pub proof fn law_highlighting_changes_nothing_else<S>(
    state: ViewerState<S>,
    request: u64,
    document: Option<HighlightedDocument<S>>,
)
    ensures
        ({
            let after = state.highlighted(request, document);
            &&& after.open == state.open
            &&& after.rows == state.rows
            &&& state.editor matches Some(editor) ==> {
                &&& after.editor matches Some(new)
                &&& new.lines == editor.lines
                &&& new.request == editor.request
                &&& new.highlight == if editor.request == request {
                    document
                } else {
                    editor.highlight
                }
            }
        }),
{
}

} // verus!
