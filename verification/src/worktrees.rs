//! Worktree settings: where this device creates worktrees, and which ones it has.

use vstd::prelude::*;

use crate::proto;
use crate::proto::{CallError, Engine, RpcCall, WorktreeEntry, WorktreeSettings};
use crate::text;

verus! {

/// The root that a draft asks for: the draft without the white space around it, or none where it
/// is blank.
pub open spec fn drafted(value: Seq<char>) -> Option<Seq<char>> {
    let root = text::trimmed(value);
    if root.len() == 0 {
        None
    } else {
        Some(root)
    }
}

/// The root that a draft asks for.
pub fn draft_root(value: &str) -> (r: Option<String>)
    ensures
        text::optional(r) == drafted(value@),
        match r {
            Some(root) => {
                &&& root@.len() > 0
                &&& text::solid(root@)
                &&& !text::all_white(value@)
                &&& exists|front: Seq<char>, back: Seq<char>|
                    value@ == #[trigger] (front + root@ + back) && text::all_white(front)
                        && text::all_white(back)
            },
            None => text::all_white(value@),
        },
{
    proof {
        let (front, back) = text::law_trimming_takes_only_white_space(value@);
        text::lemma_trimmed(value@);
        assert(value@ == front + text::trimmed(value@) + back);
        if text::trimmed(value@).len() > 0 {
            assert(value@[front.len() as int] == text::trimmed(value@)[0]);
        }
    }
    let value = text::trim(value);
    if value.is_empty() {
        None
    } else {
        Some(value.to_string())
    }
}

/// The line that names the location in use.
pub open spec fn location_line(settings: WorktreeSettings) -> Seq<char> {
    let line = "Effective location: "@ + settings.effective_root@;
    if settings.environment_override {
        line + " (overridden by ZERON_WORKTREES_DIR)"@
    } else {
        line
    }
}

/// The line that names the location in use.
pub fn effective_location_text(settings: &WorktreeSettings) -> (r: String)
    ensures
        r@ == location_line(*settings),
{
    let mut line = "Effective location: ".to_string();
    line.append(settings.effective_root.as_str());
    if settings.environment_override {
        line.append(" (overridden by ZERON_WORKTREES_DIR)");
    }
    line
}

// ---------------------------------------------------------------------------
// The page
// ---------------------------------------------------------------------------

/// Something that is fetched.
#[derive(Debug, PartialEq, Eq)]
pub enum Loadable<T> {
    Idle,
    Loading,
    Ready(T),
    Error(String),
}

/// The settings page. The location input beside it holds the draft.
#[derive(Debug)]
pub struct WorktreesPage {
    pub settings: Loadable<WorktreeSettings>,
    pub error: Option<String>,
    pub saving: bool,
}

/// What a call for the settings brought.
#[derive(Debug, PartialEq, Eq)]
pub enum SettingsOutcome {
    Settings(WorktreeSettings),
    /// The reply could not be read, for this reason.
    Unreadable(String),
    Failed(CallError),
}

/// The settings, or where they stand, as plain values.
pub enum Fetched {
    Idle,
    Loading,
    Ready(WorktreeSettings),
    Error(Seq<char>),
}

/// What the page holds.
pub struct PageState {
    pub settings: Fetched,
    pub error: Option<Seq<char>>,
    pub saving: bool,
}

impl View for WorktreesPage {
    type V = PageState;

    open spec fn view(&self) -> PageState {
        PageState {
            settings: match self.settings {
                Loadable::Idle => Fetched::Idle,
                Loadable::Loading => Fetched::Loading,
                Loadable::Ready(settings) => Fetched::Ready(settings),
                Loadable::Error(error) => Fetched::Error(error@),
            },
            error: text::optional(self.error),
            saving: self.saving,
        }
    }
}

/// The draft that goes with settings: the saved location, or a blank one.
pub open spec fn saved_draft(settings: WorktreeSettings) -> Seq<char> {
    match settings.custom_root {
        Some(root) => root@,
        None => seq![],
    }
}

/// The draft to put into the input after an outcome: that of the settings it brought.
pub open spec fn draft_after(outcome: SettingsOutcome) -> Option<Seq<char>> {
    match outcome {
        SettingsOutcome::Settings(settings) => Some(saved_draft(settings)),
        _ => None,
    }
}

impl PageState {
    /// A page that has not asked for anything.
    pub open spec fn blank() -> PageState {
        PageState { settings: Fetched::Idle, error: None, saving: false }
    }

    /// The page shows these settings.
    pub open spec fn settled(self, settings: WorktreeSettings) -> PageState {
        PageState { settings: Fetched::Ready(settings), error: None, saving: false }
    }

    /// The settings are asked for.
    pub open spec fn loading(self, engine: Engine) -> PageState {
        match engine {
            Engine::Missing => PageState {
                settings: Fetched::Error("Engine not connected"@),
                ..self
            },
            Engine::Connected => PageState { settings: Fetched::Loading, error: None, ..self },
        }
    }

    /// The answer to that.
    pub open spec fn loaded(self, outcome: SettingsOutcome) -> PageState {
        match outcome {
            SettingsOutcome::Settings(settings) => self.settled(settings),
            SettingsOutcome::Unreadable(reason) => PageState {
                settings: Fetched::Error(reason@),
                ..self
            },
            SettingsOutcome::Failed(failure) => PageState {
                settings: Fetched::Error(failure.shown@),
                ..self
            },
        }
    }

    /// A draft is saved. While a save runs another one is ignored.
    pub open spec fn saving(self, engine: Engine) -> PageState {
        if self.saving {
            self
        } else {
            match engine {
                Engine::Missing => PageState { error: Some("Engine not connected"@), ..self },
                Engine::Connected => PageState { saving: true, error: None, ..self },
            }
        }
    }

    /// The answer to that.
    pub open spec fn saved(self, outcome: SettingsOutcome) -> PageState {
        match outcome {
            SettingsOutcome::Settings(settings) => self.settled(settings),
            SettingsOutcome::Unreadable(reason) => PageState {
                saving: false,
                error: Some(reason@),
                ..self
            },
            SettingsOutcome::Failed(failure) => PageState {
                saving: false,
                error: Some("Could not save: "@ + failure.shown@),
                ..self
            },
        }
    }

    /// A save of `draft` makes this call, unless one runs already or there is no engine.
    pub open spec fn save_call_is(
        self,
        call: Option<RpcCall>,
        engine: Engine,
        draft: Seq<char>,
    ) -> bool {
        if !self.saving && engine is Connected {
            call matches Some(call) && call@ == proto::set_worktree_root(drafted(draft))
        } else {
            call is None
        }
    }
}

impl WorktreesPage {
    /// A page that asks for the settings at once; gives the call to make, where there is an engine.
    pub fn new(engine: Engine) -> (r: (WorktreesPage, Option<RpcCall>))
        ensures
            r.0@ == PageState::blank().loading(engine),
            match r.1 {
                Some(call) => engine is Connected && call@ == proto::get_worktree_settings(),
                None => engine is Missing,
            },
            r.1 matches Some(call) ==> call.fetches_settings(),
            r.0.error is None,
            !r.0.saving,
            match engine {
                Engine::Connected => r.0.settings is Loading,
                Engine::Missing => {
                    &&& r.0.settings matches Loadable::Error(shown)
                    &&& shown@ == "Engine not connected"@
                },
            },
    {
        let mut page = WorktreesPage { settings: Loadable::Idle, error: None, saving: false };
        let call = page.load(engine);
        (page, call)
    }

    /// Shows settings; gives the draft to put into the input.
    pub fn apply_settings(&mut self, settings: WorktreeSettings) -> (r: String)
        ensures
            final(self)@ == old(self)@.settled(settings),
            r@ == saved_draft(settings),
            final(self).settings == Loadable::Ready(settings),
            final(self).error is None,
            !final(self).saving,
            match settings.custom_root {
                Some(root) => r@ == root@,
                None => r@.len() == 0,
            },
    {
        let draft = match &settings.custom_root {
            Some(root) => root.clone(),
            None => String::new(),
        };
        self.settings = Loadable::Ready(settings);
        self.error = None;
        self.saving = false;
        draft
    }

    /// Asks for the settings; gives the call to make in place of the one that runs, where there is
    /// an engine.
    pub fn load(&mut self, engine: Engine) -> (r: Option<RpcCall>)
        ensures
            final(self)@ == old(self)@.loading(engine),
            match r {
                Some(call) => engine is Connected && call@ == proto::get_worktree_settings(),
                None => engine is Missing,
            },
            r matches Some(call) ==> call.fetches_settings(),
            engine is Connected ==> final(self).settings is Loading && final(self).error is None,
            engine is Missing ==> {
                &&& final(self).settings matches Loadable::Error(shown)
                &&& shown@ == "Engine not connected"@
                &&& final(self).error == old(self).error
            },
            final(self).saving == old(self).saving,
    {
        match engine {
            Engine::Missing => {
                self.settings = Loadable::Error("Engine not connected".to_string());
                None
            },
            Engine::Connected => {
                self.settings = Loadable::Loading;
                self.error = None;
                Some(RpcCall::get_worktree_settings())
            },
        }
    }

    /// Takes the answer to a load; gives the draft to put into the input, where there is a new one.
    pub fn loaded(&mut self, outcome: SettingsOutcome) -> (r: Option<String>)
        ensures
            final(self)@ == old(self)@.loaded(outcome),
            text::optional(r) == draft_after(outcome),
            match outcome {
                SettingsOutcome::Settings(settings) => {
                    &&& final(self).settings == Loadable::Ready(settings)
                    &&& final(self).error is None
                    &&& !final(self).saving
                    &&& r matches Some(draft)
                    &&& match settings.custom_root {
                        Some(root) => draft@ == root@,
                        None => draft@.len() == 0,
                    }
                },
                SettingsOutcome::Unreadable(reason) => {
                    &&& final(self).settings matches Loadable::Error(shown)
                    &&& shown@ == reason@
                    &&& final(self).error == old(self).error
                    &&& final(self).saving == old(self).saving
                    &&& r is None
                },
                SettingsOutcome::Failed(failure) => {
                    &&& final(self).settings matches Loadable::Error(shown)
                    &&& shown@ == failure.shown@
                    &&& final(self).error == old(self).error
                    &&& final(self).saving == old(self).saving
                    &&& r is None
                },
            },
    {
        match outcome {
            SettingsOutcome::Settings(settings) => Some(self.apply_settings(settings)),
            SettingsOutcome::Unreadable(reason) => {
                self.settings = Loadable::Error(reason);
                None
            },
            SettingsOutcome::Failed(failure) => {
                self.settings = Loadable::Error(failure.shown);
                None
            },
        }
    }

    /// Saves the draft; gives the call to make in place of the one that runs, unless a save runs
    /// already or there is no engine. A blank draft resets the location.
    pub fn save(&mut self, engine: Engine, draft: &str) -> (r: Option<RpcCall>)
        ensures
            final(self)@ == old(self)@.saving(engine),
            old(self)@.save_call_is(r, engine, draft@),
            final(self).settings == old(self).settings,
            old(self).saving ==> *final(self) == *old(self) && r is None,
            !old(self).saving && engine is Missing ==> {
                &&& r is None
                &&& !final(self).saving
                &&& final(self).error matches Some(error)
                &&& error@ == "Engine not connected"@
            },
            !old(self).saving && engine is Connected ==> {
                &&& final(self).saving
                &&& final(self).error is None
                &&& r matches Some(call)
                &&& text::all_white(draft@) ==> call.saves_root(None)
                &&& !text::all_white(draft@) ==> exists|
                    front: Seq<char>,
                    root: Seq<char>,
                    back: Seq<char>,
                |
                    {
                        &&& draft@ == #[trigger] (front + root + back)
                        &&& text::all_white(front)
                        &&& text::all_white(back)
                        &&& root.len() > 0
                        &&& text::solid(root)
                        &&& call.saves_root(Some(root))
                    }
            },
    {
        if self.saving {
            return None;
        }
        match engine {
            Engine::Missing => {
                self.error = Some("Engine not connected".to_string());
                None
            },
            Engine::Connected => {
                let custom_root = draft_root(draft);
                self.saving = true;
                self.error = None;
                Some(RpcCall::set_worktree_root(custom_root))
            },
        }
    }

    /// Takes the answer to a save; gives the draft to put into the input, where there is a new one.
    pub fn saved(&mut self, outcome: SettingsOutcome) -> (r: Option<String>)
        ensures
            final(self)@ == old(self)@.saved(outcome),
            text::optional(r) == draft_after(outcome),
            !final(self).saving,
            match outcome {
                SettingsOutcome::Settings(settings) => {
                    &&& final(self).settings == Loadable::Ready(settings)
                    &&& final(self).error is None
                    &&& r matches Some(draft)
                    &&& match settings.custom_root {
                        Some(root) => draft@ == root@,
                        None => draft@.len() == 0,
                    }
                },
                SettingsOutcome::Unreadable(reason) => {
                    &&& final(self).settings == old(self).settings
                    &&& final(self).error matches Some(error)
                    &&& error@ == reason@
                    &&& r is None
                },
                SettingsOutcome::Failed(failure) => {
                    &&& final(self).settings == old(self).settings
                    &&& final(self).error matches Some(error)
                    &&& error@ == "Could not save: "@ + failure.shown@
                    &&& r is None
                },
            },
    {
        self.saving = false;
        match outcome {
            SettingsOutcome::Settings(settings) => Some(self.apply_settings(settings)),
            SettingsOutcome::Unreadable(reason) => {
                self.error = Some(reason);
                None
            },
            SettingsOutcome::Failed(failure) => {
                let mut message = "Could not save: ".to_string();
                message.append(failure.shown.as_str());
                self.error = Some(message);
                None
            },
        }
    }

    /// Resets the location: gives the blank draft to put into the input, and saves it.
    pub fn reset(&mut self, engine: Engine) -> (r: (String, Option<RpcCall>))
        ensures
            final(self)@ == old(self)@.saving(engine),
            r.0@.len() == 0,
            old(self)@.save_call_is(r.1, engine, r.0@),
            !old(self).saving && engine is Connected ==> (r.1 matches Some(call)
                && call.saves_root(None)),
            old(self).saving || engine is Missing ==> r.1 is None,
            final(self).saving == (old(self).saving || engine is Connected),
            old(self).saving ==> *final(self) == *old(self),
            final(self).settings == old(self).settings,
    {
        let draft = String::new();
        let call = self.save(engine, draft.as_str());
        (draft, call)
    }

    /// The draft to put into the input after a choice of folders: the first one, where there is
    /// one.
    pub fn choose_directory(chosen: Option<Vec<String>>) -> (r: Option<String>)
        ensures
            text::optional(r) == match chosen {
                Some(paths) => if paths@.len() > 0 {
                    Some(paths@[0]@)
                } else {
                    None
                },
                None => None,
            },
    {
        match chosen {
            Some(paths) => if paths.len() > 0 {
                Some(paths[0].clone())
            } else {
                None
            },
            None => None,
        }
    }

    /// Takes the error off the page.
    pub fn dismiss_error(&mut self)
        ensures
            final(self)@ == (PageState { error: None, ..old(self)@ }),
            final(self).error is None,
            final(self).settings == old(self).settings,
            final(self).saving == old(self).saving,
    {
        self.error = None;
    }
}

// ---------------------------------------------------------------------------
// What the page shows
// ---------------------------------------------------------------------------

/// One worktree of the inventory.
#[derive(Debug, PartialEq, Eq)]
pub struct WorktreeRow {
    /// The row is the topmost one.
    pub first: bool,
    pub title: String,
    pub path: String,
}

impl WorktreeRow {
    /// The row shows the worktree at this index.
    pub open spec fn shows(self, entry: WorktreeEntry, index: int) -> bool {
        &&& self.first == (index == 0)
        &&& self.title@ == entry.repo_name@ + " / "@ + entry.name@
        &&& self.path@ == entry.path@
    }
}

/// The page once the settings are there.
#[derive(Debug, PartialEq, Eq)]
pub struct ReadyPane {
    /// How many worktrees there are.
    pub count: usize,
    /// An error strip, where there is an error; a click takes it away.
    pub error: Option<String>,
    /// The line that names the location in use.
    pub location: String,
    /// The location is overridden: the line is a warning.
    pub overridden: bool,
    pub save_label: &'static str,
    /// The save button is dimmed.
    pub save_dimmed: bool,
    pub rows: Vec<WorktreeRow>,
    /// What stands in place of the rows where there are none.
    pub placeholder: Option<&'static str>,
}

impl ReadyPane {
    /// The pane shows these settings with the page's error and progress.
    pub open spec fn shows(
        self,
        settings: WorktreeSettings,
        error: Option<Seq<char>>,
        saving: bool,
    ) -> bool {
        &&& self.count == settings.worktrees@.len()
        &&& text::optional(self.error) == error
        &&& self.location@ == location_line(settings)
        &&& self.overridden == settings.environment_override
        &&& self.save_label@ == if saving {
            "Saving…"@
        } else {
            "Save"@
        }
        &&& self.save_dimmed == saving
        &&& self.rows@.len() == settings.worktrees@.len()
        &&& forall|i: int|
            0 <= i < self.rows@.len() ==> (#[trigger] self.rows@[i]).shows(
                settings.worktrees@[i],
                i,
            )
        &&& match self.placeholder {
            Some(words) => settings.worktrees@.len() == 0 && words@
                == "No worktrees in this location"@,
            None => settings.worktrees@.len() > 0,
        }
    }
}

/// The page, by where the settings stand.
#[derive(Debug, PartialEq, Eq)]
pub enum PagePane {
    /// Placeholder rows while the settings are awaited.
    Loading,
    /// The settings could not be had; a click asks again.
    LoadError(String),
    Ready(ReadyPane),
}

impl WorktreesPage {
    /// The page once the settings are there.
    pub fn render_ready(&self, settings: &WorktreeSettings) -> (r: ReadyPane)
        ensures
            r.shows(*settings, self@.error, self@.saving),
            r.count == settings.worktrees@.len(),
            r.rows@.len() == settings.worktrees@.len(),
            forall|i: int|
                0 <= i < r.rows@.len() ==> {
                    let entry = settings.worktrees@[i];
                    &&& (#[trigger] r.rows@[i]).title@ == entry.repo_name@ + " / "@ + entry.name@
                    &&& r.rows@[i].path@ == entry.path@
                    &&& r.rows@[i].first == (i == 0)
                },
            match r.placeholder {
                Some(words) => settings.worktrees@.len() == 0 && words@
                    == "No worktrees in this location"@,
                None => settings.worktrees@.len() > 0,
            },
            r.overridden == settings.environment_override,
            r.save_dimmed == self.saving,
            r.save_label@ == if self.saving {
                "Saving…"@
            } else {
                "Save"@
            },
            text::optional(r.error) == text::optional(self.error),
            r.location@ == location_line(*settings),
    {
        let mut rows: Vec<WorktreeRow> = Vec::new();
        let mut index: usize = 0;
        while index < settings.worktrees.len()
            invariant
                index <= settings.worktrees@.len(),
                rows@.len() == index,
                forall|i: int|
                    0 <= i < index ==> (#[trigger] rows@[i]).shows(settings.worktrees@[i], i),
                forall|i: int|
                    0 <= i < index ==> {
                        let entry = settings.worktrees@[i];
                        &&& (#[trigger] rows@[i]).title@ == entry.repo_name@ + " / "@ + entry.name@
                        &&& rows@[i].path@ == entry.path@
                        &&& rows@[i].first == (i == 0)
                    },
            decreases settings.worktrees@.len() - index,
        {
            let entry = &settings.worktrees[index];
            let mut title = entry.repo_name.clone();
            title.append(" / ");
            title.append(entry.name.as_str());
            rows.push(WorktreeRow { first: index == 0, title, path: entry.path.clone() });
            index += 1;
        }
        let placeholder = if settings.worktrees.len() == 0 {
            Some("No worktrees in this location")
        } else {
            None
        };
        ReadyPane {
            count: settings.worktrees.len(),
            error: self.error.clone(),
            location: effective_location_text(settings),
            overridden: settings.environment_override,
            save_label: if self.saving {
                "Saving…"
            } else {
                "Save"
            },
            save_dimmed: self.saving,
            rows,
            placeholder,
        }
    }

    /// The page.
    pub fn render(&self) -> (r: PagePane)
        ensures
            match self@.settings {
                Fetched::Idle | Fetched::Loading => r is Loading,
                Fetched::Error(error) => r matches PagePane::LoadError(shown) && shown@ == error,
                Fetched::Ready(settings) => r matches PagePane::Ready(pane) && pane.shows(
                    settings,
                    self@.error,
                    self@.saving,
                ),
            },
            match self.settings {
                Loadable::Idle | Loadable::Loading => r is Loading,
                Loadable::Error(error) => r matches PagePane::LoadError(shown) && shown@ == error@,
                Loadable::Ready(settings) => {
                    &&& r matches PagePane::Ready(pane)
                    &&& pane.count == settings.worktrees@.len()
                    &&& pane.rows@.len() == settings.worktrees@.len()
                    &&& forall|i: int|
                        0 <= i < pane.rows@.len() ==> {
                            let entry = settings.worktrees@[i];
                            &&& (#[trigger] pane.rows@[i]).title@ == entry.repo_name@ + " / "@
                                + entry.name@
                            &&& pane.rows@[i].path@ == entry.path@
                            &&& pane.rows@[i].first == (i == 0)
                        }
                    &&& pane.placeholder is Some <==> settings.worktrees@.len() == 0
                    &&& pane.overridden == settings.environment_override
                    &&& pane.save_dimmed == self.saving
                    &&& pane.location@ == location_line(settings)
                    &&& text::optional(pane.error) == text::optional(self.error)
                },
            },
    {
        match &self.settings {
            Loadable::Idle | Loadable::Loading => PagePane::Loading,
            Loadable::Error(error) => PagePane::LoadError(error.clone()),
            Loadable::Ready(settings) => PagePane::Ready(self.render_ready(settings)),
        }
    }
}

// ---------------------------------------------------------------------------
// Laws
// ---------------------------------------------------------------------------

/// A blank draft, and no other, resets the location.
pub proof fn law_exactly_blank_drafts_reset(draft: Seq<char>)
    ensures
        drafted(draft) is None <==> forall|i: int|
            0 <= i < draft.len() ==> text::white_space(#[trigger] draft[i]),
{
    text::lemma_trimmed(draft);
}

/// A draft that is not blank asks for a root without white space at its ends, and drafting that
/// root asks for the same one.
pub proof fn law_drafted_roots_are_trimmed(draft: Seq<char>)
    ensures
        drafted(draft) matches Some(root) ==> {
            &&& root.len() > 0
            &&& !text::white_space(root[0])
            &&& !text::white_space(root.last())
            &&& drafted(root) == Some(root)
        },
{
    text::lemma_trimmed(draft);
}

/// Saving the draft that settings put into the input asks for the root that they came with, as
/// long as that root is one that a draft can ask for.
pub proof fn law_unchanged_drafts_keep_the_location(settings: WorktreeSettings)
    requires
        settings.custom_root matches Some(root) ==> drafted(root@) == Some(root@),
    ensures
        drafted(saved_draft(settings)) == text::optional(settings.custom_root),
{
}

/// While a save runs another one changes nothing and calls nothing; every answer ends it.
pub proof fn law_one_save_at_a_time(
    state: PageState,
    engine: Engine,
    draft: Seq<char>,
    call: Option<RpcCall>,
    outcome: SettingsOutcome,
)
    ensures
        state.saving ==> state.saving(engine) == state,
        state.saving && state.save_call_is(call, engine, draft) ==> call is None,
        !state.saved(outcome).saving,
{
}

/// A save that fails leaves the settings on the page as they were, and says why.
pub proof fn law_failed_saves_keep_the_settings(state: PageState, outcome: SettingsOutcome)
    requires
        outcome !is Settings,
    ensures
        state.saved(outcome).settings == state.settings,
        state.saved(outcome).error is Some,
{
}

/// Drafting undoes padding: whatever white space is put around a root, the draft asks for the root
/// itself, whole; white space alone asks for none.
pub proof fn law_drafting_undoes_padding(front: Seq<char>, root: Seq<char>, back: Seq<char>)
    requires
        text::all_white(front),
        text::all_white(back),
        text::solid(root),
    ensures
        root.len() > 0 ==> drafted(front + root + back) == Some(root),
        root.len() > 0 ==> drafted(root) == Some(root),
        root.len() == 0 ==> drafted(front + root + back) is None,
{
    text::law_trimming_undoes_padding(front, root, back);
    text::lemma_trimmed_unchanged(root);
}

/// Drafting takes nothing but white space from a draft, and takes it from the ends alone.
pub proof fn law_drafting_takes_only_white_space(draft: Seq<char>) -> (r: (Seq<char>, Seq<char>))
    ensures
        drafted(draft) matches Some(root) ==> draft == r.0 + root + r.1,
        text::all_white(r.0),
        text::all_white(r.1),
{
    text::law_trimming_takes_only_white_space(draft)
}

/// The location line names the location in use, whole, behind the same words for every device, and
/// says behind it whether it is overridden; nothing else of the settings matters.
pub proof fn law_location_lines_name_the_location(a: WorktreeSettings, b: WorktreeSettings)
    ensures
        !a.environment_override ==> location_line(a) == "Effective location: "@ + a.effective_root@,
        a.environment_override ==> location_line(a) == "Effective location: "@ + a.effective_root@
            + " (overridden by ZERON_WORKTREES_DIR)"@,
        a.effective_root@ == b.effective_root@ && a.environment_override == b.environment_override
            ==> location_line(a) == location_line(b),
{
}

/// Settings that arrive are shown as they are, with their location in the input, whether they
/// answer a load or a save.
pub proof fn law_arriving_settings_are_shown(state: PageState, settings: WorktreeSettings)
    ensures
        state.loaded(SettingsOutcome::Settings(settings)).settings == Fetched::Ready(settings),
        state.saved(SettingsOutcome::Settings(settings)).settings == Fetched::Ready(settings),
        state.saved(SettingsOutcome::Settings(settings)).error is None,
        draft_after(SettingsOutcome::Settings(settings)) == Some(
            match settings.custom_root {
                Some(root) => root@,
                None => Seq::empty(),
            },
        ),
{
}

} // verus!
