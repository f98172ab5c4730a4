use zeron_ui::proto::{
    CallError, Engine, Method, Param, RpcCall, RpcError, WorktreeEntry, WorktreeSettings,
};
use zeron_ui::worktrees::{
    draft_root, effective_location_text, Loadable, PagePane, SettingsOutcome, WorktreesPage,
};

fn settings(environment_override: bool) -> WorktreeSettings {
    WorktreeSettings {
        custom_root: Some("/saved".into()),
        effective_root: "/effective".into(),
        environment_override,
        worktrees: Vec::new(),
    }
}

fn failed(shown: &str) -> SettingsOutcome {
    SettingsOutcome::Failed(CallError {
        error: RpcError::Closed,
        shown: shown.into(),
    })
}

fn set_root(value: Option<&str>) -> Option<RpcCall> {
    Some(RpcCall {
        method: Method::SetWorktreeRoot,
        params: vec![Param {
            name: "customRoot",
            value: value.map(|value| value.to_string()),
        }],
    })
}

fn ready_page() -> WorktreesPage {
    let (mut page, _) = WorktreesPage::new(Engine::Connected);
    page.loaded(SettingsOutcome::Settings(settings(false)));
    page
}

#[test]
fn blank_draft_resets_and_non_blank_is_trimmed() {
    assert_eq!(draft_root("  "), None);
    assert_eq!(
        draft_root("  /tmp/worktrees  "),
        Some("/tmp/worktrees".into())
    );
}

#[test]
fn effective_location_names_environment_override() {
    assert_eq!(
        effective_location_text(&settings(false)),
        "Effective location: /effective"
    );
    assert_eq!(
        effective_location_text(&settings(true)),
        "Effective location: /effective (overridden by ZERON_WORKTREES_DIR)"
    );
}

#[test]
fn a_page_loads_at_once() {
    let (page, call) = WorktreesPage::new(Engine::Connected);
    assert_eq!(
        call,
        Some(RpcCall { method: Method::GetWorktreeSettings, params: Vec::new() })
    );
    assert_eq!(page.settings, Loadable::Loading);
    let (page, call) = WorktreesPage::new(Engine::Missing);
    assert_eq!(call, None);
    assert_eq!(page.settings, Loadable::Error("Engine not connected".into()));
    assert_eq!(page.render(), PagePane::LoadError("Engine not connected".into()));
}

#[test]
fn settings_fill_the_input() {
    let (mut page, _) = WorktreesPage::new(Engine::Connected);
    assert_eq!(page.render(), PagePane::Loading);
    let draft = page.loaded(SettingsOutcome::Settings(settings(false)));
    assert_eq!(draft.as_deref(), Some("/saved"));
    assert_eq!(page.settings, Loadable::Ready(settings(false)));
    let mut unset = settings(false);
    unset.custom_root = None;
    assert_eq!(page.apply_settings(unset), "");
}

#[test]
fn a_failed_load_can_be_tried_again() {
    let (mut page, _) = WorktreesPage::new(Engine::Connected);
    assert_eq!(page.loaded(failed("closed")), None);
    assert_eq!(page.settings, Loadable::Error("closed".into()));
    assert!(page.load(Engine::Connected).is_some());
    assert_eq!(page.settings, Loadable::Loading);
    page.loaded(SettingsOutcome::Unreadable("missing field".into()));
    assert_eq!(page.settings, Loadable::Error("missing field".into()));
}

#[test]
fn saving_sends_the_trimmed_draft() {
    let mut page = ready_page();
    assert_eq!(page.save(Engine::Connected, " /new "), set_root(Some("/new")));
    assert!(page.saving);
    // A second save waits for the first.
    assert_eq!(page.save(Engine::Connected, "/other"), None);
    let mut saved = settings(false);
    saved.custom_root = Some("/new".into());
    assert_eq!(page.saved(SettingsOutcome::Settings(saved)).as_deref(), Some("/new"));
    assert!(!page.saving);
}

#[test]
fn an_unchanged_draft_keeps_the_location() {
    let mut page = ready_page();
    let draft = page.apply_settings(settings(false));
    assert_eq!(page.save(Engine::Connected, &draft), set_root(Some("/saved")));
}

#[test]
fn a_reset_saves_a_blank_draft() {
    let mut page = ready_page();
    let (draft, call) = page.reset(Engine::Connected);
    assert_eq!(draft, "");
    assert_eq!(call, set_root(None));
}

#[test]
fn failed_saves_keep_the_settings_and_say_why() {
    let mut page = ready_page();
    assert_eq!(page.save(Engine::Missing, "/new"), None);
    assert_eq!(page.error.as_deref(), Some("Engine not connected"));
    assert!(!page.saving);
    page.save(Engine::Connected, "/new");
    assert_eq!(page.error, None);
    assert_eq!(page.saved(failed("closed")), None);
    assert_eq!(page.error.as_deref(), Some("Could not save: closed"));
    assert_eq!(page.settings, Loadable::Ready(settings(false)));
    page.save(Engine::Connected, "/new");
    page.saved(SettingsOutcome::Unreadable("missing field".into()));
    assert_eq!(page.error.as_deref(), Some("missing field"));
    page.dismiss_error();
    assert_eq!(page.error, None);
}

#[test]
fn the_first_chosen_folder_becomes_the_draft() {
    assert_eq!(
        WorktreesPage::choose_directory(Some(vec!["/a".into(), "/b".into()])),
        Some("/a".to_string())
    );
    assert_eq!(WorktreesPage::choose_directory(Some(Vec::new())), None);
    assert_eq!(WorktreesPage::choose_directory(None), None);
}

#[test]
fn the_page_lists_the_worktrees() {
    let mut page = ready_page();
    let PagePane::Ready(pane) = page.render() else {
        panic!("expected a ready page");
    };
    assert_eq!(pane.count, 0);
    assert_eq!(pane.placeholder, Some("No worktrees in this location"));
    assert_eq!(pane.save_label, "Save");
    assert!(!pane.save_dimmed && !pane.overridden);

    let mut full = settings(true);
    for name in ["one", "two"] {
        full.worktrees.push(WorktreeEntry {
            repo_name: "repo".into(),
            name: name.into(),
            path: format!("/effective/{name}"),
        });
    }
    page.apply_settings(full);
    page.save(Engine::Connected, "/new");
    let PagePane::Ready(pane) = page.render() else {
        panic!("expected a ready page");
    };
    assert_eq!(pane.count, 2);
    assert_eq!(pane.placeholder, None);
    assert_eq!(pane.save_label, "Saving\u{2026}");
    assert!(pane.save_dimmed && pane.overridden);
    assert_eq!(
        pane.location,
        "Effective location: /effective (overridden by ZERON_WORKTREES_DIR)"
    );
    let rows: Vec<_> = pane
        .rows
        .iter()
        .map(|row| (row.first, row.title.as_str(), row.path.as_str()))
        .collect();
    assert_eq!(
        rows,
        vec![
            (true, "repo / one", "/effective/one"),
            (false, "repo / two", "/effective/two"),
        ]
    );
    page.saved(failed("closed"));
    let PagePane::Ready(pane) = page.render() else {
        panic!("expected a ready page");
    };
    assert_eq!(pane.error.as_deref(), Some("Could not save: closed"));
}
