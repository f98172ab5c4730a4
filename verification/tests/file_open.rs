use zeron_ui::file_open::{
    openable_files, search_error_message, FileOpenEvent, FileOpenPalette, MenuKey, OverlayBody,
    SearchEvent, SearchOutcome, SearchPhase, SearchStep,
};
use zeron_ui::proto::{ChatRow, Engine, FileSearchMatch, Method, RpcError};

fn entry(path: &str, is_dir: bool) -> FileSearchMatch {
    FileSearchMatch {
        path: path.into(),
        is_dir,
    }
}

fn chat() -> Option<ChatRow> {
    Some(ChatRow {
        id: "chat".into(),
        device_id: "device".into(),
    })
}

fn found(paths: &[&str]) -> SearchOutcome {
    SearchOutcome::Matches(paths.iter().map(|path| entry(path, false)).collect())
}

#[test]
fn openable_files_drop_directories() {
    let rows = openable_files(vec![
        entry("src", true),
        entry("src/main.rs", false),
        entry("README.md", false),
        entry("docs", true),
    ]);
    assert_eq!(
        rows.iter().map(|row| row.path.as_str()).collect::<Vec<_>>(),
        vec!["src/main.rs", "README.md"]
    );
    assert!(openable_files(Vec::new()).is_empty());
    assert!(openable_files(vec![entry("src", true)]).is_empty());
}

#[test]
fn search_failures_have_their_words() {
    assert_eq!(
        search_error_message(&RpcError::UnknownMethod("x".into())),
        "The session's device runs an older zeron \u{2014} update it to search its files"
    );
    for error in [RpcError::Transport("x".into()), RpcError::Closed] {
        assert_eq!(search_error_message(&error), "The session's device is unreachable");
    }
    for error in [RpcError::BadParams("x".into()), RpcError::Failed("x".into())] {
        assert_eq!(search_error_message(&error), "File search failed");
    }
}

#[test]
fn a_palette_searches_at_once() {
    let (page, call) = FileOpenPalette::new(chat(), Engine::Connected);
    let call = call.unwrap();
    assert_eq!(call.request, 1);
    assert_eq!(call.call.method, Method::SearchFiles);
    let params: Vec<_> = call
        .call
        .params
        .iter()
        .map(|param| (param.name, param.value.as_deref()))
        .collect();
    assert_eq!(
        params,
        vec![
            ("query", Some("")),
            ("chatId", Some("chat")),
            ("targetDeviceId", Some("device")),
        ]
    );
    assert!(page.loading);
    assert_eq!(page.error, None);
}

#[test]
fn a_search_needs_a_chat_and_an_engine() {
    let (page, call) = FileOpenPalette::new(None, Engine::Connected);
    assert_eq!(call, None);
    assert_eq!(page.error.as_deref(), Some("Open a session to search its files."));
    let (page, call) = FileOpenPalette::new(chat(), Engine::Missing);
    assert_eq!(call, None);
    assert_eq!(page.error.as_deref(), Some("Engine not connected"));
    assert!(!page.loading);
}

#[test]
fn only_another_query_is_searched_for() {
    let (mut page, _) = FileOpenPalette::new(chat(), Engine::Connected);
    assert_eq!(page.on_query(String::new(), chat(), Engine::Connected), None);
    assert_eq!(page.request, 1);
    let call = page.on_query("main".into(), chat(), Engine::Connected).unwrap().unwrap();
    assert_eq!(call.request, 2);
    assert_eq!(call.call.params[0].value.as_deref(), Some("main"));
}

#[test]
fn outdated_results_are_dropped() {
    let (mut page, first) = FileOpenPalette::new(chat(), Engine::Connected);
    let first = first.unwrap().request;
    let second = page.search(chat(), Engine::Connected).unwrap().request;
    assert!(!page.finish(first, found(&["old.rs"])));
    assert!(page.results.is_empty());
    assert!(page.loading);
    assert!(page.finish(second, found(&["new.rs"])));
    assert!(!page.loading);
    assert!(!page.finish(first, found(&["old.rs"])));
    assert_eq!(page.results, vec![entry("new.rs", false)]);
}

#[test]
fn request_ids_wrap_around() {
    let (mut page, _) = FileOpenPalette::new(chat(), Engine::Connected);
    page.request = u64::MAX;
    assert_eq!(page.search(chat(), Engine::Connected).unwrap().request, 0);
}

#[test]
fn earlier_results_stay_while_a_search_runs() {
    let (mut page, _) = FileOpenPalette::new(chat(), Engine::Connected);
    page.finish(1, found(&["a.rs"]));
    page.on_query("b".into(), chat(), Engine::Connected);
    assert_eq!(page.results.len(), 1);
    assert_eq!(page.active, Some(0));
    page.on_query("c".into(), None, Engine::Connected);
    assert!(page.results.is_empty());
    assert_eq!(page.active, None);
}

#[test]
fn failed_searches_empty_the_palette() {
    let (mut page, _) = FileOpenPalette::new(chat(), Engine::Connected);
    page.finish(1, found(&["a.rs"]));
    page.search(chat(), Engine::Connected);
    assert!(page.finish(2, SearchOutcome::Failed(RpcError::Closed)));
    assert_eq!(page.error.as_deref(), Some("The session's device is unreachable"));
    assert!(page.results.is_empty());
    assert_eq!(page.active, None);
    page.search(chat(), Engine::Connected);
    assert!(page.finish(3, SearchOutcome::Unreadable("expected a list".into())));
    assert_eq!(page.error.as_deref(), Some("expected a list"));
}

#[test]
fn enter_opens_the_first_file() {
    let (mut page, _) = FileOpenPalette::new(chat(), Engine::Connected);
    assert_eq!(page.select_active(), None);
    page.finish(
        1,
        SearchOutcome::Matches(vec![entry("src", true), entry("a.rs", false), entry("b.rs", false)]),
    );
    let effect = page.on_key(MenuKey::Enter, None);
    assert_eq!(effect.event, Some(FileOpenEvent::Open("a.rs".into())));
    assert!(effect.handled && !effect.redraw);
    let effect = page.on_key(MenuKey::Down, Some(1));
    assert_eq!(effect.event, None);
    assert!(effect.handled && effect.redraw);
    let effect = page.on_key(MenuKey::ModEnter, None);
    assert_eq!(effect.event, Some(FileOpenEvent::Open("b.rs".into())));
    assert_eq!(page.on_click(0), Some(FileOpenEvent::Open("a.rs".into())));
    assert_eq!(page.on_click(5), None);
}

#[test]
fn keys_move_dismiss_or_pass_through() {
    assert_eq!(FileOpenPalette::step_delta(MenuKey::Up), Some(-1));
    assert_eq!(FileOpenPalette::step_delta(MenuKey::Down), Some(1));
    assert_eq!(FileOpenPalette::step_delta(MenuKey::Enter), None);
    let (mut page, _) = FileOpenPalette::new(chat(), Engine::Connected);
    let effect = page.on_key(MenuKey::Escape, None);
    assert_eq!(effect.event, Some(FileOpenEvent::Dismissed));
    assert!(effect.handled);
    assert_eq!(page.on_click_outside(), FileOpenEvent::Dismissed);
    for key in [MenuKey::Backspace, MenuKey::Other] {
        let effect = page.on_key(key, Some(3));
        assert!(!effect.handled && !effect.redraw);
        assert_eq!(effect.event, None);
        assert_eq!(page.active, None);
    }
}

#[test]
fn the_overlay_shows_the_search() {
    let (mut page, _) = FileOpenPalette::new(chat(), Engine::Connected);
    let pane = page.render_overlay();
    assert!(pane.focus_input);
    assert_eq!(pane.body, OverlayBody::Skeleton);
    assert!(!page.render_overlay().focus_input);
    page.finish(1, found(&[]));
    assert_eq!(page.render_overlay().body, OverlayBody::Empty("No files available"));
    page.on_query("x".into(), chat(), Engine::Connected);
    page.finish(2, found(&[]));
    assert_eq!(page.render_overlay().body, OverlayBody::Empty("No matching files"));
    page.search(chat(), Engine::Connected);
    page.finish(3, found(&["a.rs", "b.rs"]));
    page.on_key(MenuKey::Down, Some(1));
    let OverlayBody::Rows(rows) = page.render_overlay().body else {
        panic!("expected rows");
    };
    let rows: Vec<_> = rows
        .iter()
        .map(|row| (row.key.as_str(), row.path.as_str(), row.selected))
        .collect();
    assert_eq!(
        rows,
        vec![
            ("file-open-result-0", "a.rs", false),
            ("file-open-result-1", "b.rs", true),
        ]
    );
    page.search(chat(), Engine::Connected);
    assert!(matches!(page.render_overlay().body, OverlayBody::Rows(_)));
    page.search(None, Engine::Connected);
    assert_eq!(
        page.render_overlay().body,
        OverlayBody::Error("Open a session to search its files.".into())
    );
}

#[test]
fn a_lost_connection_is_tried_again_once() {
    let (mut phase, step) = SearchPhase::start();
    assert_eq!(step, SearchStep::Wait { millis: 80 });
    assert_eq!(phase.advance(SearchEvent::Elapsed), SearchStep::Call);
    let lost = SearchEvent::Replied { connection_lost: true };
    assert_eq!(phase.advance(lost), SearchStep::Wait { millis: 250 });
    assert_eq!(phase.advance(SearchEvent::Elapsed), SearchStep::Call);
    assert_eq!(phase.advance(lost), SearchStep::Deliver);
    assert_eq!(phase, SearchPhase::Done);
    assert_eq!(phase.advance(lost), SearchStep::Nothing);
    assert_eq!(phase.advance(SearchEvent::Elapsed), SearchStep::Nothing);
}

#[test]
fn any_other_reply_is_delivered_at_once() {
    let (mut phase, _) = SearchPhase::start();
    phase.advance(SearchEvent::Elapsed);
    let replied = SearchEvent::Replied { connection_lost: false };
    assert_eq!(phase.advance(replied), SearchStep::Deliver);
    assert!(RpcError::Closed.is_connection_lost());
    assert!(RpcError::Transport("x".into()).is_connection_lost());
    assert!(!RpcError::Failed("x".into()).is_connection_lost());
}
