use std::sync::Arc;

use zeron_ui::display::{
    gutter_half_px, language_label, split_display_path, split_editor_lines, LanguageId,
};
use zeron_ui::file_viewer::{
    engine_unavailable, ApplyEffect, FileViewer, FileViewerEvent, HighlightJob,
    HighlightedDocument, LinkEffect, OpenEffect, ReadCall,
};
use zeron_ui::proto::{
    CallError, ChatRow, Engine, Method, Param, RpcCall, RpcError, WorkspaceFileContent,
    WorkspaceFileRead, WORKSPACE_FILE_PREVIEW_LIMIT,
};
use zeron_ui::size::{decimal_text, format_bytes};
use zeron_ui::viewer::{body_for, is_markdown, rpc_notice, ViewerBody, ViewerCore};
use zeron_ui::viewer_pane::{BodyPane, EditorRow};

fn read(path: &str, content: WorkspaceFileContent) -> WorkspaceFileRead {
    WorkspaceFileRead {
        path: path.into(),
        content,
    }
}

fn text(body: &str) -> WorkspaceFileContent {
    WorkspaceFileContent::Text { text: body.into() }
}

fn failure(error: RpcError, shown: &str) -> CallError {
    CallError {
        error,
        shown: shown.into(),
    }
}

fn chat(id: &str) -> Option<ChatRow> {
    Some(ChatRow {
        id: id.into(),
        device_id: "device".into(),
    })
}

fn opened(viewer: &mut FileViewer<u32>, path: &str, id: &str) -> u64 {
    let effect = viewer.open(path.into(), chat(id), Engine::Connected, "");
    assert!(effect.scroll_to_top);
    effect.read.unwrap().request
}

fn notice_title(body: &ViewerBody) -> &str {
    match body {
        ViewerBody::Notice { title, .. } => title,
        other => panic!("expected a notice, got {other:?}"),
    }
}

#[test]
fn markdown_and_plain_text_map_to_different_bodies() {
    assert!(matches!(
        body_for("docs/plan.md", text("# Plan")),
        ViewerBody::Markdown(_)
    ));
    assert!(matches!(
        body_for("docs/PLAN.MARKDOWN", text("# Plan")),
        ViewerBody::Markdown(_)
    ));
    assert!(matches!(
        body_for("src/lib.rs", text("fn main() {}")),
        ViewerBody::Text(_)
    ));
}

#[test]
fn editor_lines_keep_a_trailing_blank() {
    assert_eq!(split_editor_lines("fn main() {}").len(), 1);
    assert_eq!(split_editor_lines("a\nb").len(), 2);
    assert_eq!(split_editor_lines("a\nb\n").len(), 3);
    assert_eq!(
        split_display_path("crates/ui/src/lib.rs"),
        (Some("crates/ui/src"), "lib.rs")
    );
    assert_eq!(split_display_path("README"), (None, "README"));
    // `src/lib.rs` is Rust, `notes.txt` is of no known language.
    assert_eq!(language_label(Some(LanguageId::Rust)), "Rust");
    assert_eq!(language_label(None), "Plain Text");
    // 9 has one digit, 100 has three.
    assert!(gutter_half_px(1) <= gutter_half_px(3));
}

#[test]
fn markdown_body_clones_share_the_parsed_tree() {
    let body = body_for("docs/plan.md", text("# Plan\n- one\n"));
    let cloned = body.clone();
    let (ViewerBody::Markdown(tree), ViewerBody::Markdown(cloned_tree)) = (&body, &cloned) else {
        panic!("expected markdown bodies");
    };
    assert!(Arc::ptr_eq(tree, cloned_tree));
}

#[test]
fn many_short_lines_remain_one_plain_text_payload() {
    let source = "x\n".repeat(WORKSPACE_FILE_PREVIEW_LIMIT as usize / 2);
    let ViewerBody::Text(rendered) = body_for("many-lines.txt", text(&source)) else {
        panic!("expected plain text");
    };
    assert_eq!(rendered.len(), source.len());
    assert_eq!(rendered.matches('\n').count(), source.matches('\n').count());
}

#[test]
fn every_host_refusal_has_its_own_notice() {
    let states = [
        WorkspaceFileContent::NotFound,
        WorkspaceFileContent::OutsideWorkspace,
        WorkspaceFileContent::Directory,
        WorkspaceFileContent::NotPreviewable,
        WorkspaceFileContent::TooLarge {
            byte_len: WORKSPACE_FILE_PREVIEW_LIMIT + 1,
            limit: WORKSPACE_FILE_PREVIEW_LIMIT,
        },
        WorkspaceFileContent::PermissionDenied,
    ];
    let mut titles = Vec::new();
    for state in states {
        match body_for("docs/plan.md", state) {
            ViewerBody::Notice { title, .. } => titles.push(title.to_string()),
            other => panic!("expected a notice, got {other:?}"),
        }
    }
    let unique: std::collections::HashSet<_> = titles.iter().collect();
    assert_eq!(unique.len(), titles.len(), "states must not share a notice");

    // The size refusal has to say the content is missing on purpose.
    let ViewerBody::Notice { detail, .. } = body_for(
        "huge.md",
        WorkspaceFileContent::TooLarge {
            byte_len: 900_000,
            limit: WORKSPACE_FILE_PREVIEW_LIMIT,
        },
    ) else {
        panic!("expected a notice");
    };
    assert!(detail.contains("512 KiB"), "{detail}");
    assert!(detail.contains("partial"), "{detail}");
}

/// A slow first request must never overwrite the file the user asked for second, even when its
/// response lands last.
#[test]
fn a_stale_response_cannot_replace_a_newer_file() {
    let first = 1;
    let second = 2;
    let opened = ViewerCore::new("chat".into(), "a.md".into(), first);
    assert_eq!(opened.request, first);
    // The second click replaces the request before A's response lands.
    let mut core = ViewerCore::new("chat".into(), "b.md".into(), second);

    assert!(core.apply(second, Ok(read("b.md", text("# B")))));
    assert!(
        !core.apply(first, Ok(read("a.md", text("# A")))),
        "the older request is dropped"
    );
    assert_eq!(core.path, "b.md");
    let ViewerBody::Markdown(tree) = &core.body else {
        panic!("expected B's markdown, got {:?}", core.body);
    };
    assert!(!tree.is_empty());
}

#[test]
fn version_skew_and_transport_failures_read_differently() {
    let skew = rpc_notice(&failure(
        RpcError::Failed("unknown method: ReadWorkspaceFile".into()),
        "unknown method: ReadWorkspaceFile",
    ));
    let ViewerBody::Notice { title, .. } = skew else {
        panic!("expected a notice");
    };
    assert!(title.contains("older zeron"), "{title}");

    let offline = rpc_notice(&failure(RpcError::Closed, "closed"));
    let ViewerBody::Notice { title, .. } = offline else {
        panic!("expected a notice");
    };
    assert!(title.contains("unreachable"), "{title}");
}

#[test]
fn each_failure_has_its_words() {
    let older = rpc_notice(&failure(RpcError::UnknownMethod("x".into()), "nope"));
    assert_eq!(notice_title(&older), "This session's device runs an older zeron");
    let lost = rpc_notice(&failure(RpcError::Transport("io".into()), "io"));
    assert_eq!(notice_title(&lost), "The session's device is unreachable");
    for error in [RpcError::Failed("boom".into()), RpcError::BadParams("bad".into())] {
        assert_eq!(
            rpc_notice(&failure(error, "it broke")),
            ViewerBody::Notice {
                title: "Couldn't open this file".into(),
                detail: "it broke".into(),
            }
        );
    }
}

#[test]
fn an_empty_file_is_a_notice_whatever_its_name() {
    for path in ["a.md", "a.rs", "a"] {
        assert_eq!(
            body_for(path, text("")),
            ViewerBody::Notice {
                title: "Empty file".into(),
                detail: "This file has no content.".into(),
            }
        );
    }
}

#[test]
fn each_refusal_has_its_words() {
    let cases = [
        (
            WorkspaceFileContent::NotFound,
            "File not found",
            "It may have been moved or deleted since the message was written.",
        ),
        (
            WorkspaceFileContent::OutsideWorkspace,
            "Outside this session's workspace",
            "Only files inside the session's folder can be previewed.",
        ),
        (
            WorkspaceFileContent::Directory,
            "That's a folder",
            "The viewer opens files, not directories.",
        ),
        (
            WorkspaceFileContent::NotPreviewable,
            "Can't preview this file",
            "It appears to be binary or unsupported text, so there is nothing readable to show.",
        ),
        (
            WorkspaceFileContent::TooLarge { byte_len: 900_000, limit: 524_288 },
            "File is too large to preview",
            "878 KiB exceeds the 512 KiB preview limit, so nothing is shown rather than a partial file.",
        ),
        (
            WorkspaceFileContent::PermissionDenied,
            "Permission denied",
            "The session's device could not read this file.",
        ),
    ];
    for (content, title, detail) in cases {
        assert_eq!(
            body_for("x", content),
            ViewerBody::Notice { title: title.into(), detail: detail.into() }
        );
    }
}

#[test]
fn markdown_is_known_by_its_extension() {
    for path in ["a.md", "a.MD", "a.b.Markdown", ".md", "dir.x/a.mD"] {
        assert!(is_markdown(path), "{path}");
    }
    for path in ["md", "a.mdx", "a.md.txt", "a.", "", "a.markdown/b"] {
        assert!(!is_markdown(path), "{path}");
    }
}

#[test]
fn byte_counts_read_as_floating_point_prints_them() {
    assert_eq!(format_bytes(0), "0 B");
    assert_eq!(format_bytes(1023), "1023 B");
    assert_eq!(format_bytes(1024), "1 KiB");
    assert_eq!(format_bytes(1_048_575), "1023 KiB");
    assert_eq!(format_bytes(1_048_576), "1.0 MiB");
    assert_eq!(format_bytes(1_310_720), "1.2 MiB");
    assert_eq!(format_bytes(1_835_008), "1.8 MiB");
    let mib = 1_048_576u64;
    let mut samples = vec![u64::MAX, u64::MAX - 1, u64::MAX - 1024, 1 << 53, (1 << 53) + 1];
    for shift in 20..64 {
        let base = 1u64 << shift;
        for delta in [0, 1, 2, 3, 511, 512, 513, 1023, 1024, 1025, 52_428, 52_429, 262_144] {
            samples.push(base + delta);
            samples.push(base.wrapping_sub(delta).max(mib));
            samples.push(base | (base >> 1) | delta);
        }
    }
    for step in 0..2000 {
        samples.push(mib + step * 13_107);
        samples.push(mib + step * (mib / 4));
        samples.push((1 << 62) + step * 12_345_678_901_234);
    }
    for bytes in samples {
        assert_eq!(
            format_bytes(bytes),
            format!("{:.1} MiB", bytes as f64 / mib as f64),
            "{bytes}"
        );
    }
}

#[test]
fn numbers_read_in_decimal() {
    for n in [0, 7, 9, 10, 99, 100, 12_345, u64::MAX] {
        assert_eq!(decimal_text(n), format!("{n}"));
    }
}

#[test]
fn gutters_follow_their_formula() {
    for digits in 0..21u32 {
        let px = (18.0 + digits as f32 * 7.5).max(44.0);
        assert_eq!(gutter_half_px(digits) as f32 / 2.0, px);
    }
}

#[test]
fn rows_make_up_the_text_again() {
    for source in ["", "a", "\n", "a\n\nb\r\n", "\u{e9}\n\u{1f600}"] {
        let rows = split_editor_lines(source);
        assert_eq!(rows.join("\n"), source);
        assert_eq!(rows, source.split('\n').collect::<Vec<_>>());
    }
}

#[test]
fn display_paths_split_at_the_last_separator() {
    assert_eq!(split_display_path("a/b/"), (Some("a"), "b"));
    assert_eq!(split_display_path(r"C:\x\y.rs"), (Some(r"C:\x"), "y.rs"));
    assert_eq!(split_display_path(r"a\b/c"), (Some(r"a\b"), "c"));
    assert_eq!(split_display_path("/etc"), (Some(""), "etc"));
    assert_eq!(split_display_path("//\\"), (None, ""));
    assert_eq!(split_display_path(""), (None, ""));
}

#[test]
fn languages_have_their_names() {
    assert_eq!(language_label(Some(LanguageId::Cpp)), "C++");
    assert_eq!(language_label(Some(LanguageId::CSharp)), "C#");
    assert_eq!(language_label(Some(LanguageId::Bash)), "Shell");
    assert_eq!(language_label(Some(LanguageId::Jsonc)), "JSONC");
}

#[test]
fn opening_a_file_asks_the_chats_device() {
    let mut viewer: FileViewer<u32> = FileViewer::new();
    assert!(!viewer.is_open());
    let effect = viewer.open("a.rs".into(), chat("chat"), Engine::Connected, "");
    let param = |name: &'static str, value: &str| Param { name, value: Some(value.into()) };
    assert_eq!(
        effect,
        OpenEffect {
            scroll_to_top: true,
            read: Some(ReadCall {
                request: 1,
                call: RpcCall {
                    method: Method::ReadWorkspaceFile,
                    params: vec![
                        param("chatId", "chat"),
                        param("path", "a.rs"),
                        param("targetDeviceId", "device"),
                    ],
                },
            }),
        }
    );
    assert!(viewer.is_open());
    assert_eq!(viewer.open.as_ref().unwrap().body, ViewerBody::Loading);
}

#[test]
fn without_a_chat_a_click_is_ignored() {
    let mut viewer: FileViewer<u32> = FileViewer::new();
    let effect = viewer.open("a.rs".into(), None, Engine::Connected, "");
    assert_eq!(effect, OpenEffect { scroll_to_top: false, read: None });
    let effect = viewer.open("a.rs".into(), None, Engine::Missing, "gone");
    assert_eq!(effect, OpenEffect { scroll_to_top: false, read: None });
    assert!(!viewer.is_open());
    assert_eq!(viewer.next_request, 0);
}

#[test]
fn without_an_engine_the_failure_is_shown() {
    assert_eq!(engine_unavailable(), RpcError::Failed("engine unavailable".into()));
    let mut viewer: FileViewer<u32> = FileViewer::new();
    let request = opened(&mut viewer, "b.rs", "chat");
    viewer.apply(request, Ok(read("b.rs", text("b"))));
    let shown = "call failed: engine unavailable";
    let effect = viewer.open("a.rs".into(), chat("chat"), Engine::Missing, shown);
    assert_eq!(effect, OpenEffect { scroll_to_top: true, read: None });
    assert_eq!(viewer.next_request, request + 1);
    assert!(viewer.editor.is_none());
    assert_eq!(viewer.rows, 0);
    let core = viewer.open.as_ref().unwrap();
    assert_eq!(core.path, "a.rs");
    assert_eq!(core.request, request + 1);
    assert_eq!(core.body, rpc_notice(&failure(engine_unavailable(), shown)));
    assert_eq!(
        core.body,
        ViewerBody::Notice {
            title: "Couldn't open this file".into(),
            detail: shown.into(),
        }
    );
    // The file that was open before does not come back.
    let late = viewer.apply(request, Ok(read("b.rs", text("b"))));
    assert_eq!(late, ApplyEffect::Ignored);
}

#[test]
fn a_source_text_gets_its_rows_and_is_highlighted() {
    let mut viewer: FileViewer<u32> = FileViewer::new();
    let request = opened(&mut viewer, "lib.rs", "chat");
    let effect = viewer.apply(request, Ok(read("src/lib.rs", text("fn a() {}\n"))));
    let ApplyEffect::Shown(Some(job)) = effect else {
        panic!("expected a highlight job");
    };
    assert_eq!(
        job,
        HighlightJob { path: "src/lib.rs".into(), text: "fn a() {}\n".into(), request }
    );
    assert_eq!(FileViewer::<u32>::kick_highlight(job, None), None);
    assert_eq!(viewer.rows, 3);
    assert!(matches!(
        viewer.render_editor_row(0),
        EditorRow::Line { text: "fn a() {}", spans: None, .. }
    ));
    let stale = HighlightedDocument { lines: vec![vec![9]] };
    assert!(!viewer.finish_highlight(request + 1, Some(stale)));
    assert!(viewer.finish_highlight(request, Some(HighlightedDocument { lines: vec![vec![1, 2]] })));
    assert_eq!(
        viewer.render_editor_row(0),
        EditorRow::Line {
            number: "1".into(),
            text: "fn a() {}",
            spans: Some(&vec![1, 2]),
            selection: Some("file-viewer-1:0".into()),
        }
    );
    assert_eq!(
        viewer.render_editor_row(1),
        EditorRow::Line { number: "2".into(), text: "", spans: None, selection: None }
    );
    assert_eq!(viewer.render_editor_row(2), EditorRow::Spacer);
}

#[test]
fn a_known_language_is_highlighted() {
    let job = HighlightJob { path: "a.rs".into(), text: "x".into(), request: 1 };
    let kicked = FileViewer::<u32>::kick_highlight(job, Some(LanguageId::Rust));
    assert_eq!(kicked.map(|job| job.request), Some(1));
}

#[test]
fn markdown_and_notices_have_no_rows() {
    let mut viewer: FileViewer<u32> = FileViewer::new();
    let request = opened(&mut viewer, "a.md", "chat");
    assert_eq!(
        viewer.apply(request, Ok(read("a.md", text("# A")))),
        ApplyEffect::Shown(None)
    );
    assert!(viewer.editor.is_none());
    assert_eq!(viewer.rows, 0);
    assert_eq!(viewer.render_editor_row(0), EditorRow::Nothing);
    let request = opened(&mut viewer, "gone.rs", "chat");
    assert_eq!(
        viewer.apply(request, Ok(read("gone.rs", WorkspaceFileContent::NotFound))),
        ApplyEffect::Shown(None)
    );
    assert!(viewer.editor.is_none());
}

#[test]
fn the_newest_file_wins_in_either_order() {
    for stale_first in [true, false] {
        let mut viewer: FileViewer<u32> = FileViewer::new();
        let first = opened(&mut viewer, "a.rs", "chat");
        let second = opened(&mut viewer, "b.rs", "chat");
        assert!(first < second);
        if stale_first {
            let late = viewer.apply(first, Ok(read("a.rs", text("a"))));
            assert_eq!(late, ApplyEffect::Ignored);
        }
        viewer.apply(second, Ok(read("b.rs", text("b"))));
        if !stale_first {
            let late = viewer.apply(first, Ok(read("a.rs", text("a"))));
            assert_eq!(late, ApplyEffect::Ignored);
        }
        let core = viewer.open.as_ref().unwrap();
        assert_eq!(core.path, "b.rs");
        assert_eq!(core.body, ViewerBody::Text("b".into()));
    }
}

#[test]
fn a_response_from_before_a_close_is_ignored() {
    let mut viewer: FileViewer<u32> = FileViewer::new();
    let first = opened(&mut viewer, "a.rs", "chat");
    assert_eq!(viewer.close(), (true, FileViewerEvent::Closed));
    assert_eq!(viewer.close(), (false, FileViewerEvent::Closed));
    assert_eq!(viewer.apply(first, Ok(read("a.rs", text("a")))), ApplyEffect::Ignored);
    assert!(!viewer.is_open());
    let second = opened(&mut viewer, "a.rs", "chat");
    assert!(second > first);
    assert_eq!(viewer.apply(first, Ok(read("a.rs", text("a")))), ApplyEffect::Ignored);
    assert!(viewer.clear());
    assert!(!viewer.clear());
}

#[test]
fn a_file_does_not_follow_into_another_chat() {
    let mut viewer: FileViewer<u32> = FileViewer::new();
    assert!(!viewer.clear_if_not_chat(Some("b")));
    opened(&mut viewer, "a.rs", "a");
    assert!(!viewer.clear_if_not_chat(Some("a")));
    assert!(viewer.is_open());
    assert!(viewer.clear_if_not_chat(Some("b")));
    assert!(!viewer.is_open());
    opened(&mut viewer, "a.rs", "a");
    assert!(viewer.clear_if_not_chat(None));
    assert!(!viewer.is_open());
}

#[test]
fn links_in_a_preview_open_files_or_urls() {
    let mut viewer: FileViewer<u32> = FileViewer::new();
    assert_eq!(
        viewer.open_link(" https://example.com", chat("chat"), Engine::Connected, ""),
        LinkEffect::Url(" https://example.com".into())
    );
    assert!(!viewer.is_open());
    let effect = viewer.open_link("docs/a%20b.md#x", chat("chat"), Engine::Connected, "");
    let LinkEffect::Opened(OpenEffect { scroll_to_top: true, read: Some(call) }) = effect else {
        panic!("expected a call");
    };
    assert_eq!(call.request, 1);
    assert_eq!(viewer.open.as_ref().unwrap().path, "docs/a b.md");
    let effect = viewer.open_link("c.md", chat("chat"), Engine::Missing, "gone");
    let refused = OpenEffect { scroll_to_top: true, read: None };
    assert_eq!(effect, LinkEffect::Opened(refused));
    assert_eq!(
        notice_title(&viewer.open.as_ref().unwrap().body),
        "Couldn't open this file"
    );
    // An external target draws no request id.
    viewer.next_request = u64::MAX;
    assert_eq!(
        viewer.open_link("mailto:a@b", chat("chat"), Engine::Connected, ""),
        LinkEffect::Url("mailto:a@b".into())
    );
}

#[test]
fn the_panel_shows_what_is_open() {
    let mut viewer: FileViewer<u32> = FileViewer::new();
    assert!(viewer.render(None).is_none());

    let request = opened(&mut viewer, "src/lib.rs", "chat");
    let pane = viewer.render(Some(LanguageId::Rust)).unwrap();
    assert_eq!(pane.header.dir.as_deref(), Some("src"));
    assert_eq!(pane.header.name, "lib.rs");
    assert_eq!(pane.header.chips, vec!["Read-only"]);
    assert_eq!(pane.body, BodyPane::Spinner);

    viewer.apply(request, Ok(read("src/lib.rs", text("one"))));
    let pane = viewer.render(Some(LanguageId::Rust)).unwrap();
    assert_eq!(pane.header.chips, vec!["Rust", "1 line", "Read-only"]);
    assert_eq!(pane.body, BodyPane::Editor { rows: 2 });
    assert!(!pane.article);

    let request = opened(&mut viewer, "notes", "chat");
    viewer.apply(request, Ok(read("notes", text("one\ntwo\n"))));
    let pane = viewer.render(None).unwrap();
    assert_eq!(pane.header.dir, None);
    assert_eq!(pane.header.chips, vec!["Plain Text", "3 lines", "Read-only"]);

    let request = opened(&mut viewer, "a.md", "chat");
    viewer.apply(request, Ok(read("a.md", text("# A"))));
    let pane = viewer.render(Some(LanguageId::Markdown)).unwrap();
    assert_eq!(pane.header.chips, vec!["Markdown", "Read-only"]);
    assert_eq!(
        pane.body,
        BodyPane::Article { source: "# A", key: "file-viewer-3".into() }
    );
    assert!(pane.article);

    let request = opened(&mut viewer, "dir", "chat");
    viewer.apply(request, Ok(read("dir", WorkspaceFileContent::Directory)));
    let pane = viewer.render(None).unwrap();
    assert_eq!(pane.header.chips, vec!["Read-only"]);
    assert_eq!(
        pane.body,
        BodyPane::Notice {
            title: "That's a folder",
            detail: "The viewer opens files, not directories.",
        }
    );
}

#[test]
fn a_large_preview_splits_quickly() {
    let source = "x\n".repeat(WORKSPACE_FILE_PREVIEW_LIMIT as usize / 2);
    let mut viewer: FileViewer<u32> = FileViewer::new();
    let request = opened(&mut viewer, "many-lines.txt", "chat");
    viewer.apply(request, Ok(read("many-lines.txt", text(&source))));
    assert_eq!(viewer.rows, WORKSPACE_FILE_PREVIEW_LIMIT as usize / 2 + 2);
}

#[test]
fn selection_keys_differ() {
    let mut keys = std::collections::HashSet::new();
    for _ in 0..3 {
        let mut viewer: FileViewer<u32> = FileViewer::new();
        viewer.next_request = keys.len() as u64;
        let request = opened(&mut viewer, "a.rs", "chat");
        viewer.apply(request, Ok(read("a.rs", text(&"x\n".repeat(12)))));
        for row in 0..12 {
            let EditorRow::Line { selection: Some(key), .. } = viewer.render_editor_row(row) else {
                panic!("expected a line");
            };
            assert!(keys.insert(key));
        }
    }
}
