use zeron_ui::link::{
    classify_link, has_scheme, is_windows_drive_path, strip_fragment, workspace_path, LinkTarget,
};
use zeron_ui::percent::percent_decode_path;
use zeron_ui::text;

fn path(path: &str) -> LinkTarget {
    LinkTarget::WorkspacePath(path.into())
}

#[test]
fn workspace_links_are_classified_and_decoded() {
    assert_eq!(
        classify_link("zeron-file:crates/ui/src/composer.rs"),
        LinkTarget::WorkspacePath("crates/ui/src/composer.rs".into())
    );
    // The composer's percent encoding round-trips back to a real path.
    assert_eq!(
        classify_link("zeron-file:src/a%20file%23%5Bx%5D.rs"),
        LinkTarget::WorkspacePath("src/a file#[x].rs".into())
    );
    // A folder mention keeps its path; the host answers `directory`.
    assert_eq!(
        classify_link("zeron-file:src/components/"),
        LinkTarget::WorkspacePath("src/components".into())
    );
    // Plain markdown link shapes.
    assert_eq!(
        classify_link("docs/plan.md"),
        LinkTarget::WorkspacePath("docs/plan.md".into())
    );
    assert_eq!(
        classify_link("./docs/plan.md"),
        LinkTarget::WorkspacePath("./docs/plan.md".into())
    );
    assert_eq!(
        classify_link("/Users/me/repo/docs/plan.md"),
        LinkTarget::WorkspacePath("/Users/me/repo/docs/plan.md".into())
    );
    // Fragments are for heading navigation, which the viewer does not do.
    assert_eq!(
        classify_link("docs/plan.md#goals"),
        LinkTarget::WorkspacePath("docs/plan.md".into())
    );
}

#[test]
fn explicit_schemes_stay_external() {
    for target in [
        "https://example.com/a",
        "http://example.com",
        "mailto:me@example.com",
        "x:payload",
        "a:",
        "z+ext:value",
        "vscode://file/tmp/x.md",
        "file:///etc/passwd",
        "C:drive-relative",
        "#in-page-anchor",
    ] {
        assert_eq!(
            classify_link(target),
            LinkTarget::External,
            "{target} must keep external behavior"
        );
    }
}

#[test]
fn only_absolute_windows_drive_forms_bypass_uri_classification() {
    assert_eq!(
        classify_link(r"C:\repo\docs\plan.md"),
        LinkTarget::WorkspacePath(r"C:\repo\docs\plan.md".into())
    );
    assert_eq!(
        classify_link("d:/repo/docs/plan.md"),
        LinkTarget::WorkspacePath("d:/repo/docs/plan.md".into())
    );
    assert_eq!(classify_link("c:relative"), LinkTarget::External);
    assert_eq!(classify_link("x:payload"), LinkTarget::External);
}

#[test]
fn white_space_around_a_target_is_dropped() {
    assert_eq!(classify_link("  docs/plan.md\n"), path("docs/plan.md"));
    assert_eq!(classify_link("\u{3000}docs/plan.md\u{a0}"), path("docs/plan.md"));
    assert_eq!(classify_link("   "), LinkTarget::External);
    assert_eq!(classify_link(""), LinkTarget::External);
}

#[test]
fn malformed_escapes_are_used_as_written() {
    assert_eq!(classify_link("100%.md"), path("100%.md"));
    assert_eq!(classify_link("a%2"), path("a%2"));
    assert_eq!(classify_link("a%zz"), path("a%zz"));
    assert_eq!(classify_link("zeron-file:a%FFb"), path("a%FFb"));
}

#[test]
fn trailing_slashes_are_dropped_after_decoding() {
    assert_eq!(classify_link("src//"), path("src"));
    assert_eq!(classify_link("src%2F"), path("src"));
    assert_eq!(classify_link("/"), LinkTarget::External);
    assert_eq!(classify_link("zeron-file:"), LinkTarget::External);
    assert_eq!(classify_link("C:/"), path("C:"));
}

#[test]
fn a_fragment_does_not_change_what_opens() {
    for target in ["docs/plan.md", "zeron-file:a%20b", "C:/x", "x:payload", "", "a"] {
        for fragment in ["", "goals", "a:b", "  ", "x#y"] {
            assert_eq!(
                classify_link(&format!("{target}#{fragment}")),
                classify_link(target)
            );
        }
    }
}

#[test]
fn link_parts_are_told_apart() {
    assert_eq!(strip_fragment("a#b#c"), "a");
    assert_eq!(strip_fragment("abc"), "abc");
    assert_eq!(strip_fragment("#"), "");
    assert!(has_scheme("https://x"));
    assert!(has_scheme("a.b-c+1:x"));
    assert!(!has_scheme("1a:x"));
    assert!(!has_scheme(":x"));
    assert!(!has_scheme("a b:x"));
    assert!(!has_scheme("plain"));
    assert!(!has_scheme("\u{e9}:x"));
    assert!(is_windows_drive_path(r"z:\"));
    assert!(!is_windows_drive_path("zz:/"));
    assert!(!is_windows_drive_path("z:"));
    assert_eq!(workspace_path("a/b///"), path("a/b"));
    assert_eq!(workspace_path("///"), LinkTarget::External);
}

#[test]
fn percent_decoding_reads_utf8() {
    assert_eq!(percent_decode_path("a%20b"), Some("a b".to_string()));
    assert_eq!(percent_decode_path("%c3%A9t%C3%a9"), Some("\u{e9}t\u{e9}".to_string()));
    assert_eq!(percent_decode_path("\u{e9}"), Some("\u{e9}".to_string()));
    assert_eq!(percent_decode_path("%E2%82%AC"), Some("\u{20ac}".to_string()));
    assert_eq!(percent_decode_path(""), Some(String::new()));
    assert_eq!(percent_decode_path("%C3"), None);
    assert_eq!(percent_decode_path("%"), None);
    assert_eq!(percent_decode_path("%4"), None);
    assert_eq!(percent_decode_path("%4g"), None);
    assert_eq!(percent_decode_path("%25"), Some("%".to_string()));
}

#[test]
fn decoding_undoes_escaping_every_byte() {
    for path in ["src/a file#[x].rs", "100%", "d\u{e9}j\u{e0} vu/\u{1f600}.md", ""] {
        let mut encoded = String::new();
        for byte in path.bytes() {
            encoded.push_str(&format!("%{byte:02X}"));
        }
        assert_eq!(percent_decode_path(&encoded).as_deref(), Some(path));
    }
}

#[test]
fn white_space_is_that_of_the_standard_library() {
    for c in '\0'..=char::MAX {
        assert_eq!(text::is_white_space(c), c.is_whitespace(), "{c:?}");
    }
}

#[test]
fn text_primitives_agree_with_the_standard_library() {
    let samples = [
        "", " ", "a", " a b ", "\t\u{2003}x\u{85}", "a#b#c", "a.b.c", "x\\y/z//", "unknown method",
        "\u{e9}\u{e0}#\u{e9}", "AbC.MD", "aaab",
    ];
    for s in samples {
        assert_eq!(text::trim(s), s.trim());
        assert_eq!(text::trim_end_either(s, '/', '\\'), s.trim_end_matches(['/', '\\']));
        assert_eq!(text::text_before(s, '#'), s.split_once('#').map_or(s, |(head, _)| head));
        assert_eq!(text::split_at_last(s, '.'), s.rsplit_once('.'));
        assert_eq!(text::to_folded(s), s.to_ascii_lowercase());
        assert_eq!(text::chars_of(s), s.chars().collect::<Vec<_>>());
        for t in samples {
            assert_eq!(text::contains_text(s, t), s.contains(t), "{s:?} {t:?}");
            assert_eq!(text::text_after_prefix(s, t), s.strip_prefix(t));
            assert_eq!(text::same_text(s, t), s == t);
        }
    }
}
