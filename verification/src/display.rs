//! What the viewer shows of a file around its text: path parts, editor rows, language names.

use vstd::prelude::*;

use crate::text;

verus! {

// ---------------------------------------------------------------------------
// Path parts
// ---------------------------------------------------------------------------

/// The predicate of the two path separators.
pub open spec fn separators() -> spec_fn(char) -> bool {
    text::either('/', '\\')
}

/// A path split for display into its folder, where it has one, and its name.
///
/// Trailing separators are dropped; the split is at the last `/`, or at the last `\` of a path
/// without `/`.
pub open spec fn display_parts(path: Seq<char>) -> (Option<Seq<char>>, Seq<char>) {
    let kept = text::drop_back_while(path, separators());
    let slash = text::last_index(kept, '/');
    let backslash = text::last_index(kept, '\\');
    if slash >= 0 {
        (Some(kept.take(slash)), kept.skip(slash + 1))
    } else if backslash >= 0 {
        (Some(kept.take(backslash)), kept.skip(backslash + 1))
    } else {
        (None, kept)
    }
}

/// Splits a path for display into its folder and its name.
pub fn split_display_path(path: &str) -> (r: (Option<&str>, &str))
    ensures
        match r.0 {
            Some(dir) => display_parts(path@).0 == Some(dir@),
            None => display_parts(path@).0 is None,
        },
        r.1@ == display_parts(path@).1,
{
    let path = text::trim_end_either(path, '/', '\\');
    if path.is_empty() {
        return (None, path);
    }
    match text::split_at_last(path, '/') {
        Some((dir, name)) => (Some(dir), name),
        None => match text::split_at_last(path, '\\') {
            Some((dir, name)) => (Some(dir), name),
            None => (None, path),
        },
    }
}

/// The folder, a separator and the name make up the path again, trailing separators aside, and
/// the name itself holds no `/`.
pub proof fn law_display_parts_make_up_the_path(path: Seq<char>)
    ensures
        ({
            let (dir, name) = display_parts(path);
            let kept = text::drop_back_while(path, separators());
            &&& !name.contains('/')
            &&& match dir {
                Some(dir) => kept == dir.push('/') + name || (!kept.contains('/') && kept
                    == dir.push('\\') + name),
                None => kept == name && !kept.contains('/') && !kept.contains('\\'),
            }
        }),
{
    let kept = text::drop_back_while(path, separators());
    let slash = text::last_index(kept, '/');
    let backslash = text::last_index(kept, '\\');
    text::lemma_last_index(kept, '/');
    text::lemma_last_index(kept, '\\');
    if slash >= 0 {
        assert(kept.take(slash).push('/') + kept.skip(slash + 1) =~= kept);
    } else if backslash >= 0 {
        assert(kept.take(backslash).push('\\') + kept.skip(backslash + 1) =~= kept);
    }
}

// ---------------------------------------------------------------------------
// Editor rows
// ---------------------------------------------------------------------------

/// The characters of each string of a list.
pub open spec fn texts(list: Seq<String>) -> Seq<Seq<char>> {
    list.map_values(|s: String| s@)
}

/// The rows of a text: it is cut at every line feed, so a text that ends in one has a blank last
/// row, and every text has at least one row.
pub open spec fn lines(s: Seq<char>) -> Seq<Seq<char>>
    decreases s.len(),
{
    if s.len() == 0 {
        seq![seq![]]
    } else {
        let front = lines(s.drop_last());
        if s.last() == '\n' {
            front.push(seq![])
        } else {
            front.drop_last().push(front.last().push(s.last()))
        }
    }
}

/// Splits a source text into editor rows.
pub fn split_editor_lines(source: &str) -> (r: Vec<String>)
    ensures
        texts(r@) == lines(source@),
        r@.len() == line_feeds(source@) + 1,
        joined_lines(texts(r@)) == source@,
{
    proof {
        law_rows_make_up_the_text(source@);
    }
    let mut rows: Vec<String> = Vec::new();
    let mut row: String = String::new();
    assert(texts(rows@).push(row@) =~= lines(source@.take(0)));
    for c in it: source.chars()
        invariant
            it.seq() == source@,
            texts(rows@).push(row@) == lines(source@.take(it.index() as int)),
    {
        let ghost n = it.index();
        let ghost before = texts(rows@).push(row@);
        assert(source@.take(n + 1).drop_last() =~= source@.take(n as int));
        assert(before.drop_last() =~= texts(rows@));
        if c == '\n' {
            rows.push(row);
            row = String::new();
            assert(texts(rows@) =~= before);
        } else {
            row.push(c);
        }
    }
    assert(source@.take(source@.len() as int) =~= source@);
    let ghost done = texts(rows@).push(row@);
    rows.push(row);
    assert(texts(rows@) =~= done);
    rows
}

/// Rows joined with line feeds between them.
pub open spec fn joined_lines(rows: Seq<Seq<char>>) -> Seq<char>
    decreases rows.len(),
{
    if rows.len() == 0 {
        seq![]
    } else if rows.len() == 1 {
        rows[0]
    } else {
        joined_lines(rows.drop_last()).push('\n') + rows.last()
    }
}

/// How many line feeds a text holds.
pub open spec fn line_feeds(s: Seq<char>) -> nat
    decreases s.len(),
{
    if s.len() == 0 {
        0
    } else {
        line_feeds(s.drop_last()) + if s.last() == '\n' {
            1nat
        } else {
            0nat
        }
    }
}

/// The rows of a text joined with line feeds are the text, no row holds a line feed, and there is
/// one row more than there are line feeds.
pub proof fn law_rows_make_up_the_text(s: Seq<char>)
    ensures
        joined_lines(lines(s)) == s,
        lines(s).len() == line_feeds(s) + 1,
        forall|i: int| 0 <= i < lines(s).len() ==> !(#[trigger] lines(s)[i]).contains('\n'),
    decreases s.len(),
{
    let rows = lines(s);
    if s.len() == 0 {
        assert(rows[0] =~= s);
    } else {
        let front = lines(s.drop_last());
        law_rows_make_up_the_text(s.drop_last());
        assert(s.drop_last().push(s.last()) =~= s);
        if s.last() == '\n' {
            assert(rows.drop_last() =~= front);
            assert(joined_lines(front).push('\n') + rows.last() =~= s);
        } else {
            assert(rows.drop_last() =~= front.drop_last());
            if front.len() == 1 {
                assert(joined_lines(front) == front[0]);
                assert(joined_lines(rows) == rows[0]);
            } else {
                let head = joined_lines(front.drop_last()).push('\n');
                assert(head + front.last().push(s.last()) =~= (head + front.last()).push(s.last()));
            }
        }
        assert forall|i: int| 0 <= i < rows.len() implies !(#[trigger] rows[i]).contains('\n') by {
            if i < front.len() {
                assert(!front[i].contains('\n'));
            }
            if i == rows.len() - 1 && s.last() != '\n' {
                let row = rows[i];
                assert forall|j: int| 0 <= j < row.len() implies row[j] != '\n' by {
                    if j < front.last().len() {
                        assert(front.last()[j] == row[j]);
                        assert(front[front.len() - 1].contains(front.last()[j]));
                    }
                }
            }
        }
    }
}

// ---------------------------------------------------------------------------
// Gutter
// ---------------------------------------------------------------------------

/// The width of the line number gutter, in half pixels, for numbers of so many digits: nine pixels
/// of padding on each side and seven and a half for each digit, but never under 44 pixels.
pub open spec fn gutter_width(digits: nat) -> nat {
    let wanted = 36 + 15 * digits;
    if wanted < 88 {
        88
    } else {
        wanted
    }
}

/// The width of the line number gutter, in half pixels.
pub fn gutter_half_px(digits: u32) -> (r: u64)
    ensures
        r == gutter_width(digits as nat),
{
    let wanted: u64 = 36 + 15 * (digits as u64);
    if wanted < 88 {
        88
    } else {
        wanted
    }
}

/// A gutter for more digits is never narrower.
pub proof fn law_gutter_grows_with_digits(fewer: nat, more: nat)
    requires
        fewer <= more,
    ensures
        gutter_width(fewer) <= gutter_width(more),
{
}

// ---------------------------------------------------------------------------
// Languages
// ---------------------------------------------------------------------------

/// A language that source text is highlighted in.
#[derive(Debug, Clone, Copy, PartialEq, Eq, Structural)]
pub enum LanguageId {
    Rust,
    JavaScript,
    Jsx,
    TypeScript,
    Tsx,
    Python,
    Go,
    Json,
    Jsonc,
    Bash,
    Toml,
    Markdown,
    Html,
    Css,
    Yaml,
    C,
    Cpp,
    CSharp,
    Java,
    Kotlin,
    Swift,
    Ruby,
    Php,
    Sql,
    Lua,
    Dockerfile,
    Nix,
    Make,
}

/// The name of a file's language; a file of no known language is plain text.
pub open spec fn language_name(language: Option<LanguageId>) -> Seq<char> {
    match language {
        Some(LanguageId::Rust) => "Rust"@,
        Some(LanguageId::JavaScript) => "JavaScript"@,
        Some(LanguageId::Jsx) => "JSX"@,
        Some(LanguageId::TypeScript) => "TypeScript"@,
        Some(LanguageId::Tsx) => "TSX"@,
        Some(LanguageId::Python) => "Python"@,
        Some(LanguageId::Go) => "Go"@,
        Some(LanguageId::Json) => "JSON"@,
        Some(LanguageId::Jsonc) => "JSONC"@,
        Some(LanguageId::Bash) => "Shell"@,
        Some(LanguageId::Toml) => "TOML"@,
        Some(LanguageId::Markdown) => "Markdown"@,
        Some(LanguageId::Html) => "HTML"@,
        Some(LanguageId::Css) => "CSS"@,
        Some(LanguageId::Yaml) => "YAML"@,
        Some(LanguageId::C) => "C"@,
        Some(LanguageId::Cpp) => "C++"@,
        Some(LanguageId::CSharp) => "C#"@,
        Some(LanguageId::Java) => "Java"@,
        Some(LanguageId::Kotlin) => "Kotlin"@,
        Some(LanguageId::Swift) => "Swift"@,
        Some(LanguageId::Ruby) => "Ruby"@,
        Some(LanguageId::Php) => "PHP"@,
        Some(LanguageId::Sql) => "SQL"@,
        Some(LanguageId::Lua) => "Lua"@,
        Some(LanguageId::Dockerfile) => "Dockerfile"@,
        Some(LanguageId::Nix) => "Nix"@,
        Some(LanguageId::Make) => "Make"@,
        None => "Plain Text"@,
    }
}

/// The label of a file's language.
pub fn language_label(language: Option<LanguageId>) -> (r: &'static str)
    ensures
        r@ == language_name(language),
{
    match language {
        Some(LanguageId::Rust) => "Rust",
        Some(LanguageId::JavaScript) => "JavaScript",
        Some(LanguageId::Jsx) => "JSX",
        Some(LanguageId::TypeScript) => "TypeScript",
        Some(LanguageId::Tsx) => "TSX",
        Some(LanguageId::Python) => "Python",
        Some(LanguageId::Go) => "Go",
        Some(LanguageId::Json) => "JSON",
        Some(LanguageId::Jsonc) => "JSONC",
        Some(LanguageId::Bash) => "Shell",
        Some(LanguageId::Toml) => "TOML",
        Some(LanguageId::Markdown) => "Markdown",
        Some(LanguageId::Html) => "HTML",
        Some(LanguageId::Css) => "CSS",
        Some(LanguageId::Yaml) => "YAML",
        Some(LanguageId::C) => "C",
        Some(LanguageId::Cpp) => "C++",
        Some(LanguageId::CSharp) => "C#",
        Some(LanguageId::Java) => "Java",
        Some(LanguageId::Kotlin) => "Kotlin",
        Some(LanguageId::Swift) => "Swift",
        Some(LanguageId::Ruby) => "Ruby",
        Some(LanguageId::Php) => "PHP",
        Some(LanguageId::Sql) => "SQL",
        Some(LanguageId::Lua) => "Lua",
        Some(LanguageId::Dockerfile) => "Dockerfile",
        Some(LanguageId::Nix) => "Nix",
        Some(LanguageId::Make) => "Make",
        None => "Plain Text",
    }
}

// ---------------------------------------------------------------------------
// Laws of the parts and labels
// ---------------------------------------------------------------------------

/// A text of nothing but path separators.
pub open spec fn all_separators(s: Seq<char>) -> bool {
    forall|i: int| 0 <= i < s.len() ==> #[trigger] s[i] == '/' || s[i] == '\\'
}

/// Splitting undoes joining with `/`: the name behind the last `/` and the folder in front of it
/// come back, whatever separators follow the name.
pub proof fn law_splitting_undoes_joining(dir: Seq<char>, name: Seq<char>, run: Seq<char>)
    requires
        name.len() > 0,
        name.last() != '\\',
        !name.contains('/'),
        all_separators(run),
    ensures
        display_parts(dir + seq!['/'] + name + run) == (Some(dir), name),
{
    let kept = dir + seq!['/'] + name;
    assert(name.contains(name.last()));
    text::lemma_drop_back_run(kept, run, separators());
    assert(kept.last() == name.last());
    text::law_last_index_finds_the_last(dir, name, '/');
    assert(kept.take(dir.len() as int) =~= dir);
    assert(kept.skip(dir.len() as int + 1) =~= name);
}

/// Splitting undoes joining with `\` where there is no `/`.
pub proof fn law_splitting_undoes_backslash_joining(
    dir: Seq<char>,
    name: Seq<char>,
    run: Seq<char>,
)
    requires
        name.len() > 0,
        !name.contains('/'),
        !name.contains('\\'),
        !dir.contains('/'),
        all_separators(run),
    ensures
        display_parts(dir + seq!['\\'] + name + run) == (Some(dir), name),
{
    let kept = dir + seq!['\\'] + name;
    assert(name.contains(name.last()));
    text::lemma_drop_back_run(kept, run, separators());
    assert(kept.last() == name.last());
    assert forall|i: int| 0 <= i < kept.len() implies kept[i] != '/' by {
        if i < dir.len() {
            assert(dir.contains(dir[i]));
        } else if i > dir.len() {
            assert(name.contains(name[i - dir.len() - 1]));
        }
    }
    text::lemma_last_index(kept, '/');
    text::law_last_index_finds_the_last(dir, name, '\\');
    assert(kept.take(dir.len() as int) =~= dir);
    assert(kept.skip(dir.len() as int + 1) =~= name);
}

/// A path without a separator, trailing ones aside, is all name.
pub proof fn law_bare_names_have_no_folder(name: Seq<char>, run: Seq<char>)
    requires
        !name.contains('/'),
        !name.contains('\\'),
        all_separators(run),
    ensures
        display_parts(name + run) == (None::<Seq<char>>, name),
{
    if name.len() > 0 {
        assert(name.contains(name.last()));
    }
    text::lemma_drop_back_run(name, run, separators());
    text::lemma_last_index(name, '/');
    text::lemma_last_index(name, '\\');
}

/// The gutter is the smallest width that is at least 44 pixels and holds the padding and the
/// digits, in half pixels.
pub proof fn law_gutters_are_just_wide_enough(digits: nat, width: nat)
    requires
        width >= 88,
        width >= 36 + 15 * digits,
    ensures
        88 <= gutter_width(digits) <= width,
        36 + 15 * digits <= gutter_width(digits),
{
}

/// A list of strings is modelled by the characters of each of its strings, in their order.
pub proof fn law_texts_keep_every_string(list: Seq<String>)
    ensures
        texts(list).len() == list.len(),
        forall|i: int| 0 <= i < list.len() ==> #[trigger] texts(list)[i] == list[i]@,
{
}

/// Every language goes by its own name.
pub proof fn law_languages_go_by_their_names()
    ensures
        language_name(Some(LanguageId::Rust)) == "Rust"@,
        language_name(Some(LanguageId::JavaScript)) == "JavaScript"@,
        language_name(Some(LanguageId::Jsx)) == "JSX"@,
        language_name(Some(LanguageId::TypeScript)) == "TypeScript"@,
        language_name(Some(LanguageId::Tsx)) == "TSX"@,
        language_name(Some(LanguageId::Python)) == "Python"@,
        language_name(Some(LanguageId::Go)) == "Go"@,
        language_name(Some(LanguageId::Json)) == "JSON"@,
        language_name(Some(LanguageId::Jsonc)) == "JSONC"@,
        language_name(Some(LanguageId::Bash)) == "Shell"@,
        language_name(Some(LanguageId::Toml)) == "TOML"@,
        language_name(Some(LanguageId::Markdown)) == "Markdown"@,
        language_name(Some(LanguageId::Html)) == "HTML"@,
        language_name(Some(LanguageId::Css)) == "CSS"@,
        language_name(Some(LanguageId::Yaml)) == "YAML"@,
        language_name(Some(LanguageId::C)) == "C"@,
        language_name(Some(LanguageId::Cpp)) == "C++"@,
        language_name(Some(LanguageId::CSharp)) == "C#"@,
        language_name(Some(LanguageId::Java)) == "Java"@,
        language_name(Some(LanguageId::Kotlin)) == "Kotlin"@,
        language_name(Some(LanguageId::Swift)) == "Swift"@,
        language_name(Some(LanguageId::Ruby)) == "Ruby"@,
        language_name(Some(LanguageId::Php)) == "PHP"@,
        language_name(Some(LanguageId::Sql)) == "SQL"@,
        language_name(Some(LanguageId::Lua)) == "Lua"@,
        language_name(Some(LanguageId::Dockerfile)) == "Dockerfile"@,
        language_name(Some(LanguageId::Nix)) == "Nix"@,
        language_name(Some(LanguageId::Make)) == "Make"@,
        language_name(None) == "Plain Text"@,
{
}

/// No two languages share a label, and none is labelled plain text.
pub proof fn law_labels_tell_languages_apart(a: Option<LanguageId>, b: Option<LanguageId>)
    requires
        language_name(a) == language_name(b),
    ensures
        a == b,
{
    reveal_strlit("Rust");
    reveal_strlit("JavaScript");
    reveal_strlit("JSX");
    reveal_strlit("TypeScript");
    reveal_strlit("TSX");
    reveal_strlit("Python");
    reveal_strlit("Go");
    reveal_strlit("JSON");
    reveal_strlit("JSONC");
    reveal_strlit("Shell");
    reveal_strlit("TOML");
    reveal_strlit("Markdown");
    reveal_strlit("HTML");
    reveal_strlit("CSS");
    reveal_strlit("YAML");
    reveal_strlit("C");
    reveal_strlit("C++");
    reveal_strlit("C#");
    reveal_strlit("Java");
    reveal_strlit("Kotlin");
    reveal_strlit("Swift");
    reveal_strlit("Ruby");
    reveal_strlit("PHP");
    reveal_strlit("SQL");
    reveal_strlit("Lua");
    reveal_strlit("Dockerfile");
    reveal_strlit("Nix");
    reveal_strlit("Make");
    reveal_strlit("Plain Text");
    let label = language_name(a);
    let other = language_name(b);
    assert(label.len() == other.len());
    assert(label[0] == other[0]);
    assert(label[1] == other[1]);
    assert(label[2] == other[2]);
}

} // verus!
