//! What the viewer panel shows: its header, its body, and one editor row at a time.

use vstd::prelude::*;

use crate::display;
use crate::display::LanguageId;
use crate::file_viewer::FileViewer;
use crate::size;
use crate::viewer::{Shown, ViewerBody};

verus! {

/// The header: the file's folder and name, and the chips behind them.
#[derive(Debug, PartialEq, Eq)]
pub struct HeaderPane {
    pub dir: Option<String>,
    pub name: String,
    pub chips: Vec<String>,
}

/// The body, by what is open.
#[derive(Debug, PartialEq, Eq)]
pub enum BodyPane<'a> {
    /// A spinner while the response is awaited.
    Spinner,
    /// A markdown document; the key names its selectable text.
    Article { source: &'a str, key: String },
    /// The editor rows, shown one by one.
    Editor { rows: usize },
    Notice { title: &'a str, detail: &'a str },
}

/// One row of the editor list.
#[derive(Debug, PartialEq, Eq)]
pub enum EditorRow<'a, S> {
    /// There is no editor.
    Nothing,
    /// The spacer below the last line.
    Spacer,
    /// A source line: its number, its text, its highlighting where there is one, and the key under
    /// which the text can be selected, unless the line is empty.
    Line {
        number: String,
        text: &'a str,
        spans: Option<&'a Vec<S>>,
        selection: Option<String>,
    },
}

/// The whole panel.
#[derive(Debug, PartialEq, Eq)]
pub struct ViewerPane<'a> {
    pub header: HeaderPane,
    /// The body is laid out as an article, in a column of its own.
    pub article: bool,
    pub body: BodyPane<'a>,
}

/// The chip that tells how many lines a source text has.
pub open spec fn line_count_chip(lines: nat) -> Seq<char> {
    if lines == 1 {
        "1 line"@
    } else {
        size::decimal(lines) + " lines"@
    }
}

/// The chips of the header: what kind of file it is, where that is known; the line count of a
/// source text; and that the viewer is read-only.
pub open spec fn header_chips(
    body: Shown,
    language: Option<LanguageId>,
    lines: Option<nat>,
) -> Seq<Seq<char>> {
    let kind = match body {
        Shown::Markdown(_) => seq!["Markdown"@],
        Shown::Text(_) => seq![display::language_name(language)],
        Shown::Loading | Shown::Notice { .. } => seq![],
    };
    let count = match lines {
        Some(lines) => seq![line_count_chip(lines)],
        None => seq![],
    };
    kind + count + seq!["Read-only"@]
}

/// The key of a markdown document's text: one for each request.
pub open spec fn article_key(request: u64) -> Seq<char> {
    "file-viewer-"@ + size::decimal(request as nat)
}

/// The key of an editor row's text: one for each request and row.
pub open spec fn row_key(request: u64, row: nat) -> Seq<char> {
    "file-viewer-"@ + size::decimal(request as nat) + ":"@ + size::decimal(row)
}

impl HeaderPane {
    /// The header shows this path, body, language and line count.
    pub open spec fn shows(
        self,
        path: Seq<char>,
        body: Shown,
        language: Option<LanguageId>,
        lines: Option<nat>,
    ) -> bool {
        &&& crate::text::optional(self.dir) == display::display_parts(path).0
        &&& self.name@ == display::display_parts(path).1
        &&& display::texts(self.chips@) == header_chips(body, language, lines)
    }
}

impl<'a> BodyPane<'a> {
    /// The pane shows this body of this request, in a list of so many rows where it has rows.
    pub open spec fn shows(self, body: Shown, request: u64, list_rows: usize) -> bool {
        match body {
            Shown::Loading => self is Spinner,
            Shown::Markdown(text) => {
                &&& self matches BodyPane::Article { source, key }
                &&& source@ == text
                &&& key@ == article_key(request)
            },
            Shown::Text(_) => self matches BodyPane::Editor { rows } && rows == list_rows,
            Shown::Notice { title: heading, detail: explanation } => {
                &&& self matches BodyPane::Notice { title, detail }
                &&& title@ == heading
                &&& detail@ == explanation
            },
        }
    }
}

impl<'a> BodyPane<'a> {
    /// The pane holds what a body holds, whole: a document's source under its request's key, the
    /// list of a source text, the two texts of a notice, or a spinner while it is awaited.
    pub open spec fn paints(self, body: ViewerBody, request: u64, list_rows: usize) -> bool {
        match (body, self) {
            (ViewerBody::Loading, BodyPane::Spinner) => true,
            (ViewerBody::Markdown(text), BodyPane::Article { source, key }) => source@ == text@
                && key@ == article_key(request),
            (ViewerBody::Text(_), BodyPane::Editor { rows }) => rows == list_rows,
            (
                ViewerBody::Notice { title: heading, detail: words },
                BodyPane::Notice { title, detail },
            ) => title@ == heading@ && detail@ == words@,
            _ => false,
        }
    }
}

impl<S> FileViewer<S> {
    /// How many editor rows there are, where there is an editor.
    pub open spec fn line_count(self) -> Option<nat> {
        match self@.editor {
            Some(editor) => Some(editor.lines.len()),
            None => None,
        }
    }

    /// The header for a path and a body.
    pub fn render_header(
        &self,
        path: &str,
        body: &ViewerBody,
        language: Option<LanguageId>,
    ) -> (r: HeaderPane)
        ensures
            r.shows(path@, body@, language, self.line_count()),
            crate::text::optional(r.dir) == display::display_parts(path@).0,
            r.name@ == display::display_parts(path@).1,
            display::texts(r.chips@) == header_chips(
                body@,
                language,
                match self.editor {
                    Some(buffer) => Some(buffer.lines@.len()),
                    None => None,
                },
            ),
            r.chips@.last()@ == "Read-only"@,
            body is Markdown ==> r.chips@[0]@ == "Markdown"@,
            body is Text ==> r.chips@[0]@ == display::language_name(language),
            r.chips@.len() == 1 + (if body is Markdown || body is Text {
                1int
            } else {
                0
            }) + (if self.editor is Some {
                1int
            } else {
                0
            }),
    {
        let (dir, name) = display::split_display_path(path);
        let mut chips: Vec<String> = Vec::new();
        match body {
            ViewerBody::Markdown(_) => chips.push("Markdown".to_string()),
            ViewerBody::Text(_) => chips.push(display::language_label(language).to_string()),
            ViewerBody::Loading | ViewerBody::Notice { .. } => {},
        }
        if let Some(buffer) = &self.editor {
            let count: usize = buffer.lines.len();
            if count == 1 {
                chips.push("1 line".to_string());
            } else {
                let mut chip = size::decimal_text(count as u64);
                chip.append(" lines");
                chips.push(chip);
            }
        }
        chips.push("Read-only".to_string());
        assert(display::texts(chips@) =~= header_chips(body@, language, self.line_count()));
        proof {
            let shown = display::texts(chips@);
            assert(shown.len() == chips@.len());
            assert(shown[0] == chips@[0]@);
            assert(shown.last() == chips@.last()@);
        }
        let dir = match dir {
            Some(dir) => Some(dir.to_string()),
            None => None,
        };
        HeaderPane { dir, name: name.to_string(), chips }
    }

    /// The body for a request.
    pub fn render_body<'a>(&self, body: &'a ViewerBody, request: u64) -> (r: BodyPane<'a>)
        ensures
            r.shows(body@, request, self.rows),
            r.paints(*body, request, self.rows),
    {
        match body {
            ViewerBody::Loading => BodyPane::Spinner,
            ViewerBody::Markdown(source) => {
                let mut key = "file-viewer-".to_string();
                key.append(size::decimal_text(request).as_str());
                BodyPane::Article { source: source.as_str(), key }
            },
            ViewerBody::Text(_) => BodyPane::Editor { rows: self.rows },
            ViewerBody::Notice { title, detail } => BodyPane::Notice {
                title: title.as_str(),
                detail: detail.as_str(),
            },
        }
    }

    /// One row of the editor list.
    pub fn render_editor_row<'a>(&'a self, row: usize) -> (r: EditorRow<'a, S>)
        ensures
            match self.editor {
                None => r is Nothing,
                Some(buffer) => if row >= buffer.lines@.len() {
                    r is Spacer
                } else {
                    &&& r matches EditorRow::Line { number, text, spans, selection }
                    &&& number@ == size::decimal(row as nat + 1)
                    &&& text@ == buffer.lines@[row as int]@
                    &&& match buffer.highlight {
                        Some(document) => if row < document.lines@.len() {
                            spans == Some(&document.lines@[row as int])
                        } else {
                            spans is None
                        },
                        None => spans is None,
                    }
                    &&& crate::text::optional(selection) == if text@.len() == 0 {
                        None
                    } else {
                        Some(row_key(buffer.request, row as nat))
                    }
                },
            },
    {
        let buffer = match &self.editor {
            Some(buffer) => buffer,
            None => return EditorRow::Nothing,
        };
        if row >= buffer.lines.len() {
            return EditorRow::Spacer;
        }
        let text = buffer.lines[row].as_str();
        let spans = match &buffer.highlight {
            Some(document) => if row < document.lines.len() {
                Some(&document.lines[row])
            } else {
                None
            },
            None => None,
        };
        let selection = if text.is_empty() {
            None
        } else {
            let mut key = "file-viewer-".to_string();
            key.append(size::decimal_text(buffer.request).as_str());
            key.append(":");
            key.append(size::decimal_text(row as u64).as_str());
            Some(key)
        };
        EditorRow::Line { number: size::decimal_text(row as u64 + 1), text, spans, selection }
    }

    /// The whole panel, while a file is open.
    pub fn render<'a>(&'a self, language: Option<LanguageId>) -> (r: Option<ViewerPane<'a>>)
        ensures
            match self@.open {
                None => r is None,
                Some(core) => {
                    &&& r matches Some(pane)
                    &&& pane.header.shows(core.path, core.body, language, self.line_count())
                    &&& pane.article == (core.body is Markdown)
                    &&& pane.body.shows(core.body, core.request, self.rows)
                },
            },
            match self.open {
                None => r is None,
                Some(core) => {
                    &&& r matches Some(pane)
                    &&& pane.body.paints(core.body, core.request, self.rows)
                    &&& pane.article == (core.body is Markdown)
                    &&& crate::text::optional(pane.header.dir) == display::display_parts(
                        core.path@,
                    ).0
                    &&& pane.header.name@ == display::display_parts(core.path@).1
                    &&& display::texts(pane.header.chips@) == header_chips(
                        core.body@,
                        language,
                        match self.editor {
                            Some(buffer) => Some(buffer.lines@.len()),
                            None => None,
                        },
                    )
                },
            },
    {
        match &self.open {
            Some(core) => {
                let header = self.render_header(core.path.as_str(), &core.body, language);
                let article = matches!(core.body, ViewerBody::Markdown(_));
                let body = self.render_body(&core.body, core.request);
                Some(ViewerPane { header, article, body })
            },
            None => None,
        }
    }
}

// ---------------------------------------------------------------------------
// Laws
// ---------------------------------------------------------------------------

/// No two texts share a selection key: neither two rows of one file, nor rows or documents of two
/// requests, nor a row and a document.
pub proof fn law_selection_keys_are_unique(request_a: u64, row_a: nat, request_b: u64, row_b: nat)
    ensures
        row_key(request_a, row_a) == row_key(request_b, row_b) ==> request_a == request_b && row_a
            == row_b,
        article_key(request_a) == article_key(request_b) ==> request_a == request_b,
        row_key(request_a, row_a) != article_key(request_b),
{
    reveal_strlit(":");
    let prefix = "file-viewer-"@;
    let n = prefix.len() as int;
    let (a, b) = (size::decimal(request_a as nat), size::decimal(request_b as nat));
    let (i, j) = (size::decimal(row_a), size::decimal(row_b));
    let (ka, kb) = (row_key(request_a, row_a), row_key(request_b, row_b));
    size::lemma_decimal_digits(request_a as nat);
    size::lemma_decimal_digits(request_b as nat);
    assert(ka.skip(n) =~= a + ":"@ + i);
    assert(kb.skip(n) =~= b + ":"@ + j);
    assert(article_key(request_a).skip(n) =~= a);
    assert(article_key(request_b).skip(n) =~= b);
    // The first `:` behind the prefix stands right behind the request.
    crate::text::lemma_first_index_is(ka.skip(n), ':', a.len() as int);
    crate::text::lemma_first_index_is(kb.skip(n), ':', b.len() as int);
    crate::text::lemma_first_index_is(b, ':', b.len() as int);
    if ka == kb {
        assert(ka.skip(n).take(a.len() as int) =~= a);
        assert(kb.skip(n).take(b.len() as int) =~= b);
        assert(ka.skip(n).skip(a.len() as int + 1) =~= i);
        assert(kb.skip(n).skip(b.len() as int + 1) =~= j);
        size::law_decimal_texts_tell_numbers_apart(request_a as nat, request_b as nat);
        size::law_decimal_texts_tell_numbers_apart(row_a, row_b);
    }
    if article_key(request_a) == article_key(request_b) {
        size::law_decimal_texts_tell_numbers_apart(request_a as nat, request_b as nat);
    }
}

/// The header says "Read-only" last and always, the line count in front of it exactly where there
/// are editor rows, and the kind of file first exactly where a file is shown: "Markdown", or the
/// name of the language.
pub proof fn law_header_chips_stand_in_order(
    body: Shown,
    language: Option<LanguageId>,
    lines: Option<nat>,
)
    ensures
        ({
            let chips = header_chips(body, language, lines);
            let kinds: int = if body is Markdown || body is Text {
                1
            } else {
                0
            };
            let counts: int = if lines is Some {
                1
            } else {
                0
            };
            &&& chips.len() == kinds + counts + 1
            &&& chips.last() == "Read-only"@
            &&& lines matches Some(n) ==> chips[kinds] == line_count_chip(n)
            &&& body is Markdown ==> chips[0] == "Markdown"@
            &&& body is Text ==> chips[0] == display::language_name(language)
        }),
{
}

/// The line count chip says the number of lines in digits, "line" for one and "lines" for any other
/// number.
pub proof fn law_line_counts_are_told(lines: nat)
    ensures
        lines == 1 ==> line_count_chip(lines) == "1 line"@,
        lines != 1 ==> exists|digits: Seq<char>|
            line_count_chip(lines) == #[trigger] (digits + " lines"@) && size::number_of(digits)
                == lines && digits == size::decimal(lines),
{
    size::law_decimal_texts_stand_for_their_numbers(lines);
    if lines != 1 {
        assert(line_count_chip(lines) == size::decimal(lines) + " lines"@);
    }
}

/// A document's key names its request, and a row's key its request and its row, in digits, behind
/// the same words.
pub proof fn law_selection_keys_name_what_they_stand_for(request: u64, row: nat)
    ensures
        exists|digits: Seq<char>|
            article_key(request) == #[trigger] ("file-viewer-"@ + digits) && size::number_of(digits)
                == request && digits == size::decimal(request as nat),
        exists|digits: Seq<char>|
            row_key(request, row) == #[trigger] (article_key(request) + ":"@ + digits)
                && size::number_of(digits) == row && digits == size::decimal(row),
{
    size::law_decimal_texts_stand_for_their_numbers(request as nat);
    size::law_decimal_texts_stand_for_their_numbers(row);
    assert(article_key(request) == "file-viewer-"@ + size::decimal(request as nat));
    assert(row_key(request, row) == article_key(request) + ":"@ + size::decimal(row));
}

} // verus!
