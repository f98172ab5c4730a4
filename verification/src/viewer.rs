//! Read-only preview of one workspace file: what a host's reply shows, and the viewer's state.
//!
//! The content always comes from the chat's host device. Markdown is shown as a reading preview,
//! other text as a read-only editor, and every refusal the host can express as a notice of its own.

use std::sync::Arc;

use vstd::prelude::*;

use crate::proto::{CallError, RpcError, WorkspaceFileContent, WorkspaceFileRead};
use crate::size;
use crate::text;

verus! {

/// What the body renders right now.
#[derive(Debug, Clone, PartialEq)]
pub enum ViewerBody {
    Loading,
    /// The source of a markdown document, shared so that a clone copies one pointer.
    Markdown(Arc<String>),
    Text(String),
    /// A deliberate non-content state: refusal, error, or empty file.
    Notice { title: String, detail: String },
}

/// What a body shows, as plain sequences of characters.
pub enum Shown {
    Loading,
    Markdown(Seq<char>),
    Text(Seq<char>),
    Notice { title: Seq<char>, detail: Seq<char> },
}

impl View for ViewerBody {
    type V = Shown;

    open spec fn view(&self) -> Shown {
        match *self {
            ViewerBody::Loading => Shown::Loading,
            ViewerBody::Markdown(source) => Shown::Markdown(source@),
            ViewerBody::Text(text) => Shown::Text(text@),
            ViewerBody::Notice { title, detail } => Shown::Notice {
                title: title@,
                detail: detail@,
            },
        }
    }
}

/// A notice with these texts.
fn notice(title: &str, detail: &str) -> (r: ViewerBody)
    ensures
        r@ == (Shown::Notice { title: title@, detail: detail@ }),
{
    ViewerBody::Notice { title: title.to_string(), detail: detail.to_string() }
}

/// A path whose extension is `md` or `markdown`, in any ASCII case.
pub open spec fn markdown_path(path: Seq<char>) -> bool {
    let dot = text::last_index(path, '.');
    let extension = text::ascii_folded(path.skip(dot + 1));
    dot >= 0 && (extension == "md"@ || extension == "markdown"@)
}

/// Whether a path names a markdown file.
pub fn is_markdown(path: &str) -> (r: bool)
    ensures
        r == markdown_path(path@),
{
    match text::split_at_last(path, '.') {
        Some((_, extension)) => {
            let folded = text::to_folded(extension);
            text::same_text(folded.as_str(), "md") || text::same_text(folded.as_str(), "markdown")
        },
        None => false,
    }
}

/// The explanation for a file of `byte_len` bytes under a preview limit of `limit` bytes.
pub open spec fn too_large_detail(byte_len: nat, limit: nat) -> Seq<char> {
    size::bytes_text(byte_len) + " exceeds the "@ + size::bytes_text(limit)
        + " preview limit, so nothing is shown rather than a partial file."@
}

/// What a host's answer about the file at `path` shows.
pub open spec fn content_shown(path: Seq<char>, content: WorkspaceFileContent) -> Shown {
    match content {
        WorkspaceFileContent::Text { text } => if text@.len() == 0 {
            Shown::Notice { title: "Empty file"@, detail: "This file has no content."@ }
        } else if markdown_path(path) {
            Shown::Markdown(text@)
        } else {
            Shown::Text(text@)
        },
        WorkspaceFileContent::NotFound => Shown::Notice {
            title: "File not found"@,
            detail: "It may have been moved or deleted since the message was written."@,
        },
        WorkspaceFileContent::OutsideWorkspace => Shown::Notice {
            title: "Outside this session's workspace"@,
            detail: "Only files inside the session's folder can be previewed."@,
        },
        WorkspaceFileContent::Directory => Shown::Notice {
            title: "That's a folder"@,
            detail: "The viewer opens files, not directories."@,
        },
        WorkspaceFileContent::NotPreviewable => Shown::Notice {
            title: "Can't preview this file"@,
            detail:
                "It appears to be binary or unsupported text, so there is nothing readable to show."@,
        },
        WorkspaceFileContent::TooLarge { byte_len, limit } => Shown::Notice {
            title: "File is too large to preview"@,
            detail: too_large_detail(byte_len as nat, limit as nat),
        },
        WorkspaceFileContent::PermissionDenied => Shown::Notice {
            title: "Permission denied"@,
            detail: "The session's device could not read this file."@,
        },
    }
}

/// Render form for one successful host reply.
pub fn body_for(path: &str, content: WorkspaceFileContent) -> (r: ViewerBody)
    ensures
        r@ == content_shown(path@, content),
        match content {
            WorkspaceFileContent::Text { text } => match r {
                ViewerBody::Markdown(source) => text@.len() > 0 && markdown_path(path@) && source@
                    == text@,
                ViewerBody::Text(source) => text@.len() > 0 && !markdown_path(path@) && source@
                    == text@,
                ViewerBody::Notice { .. } => text@.len() == 0,
                ViewerBody::Loading => false,
            },
            _ => r matches ViewerBody::Notice { title, detail } && title@.len() > 0
                && detail@.len() > 0,
        },
        r matches ViewerBody::Notice { title, detail } ==> match content {
            WorkspaceFileContent::Text { .. } => title@ == "Empty file"@ && detail@
                == "This file has no content."@,
            WorkspaceFileContent::NotFound => title@ == "File not found"@ && detail@
                == "It may have been moved or deleted since the message was written."@,
            WorkspaceFileContent::OutsideWorkspace => title@ == "Outside this session's workspace"@
                && detail@ == "Only files inside the session's folder can be previewed."@,
            WorkspaceFileContent::Directory => title@ == "That's a folder"@ && detail@
                == "The viewer opens files, not directories."@,
            WorkspaceFileContent::NotPreviewable => title@ == "Can't preview this file"@ && detail@
                == "It appears to be binary or unsupported text, so there is nothing readable to show."@,
            WorkspaceFileContent::TooLarge { byte_len, limit } => title@
                == "File is too large to preview"@ && detail@ == size::bytes_text(byte_len as nat)
                + " exceeds the "@ + size::bytes_text(limit as nat)
                + " preview limit, so nothing is shown rather than a partial file."@,
            WorkspaceFileContent::PermissionDenied => title@ == "Permission denied"@ && detail@
                == "The session's device could not read this file."@,
        },
{
    proof {
        law_notices_have_words(path@, content);
    }
    match content {
        WorkspaceFileContent::Text { text } => if text.as_str().is_empty() {
            notice("Empty file", "This file has no content.")
        } else if is_markdown(path) {
            ViewerBody::Markdown(Arc::new(text))
        } else {
            ViewerBody::Text(text)
        },
        WorkspaceFileContent::NotFound => notice(
            "File not found",
            "It may have been moved or deleted since the message was written.",
        ),
        WorkspaceFileContent::OutsideWorkspace => notice(
            "Outside this session's workspace",
            "Only files inside the session's folder can be previewed.",
        ),
        WorkspaceFileContent::Directory => notice(
            "That's a folder",
            "The viewer opens files, not directories.",
        ),
        WorkspaceFileContent::NotPreviewable => notice(
            "Can't preview this file",
            "It appears to be binary or unsupported text, so there is nothing readable to show.",
        ),
        WorkspaceFileContent::TooLarge { byte_len, limit } => {
            let mut detail = size::format_bytes(byte_len);
            detail.append(" exceeds the ");
            detail.append(size::format_bytes(limit).as_str());
            detail.append(" preview limit, so nothing is shown rather than a partial file.");
            ViewerBody::Notice { title: "File is too large to preview".to_string(), detail }
        },
        WorkspaceFileContent::PermissionDenied => notice(
            "Permission denied",
            "The session's device could not read this file.",
        ),
    }
}

/// The host does not know the method: it says so itself, or a relay passes its words on.
pub open spec fn version_skew(error: RpcError) -> bool {
    match error {
        RpcError::UnknownMethod(_) => true,
        RpcError::Failed(message) => text::has_part(message@, "unknown method"@),
        _ => false,
    }
}

/// What a failed call shows.
pub open spec fn failure_shown(failure: CallError) -> Shown {
    if version_skew(failure.error) {
        Shown::Notice {
            title: "This session's device runs an older zeron"@,
            detail: "Update that device to preview its files."@,
        }
    } else if failure.error.connection_lost() {
        Shown::Notice {
            title: "The session's device is unreachable"@,
            detail: "Reconnect to the host to preview its files."@,
        }
    } else {
        Shown::Notice { title: "Couldn't open this file"@, detail: failure.shown@ }
    }
}

/// A failed call as a notice. A host that does not know the method is an older one, and the answer
/// is to update that device, never to read the path locally.
pub fn rpc_notice(failure: &CallError) -> (r: ViewerBody)
    ensures
        r@ == failure_shown(*failure),
        r matches ViewerBody::Notice { title, detail } && if version_skew(failure.error) {
            title@ == "This session's device runs an older zeron"@ && detail@
                == "Update that device to preview its files."@
        } else if failure.error is Transport || failure.error is Closed {
            title@ == "The session's device is unreachable"@ && detail@
                == "Reconnect to the host to preview its files."@
        } else {
            title@ == "Couldn't open this file"@ && detail@ == failure.shown@
        },
{
    let unknown_method = match &failure.error {
        RpcError::UnknownMethod(_) => true,
        RpcError::Failed(message) => text::contains_text(message.as_str(), "unknown method"),
        _ => false,
    };
    if unknown_method {
        notice(
            "This session's device runs an older zeron",
            "Update that device to preview its files.",
        )
    } else if failure.error.is_connection_lost() {
        notice(
            "The session's device is unreachable",
            "Reconnect to the host to preview its files.",
        )
    } else {
        notice("Couldn't open this file", failure.shown.as_str())
    }
}

// ---------------------------------------------------------------------------
// Request and result
// ---------------------------------------------------------------------------

/// The viewer's request/result core. A monotonic request id makes a slow first response unable to
/// overwrite a later click, and the chat id scopes a result to the session that asked for it.
#[derive(Debug)]
pub struct ViewerCore {
    pub chat_id: String,
    /// Path as clicked, until the host resolves one.
    pub path: String,
    pub request: u64,
    pub body: ViewerBody,
}

/// What a core holds, as plain values.
pub struct CoreView {
    pub chat_id: Seq<char>,
    pub path: Seq<char>,
    pub request: u64,
    pub body: Shown,
}

impl View for ViewerCore {
    type V = CoreView;

    open spec fn view(&self) -> CoreView {
        CoreView {
            chat_id: self.chat_id@,
            path: self.path@,
            request: self.request,
            body: self.body@,
        }
    }
}

impl CoreView {
    /// The core after a response to `request`. A response to any other request than its own
    /// changes nothing; its own brings the path that the host resolved and what the answer shows,
    /// or, of a failure, what the failure shows.
    pub open spec fn applied(
        self,
        request: u64,
        outcome: Result<WorkspaceFileRead, CallError>,
    ) -> CoreView {
        if request != self.request {
            self
        } else {
            match outcome {
                Ok(read) => CoreView {
                    path: read.path@,
                    body: content_shown(read.path@, read.content),
                    ..self
                },
                Err(failure) => CoreView { body: failure_shown(failure), ..self },
            }
        }
    }
}

impl ViewerCore {
    /// A request that waits for its reply.
    pub fn new(chat_id: String, path: String, request: u64) -> (r: ViewerCore)
        ensures
            r@ == (CoreView { chat_id: chat_id@, path: path@, request, body: Shown::Loading }),
            r.chat_id@ == chat_id@,
            r.path@ == path@,
            r.request == request,
            r.body is Loading,
    {
        ViewerCore { chat_id, path, request, body: ViewerBody::Loading }
    }

    /// Applies a response, or ignores it as stale. Stale means a newer click has already replaced
    /// the request: the newest file wins whichever response lands first.
    pub fn apply(
        &mut self,
        request: u64,
        outcome: Result<WorkspaceFileRead, CallError>,
    ) -> (r: bool)
        ensures
            r == (request == old(self).request),
            final(self)@ == old(self)@.applied(request, outcome),
            !r ==> *final(self) == *old(self),
            final(self).chat_id@ == old(self).chat_id@,
            final(self).request == old(self).request,
            r ==> match outcome {
                Ok(read) => final(self).path@ == read.path@ && final(self).body@ == content_shown(
                    read.path@,
                    read.content,
                ),
                Err(failure) => final(self).path@ == old(self).path@ && final(self).body@
                    == failure_shown(failure),
            },
            r ==> match (outcome, final(self).body) {
                (Ok(read), ViewerBody::Markdown(source)) => {
                    &&& markdown_path(read.path@)
                    &&& read.content matches WorkspaceFileContent::Text { text }
                    &&& source@ == text@
                },
                (Ok(read), ViewerBody::Text(source)) => {
                    &&& !markdown_path(read.path@)
                    &&& read.content matches WorkspaceFileContent::Text { text }
                    &&& source@ == text@
                },
                (Ok(read), ViewerBody::Notice { .. }) => read.content matches
                    WorkspaceFileContent::Text { text } ==> text@.len() == 0,
                (Ok(_), ViewerBody::Loading) => false,
                (Err(_), body) => body is Notice,
            },
    {
        if request != self.request {
            return false;
        }
        match outcome {
            Ok(read) => {
                self.body = body_for(read.path.as_str(), read.content);
                self.path = read.path;
            },
            Err(failure) => {
                self.body = rpc_notice(&failure);
            },
        }
        true
    }
}

// ---------------------------------------------------------------------------
// Laws
// ---------------------------------------------------------------------------

/// The title of what a notice shows.
pub open spec fn title_of(shown: Shown) -> Option<Seq<char>> {
    match shown {
        Shown::Notice { title, .. } => Some(title),
        _ => None,
    }
}

/// Two answers of the host are of the same kind.
pub open spec fn same_kind(a: WorkspaceFileContent, b: WorkspaceFileContent) -> bool {
    ||| a is Text && b is Text
    ||| a is NotFound && b is NotFound
    ||| a is OutsideWorkspace && b is OutsideWorkspace
    ||| a is Directory && b is Directory
    ||| a is NotPreviewable && b is NotPreviewable
    ||| a is TooLarge && b is TooLarge
    ||| a is PermissionDenied && b is PermissionDenied
}

/// Every refusal shows a notice, and refusals of two kinds never share a title, nor does an empty
/// file share one with a refusal.
pub proof fn law_every_refusal_has_its_own_notice(
    path_a: Seq<char>,
    a: WorkspaceFileContent,
    path_b: Seq<char>,
    b: WorkspaceFileContent,
)
    ensures
        a !is Text ==> content_shown(path_a, a) is Notice,
        content_shown(path_a, a) is Notice && content_shown(path_b, b) is Notice && title_of(
            content_shown(path_a, a),
        ) == title_of(content_shown(path_b, b)) ==> same_kind(a, b),
{
    reveal_strlit("Empty file");
    reveal_strlit("File not found");
    reveal_strlit("Outside this session's workspace");
    reveal_strlit("That's a folder");
    reveal_strlit("Can't preview this file");
    reveal_strlit("File is too large to preview");
    reveal_strlit("Permission denied");
    assert("Empty file"@.len() == 10);
    assert("File not found"@.len() == 14);
    assert("Outside this session's workspace"@.len() == 32);
    assert("That's a folder"@.len() == 15);
    assert("Can't preview this file"@.len() == 23);
    assert("File is too large to preview"@.len() == 28);
    assert("Permission denied"@.len() == 17);
}

/// Version skew, a lost connection and any other failure never share a title, and none of them
/// shares one with an answer of the host.
pub proof fn law_failures_read_differently(
    a: CallError,
    b: CallError,
    path: Seq<char>,
    content: WorkspaceFileContent,
)
    ensures
        title_of(failure_shown(a)) is Some,
        title_of(failure_shown(a)) == title_of(failure_shown(b)) ==> version_skew(a.error)
            == version_skew(b.error),
        title_of(failure_shown(a)) == title_of(failure_shown(b)) && !version_skew(a.error)
            ==> a.error.connection_lost() == b.error.connection_lost(),
        title_of(failure_shown(a)) != title_of(content_shown(path, content)),
{
    reveal_strlit("This session's device runs an older zeron");
    reveal_strlit("The session's device is unreachable");
    reveal_strlit("Couldn't open this file");
    reveal_strlit("Empty file");
    reveal_strlit("File not found");
    reveal_strlit("Outside this session's workspace");
    reveal_strlit("That's a folder");
    reveal_strlit("Can't preview this file");
    reveal_strlit("File is too large to preview");
    reveal_strlit("Permission denied");
    assert("This session's device runs an older zeron"@.len() == 41);
    assert("The session's device is unreachable"@.len() == 35);
    assert("Couldn't open this file"@.len() == 23);
    assert("Couldn't open this file"@[1] == 'o');
    assert("Can't preview this file"@[1] == 'a');
}

/// The explanation of a size refusal names the file's size and the limit, and says that nothing is
/// shown rather than a partial file.
pub proof fn law_size_refusal_says_what_is_missing(byte_len: nat, limit: nat)
    ensures
        text::has_part(too_large_detail(byte_len, limit), size::bytes_text(byte_len)),
        text::has_part(too_large_detail(byte_len, limit), size::bytes_text(limit)),
        text::has_part(too_large_detail(byte_len, limit), "rather than a partial file"@),
{
    let detail = too_large_detail(byte_len, limit);
    let size = size::bytes_text(byte_len);
    let bound = size::bytes_text(limit);
    let middle = " exceeds the "@;
    let tail = " preview limit, so nothing is shown rather than a partial file."@;
    reveal_strlit(" preview limit, so nothing is shown rather than a partial file.");
    reveal_strlit("rather than a partial file");
    let part = "rather than a partial file"@;
    assert(detail.subrange(0, size.len() as int) =~= size);
    assert(text::occurs_at(detail, size, 0));
    let at = (size.len() + middle.len()) as int;
    assert(detail.subrange(at, at + bound.len()) =~= bound);
    assert(text::occurs_at(detail, bound, at));
    let start = at + bound.len();
    assert(detail.skip(start) =~= tail);
    assert(tail.subrange(36, 36 + part.len() as int) =~= part);
    assert(detail.subrange(start + 36, start + 36 + part.len()) =~= part);
    assert(text::occurs_at(detail, part, start + 36));
}

/// The newest request wins whichever response lands first: a response to another request changes
/// nothing, before the newest one's response and after it.
pub proof fn law_newest_request_wins(
    core: CoreView,
    outcome: Result<WorkspaceFileRead, CallError>,
    stale: u64,
    stale_outcome: Result<WorkspaceFileRead, CallError>,
)
    requires
        stale != core.request,
    ensures
        core.applied(stale, stale_outcome) == core,
        core.applied(stale, stale_outcome).applied(core.request, outcome) == core.applied(
            core.request,
            outcome,
        ),
        core.applied(core.request, outcome).applied(stale, stale_outcome) == core.applied(
            core.request,
            outcome,
        ),
{
}

/// Exactly a small letter and its capital fold to the small letter.
proof fn lemma_folds_to(c: char, small: char, capital: char)
    requires
        'a' <= small <= 'z',
        small as u32 == capital as u32 + 32,
    ensures
        text::ascii_lower(c) == small <==> c == small || c == capital,
{
}

/// The path's extension, what is behind its last `.`, makes it markdown exactly where it reads `md`
/// or `markdown` with each letter in either case; a path without `.` is not markdown.
pub proof fn law_markdown_goes_by_the_extension(stem: Seq<char>, extension: Seq<char>)
    requires
        !extension.contains('.'),
    ensures
        !markdown_path(extension),
        markdown_path(stem + seq!['.'] + extension) <==> {
            ||| {
                &&& extension.len() == 2
                &&& (extension[0] == 'm' || extension[0] == 'M')
                &&& (extension[1] == 'd' || extension[1] == 'D')
            }
            ||| {
                &&& extension.len() == 8
                &&& (extension[0] == 'm' || extension[0] == 'M')
                &&& (extension[1] == 'a' || extension[1] == 'A')
                &&& (extension[2] == 'r' || extension[2] == 'R')
                &&& (extension[3] == 'k' || extension[3] == 'K')
                &&& (extension[4] == 'd' || extension[4] == 'D')
                &&& (extension[5] == 'o' || extension[5] == 'O')
                &&& (extension[6] == 'w' || extension[6] == 'W')
                &&& (extension[7] == 'n' || extension[7] == 'N')
            }
        },
{
    reveal_strlit("md");
    reveal_strlit("markdown");
    text::law_last_index_finds_the_last(stem, extension, '.');
    let path = stem + seq!['.'] + extension;
    assert(path.skip(stem.len() as int + 1) =~= extension);
    let folded = text::ascii_folded(extension);
    let (short, long) = ("md"@, "markdown"@);
    assert(markdown_path(path) <==> folded == short || folded == long);
    assert(short.len() == 2 && long.len() == 8 && folded.len() == extension.len());
    assert(forall|i: int|
        0 <= i < folded.len() ==> #[trigger] folded[i] == text::ascii_lower(extension[i]));
    if extension.len() == 2 {
        lemma_folds_to(extension[0], 'm', 'M');
        lemma_folds_to(extension[1], 'd', 'D');
        assert(folded == short <==> folded[0] == 'm' && folded[1] == 'd') by {
            if folded[0] == 'm' && folded[1] == 'd' {
                assert(folded =~= short);
            }
        }
    }
    if extension.len() == 8 {
        lemma_folds_to(extension[0], 'm', 'M');
        lemma_folds_to(extension[1], 'a', 'A');
        lemma_folds_to(extension[2], 'r', 'R');
        lemma_folds_to(extension[3], 'k', 'K');
        lemma_folds_to(extension[4], 'd', 'D');
        lemma_folds_to(extension[5], 'o', 'O');
        lemma_folds_to(extension[6], 'w', 'W');
        lemma_folds_to(extension[7], 'n', 'N');
        let spelled = folded[0] == 'm' && folded[1] == 'a' && folded[2] == 'r' && folded[3] == 'k'
            && folded[4] == 'd' && folded[5] == 'o' && folded[6] == 'w' && folded[7] == 'n';
        assert(folded == long <==> spelled) by {
            if spelled {
                assert(folded =~= long);
            }
        }
    }
}

/// A text that is not empty is shown whole, as the host sent it: as markdown exactly where the path
/// names a markdown file, as source text otherwise, and never as a notice.
pub proof fn law_texts_are_shown_whole(path: Seq<char>, content: WorkspaceFileContent)
    requires
        content matches WorkspaceFileContent::Text { text } && text@.len() > 0,
    ensures
        content matches WorkspaceFileContent::Text { text } && match content_shown(path, content) {
            Shown::Markdown(source) => markdown_path(path) && source == text@,
            Shown::Text(source) => !markdown_path(path) && source == text@,
            _ => false,
        },
{
}

/// What a refusal shows, and what an empty file shows, does not depend on the path.
pub proof fn law_refusals_do_not_depend_on_the_path(
    path: Seq<char>,
    other: Seq<char>,
    content: WorkspaceFileContent,
)
    requires
        content matches WorkspaceFileContent::Text { text } ==> text@.len() == 0,
    ensures
        content_shown(path, content) == content_shown(other, content),
        content_shown(path, content) is Notice,
{
}

/// What is neither a text nor an empty file is put into words.
pub proof fn law_notices_have_words(path: Seq<char>, content: WorkspaceFileContent)
    ensures
        content_shown(path, content) matches Shown::Notice { title, detail } ==> title.len() > 0
            && detail.len() > 0,
{
    reveal_strlit("Empty file");
    reveal_strlit("This file has no content.");
    reveal_strlit("File not found");
    reveal_strlit("It may have been moved or deleted since the message was written.");
    reveal_strlit("Outside this session's workspace");
    reveal_strlit("Only files inside the session's folder can be previewed.");
    reveal_strlit("That's a folder");
    reveal_strlit("The viewer opens files, not directories.");
    reveal_strlit("Can't preview this file");
    reveal_strlit(
        "It appears to be binary or unsupported text, so there is nothing readable to show.",
    );
    reveal_strlit("File is too large to preview");
    reveal_strlit(" exceeds the ");
    reveal_strlit("Permission denied");
    reveal_strlit("The session's device could not read this file.");
}

/// The explanations of two size refusals differ in the two sizes alone: each is the file's size,
/// words, the limit, and words, and the words are the same.
pub proof fn law_size_refusals_differ_in_the_sizes(
    byte_len: nat,
    limit: nat,
    other_len: nat,
    other_limit: nat,
) -> (r: (Seq<char>, Seq<char>))
    ensures
        too_large_detail(byte_len, limit) == size::bytes_text(byte_len) + r.0 + size::bytes_text(
            limit,
        ) + r.1,
        too_large_detail(other_len, other_limit) == size::bytes_text(other_len) + r.0
            + size::bytes_text(other_limit) + r.1,
{
    (" exceeds the "@, " preview limit, so nothing is shown rather than a partial file."@)
}

/// The sizes that a size refusal explains are those of the host's answer, for every path.
pub proof fn law_size_refusals_explain_their_sizes(path: Seq<char>, byte_len: u64, limit: u64)
    ensures
        content_shown(path, WorkspaceFileContent::TooLarge { byte_len, limit }) matches Shown::Notice {
            detail,
            ..
        } && detail == too_large_detail(byte_len as nat, limit as nat),
{
}

/// A failure is version skew exactly where the host says that it does not know the method, in its
/// own error or anywhere in the words of a failed call.
pub proof fn law_version_skew_goes_by_the_words(error: RpcError)
    ensures
        version_skew(error) <==> error is UnknownMethod || (error matches RpcError::Failed(message)
            && exists|front: Seq<char>, back: Seq<char>|
            message@ == #[trigger] (front + "unknown method"@ + back)),
{
    if let RpcError::Failed(message) = error {
        text::law_parts_stand_between(message@, "unknown method"@);
    }
}

/// All version skew shows one notice, and so do all lost connections, whatever the details of the
/// failure.
pub proof fn law_failures_of_a_kind_read_alike(a: CallError, b: CallError)
    ensures
        version_skew(a.error) && version_skew(b.error) ==> failure_shown(a) == failure_shown(b),
        (a.error is Transport || a.error is Closed) && (b.error is Transport || b.error is Closed)
            ==> failure_shown(a) == failure_shown(b),
{
}

/// Any other failure is explained by its own text, whole, under one title.
pub proof fn law_other_failures_show_their_text(a: CallError, b: CallError)
    requires
        a.error is Failed || a.error is BadParams,
        b.error is Failed || b.error is BadParams,
        !version_skew(a.error),
        !version_skew(b.error),
    ensures
        failure_shown(a) matches Shown::Notice { detail, .. } && detail == a.shown@,
        title_of(failure_shown(a)) == title_of(failure_shown(b)),
{
}

/// A reply brings the host's path and what its content shows; a failure keeps the path as clicked.
/// Neither changes the chat or the request.
pub proof fn law_replies_bring_path_and_body(
    core: CoreView,
    outcome: Result<WorkspaceFileRead, CallError>,
)
    ensures
        ({
            let after = core.applied(core.request, outcome);
            &&& after.chat_id == core.chat_id
            &&& after.request == core.request
            &&& match outcome {
                Ok(read) => after.path == read.path@ && after.body == content_shown(
                    read.path@,
                    read.content,
                ),
                Err(failure) => after.path == core.path && after.body == failure_shown(failure),
            }
        }),
{
}

/// A body shows what it holds, whole.
pub proof fn law_bodies_show_what_they_hold(body: ViewerBody)
    ensures
        match (body, body@) {
            (ViewerBody::Loading, Shown::Loading) => true,
            (ViewerBody::Markdown(source), Shown::Markdown(shown)) => shown == source@,
            (ViewerBody::Text(source), Shown::Text(shown)) => shown == source@,
            (
                ViewerBody::Notice { title: heading, detail: words },
                Shown::Notice { title, detail },
            ) => title == heading@ && detail == words@,
            _ => false,
        },
{
}

} // verus!
