//! Classification of markdown link targets: what opens in the viewer and what the platform gets.

use vstd::prelude::*;

use crate::percent;
use crate::text;

verus! {

/// The scheme that marks a percent-encoded workspace path; a trailing `/` marks a folder.
pub const FILE_MENTION_SCHEME: &'static str = "zeron-file:";

/// What a clicked markdown link target means.
#[derive(Debug, Clone, PartialEq, Eq)]
pub enum LinkTarget {
    /// Open in the viewer: a checkout-relative path, or an absolute one the host still has to
    /// prove is inside the checkout.
    WorkspacePath(String),
    /// Hand to the platform: `http(s)`, `mailto`, anything else carrying an explicit scheme.
    External,
}

/// A link target modelled as the workspace path it opens, or `None` where it is external.
impl View for LinkTarget {
    type V = Option<Seq<char>>;

    open spec fn view(&self) -> Option<Seq<char>> {
        match *self {
            LinkTarget::WorkspacePath(path) => Some(path@),
            LinkTarget::External => None,
        }
    }
}

/// The predicate of the path separator `/`.
pub open spec fn slashes() -> spec_fn(char) -> bool {
    text::either('/', '/')
}

/// The path that a decoded target opens: the target without its trailing slashes, unless nothing
/// is left.
pub open spec fn opened_path(path: Seq<char>) -> Option<Seq<char>> {
    let kept = text::drop_back_while(path, slashes());
    if kept.len() == 0 {
        None
    } else {
        Some(kept)
    }
}

/// An absolute Windows drive path: `C:\...` or `C:/...`.
pub open spec fn windows_drive_path(target: Seq<char>) -> bool {
    &&& target.len() >= 3
    &&& text::ascii_letter(target[0])
    &&& target[1] == ':'
    &&& (target[2] == '/' || target[2] == '\\')
}

/// A character that may stand in a URI scheme.
pub open spec fn scheme_char(c: char) -> bool {
    text::ascii_letter(c) || text::ascii_digit(c) || c == '+' || c == '-' || c == '.'
}

/// A URI scheme: an ASCII letter, then letters, digits, `+`, `-` and `.`.
pub open spec fn uri_scheme(scheme: Seq<char>) -> bool {
    &&& scheme.len() > 0
    &&& text::ascii_letter(scheme[0])
    &&& forall|i: int| 0 <= i < scheme.len() ==> scheme_char(#[trigger] scheme[i])
}

/// A target with an explicit URI scheme in front of its first `:`, absolute Windows drive paths
/// excepted.
pub open spec fn explicit_scheme(target: Seq<char>) -> bool {
    &&& target.contains(':')
    &&& !windows_drive_path(target)
    &&& uri_scheme(text::before_first(target, ':'))
}

/// A path percent-decoded, or as written where it is not valid percent-encoding.
pub open spec fn decoded_or_raw(path: Seq<char>) -> Seq<char> {
    match percent::percent_decoded(path) {
        Some(decoded) => decoded,
        None => path,
    }
}

/// What a link target means: the workspace path it opens, or `None` where it is external.
///
/// The white space around the target is dropped first. A file mention opens the path behind its
/// scheme; any other target with an explicit scheme is external; the rest are paths. Of a path,
/// what follows the first `#` is dropped, then it is decoded.
pub open spec fn classified(target: Seq<char>) -> Option<Seq<char>> {
    let t = text::trimmed(target);
    if FILE_MENTION_SCHEME@.is_prefix_of(t) {
        let encoded = t.skip(FILE_MENTION_SCHEME@.len() as int);
        opened_path(decoded_or_raw(text::before_first(encoded, '#')))
    } else if explicit_scheme(t) {
        None
    } else {
        opened_path(decoded_or_raw(text::before_first(t, '#')))
    }
}

/// Classifies one raw markdown link target.
pub fn classify_link(target: &str) -> (r: LinkTarget)
    ensures
        r@ == classified(target@),
        match r {
            LinkTarget::WorkspacePath(path) => classified(target@) == Some(path@),
            LinkTarget::External => classified(target@) is None,
        },
{
    let target = text::trim(target);
    if let Some(encoded) = text::text_after_prefix(target, FILE_MENTION_SCHEME) {
        return decoded_path(strip_fragment(encoded));
    }
    if has_scheme(target) {
        return LinkTarget::External;
    }
    decoded_path(strip_fragment(target))
}

/// The target for a path that may be percent-encoded.
fn decoded_path(path: &str) -> (r: LinkTarget)
    ensures
        r@ == opened_path(decoded_or_raw(path@)),
{
    match percent::percent_decode_path(path) {
        Some(decoded) => workspace_path(decoded.as_str()),
        None => workspace_path(path),
    }
}

/// The target for a decoded path.
pub fn workspace_path(path: &str) -> (r: LinkTarget)
    ensures
        r@ == opened_path(path@),
        match r {
            LinkTarget::WorkspacePath(kept) => opened_path(path@) == Some(kept@),
            LinkTarget::External => opened_path(path@) is None,
        },
{
    let path = text::trim_end_either(path, '/', '/');
    if path.is_empty() {
        return LinkTarget::External;
    }
    LinkTarget::WorkspacePath(path.to_string())
}

/// The target without its `#fragment`.
pub fn strip_fragment(target: &str) -> (r: &str)
    ensures
        r@ == text::before_first(target@, '#'),
{
    text::text_before(target, '#')
}

/// Whether a target carries an explicit URI scheme. `C:\...` and `C:/...` are paths; `x:payload`
/// is a URI.
pub fn has_scheme(target: &str) -> (r: bool)
    ensures
        r == explicit_scheme(target@),
{
    let chars = text::chars_of(target);
    let colon = text::find(&chars, ':');
    proof {
        text::lemma_first_index(target@, ':');
    }
    if colon == chars.len() || is_windows_drive_path(target) {
        return false;
    }
    let ghost scheme = text::before_first(target@, ':');
    if colon == 0 || !text::is_ascii_letter(chars[0]) {
        return false;
    }
    let mut i: usize = 0;
    while i < colon
        invariant
            i <= colon < chars.len(),
            chars@ == target@,
            colon == text::first_index(target@, ':'),
            scheme == text::before_first(target@, ':'),
            forall|j: int| 0 <= j < i ==> scheme_char(#[trigger] scheme[j]),
        decreases colon - i,
    {
        let c = chars[i];
        if !(text::is_ascii_letter(c) || ('0' <= c && c <= '9') || c == '+' || c == '-' || c
            == '.') {
            assert(!scheme_char(scheme[i as int]));
            return false;
        }
        i += 1;
    }
    true
}

/// Whether a target is an absolute Windows drive path.
pub fn is_windows_drive_path(target: &str) -> (r: bool)
    ensures
        r == windows_drive_path(target@),
        r <==> {
            &&& target@.len() >= 3
            &&& ('a' <= target@[0] <= 'z' || 'A' <= target@[0] <= 'Z')
            &&& target@[1] == ':'
            &&& (target@[2] == '/' || target@[2] == '\\')
        },
{
    let chars = text::chars_of(target);
    chars.len() >= 3 && text::is_ascii_letter(chars[0]) && chars[1] == ':' && (chars[2] == '/'
        || chars[2] == '\\')
}

// ---------------------------------------------------------------------------
// Laws
// ---------------------------------------------------------------------------

/// What a target opens is never empty and never ends in a slash.
pub proof fn law_opened_paths_are_clean(target: Seq<char>)
    ensures
        classified(target) matches Some(path) ==> path.len() > 0 && path.last() != '/',
{
    let t = text::trimmed(target);
    let encoded = t.skip(FILE_MENTION_SCHEME@.len() as int);
    text::lemma_drop_back_while(decoded_or_raw(text::before_first(encoded, '#')), slashes());
    text::lemma_drop_back_while(decoded_or_raw(text::before_first(t, '#')), slashes());
}

/// A target with an explicit scheme other than the file mention's is external.
pub proof fn law_explicit_schemes_stay_external(target: Seq<char>)
    requires
        explicit_scheme(text::trimmed(target)),
        !FILE_MENTION_SCHEME@.is_prefix_of(text::trimmed(target)),
    ensures
        classified(target) is None,
{
}

/// A file mention opens the path that was percent-encoded into it, whichever bytes the encoder
/// chose to escape besides `%`, as long as it escaped `#` and left no white space at the end.
pub proof fn law_file_mentions_round_trip(
    path: Seq<char>,
    encoded: Seq<char>,
    keep: spec_fn(u8) -> bool,
)
    requires
        vstd::utf8::encode_utf8(encoded) == percent::escaped(vstd::utf8::encode_utf8(path), keep),
        !encoded.contains('#'),
        encoded.len() > 0 ==> !text::white_space(encoded.last()),
    ensures
        classified(FILE_MENTION_SCHEME@ + encoded) == opened_path(path),
{
    reveal_strlit("zeron-file:");
    let target = FILE_MENTION_SCHEME@ + encoded;
    text::lemma_trimmed_unchanged(target);
    assert(target.skip(FILE_MENTION_SCHEME@.len() as int) =~= encoded);
    text::lemma_first_index(encoded, '#');
    assert(text::before_first(encoded, '#') =~= encoded);
    percent::law_decoding_undoes_encoding(path, encoded, keep);
}

/// A path that holds no escape, no fragment and no scheme is opened as written, without its
/// trailing slashes.
pub proof fn law_plain_paths_open_as_written(path: Seq<char>)
    requires
        text::trimmed(path) == path,
        !path.contains('%'),
        !path.contains('#'),
        !explicit_scheme(path),
        !FILE_MENTION_SCHEME@.is_prefix_of(path),
    ensures
        classified(path) == opened_path(path),
        path.len() > 0 && path.last() != '/' ==> classified(path) == Some(path),
{
    text::lemma_first_index(path, '#');
    assert(text::before_first(path, '#') =~= path);
    percent::law_plain_text_decodes_to_itself(path);
}

/// A `#fragment` behind a target does not change what the target opens.
pub proof fn law_fragments_are_dropped(target: Seq<char>, fragment: Seq<char>)
    requires
        !target.contains('#'),
        target.len() > 0 ==> !text::white_space(target.last()),
    ensures
        classified(target + seq!['#'] + fragment) == classified(target),
{
    reveal_strlit("zeron-file:");
    let p = text::spaces();
    let hash = seq!['#'];
    let whole = target + hash + fragment;
    let q = text::drop_front_while(target, p);
    let g = text::drop_back_while(fragment, p);
    // Trimming the longer target trims its two ends apart.
    text::lemma_drop_front_while(target, p);
    text::lemma_drop_front_of_join(target, hash + fragment, p);
    assert(target + (hash + fragment) =~= whole);
    text::lemma_drop_back_of_join(q + hash, fragment, p);
    assert((q + hash) + fragment =~= q + (hash + fragment));
    let t = text::trimmed(whole);
    assert(t == q + hash + g);
    assert(text::trimmed(target) == q);
    assert forall|i: int| 0 <= i < q.len() implies #[trigger] q[i] != '#' by {
        assert(q[i] == target[target.len() - q.len() + i]);
    }
    // Both are file mentions, or neither is.
    let scheme = FILE_MENTION_SCHEME@;
    assert(forall|i: int| 0 <= i < scheme.len() ==> #[trigger] scheme[i] != '#');
    if scheme.is_prefix_of(t) {
        if q.len() < scheme.len() {
            assert(scheme[q.len() as int] == t[q.len() as int]);
        }
        assert(scheme =~= q.take(scheme.len() as int)) by {
            assert forall|i: int| 0 <= i < scheme.len() implies scheme[i] == q[i] by {
                assert(scheme[i] == t[i]);
            }
        }
    }
    if scheme.is_prefix_of(q) {
        assert(scheme =~= t.take(scheme.len() as int)) by {
            assert forall|i: int| 0 <= i < scheme.len() implies scheme[i] == t[i] by {
                assert(scheme[i] == q[i]);
            }
        }
        let n = scheme.len() as int;
        assert(t.skip(n) =~= q.skip(n) + hash + g);
        text::lemma_first_index_is(t.skip(n), '#', q.len() - n);
        text::lemma_first_index_is(q.skip(n), '#', q.len() - n);
        assert(text::before_first(t.skip(n), '#') =~= text::before_first(q.skip(n), '#'));
    } else {
        text::lemma_first_index_is(t, '#', q.len() as int);
        text::lemma_first_index_is(q, '#', q.len() as int);
        assert(text::before_first(t, '#') =~= text::before_first(q, '#'));
        lemma_scheme_in_front_of_fragment(q, g);
    }
}

/// Whether a target carries a scheme does not depend on its fragment.
proof fn lemma_scheme_in_front_of_fragment(q: Seq<char>, g: Seq<char>)
    requires
        forall|i: int| 0 <= i < q.len() ==> #[trigger] q[i] != '#',
    ensures
        explicit_scheme(q + seq!['#'] + g) == explicit_scheme(q),
{
    let t = q + seq!['#'] + g;
    text::lemma_first_index(t, ':');
    text::lemma_first_index(q, ':');
    let i = text::first_index(t, ':');
    let j = text::first_index(q, ':');
    assert(windows_drive_path(t) == windows_drive_path(q));
    if i < q.len() {
        assert(q[i] == ':');
        assert forall|k: int| 0 <= k < i implies #[trigger] q[k] != ':' by {
            assert(t[k] == q[k]);
        }
        text::lemma_first_index_is(q, ':', i);
        assert(text::before_first(t, ':') =~= text::before_first(q, ':'));
        assert(t[i] == ':');
    } else {
        if q.contains(':') {
            assert(t[j] == ':');
            assert(false);
        }
        if i < t.len() {
            assert(t[q.len() as int] == '#');
            assert(text::before_first(t, ':')[q.len() as int] == '#');
            assert(!scheme_char('#'));
        }
    }
}

/// Of the targets with one letter in front of a `:`, exactly the absolute Windows drive paths open
/// in the viewer.
pub proof fn law_only_absolute_drive_paths_open(target: Seq<char>)
    requires
        text::trimmed(target).len() >= 2,
        text::ascii_letter(text::trimmed(target)[0]),
        text::trimmed(target)[1] == ':',
    ensures
        classified(target) is Some <==> windows_drive_path(text::trimmed(target)),
{
    reveal_strlit("zeron-file:");
    let t = text::trimmed(target);
    assert(FILE_MENTION_SCHEME@[1] != ':');
    assert(!FILE_MENTION_SCHEME@.is_prefix_of(t)) by {
        if FILE_MENTION_SCHEME@.is_prefix_of(t) {
            assert(FILE_MENTION_SCHEME@[1] == t[1]);
        }
    }
    text::lemma_first_index_is(t, ':', 1);
    assert(t[1] == ':');
    if windows_drive_path(t) {
        text::lemma_first_index(t, '#');
        let path = text::before_first(t, '#');
        assert(path.len() > 0 && path[0] == t[0]);
        percent::lemma_first_letter_stays(path);
        text::lemma_drop_back_while(decoded_or_raw(path), slashes());
        assert(decoded_or_raw(path)[0] == t[0]);
    }
}

/// A text of nothing but slashes.
pub open spec fn all_slashes(s: Seq<char>) -> bool {
    forall|i: int| 0 <= i < s.len() ==> #[trigger] s[i] == '/'
}

/// What a path opens is the path without the slashes at its end, and nothing else is taken from it;
/// a path of slashes alone opens nothing.
pub proof fn law_opened_paths_lose_only_slashes(kept: Seq<char>, run: Seq<char>)
    requires
        all_slashes(run),
        kept.len() > 0 ==> kept.last() != '/',
    ensures
        kept.len() > 0 ==> opened_path(kept + run) == Some(kept),
        kept.len() == 0 ==> opened_path(kept + run) is None,
{
    text::lemma_drop_back_run(kept, run, slashes());
}

/// White space around a target does not matter.
pub proof fn law_white_space_around_targets_is_dropped(
    front: Seq<char>,
    target: Seq<char>,
    back: Seq<char>,
)
    requires
        text::all_white(front),
        text::all_white(back),
        text::solid(target),
    ensures
        classified(front + target + back) == classified(target),
{
    text::law_trimming_undoes_padding(front, target, back);
    text::lemma_trimmed_unchanged(target);
}

/// A target carries a scheme exactly where what stands in front of its first `:` begins with an
/// ASCII letter and goes on in ASCII letters, digits, `+`, `-` and `.`, unless it is one letter
/// with a slash or backslash behind the `:`. Without a `:` there is no scheme.
pub proof fn law_schemes_go_by_their_characters(scheme: Seq<char>, rest: Seq<char>)
    requires
        !scheme.contains(':'),
    ensures
        explicit_scheme(scheme + seq![':'] + rest) <==> {
            &&& scheme.len() > 0
            &&& ('a' <= scheme[0] <= 'z' || 'A' <= scheme[0] <= 'Z')
            &&& forall|i: int|
                0 <= i < scheme.len() ==> {
                    ||| 'a' <= #[trigger] scheme[i] <= 'z'
                    ||| 'A' <= scheme[i] <= 'Z'
                    ||| '0' <= scheme[i] <= '9'
                    ||| scheme[i] == '+'
                    ||| scheme[i] == '-'
                    ||| scheme[i] == '.'
                }
            &&& !(scheme.len() == 1 && rest.len() > 0 && (rest[0] == '/' || rest[0] == '\\'))
        },
        !explicit_scheme(scheme),
{
    let whole = scheme + seq![':'] + rest;
    text::law_text_before_undoes_joining(scheme, rest, ':');
    assert(whole[scheme.len() as int] == ':');
    assert(whole.contains(':'));
    if whole.len() >= 3 && whole[1] == ':' && scheme.len() > 1 {
        assert(scheme[1] == ':');
    }
    if scheme.len() == 1 && rest.len() > 0 {
        assert(whole[2] == rest[0]);
    }
    if uri_scheme(scheme) {
        assert(scheme[0] == whole[0]);
    }
    assert forall|i: int| 0 <= i < scheme.len() implies (scheme_char(#[trigger] scheme[i]) <==> ({
        ||| 'a' <= scheme[i] <= 'z'
        ||| 'A' <= scheme[i] <= 'Z'
        ||| '0' <= scheme[i] <= '9'
        ||| scheme[i] == '+'
        ||| scheme[i] == '-'
        ||| scheme[i] == '.'
    })) by {}
}

/// What is behind the first `#` is not part of the path.
proof fn lemma_path_in_front_of_tail(encoded: Seq<char>, tail: Seq<char>)
    requires
        !encoded.contains('#'),
        tail.len() > 0 ==> tail[0] == '#',
    ensures
        text::before_first(encoded + tail, '#') == encoded,
{
    if tail.len() == 0 {
        assert(encoded + tail =~= encoded);
        text::law_text_before_undoes_joining(encoded, seq![], '#');
    } else {
        assert(encoded + tail =~= encoded + seq!['#'] + tail.drop_first());
        text::law_text_before_undoes_joining(encoded, tail.drop_first(), '#');
    }
}

/// A plain markdown target, relative or absolute, opens the path that its bytes stand for, without
/// the slashes at the path's end; a fragment behind it is ignored.
pub proof fn law_plain_targets_open_what_they_encode(
    encoded: Seq<char>,
    tail: Seq<char>,
    kept: Seq<char>,
    run: Seq<char>,
)
    requires
        text::solid(encoded + tail),
        !explicit_scheme(encoded + tail),
        !"zeron-file:"@.is_prefix_of(encoded + tail),
        !encoded.contains('#'),
        tail.len() > 0 ==> tail[0] == '#',
        percent::stands_for(
            vstd::utf8::encode_utf8(encoded),
            vstd::utf8::encode_utf8(kept + run),
        ),
        all_slashes(run),
        kept.len() > 0 ==> kept.last() != '/',
    ensures
        kept.len() > 0 ==> classified(encoded + tail) == Some(kept),
        kept.len() == 0 ==> classified(encoded + tail) is None,
{
    text::lemma_trimmed_unchanged(encoded + tail);
    lemma_path_in_front_of_tail(encoded, tail);
    percent::law_decoding_goes_by_bytes(encoded, kept + run);
    law_opened_paths_lose_only_slashes(kept, run);
}

/// A file mention opens the path that the bytes behind its scheme stand for, without the slashes at
/// the path's end; a fragment behind it is ignored.
pub proof fn law_mentions_open_what_they_encode(
    encoded: Seq<char>,
    tail: Seq<char>,
    kept: Seq<char>,
    run: Seq<char>,
)
    requires
        text::solid("zeron-file:"@ + encoded + tail),
        !encoded.contains('#'),
        tail.len() > 0 ==> tail[0] == '#',
        percent::stands_for(
            vstd::utf8::encode_utf8(encoded),
            vstd::utf8::encode_utf8(kept + run),
        ),
        all_slashes(run),
        kept.len() > 0 ==> kept.last() != '/',
    ensures
        kept.len() > 0 ==> classified("zeron-file:"@ + encoded + tail) == Some(kept),
        kept.len() == 0 ==> classified("zeron-file:"@ + encoded + tail) is None,
{
    let target = "zeron-file:"@ + encoded + tail;
    text::lemma_trimmed_unchanged(target);
    assert(FILE_MENTION_SCHEME@.is_prefix_of(target)) by {
        assert(target.take(FILE_MENTION_SCHEME@.len() as int) =~= FILE_MENTION_SCHEME@);
    }
    assert(target.skip(FILE_MENTION_SCHEME@.len() as int) =~= encoded + tail);
    lemma_path_in_front_of_tail(encoded, tail);
    percent::law_decoding_goes_by_bytes(encoded, kept + run);
    law_opened_paths_lose_only_slashes(kept, run);
}

/// A target whose bytes stand for no text opens the path as written, without the slashes at its
/// end, be it a plain target or a file mention.
pub proof fn law_malformed_targets_open_as_written(
    kept: Seq<char>,
    run: Seq<char>,
    tail: Seq<char>,
    mention: bool,
)
    requires
        ({
            let scheme = if mention {
                "zeron-file:"@
            } else {
                seq![]
            };
            let target = scheme + (kept + run) + tail;
            &&& text::solid(target)
            &&& !mention ==> !explicit_scheme(target) && !"zeron-file:"@.is_prefix_of(target)
        }),
        !(kept + run).contains('#'),
        tail.len() > 0 ==> tail[0] == '#',
        forall|path: Seq<char>|
            !percent::stands_for(
                vstd::utf8::encode_utf8(kept + run),
                #[trigger] vstd::utf8::encode_utf8(path),
            ),
        all_slashes(run),
        kept.len() > 0,
        kept.last() != '/',
    ensures
        mention ==> classified("zeron-file:"@ + (kept + run) + tail) == Some(kept),
        !mention ==> classified(kept + run + tail) == Some(kept),
{
    let encoded = kept + run;
    if let Some(path) = percent::percent_decoded(encoded) {
        percent::law_decoding_goes_by_bytes(encoded, path);
        assert(!percent::stands_for(
            vstd::utf8::encode_utf8(encoded),
            vstd::utf8::encode_utf8(path),
        ));
    }
    lemma_path_in_front_of_tail(encoded, tail);
    law_opened_paths_lose_only_slashes(kept, run);
    if mention {
        let target = "zeron-file:"@ + encoded + tail;
        text::lemma_trimmed_unchanged(target);
        assert(FILE_MENTION_SCHEME@.is_prefix_of(target)) by {
            assert(target.take(FILE_MENTION_SCHEME@.len() as int) =~= FILE_MENTION_SCHEME@);
        }
        assert(target.skip(FILE_MENTION_SCHEME@.len() as int) =~= encoded + tail);
    } else {
        let none: Seq<char> = seq![];
        assert(none + encoded + tail =~= encoded + tail);
        text::lemma_trimmed_unchanged(encoded + tail);
    }
}

/// A plain markdown target opens the path that was percent-encoded into it, absolute paths like
/// relative ones, whichever bytes the encoder chose to escape besides `%`.
pub proof fn law_plain_targets_round_trip(
    path: Seq<char>,
    encoded: Seq<char>,
    keep: spec_fn(u8) -> bool,
)
    requires
        text::solid(encoded),
        !encoded.contains('#'),
        !explicit_scheme(encoded),
        !"zeron-file:"@.is_prefix_of(encoded),
        vstd::utf8::encode_utf8(encoded) == percent::escaped(vstd::utf8::encode_utf8(path), keep),
    ensures
        classified(encoded) == opened_path(path),
        path.len() > 0 && path.last() != '/' ==> classified(encoded) == Some(path),
{
    text::lemma_trimmed_unchanged(encoded);
    text::law_text_before_undoes_joining(encoded, seq![], '#');
    percent::law_decoding_undoes_encoding(path, encoded, keep);
    if path.len() > 0 && path.last() != '/' {
        law_opened_paths_lose_only_slashes(path, seq![]);
        assert(path + Seq::<char>::empty() =~= path);
    }
}

} // verus!
