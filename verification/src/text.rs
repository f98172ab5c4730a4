//! Character-level text primitives: trimming, splitting and searching.
//!
//! A string is modelled by its view, the sequence of its characters. The spec functions here say
//! what a piece of text is in terms of that sequence; the executable functions compute it.

use vstd::prelude::*;

verus! {

/// `String::push` appends one character at the end.
pub assume_specification[ String::push ](s: &mut String, c: char)
    ensures
        final(s)@ == old(s)@.push(c),
;

/// The characters of a string that may be missing.
pub open spec fn optional(s: Option<String>) -> Option<Seq<char>> {
    match s {
        Some(s) => Some(s@),
        None => None,
    }
}

// ---------------------------------------------------------------------------
// Character classes
// ---------------------------------------------------------------------------

/// The characters of the Unicode `White_Space` property.
pub open spec fn white_space(c: char) -> bool {
    ||| '\u{9}' <= c <= '\u{d}'
    ||| c == ' '
    ||| c == '\u{85}'
    ||| c == '\u{a0}'
    ||| c == '\u{1680}'
    ||| '\u{2000}' <= c <= '\u{200a}'
    ||| c == '\u{2028}'
    ||| c == '\u{2029}'
    ||| c == '\u{202f}'
    ||| c == '\u{205f}'
    ||| c == '\u{3000}'
}

/// Whether a character is white space.
pub fn is_white_space(c: char) -> (r: bool)
    ensures
        r == white_space(c),
{
    ('\u{9}' <= c && c <= '\u{d}') || c == ' ' || c == '\u{85}' || c == '\u{a0}' || c == '\u{1680}'
        || ('\u{2000}' <= c && c <= '\u{200a}') || c == '\u{2028}' || c == '\u{2029}'
        || c == '\u{202f}' || c == '\u{205f}' || c == '\u{3000}'
}

/// The ASCII letters.
pub open spec fn ascii_letter(c: char) -> bool {
    'a' <= c <= 'z' || 'A' <= c <= 'Z'
}

/// Whether a character is an ASCII letter.
pub fn is_ascii_letter(c: char) -> (r: bool)
    ensures
        r == ascii_letter(c),
{
    ('a' <= c && c <= 'z') || ('A' <= c && c <= 'Z')
}

/// The ASCII digits.
pub open spec fn ascii_digit(c: char) -> bool {
    '0' <= c <= '9'
}

/// An ASCII capital letter folded to its small form; any other character as it is.
pub open spec fn ascii_lower(c: char) -> char {
    if 'A' <= c <= 'Z' {
        ((c as u32) + 32) as char
    } else {
        c
    }
}

/// Folds an ASCII capital letter to its small form.
pub fn to_ascii_lower(c: char) -> (r: char)
    ensures
        r == ascii_lower(c),
{
    if 'A' <= c && c <= 'Z' {
        ((c as u8) + 32) as char
    } else {
        c
    }
}

/// A whole text with its ASCII capital letters folded.
pub open spec fn ascii_folded(s: Seq<char>) -> Seq<char> {
    s.map_values(|c: char| ascii_lower(c))
}

/// The text with its ASCII capital letters folded.
pub fn to_folded(s: &str) -> (r: String)
    ensures
        r@ == ascii_folded(s@),
{
    let mut out: String = String::new();
    for c in it: s.chars()
        invariant
            it.seq() == s@,
            out@ == ascii_folded(s@.take(it.index() as int)),
    {
        let ghost n = it.index();
        out.push(to_ascii_lower(c));
        assert(ascii_folded(s@.take(n + 1)) =~= ascii_folded(s@.take(n as int)).push(
            ascii_lower(c),
        ));
    }
    assert(s@.take(s@.len() as int) =~= s@);
    out
}

// ---------------------------------------------------------------------------
// Trimming
// ---------------------------------------------------------------------------

/// The predicate of the white space characters.
pub open spec fn spaces() -> spec_fn(char) -> bool {
    |c: char| white_space(c)
}

/// The predicate of the characters `a` and `b`.
pub open spec fn either(a: char, b: char) -> spec_fn(char) -> bool {
    |c: char| c == a || c == b
}

/// What is left of `s` once the longest run of `p` characters at its front is gone.
pub open spec fn drop_front_while(s: Seq<char>, p: spec_fn(char) -> bool) -> Seq<char>
    decreases s.len(),
{
    if s.len() > 0 && p(s[0]) {
        drop_front_while(s.drop_first(), p)
    } else {
        s
    }
}

/// What is left of `s` once the longest run of `p` characters at its back is gone.
pub open spec fn drop_back_while(s: Seq<char>, p: spec_fn(char) -> bool) -> Seq<char>
    decreases s.len(),
{
    if s.len() > 0 && p(s.last()) {
        drop_back_while(s.drop_last(), p)
    } else {
        s
    }
}

/// `s` without the white space at both of its ends.
pub open spec fn trimmed(s: Seq<char>) -> Seq<char> {
    drop_back_while(drop_front_while(s, spaces()), spaces())
}

/// Dropping from the back keeps a prefix whose last character is not a `p` character.
pub proof fn lemma_drop_back_while(s: Seq<char>, p: spec_fn(char) -> bool)
    ensures
        drop_back_while(s, p).len() <= s.len(),
        drop_back_while(s, p) == s.take(drop_back_while(s, p).len() as int),
        drop_back_while(s, p).len() > 0 ==> !p(drop_back_while(s, p).last()),
        forall|i: int| drop_back_while(s, p).len() <= i < s.len() ==> p(#[trigger] s[i]),
    decreases s.len(),
{
    if s.len() > 0 && p(s.last()) {
        lemma_drop_back_while(s.drop_last(), p);
        let n = drop_back_while(s, p).len() as int;
        assert(s.drop_last().take(n) =~= s.take(n));
        assert forall|i: int| n <= i < s.len() implies p(#[trigger] s[i]) by {
            if i < s.len() - 1 {
                assert(s.drop_last()[i] == s[i]);
            }
        }
    } else {
        assert(s.take(s.len() as int) =~= s);
    }
}

/// Dropping from the front keeps a suffix whose first character is not a `p` character.
pub proof fn lemma_drop_front_while(s: Seq<char>, p: spec_fn(char) -> bool)
    ensures
        drop_front_while(s, p).len() <= s.len(),
        drop_front_while(s, p) == s.skip(s.len() - drop_front_while(s, p).len()),
        drop_front_while(s, p).len() > 0 ==> !p(drop_front_while(s, p)[0]),
        forall|i: int|
            0 <= i < s.len() - drop_front_while(s, p).len() ==> p(#[trigger] s[i]),
    decreases s.len(),
{
    if s.len() > 0 && p(s[0]) {
        let t = s.drop_first();
        lemma_drop_front_while(t, p);
        let n = drop_front_while(s, p).len();
        assert(t.skip(t.len() - n) =~= s.skip(s.len() - n));
        assert forall|i: int| 0 <= i < s.len() - n implies p(#[trigger] s[i]) by {
            if i > 0 {
                assert(t[i - 1] == s[i]);
            }
        }
    } else {
        assert(s.skip(0) =~= s);
    }
}

/// Dropping from the front of a join leaves the second part alone, unless the first part is
/// dropped whole and the second begins with a `p` character.
pub proof fn lemma_drop_front_of_join(a: Seq<char>, b: Seq<char>, p: spec_fn(char) -> bool)
    requires
        drop_front_while(a, p).len() > 0 || b.len() == 0 || !p(b[0]),
    ensures
        drop_front_while(a + b, p) == drop_front_while(a, p) + b,
    decreases a.len(),
{
    if a.len() == 0 {
        assert(a + b =~= b);
        assert(drop_front_while(a, p) + b =~= b);
    } else if p(a[0]) {
        assert((a + b).drop_first() =~= a.drop_first() + b);
        lemma_drop_front_of_join(a.drop_first(), b, p);
    }
}

/// Dropping from the back of a join leaves the first part alone where its last character is not a
/// `p` character.
pub proof fn lemma_drop_back_of_join(a: Seq<char>, b: Seq<char>, p: spec_fn(char) -> bool)
    requires
        a.len() > 0,
        !p(a.last()),
    ensures
        drop_back_while(a + b, p) == a + drop_back_while(b, p),
    decreases b.len(),
{
    if b.len() == 0 {
        assert(a + b =~= a);
        assert(a + drop_back_while(b, p) =~= a);
    } else if p(b.last()) {
        assert((a + b).drop_last() =~= a + b.drop_last());
        lemma_drop_back_of_join(a, b.drop_last(), p);
    }
}

/// A text without white space at its ends is left as it is by trimming.
pub proof fn lemma_trimmed_unchanged(s: Seq<char>)
    requires
        s.len() > 0 ==> !white_space(s[0]) && !white_space(s.last()),
    ensures
        trimmed(s) == s,
{
}

/// A trimmed text has no white space at its ends, so trimming it again changes nothing; and it is
/// empty exactly where the text is all white space.
pub proof fn lemma_trimmed(s: Seq<char>)
    ensures
        trimmed(s).len() > 0 ==> !white_space(trimmed(s)[0]) && !white_space(trimmed(s).last()),
        trimmed(trimmed(s)) == trimmed(s),
        trimmed(s).len() == 0 <==> forall|i: int|
            0 <= i < s.len() ==> white_space(#[trigger] s[i]),
{
    let front = drop_front_while(s, spaces());
    lemma_drop_front_while(s, spaces());
    lemma_drop_back_while(front, spaces());
    let t = trimmed(s);
    if t.len() > 0 {
        assert(t[0] == front[0]);
        let at = s.len() - front.len();
        assert(s[at] == front[0]);
    } else {
        if front.len() > 0 {
            assert(spaces()(front[0]));
        }
        assert forall|i: int| 0 <= i < s.len() implies white_space(#[trigger] s[i]) by {
            assert(spaces()(s[i]));
        }
    }
    lemma_trimmed_unchanged(t);
}

/// The characters of a string, as a vector.
pub fn chars_of(s: &str) -> (r: Vec<char>)
    ensures
        r@ == s@,
{
    let mut out: Vec<char> = Vec::new();
    for c in it: s.chars()
        invariant
            it.seq() == s@,
            out@ == s@.take(it.index() as int),
    {
        out.push(c);
    }
    out
}

/// The text without the white space at both of its ends.
pub fn trim(s: &str) -> (r: &str)
    ensures
        r@ == trimmed(s@),
{
    let chars = chars_of(s);
    let mut start: usize = 0;
    assert(s@.skip(0) =~= s@);
    while start < chars.len() && is_white_space(chars[start])
        invariant
            start <= chars.len(),
            chars@ == s@,
            drop_front_while(s@, spaces()) == drop_front_while(s@.skip(start as int), spaces()),
        decreases chars.len() - start,
    {
        assert(s@.skip(start as int).drop_first() =~= s@.skip(start + 1));
        start += 1;
    }
    let ghost kept = s@.skip(start as int);
    assert(drop_front_while(s@, spaces()) == kept);
    assert(s@.subrange(start as int, s@.len() as int) =~= kept);
    let mut end: usize = chars.len();
    while end > start && is_white_space(chars[end - 1])
        invariant
            start <= end <= chars.len(),
            chars@ == s@,
            drop_back_while(kept, spaces()) == drop_back_while(
                s@.subrange(start as int, end as int),
                spaces(),
            ),
        decreases end,
    {
        assert(s@.subrange(start as int, end as int).drop_last() =~= s@.subrange(
            start as int,
            end - 1,
        ));
        end -= 1;
    }
    s.substring_char(start, end)
}

/// The text without the run of `a` and `b` characters at its end.
pub fn trim_end_either(s: &str, a: char, b: char) -> (r: &str)
    ensures
        r@ == drop_back_while(s@, either(a, b)),
{
    let chars = chars_of(s);
    let mut end: usize = chars.len();
    assert(s@.take(s@.len() as int) =~= s@);
    while end > 0 && (chars[end - 1] == a || chars[end - 1] == b)
        invariant
            end <= chars.len(),
            chars@ == s@,
            drop_back_while(s@, either(a, b)) == drop_back_while(
                s@.take(end as int),
                either(a, b),
            ),
        decreases end,
    {
        assert(s@.take(end as int).drop_last() =~= s@.take(end - 1));
        end -= 1;
    }
    assert(s@.subrange(0, end as int) =~= s@.take(end as int));
    s.substring_char(0, end)
}

// ---------------------------------------------------------------------------
// Searching and splitting
// ---------------------------------------------------------------------------

/// The index of the first `c` in `s`, or the length of `s` where there is none.
pub open spec fn first_index(s: Seq<char>, c: char) -> int
    decreases s.len(),
{
    if s.len() == 0 || s[0] == c {
        0
    } else {
        1 + first_index(s.drop_first(), c)
    }
}

/// The index of the last `c` in `s`, or -1 where there is none.
pub open spec fn last_index(s: Seq<char>, c: char) -> int
    decreases s.len(),
{
    if s.len() == 0 || s.last() == c {
        s.len() - 1
    } else {
        last_index(s.drop_last(), c)
    }
}

/// The text in front of the first `c`, or all of it where there is none.
pub open spec fn before_first(s: Seq<char>, c: char) -> Seq<char> {
    s.take(first_index(s, c))
}

/// `first_index` is the length of the longest prefix without `c`.
pub proof fn lemma_first_index(s: Seq<char>, c: char)
    ensures
        0 <= first_index(s, c) <= s.len(),
        forall|j: int| 0 <= j < first_index(s, c) ==> #[trigger] s[j] != c,
        first_index(s, c) < s.len() ==> s[first_index(s, c)] == c,
        s.contains(c) <==> first_index(s, c) < s.len(),
    decreases s.len(),
{
    if s.len() == 0 || s[0] == c {
    } else {
        let t = s.drop_first();
        lemma_first_index(t, c);
        assert forall|j: int| 0 <= j < first_index(s, c) implies #[trigger] s[j] != c by {
            if j > 0 {
                assert(t[j - 1] == s[j]);
            }
        }
        if s.contains(c) {
            let k = choose|k: int| 0 <= k < s.len() && s[k] == c;
            assert(t[k - 1] == c);
        }
    }
}

/// An index that holds `c`, with no `c` in front of it, is `first_index`.
pub proof fn lemma_first_index_is(s: Seq<char>, c: char, i: int)
    requires
        0 <= i <= s.len(),
        forall|j: int| 0 <= j < i ==> #[trigger] s[j] != c,
        i < s.len() ==> s[i] == c,
    ensures
        first_index(s, c) == i,
{
    lemma_first_index(s, c);
    let f = first_index(s, c);
    if f < i {
        assert(s[f] != c);
    } else if i < f {
        assert(s[i] != c);
    }
}

/// `last_index` is the index of the last `c`, with no `c` behind it.
pub proof fn lemma_last_index(s: Seq<char>, c: char)
    ensures
        -1 <= last_index(s, c) < s.len(),
        forall|j: int| last_index(s, c) < j < s.len() ==> #[trigger] s[j] != c,
        last_index(s, c) >= 0 ==> s[last_index(s, c)] == c,
        s.contains(c) <==> last_index(s, c) >= 0,
    decreases s.len(),
{
    if s.len() == 0 || s.last() == c {
    } else {
        let t = s.drop_last();
        lemma_last_index(t, c);
        assert forall|j: int| last_index(s, c) < j < s.len() implies #[trigger] s[j] != c by {
            if j < s.len() - 1 {
                assert(t[j] == s[j]);
            }
        }
        if s.contains(c) {
            let k = choose|k: int| 0 <= k < s.len() && s[k] == c;
            assert(t[k] == c);
        }
    }
}

/// The index of the first `c`, or the length where there is none.
pub fn find(chars: &Vec<char>, c: char) -> (r: usize)
    ensures
        r == first_index(chars@, c),
{
    let mut i: usize = 0;
    while i < chars.len() && chars[i] != c
        invariant
            i <= chars.len(),
            forall|j: int| 0 <= j < i ==> #[trigger] chars@[j] != c,
        decreases chars.len() - i,
    {
        i += 1;
    }
    proof {
        lemma_first_index_is(chars@, c, i as int);
    }
    i
}

/// The text in front of the first `c`, or all of it where there is none.
pub fn text_before(s: &str, c: char) -> (r: &str)
    ensures
        r@ == before_first(s@, c),
{
    let chars = chars_of(s);
    let at = find(&chars, c);
    proof {
        lemma_first_index(s@, c);
        assert(s@.subrange(0, at as int) =~= s@.take(at as int));
    }
    s.substring_char(0, at)
}

/// The text in front of the last `c` and the text behind it, where there is a `c`.
pub fn split_at_last(s: &str, c: char) -> (r: Option<(&str, &str)>)
    ensures
        match r {
            Some((head, tail)) => {
                &&& last_index(s@, c) >= 0
                &&& head@ == s@.take(last_index(s@, c))
                &&& tail@ == s@.skip(last_index(s@, c) + 1)
            },
            None => last_index(s@, c) == -1,
        },
{
    let chars = chars_of(s);
    let mut end: usize = chars.len();
    assert(s@.take(s@.len() as int) =~= s@);
    while end > 0
        invariant
            end <= chars.len(),
            chars@ == s@,
            last_index(s@, c) == last_index(s@.take(end as int), c),
        decreases end,
    {
        if chars[end - 1] == c {
            assert(s@.subrange(0, end - 1) =~= s@.take(end - 1));
            assert(s@.subrange(end as int, s@.len() as int) =~= s@.skip(end as int));
            return Some((s.substring_char(0, end - 1), s.substring_char(end, chars.len())));
        }
        assert(s@.take(end as int).drop_last() =~= s@.take(end - 1));
        end -= 1;
    }
    None
}

/// Whether `s` reads `needle` from index `at` on.
pub open spec fn occurs_at(s: Seq<char>, needle: Seq<char>, at: int) -> bool {
    0 <= at <= s.len() - needle.len() && s.subrange(at, at + needle.len()) == needle
}

/// Whether `needle` is a part of `s`.
pub open spec fn has_part(s: Seq<char>, needle: Seq<char>) -> bool {
    exists|at: int| #[trigger] occurs_at(s, needle, at)
}

/// Whether `needle` stands in `chars` at index `at`.
fn reads_at(chars: &Vec<char>, needle: &Vec<char>, at: usize) -> (r: bool)
    requires
        at <= chars.len(),
    ensures
        r == occurs_at(chars@, needle@, at as int),
{
    if needle.len() > chars.len() - at {
        return false;
    }
    let mut j: usize = 0;
    while j < needle.len()
        invariant
            j <= needle.len(),
            at + needle.len() <= chars.len(),
            forall|k: int| 0 <= k < j ==> chars@[at + k] == #[trigger] needle@[k],
        decreases needle.len() - j,
    {
        if chars[at + j] != needle[j] {
            assert(chars@.subrange(at as int, at + needle@.len())[j as int] != needle@[j as int]);
            return false;
        }
        j += 1;
    }
    assert(chars@.subrange(at as int, at + needle@.len()) =~= needle@);
    true
}

/// Whether `needle` is a part of `s`.
pub fn contains_text(s: &str, needle: &str) -> (r: bool)
    ensures
        r == has_part(s@, needle@),
{
    let chars = chars_of(s);
    let wanted = chars_of(needle);
    let mut at: usize = 0;
    while at < chars.len()
        invariant
            at <= chars.len(),
            chars@ == s@,
            wanted@ == needle@,
            forall|k: int| 0 <= k < at ==> !#[trigger] occurs_at(s@, needle@, k),
        decreases chars.len() - at,
    {
        if reads_at(&chars, &wanted, at) {
            return true;
        }
        at += 1;
    }
    if reads_at(&chars, &wanted, at) {
        return true;
    }
    false
}

/// The text behind `prefix`, where `s` begins with it.
pub fn text_after_prefix<'a>(s: &'a str, prefix: &str) -> (r: Option<&'a str>)
    ensures
        match r {
            Some(rest) => prefix@.is_prefix_of(s@) && rest@ == s@.skip(prefix@.len() as int),
            None => !prefix@.is_prefix_of(s@),
        },
{
    let chars = chars_of(s);
    let wanted = chars_of(prefix);
    if reads_at(&chars, &wanted, 0) {
        assert(s@.subrange(wanted@.len() as int, s@.len() as int) =~= s@.skip(
            wanted@.len() as int,
        ));
        Some(s.substring_char(wanted.len(), chars.len()))
    } else {
        None
    }
}

/// Whether two texts are the same characters.
pub fn same_text(a: &str, b: &str) -> (r: bool)
    ensures
        r == (a@ == b@),
{
    let left = chars_of(a);
    let right = chars_of(b);
    if left.len() != right.len() {
        return false;
    }
    let same = reads_at(&left, &right, 0);
    assert(a@.subrange(0, a@.len() as int) =~= a@);
    same
}

// ---------------------------------------------------------------------------
// Laws
// ---------------------------------------------------------------------------

/// The white space characters are those with these codes: the controls from tab to carriage return,
/// the space, the next-line control, the no-break space, the Ogham space mark, the general
/// punctuation spaces and separators, and the ideographic space.
pub proof fn law_white_space_goes_by_code(c: char)
    ensures
        white_space(c) <==> {
            let code = c as u32;
            ||| 9 <= code <= 13
            ||| code == 32
            ||| code == 133
            ||| code == 160
            ||| code == 5760
            ||| 8192 <= code <= 8202
            ||| code == 8232
            ||| code == 8233
            ||| code == 8239
            ||| code == 8287
            ||| code == 12288
        },
{
}

/// The letters are those with the ASCII codes of `A` to `Z` and of `a` to `z`, and the digits those
/// with the codes of `0` to `9`.
pub proof fn law_ascii_classes_go_by_code(c: char)
    ensures
        ascii_letter(c) <==> 65 <= c as u32 <= 90 || 97 <= c as u32 <= 122,
        ascii_digit(c) <==> 48 <= c as u32 <= 57,
{
}

/// Folding moves the codes of the capital letters up by 32 and leaves every other character alone.
pub proof fn law_folding_goes_by_code(c: char)
    ensures
        65 <= c as u32 <= 90 ==> ascii_lower(c) as u32 == c as u32 + 32,
        !(65 <= c as u32 <= 90) ==> ascii_lower(c) == c,
{
}

/// A folded text has the same length, and each of its characters is the folded one.
pub proof fn law_texts_fold_by_character(s: Seq<char>)
    ensures
        ascii_folded(s).len() == s.len(),
        forall|i: int| 0 <= i < s.len() ==> #[trigger] ascii_folded(s)[i] == ascii_lower(s[i]),
{
}

/// A string that may be missing is modelled by its characters, and is missing where it is.
pub proof fn law_optional_keeps_every_string(s: Option<String>)
    ensures
        optional(s) is Some <==> s is Some,
        s matches Some(text) ==> optional(s) == Some(text@),
{
}

/// All characters of a text are white space.
pub open spec fn all_white(s: Seq<char>) -> bool {
    forall|i: int| 0 <= i < s.len() ==> white_space(#[trigger] s[i])
}

/// A text without white space at its ends.
pub open spec fn solid(s: Seq<char>) -> bool {
    s.len() > 0 ==> !white_space(s[0]) && !white_space(s.last())
}

/// A run of `p` characters at the front of a join is dropped whole.
proof fn lemma_drop_front_run(run: Seq<char>, rest: Seq<char>, p: spec_fn(char) -> bool)
    requires
        forall|i: int| 0 <= i < run.len() ==> p(#[trigger] run[i]),
    ensures
        drop_front_while(run + rest, p) == drop_front_while(rest, p),
    decreases run.len(),
{
    if run.len() == 0 {
        assert(run + rest =~= rest);
    } else {
        assert(p(run[0]));
        assert((run + rest).drop_first() =~= run.drop_first() + rest);
        lemma_drop_front_run(run.drop_first(), rest, p);
    }
}

/// A run of `p` characters at the back of a join is dropped whole.
pub proof fn lemma_drop_back_run(kept: Seq<char>, run: Seq<char>, p: spec_fn(char) -> bool)
    requires
        forall|i: int| 0 <= i < run.len() ==> p(#[trigger] run[i]),
    ensures
        drop_back_while(kept + run, p) == drop_back_while(kept, p),
    decreases run.len(),
{
    if run.len() == 0 {
        assert(kept + run =~= kept);
    } else {
        assert(p(run.last()));
        assert((kept + run).drop_last() =~= kept + run.drop_last());
        lemma_drop_back_run(kept, run.drop_last(), p);
    }
}

/// Trimming undoes padding: a text without white space at its ends comes back whole from any white
/// space put around it.
pub proof fn law_trimming_undoes_padding(front: Seq<char>, kept: Seq<char>, back: Seq<char>)
    requires
        all_white(front),
        all_white(back),
        solid(kept),
    ensures
        trimmed(front + kept + back) == kept,
{
    let p = spaces();
    assert(front + kept + back =~= front + (kept + back));
    lemma_drop_front_run(front, kept + back, p);
    if kept.len() > 0 {
        assert((kept + back)[0] == kept[0]);
        lemma_drop_back_run(kept, back, p);
    } else {
        assert(kept + back =~= back + kept);
        lemma_drop_front_run(back, kept, p);
        assert(kept =~= Seq::<char>::empty());
    }
}

/// Trimming takes nothing but white space, and takes it from the ends alone.
pub proof fn law_trimming_takes_only_white_space(s: Seq<char>) -> (r: (Seq<char>, Seq<char>))
    ensures
        s == r.0 + trimmed(s) + r.1,
        all_white(r.0),
        all_white(r.1),
        solid(trimmed(s)),
{
    let p = spaces();
    let rest = drop_front_while(s, p);
    lemma_drop_front_while(s, p);
    lemma_drop_back_while(rest, p);
    lemma_trimmed(s);
    let front = s.take(s.len() - rest.len());
    let back = rest.skip(trimmed(s).len() as int);
    assert forall|i: int| 0 <= i < front.len() implies white_space(#[trigger] front[i]) by {
        assert(p(s[i]));
    }
    assert forall|i: int| 0 <= i < back.len() implies white_space(#[trigger] back[i]) by {
        assert(p(rest[trimmed(s).len() + i]));
    }
    assert(front + trimmed(s) + back =~= s);
    (front, back)
}

/// The text in front of the first `c` is what was joined in front of it; a text without `c` is kept
/// whole.
pub proof fn law_text_before_undoes_joining(head: Seq<char>, tail: Seq<char>, c: char)
    requires
        !head.contains(c),
    ensures
        before_first(head + seq![c] + tail, c) == head,
        before_first(head, c) == head,
{
    let whole = head + seq![c] + tail;
    assert forall|j: int| 0 <= j < head.len() implies #[trigger] whole[j] != c by {
        assert(head[j] != c);
    }
    lemma_first_index_is(whole, c, head.len() as int);
    assert(whole.take(head.len() as int) =~= head);
    lemma_first_index(head, c);
    assert(head.take(head.len() as int) =~= head);
}

/// The last `c` is the one with no `c` behind it; without a `c` there is none.
pub proof fn law_last_index_finds_the_last(head: Seq<char>, tail: Seq<char>, c: char)
    requires
        !tail.contains(c),
    ensures
        last_index(head + seq![c] + tail, c) == head.len(),
        last_index(tail, c) == -1,
{
    let whole = head + seq![c] + tail;
    lemma_last_index(whole, c);
    lemma_last_index(tail, c);
    let at = last_index(whole, c);
    assert(whole[head.len() as int] == c);
    if at > head.len() {
        assert(tail[at - head.len() - 1] == c);
    }
}

/// A text has a part exactly where it is something, the part, and something.
pub proof fn law_parts_stand_between(s: Seq<char>, needle: Seq<char>)
    ensures
        has_part(s, needle) <==> exists|front: Seq<char>, back: Seq<char>|
            s == #[trigger] (front + needle + back),
{
    if has_part(s, needle) {
        let at = choose|at: int| #[trigger] occurs_at(s, needle, at);
        let front = s.take(at);
        let back = s.skip(at + needle.len());
        assert(s =~= front + needle + back);
    }
    if exists|front: Seq<char>, back: Seq<char>| s == #[trigger] (front + needle + back) {
        let (front, back) = choose|front: Seq<char>, back: Seq<char>|
            s == #[trigger] (front + needle + back);
        let at = front.len() as int;
        assert(s.subrange(at, at + needle.len()) =~= needle);
        assert(occurs_at(s, needle, at));
    }
}

} // verus!
