//! Operations on text that the rest of the library is stated in.

use vstd::prelude::*;

verus! {

/// `text` with every occurrence of `from` replaced by `to`. Occurrences are
/// found from the left, and one begins only where the one before it has
/// ended. An empty `from` occurs nowhere.
pub open spec fn replaced(text: Seq<char>, from: Seq<char>, to: Seq<char>) -> Seq<char>
    decreases text.len(),
{
    if from.len() == 0 || text.len() < from.len() {
        text
    } else if text.subrange(0, from.len() as int) == from {
        to + replaced(text.skip(from.len() as int), from, to)
    } else {
        seq![text[0]] + replaced(text.skip(1), from, to)
    }
}

/// The view of a text that may be absent.
pub open spec fn optional_text(text: Option<String>) -> Option<Seq<char>> {
    match text {
        Some(t) => Some(t@),
        None => None,
    }
}

/// Whether `text` ends with `suffix`.
pub open spec fn has_suffix(text: Seq<char>, suffix: Seq<char>) -> bool {
    suffix.len() <= text.len() && text.subrange(text.len() - suffix.len(), text.len() as int)
        == suffix
}

/// Whether two texts hold the same characters.
pub fn same_text(a: &str, b: &str) -> (same: bool)
    ensures
        same == (a@ == b@),
{
    String::from_str(a) == String::from_str(b)
}

/// Whether `text` ends with `suffix`.
pub fn ends_with(text: &str, suffix: &str) -> (found: bool)
    ensures
        found == has_suffix(text@, suffix@),
{
    let n = text.unicode_len();
    let m = suffix.unicode_len();
    if m > n {
        false
    } else {
        same_text(text.substring_char(n - m, n), suffix)
    }
}

/// `text` with every occurrence of `from` replaced by `to`.
pub fn replace(text: &str, from: &str, to: &str) -> (out: String)
    ensures
        out@ == replaced(text@, from@, to@),
{
    let n = text.unicode_len();
    let m = from.unicode_len();
    if m == 0 {
        return String::from_str(text);
    }
    let mut out = String::new();
    let mut i: usize = 0;
    assert(text@.skip(0) == text@);
    while i < n
        invariant
            i <= n,
            n == text@.len(),
            m == from@.len(),
            m > 0,
            replaced(text@, from@, to@) == out@ + replaced(text@.skip(i as int), from@, to@),
        decreases n - i,
    {
        let ghost rest = text@.skip(i as int);
        if n - i < m {
            out.append(text.substring_char(i, n));
            assert(text@.subrange(i as int, n as int) == rest);
            assert(text@.skip(n as int) == Seq::<char>::empty());
            i = n;
        } else if same_text(text.substring_char(i, i + m), from) {
            assert(rest.subrange(0, m as int) == text@.subrange(i as int, i + m));
            assert(rest.skip(m as int) == text@.skip(i + m));
            out.append(to);
            i = i + m;
        } else {
            assert(rest.subrange(0, m as int) == text@.subrange(i as int, i + m));
            assert(rest.skip(1) == text@.skip(i + 1));
            assert(seq![rest[0]] == text@.subrange(i as int, i + 1));
            out.append(text.substring_char(i, i + 1));
            i = i + 1;
        }
    }
    assert(text@.skip(n as int) == Seq::<char>::empty());
    out
}

/// The lowercase form that std gives a text (`str::to_lowercase`), which
/// follows the case mappings of Unicode.
pub uninterp spec fn lowercased(text: Seq<char>) -> Seq<char>;

/// Whether std counts `c` as white space (`char::is_whitespace`), which
/// follows the Unicode property `White_Space`.
pub uninterp spec fn is_space(c: char) -> bool;

/// Calls `str::to_lowercase`. Nothing is claimed of the result but that it
/// is the lowercase form that std gives this text.
#[verifier::external_body]
pub(crate) fn to_lowercase(text: &str) -> (out: String)
    ensures
        out@ == lowercased(text@),
{
    text.to_lowercase()
}

/// Calls `char::is_whitespace`. Nothing is claimed of the result but that it
/// is what std answers for this character.
#[verifier::external_body]
pub(crate) fn is_whitespace(c: char) -> (space: bool)
    ensures
        space == is_space(c),
{
    c.is_whitespace()
}

/// `text` without the white space at its start.
pub open spec fn trimmed_start(text: Seq<char>) -> Seq<char>
    decreases text.len(),
{
    if text.len() > 0 && is_space(text[0]) {
        trimmed_start(text.skip(1))
    } else {
        text
    }
}

/// `text` without the white space at its end.
pub open spec fn trimmed_end(text: Seq<char>) -> Seq<char>
    decreases text.len(),
{
    if text.len() > 0 && is_space(text.last()) {
        trimmed_end(text.drop_last())
    } else {
        text
    }
}

/// `text` without the white space at its start and at its end.
pub open spec fn trimmed(text: Seq<char>) -> Seq<char> {
    trimmed_end(trimmed_start(text))
}

/// `text` without the white space at its start and at its end.
pub fn trim(text: &str) -> (out: &str)
    ensures
        out@ == trimmed(text@),
{
    let n = text.unicode_len();
    let mut i: usize = 0;
    assert(text@.skip(0) == text@);
    while i < n && is_whitespace(text.get_char(i))
        invariant
            i <= n,
            n == text@.len(),
            trimmed_start(text@) == trimmed_start(text@.skip(i as int)),
        decreases n - i,
    {
        assert(text@.skip(i as int).skip(1) == text@.skip(i + 1));
        i = i + 1;
    }
    assert(trimmed_start(text@) == text@.skip(i as int));
    let mut j: usize = n;
    assert(text@.subrange(i as int, n as int) == text@.skip(i as int));
    while j > i && is_whitespace(text.get_char(j - 1))
        invariant
            i <= j <= n,
            n == text@.len(),
            trimmed(text@) == trimmed_end(text@.subrange(i as int, j as int)),
        decreases j,
    {
        assert(text@.subrange(i as int, j as int).drop_last() == text@.subrange(
            i as int,
            j - 1,
        ));
        j = j - 1;
    }
    text.substring_char(i, j)
}

/// Trimming cuts white space off both ends and nothing else: what is left
/// is the part of `text` between two places, all before the first place and
/// all from the second on is white space, and what is left neither begins
/// nor ends with white space.
pub proof fn lemma_trimmed(text: Seq<char>) -> (ends: (int, int))
    ensures
        0 <= ends.0 <= ends.1 <= text.len(),
        trimmed(text) == text.subrange(ends.0, ends.1),
        forall|k: int| 0 <= k < ends.0 ==> is_space(text[k]),
        forall|k: int| ends.1 <= k < text.len() ==> is_space(text[k]),
        ends.0 < ends.1 ==> !is_space(text[ends.0]) && !is_space(text[ends.1 - 1]),
{
    let from = lemma_trimmed_start(text);
    let rest = text.skip(from);
    let keep = lemma_trimmed_end(rest);
    assert(rest.take(keep) == text.subrange(from, from + keep));
    assert forall|k: int| from + keep <= k < text.len() implies is_space(text[k]) by {
        assert(text[k] == rest[k - from]);
    }
    if keep > 0 {
        assert(rest[0] == text[from]);
        assert(rest[keep - 1] == text[from + keep - 1]);
    }
    (from, from + keep)
}

/// Where the white space at the start of `text` ends.
proof fn lemma_trimmed_start(text: Seq<char>) -> (from: int)
    ensures
        0 <= from <= text.len(),
        trimmed_start(text) == text.skip(from),
        forall|k: int| 0 <= k < from ==> is_space(text[k]),
        from < text.len() ==> !is_space(text[from]),
    decreases text.len(),
{
    if text.len() > 0 && is_space(text[0]) {
        let rest = text.skip(1);
        let from = lemma_trimmed_start(rest);
        assert(rest.skip(from) == text.skip(from + 1));
        assert forall|k: int| 0 <= k < from + 1 implies is_space(text[k]) by {
            if k > 0 {
                assert(text[k] == rest[k - 1]);
            }
        }
        if from < rest.len() {
            assert(rest[from] == text[from + 1]);
        }
        from + 1
    } else {
        assert(text.skip(0) == text);
        0
    }
}

/// Where the white space at the end of `text` begins.
proof fn lemma_trimmed_end(text: Seq<char>) -> (keep: int)
    ensures
        0 <= keep <= text.len(),
        trimmed_end(text) == text.take(keep),
        forall|k: int| keep <= k < text.len() ==> is_space(text[k]),
        keep > 0 ==> !is_space(text[keep - 1]),
    decreases text.len(),
{
    if text.len() > 0 && is_space(text.last()) {
        let rest = text.drop_last();
        let keep = lemma_trimmed_end(rest);
        assert(rest.take(keep) == text.take(keep));
        assert forall|k: int| keep <= k < text.len() implies is_space(text[k]) by {
            if k < text.len() - 1 {
                assert(text[k] == rest[k]);
            }
        }
        if keep > 0 {
            assert(rest[keep - 1] == text[keep - 1]);
        }
        keep
    } else {
        assert(text.take(text.len() as int) == text);
        text.len() as int
    }
}

/// Whether `a` comes before `b`, or is `b`, in the order of texts: the
/// first character in which they differ decides, by its code point, and a
/// text comes before those that it begins.
pub open spec fn text_le(a: Seq<char>, b: Seq<char>) -> bool
    decreases a.len(),
{
    if a.len() == 0 {
        true
    } else if b.len() == 0 {
        false
    } else if a[0] != b[0] {
        (a[0] as int) < (b[0] as int)
    } else {
        text_le(a.skip(1), b.skip(1))
    }
}

/// Whether `a` comes before `b`, or is `b`, in the order of texts.
pub fn precedes_or_equals(a: &str, b: &str) -> (le: bool)
    ensures
        le == text_le(a@, b@),
{
    let n = a.unicode_len();
    let m = b.unicode_len();
    let mut i: usize = 0;
    assert(a@.skip(0) == a@ && b@.skip(0) == b@);
    while i < n && i < m
        invariant
            i <= n,
            i <= m,
            n == a@.len(),
            m == b@.len(),
            text_le(a@, b@) == text_le(a@.skip(i as int), b@.skip(i as int)),
        decreases n - i,
    {
        let x = a.get_char(i);
        let y = b.get_char(i);
        if x != y {
            return (x as u32) < (y as u32);
        }
        assert(a@.skip(i as int).skip(1) == a@.skip(i + 1));
        assert(b@.skip(i as int).skip(1) == b@.skip(i + 1));
        i = i + 1;
    }
    i == n
}

/// Every text comes before or is itself.
pub proof fn lemma_text_le_reflexive(a: Seq<char>)
    ensures
        text_le(a, a),
    decreases a.len(),
{
    if a.len() > 0 {
        lemma_text_le_reflexive(a.skip(1));
    }
}

/// Of two texts, one comes before or is the other.
pub proof fn lemma_text_le_total(a: Seq<char>, b: Seq<char>)
    ensures
        text_le(a, b) || text_le(b, a),
    decreases a.len(),
{
    if a.len() > 0 && b.len() > 0 {
        lemma_text_le_total(a.skip(1), b.skip(1));
    }
}

/// The order of texts is transitive.
pub proof fn lemma_text_le_transitive(a: Seq<char>, b: Seq<char>, c: Seq<char>)
    requires
        text_le(a, b),
        text_le(b, c),
    ensures
        text_le(a, c),
    decreases a.len(),
{
    if a.len() > 0 && b.len() > 0 && c.len() > 0 {
        if a[0] == b[0] && b[0] == c[0] {
            lemma_text_le_transitive(a.skip(1), b.skip(1), c.skip(1));
        }
    }
}

} // verus!
