//! Removal of markup tags from cell text.
use regex::Regex;
use vstd::prelude::*;

verus! {

/// The regular expression that describes one markup tag: a `<`, any run of
/// characters other than `>`, and the closing `>`.
pub const TAG_PATTERN: &'static str = "<[^>]*>";

/// Index of the first `>` of `s` at or after `from`; `s.len()` when there is none.
pub open spec fn first_close(s: Seq<char>, from: int) -> int
    decreases s.len() - from,
{
    if from < 0 || from >= s.len() {
        s.len() as int
    } else if s[from] == '>' {
        from
    } else {
        first_close(s, from + 1)
    }
}

/// The text of `s` from index `from` on, with every tag deleted. Tags are
/// found from left to right and do not overlap: a `<` opens a tag exactly when
/// some `>` follows it, and the tag ends at the first such `>`.
pub open spec fn strip_tags_from(s: Seq<char>, from: int) -> Seq<char>
    decreases s.len() - from,
    via strip_tags_from_decreases
{
    if from < 0 || from >= s.len() {
        Seq::empty()
    } else if s[from] == '<' && first_close(s, from + 1) < s.len() {
        strip_tags_from(s, first_close(s, from + 1) + 1)
    } else {
        seq![s[from]] + strip_tags_from(s, from + 1)
    }
}

#[via_fn]
proof fn strip_tags_from_decreases(s: Seq<char>, from: int) {
    if 0 <= from < s.len() {
        lemma_first_close_bounds(s, from + 1);
    }
}

/// `s` with every tag deleted.
pub open spec fn strip_tags(s: Seq<char>) -> Seq<char> {
    strip_tags_from(s, 0)
}

/// `t` is one tag: it matches `<[^>]*>` as a whole.
pub open spec fn is_tag(t: Seq<char>) -> bool {
    &&& t.len() >= 2
    &&& t[0] == '<'
    &&& t[t.len() - 1] == '>'
    &&& forall|k: int| 1 <= k < t.len() - 1 ==> t[k] != '>'
}

/// Some substring of `s` is a tag.
pub open spec fn contains_tag(s: Seq<char>) -> bool {
    exists|i: int, j: int| 0 <= i < j <= s.len() && is_tag(#[trigger] s.subrange(i, j))
}

/// Compiles `pattern` with `regex::Regex::new` and calls
/// `regex::Regex::replace_all` on `haystack` with `replacement`.
///
/// The contract speaks of one pattern only, [`TAG_PATTERN`], with an empty
/// replacement. For these it claims that the pattern compiles and that the
/// call returns the haystack without its matches: `replace_all` replaces all
/// non-overlapping matches, found leftmost first, and a match of this pattern
/// starts at a `<` that some `>` follows and ends at the first such `>`
/// (the class `[^>]` admits every character but `>`, line breaks included).
#[verifier::external_body]
fn regex_replace_all(pattern: &str, haystack: &str, replacement: &str) -> (out: String)
    requires
        pattern@ == TAG_PATTERN@,
        replacement@.len() == 0,
    ensures
        out@ == strip_tags(haystack@),
{
    Regex::new(pattern).unwrap().replace_all(haystack, replacement).into_owned()
}

/// Deletes every markup tag from `input`.
pub fn remove_html_tags(input: &str) -> (out: String)
    ensures
        out@ == strip_tags(input@),
        !contains_tag(out@),
{
    proof {
        reveal_strlit("");
        lemma_strip_tags_leaves_no_tag(input@);
    }
    regex_replace_all(TAG_PATTERN, input, "")
}

/// No `>` at or after `from` in `s` means none in what `strip_tags_from` keeps.
proof fn lemma_strip_keeps_no_close(s: Seq<char>, from: int)
    requires
        0 <= from,
        first_close(s, from) >= s.len(),
    ensures
        forall|k: int| 0 <= k < strip_tags_from(s, from).len() ==> strip_tags_from(s, from)[k] != '>',
    decreases s.len() - from,
{
    let out = strip_tags_from(s, from);
    if from < s.len() {
        let rest = strip_tags_from(s, from + 1);
        lemma_strip_keeps_no_close(s, from + 1);
        assert(out == seq![s[from]] + rest);
        assert forall|k: int| 0 <= k < out.len() implies out[k] != '>' by {
            if k >= 1 {
                assert(out[k] == rest[k - 1]);
            }
        }
    }
}

/// What is left after deleting the tags from index `from` on holds no tag.
proof fn lemma_strip_from_leaves_no_tag(s: Seq<char>, from: int)
    requires
        0 <= from,
    ensures
        !contains_tag(strip_tags_from(s, from)),
    decreases s.len() - from,
{
    let out = strip_tags_from(s, from);
    if from >= s.len() {
    } else if s[from] == '<' && first_close(s, from + 1) < s.len() {
        lemma_first_close_bounds(s, from + 1);
        lemma_strip_from_leaves_no_tag(s, first_close(s, from + 1) + 1);
    } else {
        let rest = strip_tags_from(s, from + 1);
        lemma_strip_from_leaves_no_tag(s, from + 1);
        assert forall|i: int, j: int| 0 <= i < j <= out.len() implies !is_tag(
            #[trigger] out.subrange(i, j),
        ) by {
            if is_tag(out.subrange(i, j)) {
                if i >= 1 {
                    assert(out.subrange(i, j) =~= rest.subrange(i - 1, j - 1));
                } else {
                    assert(out.subrange(i, j)[0] == s[from]);
                    assert(out.subrange(i, j)[j - i - 1] == rest[j - 2]);
                    lemma_strip_keeps_no_close(s, from + 1);
                }
            }
        }
    }
}

/// `first_close` answers with the index of a `>` at or after `from`, or with `s.len()`.
proof fn lemma_first_close_bounds(s: Seq<char>, from: int)
    requires
        0 <= from,
    ensures
        first_close(s, from) <= s.len(),
        first_close(s, from) < s.len() ==> from <= first_close(s, from) && s[first_close(s, from)]
            == '>',
    decreases s.len() - from,
{
    if from < s.len() && s[from] != '>' {
        lemma_first_close_bounds(s, from + 1);
    }
}

/// Deleting the tags of a text leaves a text without tags.
pub proof fn lemma_strip_tags_leaves_no_tag(s: Seq<char>)
    ensures
        !contains_tag(strip_tags(s)),
{
    lemma_strip_from_leaves_no_tag(s, 0);
}

} // verus!
