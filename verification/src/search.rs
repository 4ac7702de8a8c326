//! The forced-search heuristic: a deterministic lexical test that decides
//! whether a user's text asks about release notes, changelogs or version
//! numbers, in Japanese or English, and so needs the web-search tool.

use vstd::prelude::*;
use crate::text::{chars_of, contains_pat, contains_seq, has_prefix_at, is_space, is_space_char};

verus! {

/// An ASCII decimal digit.
pub open spec fn is_digit_char(c: char) -> bool {
    0x30 <= c as u32 && c as u32 <= 0x39
}

/// A character that continues a word for the boundary test: ASCII letters,
/// digits and underscore; any multibyte character counts as a word
/// character here too, so a version number glued to Japanese text has no
/// boundary around it.
pub open spec fn is_word_char(c: char) -> bool {
    ||| is_digit_char(c)
    ||| (0x61 <= c as u32 && c as u32 <= 0x7a)
    ||| (0x41 <= c as u32 && c as u32 <= 0x5a)
    ||| c == '_'
    ||| c as u32 >= 0x80
}

fn is_digit(c: char) -> (r: bool)
    ensures
        r == is_digit_char(c),
{
    let n = c as u32;
    0x30 <= n && n <= 0x39
}

fn is_word(c: char) -> (r: bool)
    ensures
        r == is_word_char(c),
{
    let n = c as u32;
    (0x30 <= n && n <= 0x39) || (0x61 <= n && n <= 0x7a) || (0x41 <= n && n <= 0x5a) || n == 0x5f
        || n >= 0x80
}

/// Two literal fragments with an arbitrary whitespace run between them,
/// starting at `i` with the second fragment at `j`.
pub open spec fn gap_at(s: Seq<char>, a: Seq<char>, b: Seq<char>, i: int, j: int) -> bool {
    &&& 0 <= i
    &&& i + a.len() <= j <= s.len()
    &&& a.is_prefix_of(s.skip(i))
    &&& b.is_prefix_of(s.skip(j))
    &&& forall|t: int| i + a.len() <= t < j ==> is_space_char(s[t])
}

/// `a`, then any whitespace, then `b`, somewhere in `s` — the shape of the
/// English "release notes" / "what's new" / "patch notes" patterns.
pub open spec fn gap_match(s: Seq<char>, a: Seq<char>, b: Seq<char>) -> bool {
    exists|i: int, j: int| gap_at(s, a, b, i, j)
}

/// First index at or after `k` holding a non-whitespace character.
fn first_non_space(s: &Vec<char>, k: usize) -> (j: usize)
    requires
        k <= s@.len(),
    ensures
        k <= j <= s@.len(),
        forall|t: int| k <= t < j ==> is_space_char(s@[t]),
        j < s@.len() ==> !is_space_char(s@[j as int]),
    decreases s@.len() - k,
{
    let n = s.len();
    let mut j = k;
    while j < n && is_space(s[j])
        invariant
            k <= j <= n == s@.len(),
            forall|t: int| k <= t < j ==> is_space_char(s@[t]),
        decreases n - j,
    {
        j += 1;
    }
    j
}

fn gap_match_exec(s: &Vec<char>, a: &Vec<char>, b: &Vec<char>) -> (r: bool)
    requires
        a@.len() > 0,
        b@.len() > 0,
        !is_space_char(b@[0]),
    ensures
        r == gap_match(s@, a@, b@),
{
    let n = s.len();
    let mut i: usize = 0;
    while i < n
        invariant
            n == s@.len(),
            i <= n,
            a@.len() > 0,
            b@.len() > 0,
            !is_space_char(b@[0]),
            forall|i0: int, j0: int| 0 <= i0 < i ==> !gap_at(s@, a@, b@, i0, j0),
        decreases n - i,
    {
        if has_prefix_at(s, i, a) {
            let k = i + a.len();
            let j = first_non_space(s, k);
            if has_prefix_at(s, j, b) {
                proof {
                    assert(gap_at(s@, a@, b@, i as int, j as int));
                }
                return true;
            }
            proof {
                assert forall|j0: int| !gap_at(s@, a@, b@, i as int, j0) by {
                    if gap_at(s@, a@, b@, i as int, j0) {
                        assert(b@[0] == s@.skip(j0).subrange(0, b@.len() as int)[0]);
                        assert(s@[j0] == b@[0]);
                        assert(!is_space_char(s@[j0]));
                        if j0 < j {
                            assert(is_space_char(s@[j0]));
                        } else if j0 > j {
                            assert(is_space_char(s@[j as int]));
                        }
                        assert(j0 == j);
                    }
                }
            }
        } else {
            proof {
                assert forall|j0: int| !gap_at(s@, a@, b@, i as int, j0) by {}
            }
        }
        i += 1;
    }
    proof {
        assert forall|i0: int, j0: int| !gap_at(s@, a@, b@, i0, j0) by {
            if gap_at(s@, a@, b@, i0, j0) {
                assert(i0 + a@.len() <= s@.len());
                assert(0 <= i0 < n);
            }
        }
    }
    false
}

/// First index at or after `i` holding a non-digit character.
pub open spec fn digit_run_end(s: Seq<char>, i: int) -> int
    decreases s.len() - i,
        when 0 <= i <= s.len()
{
    if i < s.len() && is_digit_char(s[i]) {
        digit_run_end(s, i + 1)
    } else {
        i
    }
}

/// A version number starting at `i`: a word boundary, one digit run, a
/// dot, a second digit run, and a word boundary after it.  A third
/// dot-separated run never adds matches, since a dot already makes the
/// closing boundary.
pub open spec fn version_at(s: Seq<char>, i: int) -> bool {
    let d1 = digit_run_end(s, i);
    let d2 = digit_run_end(s, d1 + 1);
    &&& 0 <= i < s.len()
    &&& is_digit_char(s[i])
    &&& (i == 0 || !is_word_char(s[i - 1]))
    &&& d1 < s.len()
    &&& s[d1] == '.'
    &&& d1 + 1 < s.len()
    &&& is_digit_char(s[d1 + 1])
    &&& (d2 == s.len() || !is_word_char(s[d2]))
}

/// A dotted version number with word boundaries occurs in `s`.
pub open spec fn version_match(s: Seq<char>) -> bool {
    exists|i: int| version_at(s, i)
}

fn digit_run_end_exec(s: &Vec<char>, i: usize) -> (j: usize)
    requires
        i <= s@.len(),
    ensures
        j == digit_run_end(s@, i as int),
        i <= j <= s@.len(),
{
    let n = s.len();
    let mut j = i;
    while j < n && is_digit(s[j])
        invariant
            i <= j <= n == s@.len(),
            digit_run_end(s@, i as int) == digit_run_end(s@, j as int),
        decreases n - j,
    {
        j += 1;
    }
    j
}

fn version_at_exec(s: &Vec<char>, i: usize) -> (r: bool)
    requires
        i < s@.len(),
    ensures
        r == version_at(s@, i as int),
{
    if !is_digit(s[i]) {
        return false;
    }
    if i > 0 && is_word(s[i - 1]) {
        return false;
    }
    let n = s.len();
    let d1 = digit_run_end_exec(s, i);
    if d1 >= n || s[d1] != '.' {
        return false;
    }
    if d1 + 1 >= n || !is_digit(s[d1 + 1]) {
        return false;
    }
    let d2 = digit_run_end_exec(s, d1 + 1);
    d2 >= n || !is_word(s[d2])
}

fn version_match_exec(s: &Vec<char>) -> (r: bool)
    ensures
        r == version_match(s@),
{
    let n = s.len();
    let mut i: usize = 0;
    while i < n
        invariant
            n == s@.len(),
            i <= n,
            forall|i0: int| 0 <= i0 < i ==> !version_at(s@, i0),
        decreases n - i,
    {
        if version_at_exec(s, i) {
            return true;
        }
        i += 1;
    }
    false
}

/// The Japanese keywords of the heuristic.
pub open spec fn jp_keyword_match(s: Seq<char>) -> bool {
    ||| contains_seq(s, "リリースノート"@)
    ||| contains_seq(s, "変更点"@)
    ||| contains_seq(s, "変更履歴"@)
    ||| contains_seq(s, "ハイライト"@)
    ||| contains_seq(s, "新機能"@)
    ||| contains_seq(s, "何が新しい"@)
    ||| contains_seq(s, "何が変わった"@)
    ||| contains_seq(s, "教えて"@)
}

/// The English keywords of the heuristic: "changelog" and "highlight" as
/// plain substrings, and the whitespace-gapped pairs "release … note",
/// "patch … note", "whats/what's … new".
pub open spec fn en_keyword_match(s: Seq<char>) -> bool {
    ||| contains_seq(s, "changelog"@)
    ||| contains_seq(s, "highlight"@)
    ||| gap_match(s, "release"@, "note"@)
    ||| gap_match(s, "patch"@, "note"@)
    ||| gap_match(s, "whats"@, "new"@)
    ||| gap_match(s, "what's"@, "new"@)
}

/// The whole heuristic: any Japanese keyword, any English pattern, or a
/// dotted version number.
pub open spec fn should_force_search_spec(s: Seq<char>) -> bool {
    jp_keyword_match(s) || en_keyword_match(s) || version_match(s)
}

/// Decides whether the user's text asks for release-note-like information
/// and so must run with the web-search tool enabled.
pub fn should_force_search(user_text: &str) -> (r: bool)
    ensures
        r == should_force_search_spec(user_text@),
{
    proof {
        reveal_strlit("note");
        reveal_strlit("new");
        reveal_strlit("release");
        reveal_strlit("patch");
        reveal_strlit("whats");
        reveal_strlit("what's");
    }
    let s = chars_of(user_text);
    let jp = contains_pat(&s, &chars_of("リリースノート")) || contains_pat(&s, &chars_of("変更点"))
        || contains_pat(&s, &chars_of("変更履歴")) || contains_pat(&s, &chars_of("ハイライト"))
        || contains_pat(&s, &chars_of("新機能")) || contains_pat(&s, &chars_of("何が新しい"))
        || contains_pat(&s, &chars_of("何が変わった")) || contains_pat(&s, &chars_of("教えて"));
    if jp {
        return true;
    }
    let en = contains_pat(&s, &chars_of("changelog")) || contains_pat(&s, &chars_of("highlight"))
        || gap_match_exec(&s, &chars_of("release"), &chars_of("note"))
        || gap_match_exec(&s, &chars_of("patch"), &chars_of("note"))
        || gap_match_exec(&s, &chars_of("whats"), &chars_of("new"))
        || gap_match_exec(&s, &chars_of("what's"), &chars_of("new"));
    if en {
        return true;
    }
    version_match_exec(&s)
}

} // verus!
