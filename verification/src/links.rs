//! Link normalization and length fitting for outgoing posts.
//!
//! Markdown links and raw URLs are reduced to a parenthesized domain,
//! full-width parentheses become ASCII ones, whitespace runs collapse to a
//! single space, and a final pass fits the text under the platform's
//! character limit, preferring to keep whole lines.

use vstd::prelude::*;
use crate::text::{
    chars_of, has_prefix_at, is_space, is_space_char, replace_all_spec, replace_all_vec,
    string_from_chars, trim_spec, trim_vec,
};

verus! {

/// First index at or after `i` where `c` occurs, or `s.len()`.
pub open spec fn find_char(s: Seq<char>, i: int, c: char) -> int
    decreases s.len() - i,
        when 0 <= i <= s.len()
{
    if i < s.len() && s[i] != c {
        find_char(s, i + 1, c)
    } else {
        i
    }
}

/// First index at or after `i` holding whitespace or `)`, where a URL run
/// ends, or `s.len()`.
pub open spec fn url_run_end(s: Seq<char>, i: int) -> int
    decreases s.len() - i,
        when 0 <= i <= s.len()
{
    if i < s.len() && !is_space_char(s[i]) && s[i] != ')' {
        url_run_end(s, i + 1)
    } else {
        i
    }
}

/// First index at or after `i`, below `cap`, holding `/`, `?` or
/// whitespace: where the domain part of a URL ends.
pub open spec fn dom_run_end(s: Seq<char>, i: int, cap: int) -> int
    decreases cap - i,
        when 0 <= i <= cap <= s.len()
{
    if i < cap && s[i] != '/' && s[i] != '?' && !is_space_char(s[i]) {
        dom_run_end(s, i + 1, cap)
    } else {
        i
    }
}

/// Length of the URL scheme found at `i`: 8 for `https://`, 7 for
/// `http://`, 0 when neither is there.
pub open spec fn scheme_len(s: Seq<char>, i: int) -> int {
    if "https://"@.is_prefix_of(s.skip(i)) {
        8
    } else if "http://"@.is_prefix_of(s.skip(i)) {
        7
    } else {
        0
    }
}

/// A markdown link `[label](http…)` starts at `i`: a bracketed non-empty
/// label, then a parenthesized URL whose run of non-space, non-`)`
/// characters ends at a closing `)`.
pub open spec fn md_at(s: Seq<char>, i: int) -> bool {
    let j = find_char(s, i + 1, ']');
    let sl = scheme_len(s, j + 2);
    let p = j + 2 + sl;
    let e = url_run_end(s, p);
    &&& 0 <= i < s.len()
    &&& s[i] == '['
    &&& i + 2 <= j
    &&& j + 1 < s.len()
    &&& s[j + 1] == '('
    &&& sl > 0
    &&& e > p
    &&& e < s.len()
    &&& s[e] == ')'
}

/// Index of the closing `)` of the markdown link at `i`.
pub open spec fn md_end(s: Seq<char>, i: int) -> int {
    let j = find_char(s, i + 1, ']');
    let sl = scheme_len(s, j + 2);
    url_run_end(s, j + 2 + sl)
}

/// The domain the markdown link at `i` is reduced to; `source` when the
/// URL has no host characters.
pub open spec fn md_dom(s: Seq<char>, i: int) -> Seq<char> {
    let j = find_char(s, i + 1, ']');
    let sl = scheme_len(s, j + 2);
    let p = j + 2 + sl;
    let e = url_run_end(s, p);
    let d = dom_run_end(s, p, e);
    if d > p {
        s.subrange(p, d)
    } else {
        "source"@
    }
}

/// A raw URL starts at `i`: a scheme and at least one further character
/// before whitespace or `)`.
pub open spec fn url_at(s: Seq<char>, i: int) -> bool {
    let sl = scheme_len(s, i);
    let e = url_run_end(s, i + sl);
    &&& 0 <= i < s.len()
    &&& sl > 0
    &&& e > i + sl
    &&& e <= s.len()
}

/// Index just past the raw URL at `i`.
pub open spec fn url_end(s: Seq<char>, i: int) -> int {
    url_run_end(s, i + scheme_len(s, i))
}

/// The domain the raw URL at `i` is reduced to.
pub open spec fn url_dom(s: Seq<char>, i: int) -> Seq<char> {
    let sl = scheme_len(s, i);
    let e = url_run_end(s, i + sl);
    let d = dom_run_end(s, i + sl, e);
    if d > i + sl {
        s.subrange(i + sl, d)
    } else {
        "source"@
    }
}

/// `s` from `i` on, with every markdown link replaced by `(domain)`.
pub open spec fn replace_md_from(s: Seq<char>, i: int) -> Seq<char>
    decreases s.len() - i,
        when 0 <= i
{
    if i >= s.len() {
        Seq::empty()
    } else if md_at(s, i) {
        seq!['('] + md_dom(s, i) + seq![')'] + replace_md_from(s, md_end(s, i) + 1)
    } else {
        seq![s[i]] + replace_md_from(s, i + 1)
    }
}

/// `s` from `i` on, with every raw URL replaced by `(domain)`.
pub open spec fn replace_url_from(s: Seq<char>, i: int) -> Seq<char>
    decreases s.len() - i,
        when 0 <= i
{
    if i >= s.len() {
        Seq::empty()
    } else if url_at(s, i) {
        seq!['('] + url_dom(s, i) + seq![')'] + replace_url_from(s, url_end(s, i))
    } else {
        seq![s[i]] + replace_url_from(s, i + 1)
    }
}

/// `s` from `i` on, with every whitespace run collapsed to one space.
pub open spec fn collapse_ws_from(s: Seq<char>, i: int) -> Seq<char>
    decreases s.len() - i,
        when 0 <= i
{
    if i >= s.len() {
        Seq::empty()
    } else if is_space_char(s[i]) && i + 1 < s.len() && is_space_char(s[i + 1]) {
        collapse_ws_from(s, i + 1)
    } else if is_space_char(s[i]) {
        seq![' '] + collapse_ws_from(s, i + 1)
    } else {
        seq![s[i]] + collapse_ws_from(s, i + 1)
    }
}

/// What `normalize_links_to_domains` returns: markdown links, then raw
/// URLs, reduced to `(domain)`; full-width parentheses made ASCII;
/// whitespace runs collapsed; ends trimmed.
pub open spec fn normalize_spec(s: Seq<char>) -> Seq<char> {
    trim_spec(
        collapse_ws_from(
            replace_all_spec(
                replace_all_spec(
                    replace_url_from(replace_md_from(s, 0), 0),
                    seq!['\u{ff08}'],
                    seq!['('],
                ),
                seq!['\u{ff09}'],
                seq![')'],
            ),
            0,
        ),
    )
}

fn find_char_exec(v: &Vec<char>, i: usize, c: char) -> (j: usize)
    requires
        i <= v@.len(),
    ensures
        j == find_char(v@, i as int, c),
        i <= j <= v@.len(),
{
    let n = v.len();
    let mut j = i;
    while j < n && v[j] != c
        invariant
            i <= j <= n == v@.len(),
            find_char(v@, i as int, c) == find_char(v@, j as int, c),
        decreases n - j,
    {
        j += 1;
    }
    j
}

fn url_run_end_exec(v: &Vec<char>, i: usize) -> (j: usize)
    requires
        i <= v@.len(),
    ensures
        j == url_run_end(v@, i as int),
        i <= j <= v@.len(),
{
    let n = v.len();
    let mut j = i;
    while j < n && !is_space(v[j]) && v[j] != ')'
        invariant
            i <= j <= n == v@.len(),
            url_run_end(v@, i as int) == url_run_end(v@, j as int),
        decreases n - j,
    {
        j += 1;
    }
    j
}

fn dom_run_end_exec(v: &Vec<char>, i: usize, cap: usize) -> (j: usize)
    requires
        i <= cap <= v@.len(),
    ensures
        j == dom_run_end(v@, i as int, cap as int),
        i <= j <= cap,
{
    let mut j = i;
    while j < cap && v[j] != '/' && v[j] != '?' && !is_space(v[j])
        invariant
            i <= j <= cap <= v@.len(),
            dom_run_end(v@, i as int, cap as int) == dom_run_end(v@, j as int, cap as int),
        decreases cap - j,
    {
        j += 1;
    }
    j
}

fn scheme_len_exec(v: &Vec<char>, i: usize) -> (r: usize)
    requires
        i <= v@.len(),
    ensures
        r == scheme_len(v@, i as int),
        r > 0 ==> i + r <= v@.len(),
{
    proof {
        reveal_strlit("https://");
        reveal_strlit("http://");
    }
    if has_prefix_at(v, i, &chars_of("https://")) {
        8
    } else if has_prefix_at(v, i, &chars_of("http://")) {
        7
    } else {
        0
    }
}

/// Appends `(` + the domain + `)` to `out`, for a span whose domain runs
/// from `p` to `d` (the fallback label when the span is empty).
fn push_domain(out: &mut Vec<char>, v: &Vec<char>, p: usize, d: usize)
    requires
        p <= d <= v@.len(),
    ensures
        final(out)@ == old(out)@ + seq!['('] + (if d > p {
            v@.subrange(p as int, d as int)
        } else {
            "source"@
        }) + seq![')'],
{
    out.push('(');
    if d > p {
        let mid = crate::text::subrange_vec(v, p, d);
        crate::text::push_all(out, &mid);
    } else {
        let src = chars_of("source");
        crate::text::push_all(out, &src);
    }
    out.push(')');
    proof {
        assert(final(out)@ =~= old(out)@ + seq!['('] + (if d > p {
            v@.subrange(p as int, d as int)
        } else {
            "source"@
        }) + seq![')']);
    }
}

fn replace_md_exec(v: &Vec<char>) -> (r: Vec<char>)
    ensures
        r@ == replace_md_from(v@, 0),
{
    let n = v.len();
    let mut out: Vec<char> = Vec::new();
    let mut i: usize = 0;
    proof {
        assert(Seq::<char>::empty() + replace_md_from(v@, 0) =~= replace_md_from(v@, 0));
    }
    while i < n
        invariant
            n == v@.len(),
            i <= n,
            replace_md_from(v@, 0) == out@ + replace_md_from(v@, i as int),
        decreases n - i,
    {
        let mut matched = false;
        if v[i] == '[' {
            let j = find_char_exec(v, i + 1, ']');
            if j - i >= 2 && n - j > 1 && v[j + 1] == '(' {
                let sl = scheme_len_exec(v, j + 2);
                if sl > 0 {
                    let p = j + 2 + sl;
                    let e = url_run_end_exec(v, p);
                    if e > p && e < n && v[e] == ')' {
                        proof {
                            assert(md_at(v@, i as int));
                        }
                        let d = dom_run_end_exec(v, p, e);
                        push_domain(&mut out, v, p, d);
                        matched = true;
                        i = e + 1;
                    }
                }
            }
        }
        if !matched {
            proof {
                assert(!md_at(v@, i as int));
            }
            out.push(v[i]);
            i += 1;
        }
    }
    proof {
        assert(out@ + Seq::<char>::empty() =~= out@);
    }
    out
}

fn replace_url_exec(v: &Vec<char>) -> (r: Vec<char>)
    ensures
        r@ == replace_url_from(v@, 0),
{
    let n = v.len();
    let mut out: Vec<char> = Vec::new();
    let mut i: usize = 0;
    proof {
        assert(Seq::<char>::empty() + replace_url_from(v@, 0) =~= replace_url_from(v@, 0));
    }
    while i < n
        invariant
            n == v@.len(),
            i <= n,
            replace_url_from(v@, 0) == out@ + replace_url_from(v@, i as int),
        decreases n - i,
    {
        let sl = scheme_len_exec(v, i);
        let mut matched = false;
        if sl > 0 {
            let e = url_run_end_exec(v, i + sl);
            if e > i + sl {
                proof {
                    assert(url_at(v@, i as int));
                }
                let d = dom_run_end_exec(v, i + sl, e);
                push_domain(&mut out, v, i + sl, d);
                matched = true;
                i = e;
            }
        }
        if !matched {
            proof {
                assert(!url_at(v@, i as int));
            }
            out.push(v[i]);
            i += 1;
        }
    }
    proof {
        assert(out@ + Seq::<char>::empty() =~= out@);
    }
    out
}

fn collapse_ws_exec(v: &Vec<char>) -> (r: Vec<char>)
    ensures
        r@ == collapse_ws_from(v@, 0),
{
    let n = v.len();
    let mut out: Vec<char> = Vec::new();
    let mut i: usize = 0;
    proof {
        assert(Seq::<char>::empty() + collapse_ws_from(v@, 0) =~= collapse_ws_from(v@, 0));
    }
    while i < n
        invariant
            n == v@.len(),
            i <= n,
            collapse_ws_from(v@, 0) == out@ + collapse_ws_from(v@, i as int),
        decreases n - i,
    {
        if is_space(v[i]) {
            if i + 1 < n && is_space(v[i + 1]) {
                // more whitespace follows: emit nothing for this one
            } else {
                out.push(' ');
            }
        } else {
            out.push(v[i]);
        }
        i += 1;
    }
    proof {
        assert(out@ + Seq::<char>::empty() =~= out@);
    }
    out
}

fn normalize_chars(v: &Vec<char>) -> (r: Vec<char>)
    ensures
        r@ == normalize_spec(v@),
{
    let m = replace_md_exec(v);
    let u = replace_url_exec(&m);
    let mut open_fw: Vec<char> = Vec::new();
    open_fw.push('\u{ff08}');
    let mut open_ascii: Vec<char> = Vec::new();
    open_ascii.push('(');
    let mut close_fw: Vec<char> = Vec::new();
    close_fw.push('\u{ff09}');
    let mut close_ascii: Vec<char> = Vec::new();
    close_ascii.push(')');
    let f1 = replace_all_vec(&u, &open_fw, &open_ascii);
    let f2 = replace_all_vec(&f1, &close_fw, &close_ascii);
    let c = collapse_ws_exec(&f2);
    trim_vec(&c)
}

/// Normalizes links for a plain-text post: markdown links and raw URLs
/// become `(domain)`, full-width parentheses become ASCII, whitespace runs
/// collapse to one space, and the ends are trimmed.
pub fn normalize_links_to_domains(input: &str) -> (r: String)
    ensures
        r@ == normalize_spec(input@),
{
    let v = chars_of(input);
    let c = normalize_chars(&v);
    string_from_chars(&c)
}

proof fn lemma_find_char_bounds(s: Seq<char>, i: int, c: char)
    requires
        0 <= i <= s.len(),
    ensures
        i <= find_char(s, i, c) <= s.len(),
    decreases s.len() - i,
{
    if i < s.len() && s[i] != c {
        lemma_find_char_bounds(s, i + 1, c);
    }
}

/// The lines of `s` from `i` on, split at `\n`, each with one trailing
/// `\r` removed, the final line-break yielding no empty last line — as
/// `str::lines` splits.
pub open spec fn split_lines_from(s: Seq<char>, i: int) -> Seq<Seq<char>>
    decreases s.len() + 1 - i,
        when 0 <= i
        via split_lines_from_decreases
{
    if i >= s.len() {
        Seq::empty()
    } else {
        let e = find_char(s, i, '\n');
        let raw = s.subrange(i, e);
        let line = if raw.len() > 0 && raw.last() == '\r' {
            raw.drop_last()
        } else {
            raw
        };
        seq![line] + split_lines_from(s, e + 1)
    }
}

#[via_fn]
proof fn split_lines_from_decreases(s: Seq<char>, i: int) {
    if 0 <= i < s.len() {
        lemma_find_char_bounds(s, i, '\n');
    }
}

/// Greedy packing of whole lines under `limit` characters, lines joined
/// by `\n`; stops at the first line that will not fit.
pub open spec fn pack_lines(lines: Seq<Seq<char>>, acc: Seq<char>, limit: nat) -> Seq<char>
    decreases lines.len(),
{
    if lines.len() == 0 {
        acc
    } else {
        let t = if acc.len() == 0 {
            lines[0]
        } else {
            acc + seq!['\n'] + lines[0]
        };
        if t.len() <= limit {
            pack_lines(lines.drop_first(), t, limit)
        } else {
            acc
        }
    }
}

/// `s` cut to leave room for a closing ellipsis under `limit` characters.
pub open spec fn truncate_spec(s: Seq<char>, limit: nat) -> Seq<char> {
    let keep = if limit == 0 {
        0
    } else if s.len() <= limit - 1 {
        s.len() as int
    } else {
        limit - 1
    };
    s.take(keep) + seq!['\u{2026}']
}

/// What `fit_for_mastodon_plain` returns: the normalized text when it
/// fits; otherwise as many whole lines as fit; otherwise a truncation
/// ending in an ellipsis.
pub open spec fn fit_spec(input: Seq<char>, limit: nat) -> Seq<char> {
    let s = trim_spec(replace_all_spec(normalize_spec(input), seq!['\u{3000}'], seq![' ']));
    if s.len() <= limit {
        s
    } else {
        let packed = pack_lines(split_lines_from(s, 0), Seq::empty(), limit);
        if packed.len() > 0 {
            packed
        } else {
            truncate_spec(s, limit)
        }
    }
}

spec fn views_of(l: Seq<Vec<char>>) -> Seq<Seq<char>> {
    l.map_values(|x: Vec<char>| x@)
}

fn split_lines_exec(v: &Vec<char>) -> (r: Vec<Vec<char>>)
    ensures
        views_of(r@) == split_lines_from(v@, 0),
{
    let n = v.len();
    let mut out: Vec<Vec<char>> = Vec::new();
    let mut i: usize = 0;
    proof {
        assert(views_of(out@) + split_lines_from(v@, 0) =~= split_lines_from(v@, 0));
    }
    while i < n
        invariant
            n == v@.len(),
            i <= n,
            split_lines_from(v@, 0) == views_of(out@) + split_lines_from(v@, i as int),
        decreases n - i,
    {
        let e = find_char_exec(v, i, '\n');
        let mut raw = crate::text::subrange_vec(v, i, e);
        let ghost raw0 = raw@;
        if raw.len() > 0 && raw[raw.len() - 1] == '\r' {
            raw.pop();
            proof {
                assert(raw@ =~= raw0.drop_last());
            }
        }
        let ghost prev_out = out@;
        out.push(raw);
        let ghost old_i = i as int;
        if e >= n {
            i = n;
        } else {
            i = e + 1;
        }
        proof {
            assert(views_of(out@) =~= views_of(prev_out).push(raw@));
            if e == n {
                assert(split_lines_from(v@, n as int + 1) =~= Seq::<Seq<char>>::empty());
                assert(split_lines_from(v@, n as int) =~= Seq::<Seq<char>>::empty());
            }
            assert(split_lines_from(v@, old_i) =~= seq![raw@] + split_lines_from(
                v@,
                find_char(v@, old_i, '\n') + 1,
            ));
            assert(views_of(prev_out) + split_lines_from(v@, old_i) =~= views_of(out@)
                + split_lines_from(v@, i as int));
        }
    }
    proof {
        assert(split_lines_from(v@, n as int) =~= Seq::<Seq<char>>::empty());
        assert(views_of(out@) + Seq::<Seq<char>>::empty() =~= views_of(out@));
    }
    out
}

fn pack_exec(lines: &Vec<Vec<char>>, limit: usize) -> (r: Vec<char>)
    ensures
        r@ == pack_lines(views_of(lines@), Seq::empty(), limit as nat),
{
    let n = lines.len();
    let mut acc: Vec<char> = Vec::new();
    let mut k: usize = 0;
    proof {
        assert(views_of(lines@).skip(0) =~= views_of(lines@));
    }
    while k < n
        invariant
            n == lines@.len(),
            k <= n,
            pack_lines(views_of(lines@), Seq::empty(), limit as nat) == pack_lines(
                views_of(lines@).skip(k as int),
                acc@,
                limit as nat,
            ),
        decreases n - k,
    {
        let ghost rest = views_of(lines@).skip(k as int);
        let mut t: Vec<char> = Vec::new();
        if acc.len() > 0 {
            crate::text::push_all(&mut t, &acc);
            t.push('\n');
        }
        crate::text::push_all(&mut t, &lines[k]);
        proof {
            assert(rest[0] == lines@[k as int]@);
            if acc@.len() == 0 {
                assert(t@ =~= rest[0]);
            } else {
                assert(t@ =~= acc@ + seq!['\n'] + rest[0]);
            }
        }
        if t.len() <= limit {
            acc = t;
            k += 1;
            proof {
                assert(rest.drop_first() =~= views_of(lines@).skip(k as int));
            }
        } else {
            return acc;
        }
    }
    proof {
        assert(views_of(lines@).skip(n as int) =~= Seq::<Seq<char>>::empty());
    }
    acc
}

fn truncate_exec(v: &Vec<char>, limit: usize) -> (r: Vec<char>)
    ensures
        r@ == truncate_spec(v@, limit as nat),
{
    let n = v.len();
    let mut out: Vec<char> = Vec::new();
    let mut i: usize = 0;
    while i < n && i + 1 < limit
        invariant
            n == v@.len(),
            i <= n,
            out@ == v@.take(i as int),
            i + 1 <= limit || i == 0,
            limit > 0 ==> i <= limit - 1,
        decreases n - i,
    {
        out.push(v[i]);
        i += 1;
        proof {
            assert(out@ =~= v@.take(i as int));
        }
    }
    out.push('\u{2026}');
    proof {
        let keep = if (limit as nat) == 0 {
            0
        } else if v@.len() <= limit as nat - 1 {
            v@.len() as int
        } else {
            limit - 1
        };
        assert(out@ =~= v@.take(keep) + seq!['\u{2026}']);
    }
    out
}

/// Fits `input` under `limit` characters for a plain post: links are
/// normalized first; if the result is too long, whole lines are kept
/// greedily; if not even one line fits, the text is cut and ends with an
/// ellipsis.
pub fn fit_for_mastodon_plain(input: &str, limit: usize) -> (r: String)
    ensures
        r@ == fit_spec(input@, limit as nat),
{
    let v = chars_of(input);
    let norm = normalize_chars(&v);
    let mut fw_space: Vec<char> = Vec::new();
    fw_space.push('\u{3000}');
    let mut ascii_space: Vec<char> = Vec::new();
    ascii_space.push(' ');
    let rep = replace_all_vec(&norm, &fw_space, &ascii_space);
    let s = trim_vec(&rep);
    if s.len() <= limit {
        return string_from_chars(&s);
    }
    let lines = split_lines_exec(&s);
    let packed = pack_exec(&lines, limit);
    if packed.len() > 0 {
        string_from_chars(&packed)
    } else {
        let t = truncate_exec(&s, limit);
        string_from_chars(&t)
    }
}

} // verus!
