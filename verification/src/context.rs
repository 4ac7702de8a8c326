//! The thread-context resolver: from a mention's thread it derives a
//! stable thread key and a flattened transcript of the last few posts.

use vstd::prelude::*;
use vstd::string::StrSliceExecFns;
use vstd::string::StringExecFns;
use crate::html::{strip_html, strip_html_spec};
use crate::mastodon::{Status, StatusContext};

verus! {

/// How many ancestors the transcript looks back at.
pub const MAX_TRANSCRIPT_ANCESTORS: usize = 10;

/// The last `MAX_TRANSCRIPT_ANCESTORS` elements of `ancs` (all of them
/// when there are fewer).
pub open spec fn window(ancs: Seq<Status>) -> Seq<Status> {
    if ancs.len() > MAX_TRANSCRIPT_ANCESTORS {
        ancs.skip(ancs.len() - MAX_TRANSCRIPT_ANCESTORS)
    } else {
        ancs
    }
}

/// The stripped text of each status, in order.
pub open spec fn stripped_of(sts: Seq<Status>) -> Seq<Seq<char>> {
    sts.map_values(|s: Status| strip_html_spec(s.content@))
}

/// The non-empty entries of `ts`, in order.
pub open spec fn nonempty_of(ts: Seq<Seq<char>>) -> Seq<Seq<char>>
    decreases ts.len(),
{
    if ts.len() == 0 {
        Seq::empty()
    } else if ts[0].len() > 0 {
        seq![ts[0]] + nonempty_of(ts.drop_first())
    } else {
        nonempty_of(ts.drop_first())
    }
}

/// The transcript's lines: the non-empty stripped texts of the ancestor
/// window, oldest first, then the current status's stripped text when it
/// is non-empty.
pub open spec fn transcript_lines(ancestors: Seq<Status>, current: Status) -> Seq<Seq<char>> {
    let cur = strip_html_spec(current.content@);
    nonempty_of(stripped_of(window(ancestors))) + if cur.len() > 0 {
        seq![cur]
    } else {
        Seq::empty()
    }
}

/// The bullet lines after the first, each led in by a newline.
pub open spec fn tail_join(lines: Seq<Seq<char>>) -> Seq<char>
    decreases lines.len(),
{
    if lines.len() == 0 {
        Seq::empty()
    } else {
        seq!['\n', '-', ' '] + lines[0] + tail_join(lines.drop_first())
    }
}

/// The lines, each prefixed `- `, joined by newlines.
pub open spec fn bullet_join(lines: Seq<Seq<char>>) -> Seq<char> {
    if lines.len() == 0 {
        Seq::empty()
    } else {
        seq!['-', ' '] + lines[0] + tail_join(lines.drop_first())
    }
}

/// Flattens a thread into the transcript text: one `- ` bullet per
/// non-empty stripped status, the ancestor window oldest first, the
/// current status last.
pub fn format_conversation_context(ctx: &StatusContext, current: &Status) -> (r: String)
    ensures
        r@ == bullet_join(transcript_lines(ctx.ancestors@, *current)),
{
    let len = ctx.ancestors.len();
    let start = if len > MAX_TRANSCRIPT_ANCESTORS {
        len - MAX_TRANSCRIPT_ANCESTORS
    } else {
        0
    };
    let ghost sw = stripped_of(window(ctx.ancestors@));
    proof {
        assert(ctx.ancestors@.skip(start as int) =~= window(ctx.ancestors@));
    }
    let mut lines: Vec<String> = Vec::new();
    let mut k: usize = start;
    proof {
        assert(stripped_of(ctx.ancestors@.skip(start as int)).skip(0) =~= sw);
        assert(line_views(lines@) + nonempty_of(sw) =~= nonempty_of(sw));
    }
    while k < len
        invariant
            len == ctx.ancestors@.len(),
            start <= k <= len,
            sw == stripped_of(window(ctx.ancestors@)),
            sw == stripped_of(ctx.ancestors@.skip(start as int)),
            nonempty_of(sw) == line_views(lines@) + nonempty_of(sw.skip(k - start)),
        decreases len - k,
    {
        let ghost rest = sw.skip(k - start);
        proof {
            assert(rest[0] == strip_html_spec(ctx.ancestors@[k as int].content@));
        }
        let text = strip_html(ctx.ancestors[k].content.as_str());
        if text.as_str().unicode_len() != 0 {
            let ghost prev = lines@;
            lines.push(text);
            proof {
                assert(line_views(lines@) =~= line_views(prev).push(rest[0]));
            }
        }
        k += 1;
        proof {
            assert(rest.drop_first() =~= sw.skip(k - start));
        }
    }
    proof {
        assert(sw.skip(len - start) =~= Seq::<Seq<char>>::empty());
        assert(line_views(lines@) + Seq::<Seq<char>>::empty() =~= line_views(lines@));
    }
    let current_text = strip_html(current.content.as_str());
    if current_text.as_str().unicode_len() != 0 {
        let ghost prev = lines@;
        lines.push(current_text);
        proof {
            assert(line_views(lines@) =~= line_views(prev).push(
                strip_html_spec(current.content@),
            ));
        }
    }
    proof {
        assert(line_views(lines@) == transcript_lines(ctx.ancestors@, *current));
    }
    join_bullets(&lines)
}

spec fn line_views(l: Seq<String>) -> Seq<Seq<char>> {
    l.map_values(|s: String| s@)
}

fn join_bullets(lines: &Vec<String>) -> (r: String)
    ensures
        r@ == bullet_join(line_views(lines@)),
{
    let n = lines.len();
    let mut out = String::new();
    let ghost all = line_views(lines@);
    let mut k: usize = 0;
    while k < n
        invariant
            n == lines@.len(),
            k <= n,
            all == line_views(lines@),
            k == 0 ==> out@ == Seq::<char>::empty(),
            k > 0 ==> bullet_join(all) == out@ + tail_join(all.skip(k as int)),
        decreases n - k,
    {
        if k == 0 {
            out.append("- ");
            proof {
                reveal_strlit("- ");
            }
        } else {
            out.append("\n- ");
            proof {
                reveal_strlit("\n- ");
            }
        }
        out.append(lines[k].as_str());
        let ghost old_k = k as int;
        k += 1;
        proof {
            assert(all.skip(old_k)[0] == all[old_k]);
            assert(all.skip(old_k).drop_first() =~= all.skip(k as int));
            if old_k == 0 {
                assert(out@ =~= seq!['-', ' '] + all[0]);
                assert(bullet_join(all) == seq!['-', ' '] + all[0] + tail_join(all.skip(1)));
            } else {
                assert(tail_join(all.skip(old_k)) == seq!['\n', '-', ' '] + all[old_k]
                    + tail_join(all.skip(k as int)));
            }
        }
    }
    proof {
        if n > 0 {
            assert(tail_join(all.skip(n as int)) == Seq::<char>::empty()) by {
                assert(all.skip(n as int) =~= Seq::<Seq<char>>::empty());
            }
            assert(out@ =~= bullet_join(all));
        }
    }
    out
}

/// What the resolver hands the orchestrator: the stable key of the
/// conversation and, when one could be built, the flattened transcript.
pub struct ResolvedContext {
    pub thread_key: String,
    pub transcript: Option<String>,
}

/// The thread key: the oldest ancestor's id when the context is there and
/// non-empty, else the current status's own id.
pub open spec fn thread_key_spec(fetched: Option<StatusContext>, current: Status) -> Seq<char> {
    match fetched {
        Some(ctx) => if ctx.ancestors@.len() > 0 {
            ctx.ancestors@[0].id@
        } else {
            current.id@
        },
        None => current.id@,
    }
}

/// Derives thread key and transcript from a fetched context, degrading to
/// a context-free mention when the fetch failed (`fetched` is `None`):
/// the key falls back to the current status's id and the transcript is
/// absent.  An empty transcript is treated as absent too.
pub fn resolve_context(fetched: Option<&StatusContext>, current: &Status) -> (r: ResolvedContext)
    ensures
        r.thread_key@ == thread_key_spec(
            match fetched {
                Some(c) => Some(*c),
                None => None,
            },
            *current,
        ),
        match fetched {
            Some(ctx) => {
                let t = bullet_join(transcript_lines(ctx.ancestors@, *current));
                match r.transcript {
                    Some(tr) => t.len() > 0 && tr@ == t,
                    None => t.len() == 0,
                }
            },
            None => r.transcript is None,
        },
{
    match fetched {
        Some(ctx) => {
            let thread_key = if ctx.ancestors.len() > 0 {
                ctx.ancestors[0].id.clone()
            } else {
                current.id.clone()
            };
            let text = format_conversation_context(ctx, current);
            let transcript = if text.as_str().unicode_len() == 0 {
                None
            } else {
                Some(text)
            };
            ResolvedContext { thread_key, transcript }
        },
        None => ResolvedContext { thread_key: current.id.clone(), transcript: None },
    }
}

proof fn lemma_nonempty_of_props(ts: Seq<Seq<char>>)
    ensures
        nonempty_of(ts).len() <= ts.len(),
        forall|k: int| 0 <= k < nonempty_of(ts).len() ==> #[trigger] nonempty_of(ts)[k].len() > 0,
    decreases ts.len(),
{
    if ts.len() > 0 {
        lemma_nonempty_of_props(ts.drop_first());
    }
}

/// The transcript holds at most `MAX_TRANSCRIPT_ANCESTORS` ancestor lines
/// and then exactly one line for the current status, every line non-empty
/// after HTML stripping — provided the current status itself strips to
/// something non-empty.
pub proof fn lemma_transcript_shape(ancestors: Seq<Status>, current: Status)
    requires
        strip_html_spec(current.content@).len() > 0,
    ensures
        1 <= transcript_lines(ancestors, current).len() <= MAX_TRANSCRIPT_ANCESTORS + 1,
        transcript_lines(ancestors, current).last() == strip_html_spec(current.content@),
        forall|k: int|
            0 <= k < transcript_lines(ancestors, current).len() ==> #[trigger] transcript_lines(
                ancestors,
                current,
            )[k].len() > 0,
{
    let w = stripped_of(window(ancestors));
    lemma_nonempty_of_props(w);
    assert(window(ancestors).len() <= MAX_TRANSCRIPT_ANCESTORS as int || ancestors.len()
        <= MAX_TRANSCRIPT_ANCESTORS as int);
}

} // verus!
