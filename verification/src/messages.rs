//! Building the message lists for a reply call: placeholder substitution
//! into the base template, the standing system notes, the tightened retry
//! variants, and the split into instructions and input that the
//! completion API expects.

use vstd::prelude::*;
use vstd::string::StringExecFns;
use crate::prompts::{base_prompt_for_reply, PromptConfig};
use crate::text::{chars_of, contains_pat, contains_seq, replace_all_spec, replace_all_vec,
    str_eq, string_from_chars};
use crate::types::{msg_views, ChatMessage};

verus! {

/// The view of an optional borrowed string.
pub open spec fn opt_str_view(c: Option<&str>) -> Option<Seq<char>> {
    match c {
        Some(s) => Some(s@),
        None => None,
    }
}

/// A message content with both placeholders substituted, user text first.
pub open spec fn subst(content: Seq<char>, user: Seq<char>, ctx: Seq<char>) -> Seq<char> {
    replace_all_spec(replace_all_spec(content, "{{USER_TEXT}}"@, user), "{{CONTEXT}}"@, ctx)
}

/// A whole template with both placeholders substituted in every message.
pub open spec fn subst_all(
    ms: Seq<(Seq<char>, Seq<char>)>,
    user: Seq<char>,
    ctx: Seq<char>,
) -> Seq<(Seq<char>, Seq<char>)> {
    ms.map_values(|m: (Seq<char>, Seq<char>)| (m.0, subst(m.1, user, ctx)))
}

/// Some message content in `ms` holds `pat`.
pub open spec fn any_ph(ms: Seq<(Seq<char>, Seq<char>)>, pat: Seq<char>) -> bool {
    exists|i: int| 0 <= i < ms.len() && contains_seq((#[trigger] ms[i]).1, pat)
}

/// The template mentions the user-text placeholder.
pub open spec fn any_user_placeholder(ms: Seq<(Seq<char>, Seq<char>)>) -> bool {
    any_ph(ms, "{{USER_TEXT}}"@)
}

/// The template mentions the context placeholder.
pub open spec fn any_context_placeholder(ms: Seq<(Seq<char>, Seq<char>)>) -> bool {
    any_ph(ms, "{{CONTEXT}}"@)
}

proof fn lemma_any_take_step(ms: Seq<(Seq<char>, Seq<char>)>, pat: Seq<char>, k: int)
    requires
        0 <= k < ms.len(),
    ensures
        any_ph(ms.take(k + 1), pat) == (any_ph(ms.take(k), pat) || contains_seq(ms[k].1, pat)),
{
    if any_ph(ms.take(k + 1), pat) {
        let i = choose|i: int| 0 <= i < ms.take(k + 1).len() && contains_seq(
            (#[trigger] ms.take(k + 1)[i]).1,
            pat,
        );
        if i < k {
            assert(ms.take(k)[i] == ms.take(k + 1)[i]);
            assert(any_ph(ms.take(k), pat));
        } else {
            assert(ms.take(k + 1)[i] == ms[k]);
        }
    }
    if any_ph(ms.take(k), pat) {
        let i = choose|i: int| 0 <= i < ms.take(k).len() && contains_seq(
            (#[trigger] ms.take(k)[i]).1,
            pat,
        );
        assert(ms.take(k + 1)[i] == ms.take(k)[i]);
        assert(any_ph(ms.take(k + 1), pat));
    }
    if contains_seq(ms[k].1, pat) {
        assert(ms.take(k + 1)[k] == ms[k]);
        assert(any_ph(ms.take(k + 1), pat));
    }
}

/// Substitutes `{{USER_TEXT}}` and `{{CONTEXT}}` into every message of
/// the template, and reports whether each placeholder occurred anywhere.
/// An absent context substitutes as the empty string.
pub fn apply_placeholders(
    template: &Vec<ChatMessage>,
    user_text: &str,
    conversation_context: Option<&str>,
) -> (r: (Vec<ChatMessage>, bool, bool))
    ensures
        msg_views(r.0@) == subst_all(
            msg_views(template@),
            user_text@,
            match opt_str_view(conversation_context) {
                Some(c) => c,
                None => Seq::empty(),
            },
        ),
        r.1 == any_user_placeholder(msg_views(template@)),
        r.2 == any_context_placeholder(msg_views(template@)),
{
    proof {
        reveal_strlit("{{USER_TEXT}}");
        reveal_strlit("{{CONTEXT}}");
    }
    let user_pat = chars_of("{{USER_TEXT}}");
    let ctx_pat = chars_of("{{CONTEXT}}");
    let user_rep = chars_of(user_text);
    let ctx_rep: Vec<char> = match conversation_context {
        Some(c) => chars_of(c),
        None => Vec::new(),
    };
    let ghost views = msg_views(template@);
    let ghost cs = ctx_rep@;
    let n = template.len();
    let mut out: Vec<ChatMessage> = Vec::new();
    let mut had_user = false;
    let mut had_ctx = false;
    let mut k: usize = 0;
    proof {
        assert(msg_views(out@) =~= subst_all(views, user_text@, cs).take(0));
        assert(views.take(0) =~= Seq::<(Seq<char>, Seq<char>)>::empty());
    }
    while k < n
        invariant
            n == template@.len(),
            k <= n,
            views == msg_views(template@),
            cs == ctx_rep@,
            user_pat@ == "{{USER_TEXT}}"@,
            ctx_pat@ == "{{CONTEXT}}"@,
            user_pat@.len() > 0,
            ctx_pat@.len() > 0,
            user_rep@ == user_text@,
            msg_views(out@) == subst_all(views, user_text@, cs).take(k as int),
            had_user == any_ph(views.take(k as int), "{{USER_TEXT}}"@),
            had_ctx == any_ph(views.take(k as int), "{{CONTEXT}}"@),
        decreases n - k,
    {
        let cv = chars_of(template[k].content.as_str());
        if contains_pat(&cv, &user_pat) {
            had_user = true;
        }
        if contains_pat(&cv, &ctx_pat) {
            had_ctx = true;
        }
        let s1 = replace_all_vec(&cv, &user_pat, &user_rep);
        let s2 = replace_all_vec(&s1, &ctx_pat, &ctx_rep);
        let ghost prev = out@;
        out.push(ChatMessage { role: template[k].role.clone(), content: string_from_chars(&s2) });
        k += 1;
        proof {
            lemma_any_take_step(views, "{{USER_TEXT}}"@, k - 1);
            lemma_any_take_step(views, "{{CONTEXT}}"@, k - 1);
            assert(views[k - 1].1 == template@[k - 1].content@);
            assert(msg_views(out@) =~= msg_views(prev).push(
                (template@[k - 1].role@, subst(template@[k - 1].content@, user_text@, cs)),
            ));
            assert(subst_all(views, user_text@, cs)[k - 1] == (
                views[k - 1].0,
                subst(views[k - 1].1, user_text@, cs),
            ));
            assert(msg_views(out@) =~= subst_all(views, user_text@, cs).take(k as int));
        }
    }
    proof {
        assert(views.take(n as int) =~= views);
        assert(subst_all(views, user_text@, cs).take(n as int) =~= subst_all(
            views,
            user_text@,
            cs,
        ));
    }
    (out, had_user, had_ctx)
}

/// The role the standing notes carry.
pub open spec fn sys_role() -> Seq<char> {
    "system"@
}

/// The anti-echo instruction added to every initial reply request.
pub open spec fn anti_echo_note() -> Seq<char> {
    "ユーザーの発言をそのまま繰り返すだけの返答は禁止です。必ず質問や発言の内容に答え、そのうえで必要なら短くボケや相槌を添えてください。質問文を引用するときは、その後に必ずあなたの考えを書くこと。"@
}

/// The strict output-format instruction for forced-search turns.
pub open spec fn search_mandate_text() -> Seq<char> {
    "When asked about versions/release notes/highlights: • You MUST use web_search to fetch official sources. • Output: 2 bullets max, plain text only. • Each bullet ≤ 70 Japanese chars. • Include the exact version and a YYYY-MM-DD (JST) date. • Add one source domain in parentheses, e.g., (blog.rust-lang.org). • Do NOT speculate about future releases. • If a future date isn't confirmed by official sources, say “未確定”. • NO URLs and NO markdown. Do not output '[' ']' '(' within URLs. • Keep total length ≤ 180 Japanese chars. • Perform at most one search call."@
}

/// The extra forced-search note about patch releases.
pub open spec fn patch_release_note() -> Seq<char> {
    "For patch releases (e.g., 1.91.1), summarize only 1–2 key fixes."@
}

/// The tightened constraints restated on the first retry.
pub open spec fn retry_constraint_note() -> Seq<char> {
    "2 bullets max. ≤ 60 Japanese chars each. Plain text. No URLs. Unconfirmed future dates → “未確定”."@
}

/// The instruction of the echo retry: answer, do not repeat the question.
pub open spec fn parrot_retry_note() -> Seq<char> {
    "さっきの返答はユーザーの発言をそのまま繰り返してしまっていました。今度は必ず質問に答えてください。質問文をそのまま返すのではなく、あなたの答えやリアクションを1〜3文で書いてください。"@
}

/// The current-time system note.
pub open spec fn time_note(now: Seq<char>) -> Seq<char> {
    "CurrentTime(JST): "@ + now
}

/// The transcript handed over as its own message when the template had no
/// placeholder for it.
pub open spec fn context_note(ctx: Seq<char>) -> Seq<char> {
    "[context]\n"@ + ctx
}

/// The strict output-format instruction, as request text.
pub fn search_mandate_instruction() -> (r: String)
    ensures
        r@ == search_mandate_text(),
{
    String::from_str(
        "When asked about versions/release notes/highlights: • You MUST use web_search to fetch official sources. • Output: 2 bullets max, plain text only. • Each bullet ≤ 70 Japanese chars. • Include the exact version and a YYYY-MM-DD (JST) date. • Add one source domain in parentheses, e.g., (blog.rust-lang.org). • Do NOT speculate about future releases. • If a future date isn't confirmed by official sources, say “未確定”. • NO URLs and NO markdown. Do not output '[' ']' '(' within URLs. • Keep total length ≤ 180 Japanese chars. • Perform at most one search call.",
    )
}

fn sys_msg(text: &str) -> (r: ChatMessage)
    ensures
        r.role@ == sys_role(),
        r.content@ == text@,
{
    ChatMessage { role: String::from_str("system"), content: String::from_str(text) }
}

fn sys_msg_concat(prefix: &str, rest: &str) -> (r: ChatMessage)
    ensures
        r.role@ == sys_role(),
        r.content@ == prefix@ + rest@,
{
    ChatMessage { role: String::from_str("system"), content: String::from_str(prefix).concat(rest) }
}

/// The reply base for the given presence of context, as views.
pub open spec fn reply_base_views(prompts: PromptConfig, has_ctx: bool) -> Seq<
    (Seq<char>, Seq<char>),
> {
    if has_ctx {
        msg_views(prompts.reply_with_context@)
    } else {
        msg_views(prompts.reply_without_context@)
    }
}

/// The initial request: the substituted base, the time note, the
/// anti-echo note, the two forced-search notes when searching is forced,
/// the transcript as its own message when the template had no context
/// placeholder, and the user text as its own message when it had no
/// user-text placeholder.
pub open spec fn build_initial_spec(
    base: Seq<(Seq<char>, Seq<char>)>,
    user: Seq<char>,
    ctx: Option<Seq<char>>,
    force_search: bool,
    now: Seq<char>,
) -> Seq<(Seq<char>, Seq<char>)> {
    let cs = match ctx {
        Some(c) => c,
        None => Seq::empty(),
    };
    let m0 = subst_all(base, user, cs);
    let m1 = m0 + seq![(sys_role(), time_note(now)), (sys_role(), anti_echo_note())];
    let m2 = if force_search {
        m1 + seq![(sys_role(), search_mandate_text()), (sys_role(), patch_release_note())]
    } else {
        m1
    };
    let m3 = if ctx is Some && !any_context_placeholder(base) {
        m2 + seq![(sys_role(), context_note(cs))]
    } else {
        m2
    };
    if !any_user_placeholder(base) {
        m3 + seq![("user"@, user)]
    } else {
        m3
    }
}

/// Builds the initial reply request from the template for the given
/// context presence.
pub fn build_initial_messages(
    user_text: &str,
    conversation_context: Option<&str>,
    force_search: bool,
    prompts: &PromptConfig,
    now_jst: &str,
) -> (r: Vec<ChatMessage>)
    ensures
        msg_views(r@) == build_initial_spec(
            reply_base_views(*prompts, conversation_context is Some),
            user_text@,
            opt_str_view(conversation_context),
            force_search,
            now_jst@,
        ),
{
    let base = base_prompt_for_reply(prompts, conversation_context);
    let applied = apply_placeholders(&base, user_text, conversation_context);
    let mut msgs = applied.0;
    let had_user = applied.1;
    let had_ctx = applied.2;
    let ghost base_views = reply_base_views(*prompts, conversation_context is Some);
    let ghost cs = match opt_str_view(conversation_context) {
        Some(c) => c,
        None => Seq::<char>::empty(),
    };
    let ghost m0 = subst_all(base_views, user_text@, cs);
    msgs.push(sys_msg_concat("CurrentTime(JST): ", now_jst));
    msgs.push(
        sys_msg(
            "ユーザーの発言をそのまま繰り返すだけの返答は禁止です。必ず質問や発言の内容に答え、そのうえで必要なら短くボケや相槌を添えてください。質問文を引用するときは、その後に必ずあなたの考えを書くこと。",
        ),
    );
    proof {
        assert(msg_views(msgs@) =~= m0 + seq![
            (sys_role(), time_note(now_jst@)),
            (sys_role(), anti_echo_note()),
        ]);
    }
    let ghost m1 = msg_views(msgs@);
    if force_search {
        let mandate = search_mandate_instruction();
        msgs.push(ChatMessage { role: String::from_str("system"), content: mandate });
        msgs.push(sys_msg("For patch releases (e.g., 1.91.1), summarize only 1–2 key fixes."));
        proof {
            assert(msg_views(msgs@) =~= m1 + seq![
                (sys_role(), search_mandate_text()),
                (sys_role(), patch_release_note()),
            ]);
        }
    }
    let ghost m2 = msg_views(msgs@);
    match conversation_context {
        Some(c) => {
            if !had_ctx {
                msgs.push(sys_msg_concat("[context]\n", c));
                proof {
                    assert(msg_views(msgs@) =~= m2 + seq![(sys_role(), context_note(cs))]);
                }
            }
        },
        None => {},
    }
    let ghost m3 = msg_views(msgs@);
    if !had_user {
        msgs.push(ChatMessage { role: String::from_str("user"), content: String::from_str(user_text) });
        proof {
            assert(msg_views(msgs@) =~= m3 + seq![("user"@, user_text@)]);
        }
    }
    msgs
}

/// The first-retry request: the substituted base, the tightened
/// constraints, the time note, and the same trailing context and user
/// messages as the initial request.
pub open spec fn build_retry_spec(
    base: Seq<(Seq<char>, Seq<char>)>,
    user: Seq<char>,
    ctx: Option<Seq<char>>,
    now: Seq<char>,
) -> Seq<(Seq<char>, Seq<char>)> {
    let cs = match ctx {
        Some(c) => c,
        None => Seq::empty(),
    };
    let m0 = subst_all(base, user, cs);
    let m1 = m0 + seq![(sys_role(), retry_constraint_note()), (sys_role(), time_note(now))];
    let m2 = if ctx is Some && !any_context_placeholder(base) {
        m1 + seq![(sys_role(), context_note(cs))]
    } else {
        m1
    };
    if !any_user_placeholder(base) {
        m2 + seq![("user"@, user)]
    } else {
        m2
    }
}

/// Builds the tightened retry request used after empty or incomplete
/// output.
pub fn build_retry_messages(
    user_text: &str,
    conversation_context: Option<&str>,
    prompts: &PromptConfig,
    now_jst: &str,
) -> (r: Vec<ChatMessage>)
    ensures
        msg_views(r@) == build_retry_spec(
            reply_base_views(*prompts, conversation_context is Some),
            user_text@,
            opt_str_view(conversation_context),
            now_jst@,
        ),
{
    let base = base_prompt_for_reply(prompts, conversation_context);
    let applied = apply_placeholders(&base, user_text, conversation_context);
    let mut msgs = applied.0;
    let had_user = applied.1;
    let had_ctx = applied.2;
    let ghost base_views = reply_base_views(*prompts, conversation_context is Some);
    let ghost cs = match opt_str_view(conversation_context) {
        Some(c) => c,
        None => Seq::<char>::empty(),
    };
    let ghost m0 = subst_all(base_views, user_text@, cs);
    msgs.push(
        sys_msg(
            "2 bullets max. ≤ 60 Japanese chars each. Plain text. No URLs. Unconfirmed future dates → “未確定”.",
        ),
    );
    msgs.push(sys_msg_concat("CurrentTime(JST): ", now_jst));
    proof {
        assert(msg_views(msgs@) =~= m0 + seq![
            (sys_role(), retry_constraint_note()),
            (sys_role(), time_note(now_jst@)),
        ]);
    }
    let ghost m1 = msg_views(msgs@);
    match conversation_context {
        Some(c) => {
            if !had_ctx {
                msgs.push(sys_msg_concat("[context]\n", c));
                proof {
                    assert(msg_views(msgs@) =~= m1 + seq![(sys_role(), context_note(cs))]);
                }
            }
        },
        None => {},
    }
    let ghost m2 = msg_views(msgs@);
    if !had_user {
        msgs.push(ChatMessage { role: String::from_str("user"), content: String::from_str(user_text) });
        proof {
            assert(msg_views(msgs@) =~= m2 + seq![("user"@, user_text@)]);
        }
    }
    msgs
}

/// The echo-retry request: the substituted base plus the do-not-repeat
/// instruction, nothing else.
pub open spec fn build_parrot_retry_spec(
    base: Seq<(Seq<char>, Seq<char>)>,
    user: Seq<char>,
    ctx: Option<Seq<char>>,
) -> Seq<(Seq<char>, Seq<char>)> {
    let cs = match ctx {
        Some(c) => c,
        None => Seq::empty(),
    };
    subst_all(base, user, cs) + seq![(sys_role(), parrot_retry_note())]
}

/// Builds the differently-worded second retry fired when the reply
/// echoed the user's text.
pub fn build_parrot_retry_messages(
    user_text: &str,
    conversation_context: Option<&str>,
    prompts: &PromptConfig,
) -> (r: Vec<ChatMessage>)
    ensures
        msg_views(r@) == build_parrot_retry_spec(
            reply_base_views(*prompts, conversation_context is Some),
            user_text@,
            opt_str_view(conversation_context),
        ),
{
    let base = base_prompt_for_reply(prompts, conversation_context);
    let applied = apply_placeholders(&base, user_text, conversation_context);
    let mut msgs = applied.0;
    let ghost base_views = reply_base_views(*prompts, conversation_context is Some);
    let ghost cs = match opt_str_view(conversation_context) {
        Some(c) => c,
        None => Seq::<char>::empty(),
    };
    msgs.push(
        sys_msg(
            "さっきの返答はユーザーの発言をそのまま繰り返してしまっていました。今度は必ず質問に答えてください。質問文をそのまま返すのではなく、あなたの答えやリアクションを1〜3文で書いてください。",
        ),
    );
    proof {
        assert(msg_views(msgs@) =~= subst_all(base_views, user_text@, cs) + seq![
            (sys_role(), parrot_retry_note()),
        ]);
    }
    msgs
}

/// The contents of the system messages, in order.
pub open spec fn sys_contents(ms: Seq<(Seq<char>, Seq<char>)>) -> Seq<Seq<char>>
    decreases ms.len(),
{
    if ms.len() == 0 {
        Seq::empty()
    } else if ms[0].0 == sys_role() {
        seq![ms[0].1] + sys_contents(ms.drop_first())
    } else {
        sys_contents(ms.drop_first())
    }
}

/// The messages that are not system messages, in order.
pub open spec fn non_sys(ms: Seq<(Seq<char>, Seq<char>)>) -> Seq<(Seq<char>, Seq<char>)>
    decreases ms.len(),
{
    if ms.len() == 0 {
        Seq::empty()
    } else if ms[0].0 == sys_role() {
        non_sys(ms.drop_first())
    } else {
        seq![ms[0]] + non_sys(ms.drop_first())
    }
}

/// The chunks after the first, each led in by a blank line.
pub open spec fn tail_nn(chunks: Seq<Seq<char>>) -> Seq<char>
    decreases chunks.len(),
{
    if chunks.len() == 0 {
        Seq::empty()
    } else {
        "\n\n"@ + chunks[0] + tail_nn(chunks.drop_first())
    }
}

/// The chunks joined by blank lines.
pub open spec fn join_blank(chunks: Seq<Seq<char>>) -> Seq<char> {
    if chunks.len() == 0 {
        Seq::empty()
    } else {
        chunks[0] + tail_nn(chunks.drop_first())
    }
}

/// Splits a request into what the completion API takes: the system
/// messages merged into one instruction text (absent when there are
/// none), and the remaining messages as input.
pub fn split_messages_for_responses(messages: Vec<ChatMessage>) -> (r: (
    Option<String>,
    Vec<ChatMessage>,
))
    ensures
        match r.0 {
            Some(ins) => sys_contents(msg_views(messages@)).len() > 0 && ins@ == join_blank(
                sys_contents(msg_views(messages@)),
            ),
            None => sys_contents(msg_views(messages@)).len() == 0,
        },
        msg_views(r.1@) == non_sys(msg_views(messages@)),
{
    let ghost views = msg_views(messages@);
    let n = messages.len();
    let mut chunks: Vec<String> = Vec::new();
    let mut input: Vec<ChatMessage> = Vec::new();
    let mut k: usize = 0;
    proof {
        assert(views.skip(0) =~= views);
        assert(chunk_views(chunks@) + sys_contents(views) =~= sys_contents(views));
        assert(msg_views(input@) + non_sys(views) =~= non_sys(views));
    }
    while k < n
        invariant
            n == messages@.len(),
            k <= n,
            views == msg_views(messages@),
            sys_contents(views) == chunk_views(chunks@) + sys_contents(views.skip(k as int)),
            non_sys(views) == msg_views(input@) + non_sys(views.skip(k as int)),
        decreases n - k,
    {
        let ghost rest = views.skip(k as int);
        proof {
            assert(rest[0] == views[k as int]);
        }
        if str_eq(messages[k].role.as_str(), "system") {
            let ghost prev = chunks@;
            chunks.push(messages[k].content.clone());
            proof {
                assert(chunk_views(chunks@) =~= chunk_views(prev).push(views[k as int].1));
            }
        } else {
            let ghost prev = input@;
            input.push(
                ChatMessage {
                    role: messages[k].role.clone(),
                    content: messages[k].content.clone(),
                },
            );
            proof {
                assert(msg_views(input@) =~= msg_views(prev).push(views[k as int]));
            }
        }
        k += 1;
        proof {
            assert(rest.drop_first() =~= views.skip(k as int));
        }
    }
    proof {
        assert(views.skip(n as int) =~= Seq::<(Seq<char>, Seq<char>)>::empty());
        assert(chunk_views(chunks@) + Seq::<Seq<char>>::empty() =~= chunk_views(chunks@));
        assert(msg_views(input@) + Seq::<(Seq<char>, Seq<char>)>::empty() =~= msg_views(input@));
    }
    if chunks.len() == 0 {
        return (None, input);
    }
    let joined = join_chunks(&chunks);
    (Some(joined), input)
}

spec fn chunk_views(l: Seq<String>) -> Seq<Seq<char>> {
    l.map_values(|s: String| s@)
}

fn join_chunks(chunks: &Vec<String>) -> (r: String)
    requires
        chunks@.len() > 0,
    ensures
        r@ == join_blank(chunk_views(chunks@)),
{
    let ghost all = chunk_views(chunks@);
    let n = chunks.len();
    let mut out = String::new();
    out.append(chunks[0].as_str());
    let mut k: usize = 1;
    proof {
        assert(out@ =~= all[0]);
        assert(all.drop_first() =~= all.skip(1));
    }
    while k < n
        invariant
            1 <= k <= n,
            n == chunks@.len(),
            all == chunk_views(chunks@),
            join_blank(all) == out@ + tail_nn(all.skip(k as int)),
        decreases n - k,
    {
        let ghost rest = all.skip(k as int);
        out.append("\n\n");
        out.append(chunks[k].as_str());
        k += 1;
        proof {
            assert(rest[0] == all[k - 1]);
            assert(rest.drop_first() =~= all.skip(k as int));
            assert(tail_nn(rest) == "\n\n"@ + all[k - 1] + tail_nn(all.skip(k as int)));
        }
    }
    proof {
        assert(all.skip(n as int) =~= Seq::<Seq<char>>::empty());
        assert(out@ =~= join_blank(all));
    }
    out
}

} // verus!
