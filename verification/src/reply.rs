//! The reply orchestrator's decisions, one per suspension point: plan the
//! initial model call, decide whether the answer is degraded and plan the
//! tightened retry, adopt the retry only when it brought text, fire the
//! echo retry, and sanitize the final text.  The caller performs each
//! planned call and feeds the outcome back in.

use vstd::prelude::*;
use vstd::string::StrSliceExecFns;
use vstd::string::StringExecFns;
use crate::messages::{
    build_initial_messages, build_initial_spec, build_parrot_retry_messages,
    build_parrot_retry_spec, build_retry_messages, build_retry_spec, opt_str_view,
    reply_base_views,
};
use crate::parrot::{is_parrot_reply, is_parrot_spec};
use crate::prompts::PromptConfig;
use crate::search::{should_force_search, should_force_search_spec};
use crate::text::{trim_str, trim_spec};
use crate::types::{msg_views, ModelRequest, ResponsesResult, Tool, web_search_tools_ok};

verus! {

/// What the orchestrator hands back: the sanitized reply text and the
/// response id to remember for the thread.
pub struct ReplyResult {
    pub text: String,
    pub response_id: String,
}

fn reply_tools(enabled: bool) -> (r: Vec<Tool>)
    ensures
        web_search_tools_ok(r@, enabled),
{
    let mut v: Vec<Tool> = Vec::new();
    if enabled {
        v.push(Tool::WebSearchPreview { search_context_size: Some(String::from_str("low")) });
    }
    v
}

/// Plans the initial model call for a mention: decides forced search from
/// the user's text, builds the initial request with a 140-token cap, and
/// threads the stored response id through for server-side memory.
pub fn plan_initial_call(
    user_text: &str,
    conversation_context: Option<&str>,
    previous_response_id: Option<&str>,
    enable_web_search: bool,
    prompts: &PromptConfig,
    now_jst: &str,
) -> (r: (bool, ModelRequest))
    ensures
        r.0 == should_force_search_spec(user_text@),
        msg_views(r.1.messages@) == build_initial_spec(
            reply_base_views(*prompts, conversation_context is Some),
            user_text@,
            opt_str_view(conversation_context),
            r.0,
            now_jst@,
        ),
        web_search_tools_ok(r.1.tools@, enable_web_search || r.0),
        r.1.max_output_tokens == 140,
        match (r.1.previous_response_id, previous_response_id) {
            (Some(a), Some(b)) => a@ == b@,
            (None, None) => true,
            _ => false,
        },
{
    let force_search = should_force_search(user_text);
    let messages = build_initial_messages(
        user_text,
        conversation_context,
        force_search,
        prompts,
        now_jst,
    );
    let prev = match previous_response_id {
        Some(p) => Some(String::from_str(p)),
        None => None,
    };
    let req = ModelRequest {
        messages,
        tools: reply_tools(enable_web_search || force_search),
        max_output_tokens: 140,
        previous_response_id: prev,
    };
    (force_search, req)
}

/// A degraded first answer: no text after trimming, or a reported
/// `incomplete` status.
pub open spec fn retry_needed(res: ResponsesResult) -> bool {
    trim_spec(res.text@).len() == 0 || match res.status {
        Some(s) => s@ == "incomplete"@,
        None => false,
    }
}

/// Decides whether the one tightened retry fires.
pub fn needs_retry(res: &ResponsesResult) -> (r: bool)
    ensures
        r == retry_needed(*res),
{
    let trimmed = trim_str(res.text.as_str());
    if trimmed.as_str().unicode_len() == 0 {
        return true;
    }
    match &res.status {
        Some(s) => crate::text::str_eq(s.as_str(), "incomplete"),
        None => false,
    }
}

/// Plans the tightened retry: restated constraints, a 120-token cap, the
/// same tool choice, and no response id.
pub fn plan_retry_call(
    user_text: &str,
    conversation_context: Option<&str>,
    force_search: bool,
    enable_web_search: bool,
    prompts: &PromptConfig,
    now_jst: &str,
) -> (r: ModelRequest)
    ensures
        msg_views(r.messages@) == build_retry_spec(
            reply_base_views(*prompts, conversation_context is Some),
            user_text@,
            opt_str_view(conversation_context),
            now_jst@,
        ),
        web_search_tools_ok(r.tools@, enable_web_search || force_search),
        r.max_output_tokens == 120,
        r.previous_response_id is None,
{
    let messages = build_retry_messages(user_text, conversation_context, prompts, now_jst);
    ModelRequest {
        messages,
        tools: reply_tools(enable_web_search || force_search),
        max_output_tokens: 120,
        previous_response_id: None,
    }
}

/// Adopts the retry's answer only when it brought non-blank text;
/// otherwise the first answer stands.
pub fn adopt_retry(first: ResponsesResult, retry: ResponsesResult) -> (r: ResponsesResult)
    ensures
        r == if trim_spec(retry.text@).len() > 0 {
            retry
        } else {
            first
        },
{
    let trimmed = trim_str(retry.text.as_str());
    if trimmed.as_str().unicode_len() > 0 {
        retry
    } else {
        first
    }
}

/// Decides whether the echo retry fires: never on a forced-search turn,
/// and otherwise exactly when the trimmed answer echoes the user's text.
pub fn needs_parrot_retry(force_search: bool, user_text: &str, res: &ResponsesResult) -> (r:
    bool)
    ensures
        r == (!force_search && is_parrot_spec(user_text@, trim_spec(res.text@))),
{
    if force_search {
        return false;
    }
    let trimmed = trim_str(res.text.as_str());
    is_parrot_reply(user_text, trimmed.as_str())
}

/// Plans the echo retry: the differently-worded instruction, a larger
/// 1024-token budget, no tools, no response id.
pub fn plan_parrot_retry_call(
    user_text: &str,
    conversation_context: Option<&str>,
    prompts: &PromptConfig,
) -> (r: ModelRequest)
    ensures
        msg_views(r.messages@) == build_parrot_retry_spec(
            reply_base_views(*prompts, conversation_context is Some),
            user_text@,
            opt_str_view(conversation_context),
        ),
        r.tools@.len() == 0,
        r.max_output_tokens == 1024,
        r.previous_response_id is None,
{
    let messages = build_parrot_retry_messages(user_text, conversation_context, prompts);
    ModelRequest {
        messages,
        tools: Vec::new(),
        max_output_tokens: 1024,
        previous_response_id: None,
    }
}

/// The canned apology posted instead of a leaked structured payload.
pub open spec fn apology_text() -> Seq<char> {
    "短く要点＋出典ドメインでまとめられなかったみたい。もう一度聞いて！"@
}

/// What gets posted: the trimmed text, or the canned apology when the
/// trimmed text opens with `{` or `[`.
pub open spec fn final_reply_text(raw: Seq<char>) -> Seq<char> {
    let clean = trim_spec(raw);
    if clean.len() > 0 && (clean[0] == '{' || clean[0] == '[') {
        apology_text()
    } else {
        clean
    }
}

/// Sanitizes the adopted answer into the posted reply: trims it and
/// replaces a leaked structured payload with the canned apology, keeping
/// the response id for the conversation store.
pub fn finalize_reply(res: ResponsesResult) -> (r: ReplyResult)
    ensures
        r.text@ == final_reply_text(res.text@),
        r.response_id@ == res.id@,
{
    let clean = trim_str(res.text.as_str());
    let n = clean.as_str().unicode_len();
    let text = if n > 0 && (clean.as_str().get_char(0) == '{' || clean.as_str().get_char(0)
        == '[') {
        String::from_str("短く要点＋出典ドメインでまとめられなかったみたい。もう一度聞いて！")
    } else {
        clean
    };
    ReplyResult { text, response_id: res.id }
}

} // verus!
