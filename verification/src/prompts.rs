//! The prompt templates the builders draw from.  Loading them from disk
//! is the caller's business; the library receives them as plain values.

use vstd::prelude::*;
use crate::types::{msg_views, ChatMessage};

verus! {

/// The five template message lists: three free-post slots and the two
/// reply bases, with or without thread context.
pub struct PromptConfig {
    pub free_toot_morning: Vec<ChatMessage>,
    pub free_toot_day: Vec<ChatMessage>,
    pub free_toot_night: Vec<ChatMessage>,
    pub reply_with_context: Vec<ChatMessage>,
    pub reply_without_context: Vec<ChatMessage>,
}

/// Copies a message list.
pub fn clone_messages(ms: &Vec<ChatMessage>) -> (r: Vec<ChatMessage>)
    ensures
        r@ == ms@,
{
    let n = ms.len();
    let mut r: Vec<ChatMessage> = Vec::new();
    let mut i: usize = 0;
    while i < n
        invariant
            n == ms@.len(),
            i <= n,
            r@ == ms@.take(i as int),
        decreases n - i,
    {
        r.push(ChatMessage { role: ms[i].role.clone(), content: ms[i].content.clone() });
        i += 1;
        proof {
            assert(r@ =~= ms@.take(i as int));
        }
    }
    proof {
        assert(ms@.take(n as int) =~= ms@);
    }
    r
}

/// The reply base template: the with-context variant when a transcript is
/// present, the without-context variant otherwise.
pub fn base_prompt_for_reply(prompts: &PromptConfig, conversation_context: Option<&str>) -> (r:
    Vec<ChatMessage>)
    ensures
        msg_views(r@) == if conversation_context is Some {
            msg_views(prompts.reply_with_context@)
        } else {
            msg_views(prompts.reply_without_context@)
        },
{
    match conversation_context {
        Some(_) => clone_messages(&prompts.reply_with_context),
        None => clone_messages(&prompts.reply_without_context),
    }
}

} // verus!
