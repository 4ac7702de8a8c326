//! The values exchanged with the completion service: chat messages, the
//! tools a call may enable, the request the orchestrator assembles, and
//! the service's distilled answer.

use vstd::prelude::*;

verus! {

/// One chat message: a role (`system` or `user` here) and its text.
pub struct ChatMessage {
    pub role: String,
    pub content: String,
}

/// A tool the model may be allowed to call.
pub enum Tool {
    /// The web-search tool, with an optional context-size hint.
    WebSearchPreview { search_context_size: Option<String> },
}

/// A model call as the orchestrator plans it.  The transport adds the
/// model name, credentials and sampling temperature when it performs the
/// call.
pub struct ModelRequest {
    pub messages: Vec<ChatMessage>,
    pub tools: Vec<Tool>,
    pub max_output_tokens: u32,
    pub previous_response_id: Option<String>,
}

/// The web-search tool with the light context-size hint the reply path
/// uses.
pub open spec fn is_web_search_low(t: Tool) -> bool {
    match t {
        Tool::WebSearchPreview { search_context_size } => match search_context_size {
            Some(s) => s@ == "low"@,
            None => false,
        },
    }
}

/// Either no tool, or exactly the light web-search tool, by `enabled`.
pub open spec fn web_search_tools_ok(tools: Seq<Tool>, enabled: bool) -> bool {
    if enabled {
        tools.len() == 1 && is_web_search_low(tools[0])
    } else {
        tools.len() == 0
    }
}

/// The web-search tool without a context-size hint, as the free post
/// enables it.
pub open spec fn is_web_search_plain(t: Tool) -> bool {
    match t {
        Tool::WebSearchPreview { search_context_size } => search_context_size is None,
    }
}

/// Either no tool, or exactly the hint-less web-search tool, by
/// `enabled`.
pub open spec fn free_tools_ok(tools: Seq<Tool>, enabled: bool) -> bool {
    if enabled {
        tools.len() == 1 && is_web_search_plain(tools[0])
    } else {
        tools.len() == 0
    }
}

/// What a model call came back with: the response id, the collected
/// output text, and the reported status when there was one.
pub struct ResponsesResult {
    pub id: String,
    pub text: String,
    pub status: Option<String>,
}

/// The messages as (role, content) character sequences, the form the
/// builder contracts speak of.
pub open spec fn msg_views(ms: Seq<ChatMessage>) -> Seq<(Seq<char>, Seq<char>)> {
    ms.map_values(|m: ChatMessage| (m.role@, m.content@))
}

} // verus!
