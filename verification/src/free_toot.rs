//! The free-post builder: picks a prompt by the hour of day, rewrites its
//! last user message with a season-and-time instruction, appends the time
//! note, and plans the unprompted model call.

use vstd::prelude::*;
use vstd::string::StringExecFns;
use crate::messages::{sys_role, time_note};
use crate::prompts::{clone_messages, PromptConfig};
use crate::text::str_eq;
use crate::types::{free_tools_ok, msg_views, ChatMessage, ModelRequest, Tool};

verus! {

/// The season word for a month (1 to 12): spring for 3 to 5, summer for
/// 6 to 8, autumn for 9 to 11, winter otherwise.
pub open spec fn season_label_spec(month: u32) -> Seq<char> {
    if 3 <= month && month <= 5 {
        "春"@
    } else if 6 <= month && month <= 8 {
        "夏"@
    } else if 9 <= month && month <= 11 {
        "秋"@
    } else {
        "冬"@
    }
}

/// The season word for a month.
pub fn season_label_from_month(month: u32) -> (r: &'static str)
    ensures
        r@ == season_label_spec(month),
{
    if 3 <= month && month <= 5 {
        "春"
    } else if 6 <= month && month <= 8 {
        "夏"
    } else if 9 <= month && month <= 11 {
        "秋"
    } else {
        "冬"
    }
}

/// The time-of-day word for an hour (0 to 23): morning for 5 to 8, noon
/// for 9 to 15, evening for 16 to 18, night otherwise.
pub open spec fn time_label_spec(hour: u32) -> Seq<char> {
    if 5 <= hour && hour <= 8 {
        "朝"@
    } else if 9 <= hour && hour <= 15 {
        "昼"@
    } else if 16 <= hour && hour <= 18 {
        "夕方"@
    } else {
        "夜"@
    }
}

/// The time-of-day word for an hour.
pub fn time_label_from_hour(hour: u32) -> (r: &'static str)
    ensures
        r@ == time_label_spec(hour),
{
    if 5 <= hour && hour <= 8 {
        "朝"
    } else if 9 <= hour && hour <= 15 {
        "昼"
    } else if 16 <= hour && hour <= 18 {
        "夕方"
    } else {
        "夜"
    }
}

/// The slot name logged for an hour; the evening slot reuses the daytime
/// template.
pub open spec fn slot_label_spec(hour: u32) -> Seq<char> {
    if 5 <= hour && hour <= 8 {
        "morning"@
    } else if 9 <= hour && hour <= 15 {
        "day"@
    } else if 16 <= hour && hour <= 18 {
        "evening"@
    } else {
        "night"@
    }
}

/// The template the hour selects, as views.
pub open spec fn free_prompt_views(prompts: PromptConfig, hour: u32) -> Seq<
    (Seq<char>, Seq<char>),
> {
    if 5 <= hour && hour <= 8 {
        msg_views(prompts.free_toot_morning@)
    } else if 9 <= hour && hour <= 18 {
        msg_views(prompts.free_toot_day@)
    } else {
        msg_views(prompts.free_toot_night@)
    }
}

/// Picks the free-post template for the hour, with its slot name.
pub fn pick_free_toot_prompt(prompts: &PromptConfig, hour: u32) -> (r: (
    Vec<ChatMessage>,
    &'static str,
))
    ensures
        msg_views(r.0@) == free_prompt_views(*prompts, hour),
        r.1@ == slot_label_spec(hour),
{
    if 5 <= hour && hour <= 8 {
        (clone_messages(&prompts.free_toot_morning), "morning")
    } else if 9 <= hour && hour <= 15 {
        (clone_messages(&prompts.free_toot_day), "day")
    } else if 16 <= hour && hour <= 18 {
        (clone_messages(&prompts.free_toot_day), "evening")
    } else {
        (clone_messages(&prompts.free_toot_night), "night")
    }
}

/// Index of the last user message, or -1 when there is none.
pub open spec fn rfind_user(ms: Seq<(Seq<char>, Seq<char>)>) -> int
    decreases ms.len(),
{
    if ms.len() == 0 {
        -1
    } else if ms.last().0 == "user"@ {
        ms.len() - 1
    } else {
        rfind_user(ms.drop_last())
    }
}

proof fn lemma_rfind_at(ms: Seq<(Seq<char>, Seq<char>)>, i: int)
    requires
        0 <= i < ms.len(),
        ms[i].0 == "user"@,
        forall|j: int| i < j < ms.len() ==> (#[trigger] ms[j]).0 != "user"@,
    ensures
        rfind_user(ms) == i,
    decreases ms.len(),
{
    if i == ms.len() - 1 {
    } else {
        assert(ms.last().0 != "user"@);
        assert forall|j: int| i < j < ms.drop_last().len() implies (
        #[trigger] ms.drop_last()[j]).0 != "user"@ by {
            assert(ms.drop_last()[j] == ms[j]);
        }
        assert(ms.drop_last()[i] == ms[i]);
        lemma_rfind_at(ms.drop_last(), i);
    }
}

proof fn lemma_rfind_none(ms: Seq<(Seq<char>, Seq<char>)>)
    requires
        forall|j: int| 0 <= j < ms.len() ==> (#[trigger] ms[j]).0 != "user"@,
    ensures
        rfind_user(ms) == -1,
    decreases ms.len(),
{
    if ms.len() > 0 {
        assert forall|j: int| 0 <= j < ms.drop_last().len() implies (
        #[trigger] ms.drop_last()[j]).0 != "user"@ by {
            assert(ms.drop_last()[j] == ms[j]);
        }
        lemma_rfind_none(ms.drop_last());
    }
}

/// The season-and-time instruction written into the last user message.
pub open spec fn free_toot_instruction(month: u32, hour: u32) -> Seq<char> {
    season_label_spec(month) + "の"@ + time_label_spec(hour) + "のような投稿を生成してください。"@
}

/// What the free-post request holds: the hour's template with its last
/// user message rewritten to the season-and-time instruction (unchanged
/// when it has no user message), and the time note appended.
pub open spec fn free_toot_msgs_spec(
    base: Seq<(Seq<char>, Seq<char>)>,
    month: u32,
    hour: u32,
    now: Seq<char>,
) -> Seq<(Seq<char>, Seq<char>)> {
    let i = rfind_user(base);
    let rewritten = if i >= 0 {
        base.update(i, (base[i].0, free_toot_instruction(month, hour)))
    } else {
        base
    };
    rewritten.push((sys_role(), time_note(now)))
}

/// Builds the free-post message list for the clock reading, returning the
/// slot name alongside.
pub fn build_messages_for_free_toot(
    prompts: &PromptConfig,
    month: u32,
    hour: u32,
    now_jst: &str,
) -> (r: (Vec<ChatMessage>, &'static str))
    ensures
        msg_views(r.0@) == free_toot_msgs_spec(
            free_prompt_views(*prompts, hour),
            month,
            hour,
            now_jst@,
        ),
        r.1@ == slot_label_spec(hour),
{
    let picked = pick_free_toot_prompt(prompts, hour);
    let mut msgs = picked.0;
    let slot = picked.1;
    let ghost base = msg_views(msgs@);
    let n = msgs.len();
    let mut user_idx: Option<usize> = None;
    let mut k: usize = 0;
    while k < n
        invariant
            n == msgs@.len(),
            k <= n,
            base == msg_views(msgs@),
            match user_idx {
                Some(i) => i < k && base[i as int].0 == "user"@ && forall|j: int|
                    i < j < k ==> (#[trigger] base[j]).0 != "user"@,
                None => forall|j: int| 0 <= j < k ==> (#[trigger] base[j]).0 != "user"@,
            },
        decreases n - k,
    {
        if str_eq(msgs[k].role.as_str(), "user") {
            user_idx = Some(k);
        }
        k += 1;
    }
    match user_idx {
        Some(i) => {
            proof {
                lemma_rfind_at(base, i as int);
            }
            let content = String::from_str(season_label_from_month(month)).concat("の").concat(
                time_label_from_hour(hour),
            ).concat("のような投稿を生成してください。");
            let ghost before = msgs@;
            let m = &mut msgs[i];
            m.content = content;
            proof {
                assert(msg_views(msgs@) =~= base.update(
                    i as int,
                    (base[i as int].0, free_toot_instruction(month, hour)),
                ));
            }
        },
        None => {
            proof {
                lemma_rfind_none(base);
            }
        },
    }
    let ghost rewritten = msg_views(msgs@);
    msgs.push(
        ChatMessage {
            role: String::from_str("system"),
            content: String::from_str("CurrentTime(JST): ").concat(now_jst),
        },
    );
    proof {
        assert(msg_views(msgs@) =~= rewritten.push((sys_role(), time_note(now_jst@))));
    }
    (msgs, slot)
}

/// Plans the unprompted free-post call: the slot's messages, a
/// 1024-token budget, the search tool only when globally enabled, and no
/// response id.
pub fn plan_free_toot_call(
    prompts: &PromptConfig,
    month: u32,
    hour: u32,
    now_jst: &str,
    enable_web_search: bool,
) -> (r: (ModelRequest, &'static str))
    ensures
        msg_views(r.0.messages@) == free_toot_msgs_spec(
            free_prompt_views(*prompts, hour),
            month,
            hour,
            now_jst@,
        ),
        free_tools_ok(r.0.tools@, enable_web_search),
        r.0.max_output_tokens == 1024,
        r.0.previous_response_id is None,
        r.1@ == slot_label_spec(hour),
{
    let built = build_messages_for_free_toot(prompts, month, hour, now_jst);
    let mut tools: Vec<Tool> = Vec::new();
    if enable_web_search {
        tools.push(Tool::WebSearchPreview { search_context_size: None });
    }
    let req = ModelRequest {
        messages: built.0,
        tools,
        max_output_tokens: 1024,
        previous_response_id: None,
    };
    (req, built.1)
}

} // verus!
