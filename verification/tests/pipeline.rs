use replybot::config::{default_streaming_ws, mask, model_accepts_temperature, Visibility};
use replybot::context::{format_conversation_context, resolve_context};
use replybot::free_toot::{
    build_messages_for_free_toot, season_label_from_month, time_label_from_hour,
};
use replybot::mastodon::{
    build_reply_status_text, trimmed_status_text, Account, Notification, Status, StatusContext,
};
use replybot::messages::{apply_placeholders, split_messages_for_responses};
use replybot::parrot::is_parrot_reply;
use replybot::prompts::PromptConfig;
use replybot::rate::{wait_for_rate_limit, RateLimiterState};
use replybot::reply::{
    adopt_retry, finalize_reply, needs_parrot_retry, needs_retry, plan_initial_call,
    plan_parrot_retry_call, plan_retry_call,
};
use replybot::search::should_force_search;
use replybot::store::ConversationStore;
use replybot::stream::{
    build_stream_url, classify_notification, relevant_payload, NotificationDecision,
    StreamAction, StreamEvent, StreamEventIn, StreamLoop, StreamPhase,
};
use replybot::types::{ChatMessage, ResponsesResult, Tool};

fn status(id: &str, html: &str) -> Status {
    Status {
        id: id.to_string(),
        content: html.to_string(),
        visibility: "public".to_string(),
        in_reply_to_id: None,
    }
}

fn msg(role: &str, content: &str) -> ChatMessage {
    ChatMessage { role: role.to_string(), content: content.to_string() }
}

fn prompts() -> PromptConfig {
    PromptConfig {
        free_toot_morning: vec![msg("system", "朝の投稿"), msg("user", "なにか書いて")],
        free_toot_day: vec![msg("system", "昼の投稿"), msg("user", "なにか書いて")],
        free_toot_night: vec![msg("system", "夜の投稿"), msg("user", "なにか書いて")],
        reply_with_context: vec![
            msg("system", "文脈: {{CONTEXT}}"),
            msg("user", "{{USER_TEXT}}"),
        ],
        reply_without_context: vec![msg("system", "返信して")],
    }
}

// Transcript shape: at most ten ancestor lines plus one line for the
// current status, empties dropped.
#[test]
fn transcript_keeps_last_ten_ancestors_and_current() {
    let mut ancestors = Vec::new();
    for i in 0..13 {
        ancestors.push(status(&format!("a{}", i), &format!("<p>post {}</p>", i)));
    }
    ancestors.push(status("empty", "<br>"));
    let ctx = StatusContext { ancestors, descendants: Vec::new() };
    let cur = status("cur", "<p>いまの投稿</p>");
    let got = format_conversation_context(&ctx, &cur);
    let lines: Vec<&str> = got.lines().collect();
    assert!(lines.len() <= 11);
    assert_eq!(*lines.last().unwrap(), "- いまの投稿");
    for line in &lines {
        assert!(line.starts_with("- "));
        assert!(line.len() > 2);
    }
    // the window is the last ten ancestors: the first three fall out,
    // the empty one is dropped
    assert_eq!(lines[0], "- post 4");
}

#[test]
fn transcript_drops_empty_statuses() {
    let ctx = StatusContext {
        ancestors: vec![status("a", "<p>一つ目</p>"), status("b", "<br>")],
        descendants: Vec::new(),
    };
    let cur = status("cur", "質問です");
    let got = format_conversation_context(&ctx, &cur);
    assert_eq!(got, "- 一つ目\n- 質問です");
}

// Bot-authored mentions are dropped before any model call.
#[test]
fn bot_mentions_are_never_handled() {
    let n = Notification {
        id: "n1".to_string(),
        notif_type: "mention".to_string(),
        status: Some(status("s1", "hi")),
        account: Account { acct: "robot".to_string(), bot: Some(true) },
    };
    assert_eq!(classify_notification(&n), NotificationDecision::FromBot);
    let human = Notification {
        id: "n2".to_string(),
        notif_type: "mention".to_string(),
        status: Some(status("s2", "hi")),
        account: Account { acct: "alice".to_string(), bot: Some(false) },
    };
    assert_eq!(classify_notification(&human), NotificationDecision::Handle);
    let fav = Notification {
        id: "n3".to_string(),
        notif_type: "favourite".to_string(),
        status: None,
        account: Account { acct: "alice".to_string(), bot: None },
    };
    assert_eq!(classify_notification(&fav), NotificationDecision::NotMention);
}

// Back-to-back rate-limited calls are spaced by at least the interval.
#[test]
fn rate_limiter_spaces_consecutive_calls() {
    let mut st = RateLimiterState { last_call_at: None };
    let w1 = wait_for_rate_limit(&mut st, 1_000, 3_000);
    assert_eq!(w1, 0);
    assert_eq!(st.last_call_at, Some(1_000));
    let w2 = wait_for_rate_limit(&mut st, 1_500, 3_000);
    assert_eq!(w2, 2_500);
    assert_eq!(st.last_call_at, Some(4_000));
    assert!(4_000 - 1_000 >= 3_000);
    let w3 = wait_for_rate_limit(&mut st, 9_000, 3_000);
    assert_eq!(w3, 0);
    assert_eq!(st.last_call_at, Some(9_000));
}

// Upserting the same pair twice leaves one record with that value.
#[test]
fn upsert_is_idempotent() {
    let mut store = ConversationStore::new();
    store.upsert_last_response_id("thread-1", "resp-a", 100);
    store.upsert_last_response_id("thread-1", "resp-a", 200);
    assert_eq!(store.record_count(), 1);
    assert_eq!(store.get_previous_response_id("thread-1").as_deref(), Some("resp-a"));
    assert_eq!(store.get_previous_response_id("thread-2"), None);
}

#[test]
fn upsert_overwrites_and_keeps_other_threads() {
    let mut store = ConversationStore::new();
    store.upsert_last_response_id("t1", "r1", 1);
    store.upsert_last_response_id("t2", "r2", 2);
    store.upsert_last_response_id("t1", "r3", 3);
    assert_eq!(store.record_count(), 2);
    assert_eq!(store.get_previous_response_id("t1").as_deref(), Some("r3"));
    assert_eq!(store.get_previous_response_id("t2").as_deref(), Some("r2"));
}

// Echo detection is whitespace-insensitive.
#[test]
fn echo_detection_cases() {
    assert!(is_parrot_reply("今日の天気は？", "今日の天気は？"));
    assert!(!is_parrot_reply("今日の天気は？", "晴れだよ"));
    assert!(is_parrot_reply("a b", "ab"));
    assert!(!is_parrot_reply("", ""));
}

// The forced-search heuristic.
#[test]
fn forced_search_cases() {
    assert!(should_force_search("Rust 1.91.1のリリースノート教えて"));
    assert!(!should_force_search("おはよう"));
    assert!(should_force_search("check the changelog please"));
    assert!(should_force_search("what's new in the release notes"));
    assert!(should_force_search("version 1.2 shipped"));
    assert!(!should_force_search("version one point two shipped"));
    assert!(!should_force_search("pi is 3.14159の近似"));
}

// A mention with no fetched context degrades to a fresh, context-free
// thread keyed by the status id, and a record appears under that key.
#[test]
fn context_fetch_failure_degrades_gracefully() {
    let cur = status("status-9", "<p>教えてください</p>");
    let resolved = resolve_context(None, &cur);
    assert_eq!(resolved.thread_key, "status-9");
    assert!(resolved.transcript.is_none());

    let p = prompts();
    let (force, req) = plan_initial_call(
        "教えてください",
        resolved.transcript.as_deref(),
        None,
        false,
        &p,
        "2026-01-01T00:00:00+09:00",
    );
    assert!(force);
    assert!(req.previous_response_id.is_none());
    assert_eq!(req.max_output_tokens, 140);

    let mut store = ConversationStore::new();
    assert_eq!(store.get_previous_response_id(&resolved.thread_key), None);
    store.upsert_last_response_id(&resolved.thread_key, "resp-new", 42);
    assert_eq!(
        store.get_previous_response_id("status-9").as_deref(),
        Some("resp-new")
    );
}

#[test]
fn context_with_ancestors_keys_on_oldest() {
    let ctx = StatusContext {
        ancestors: vec![status("root", "<p>始まり</p>"), status("mid", "<p>続き</p>")],
        descendants: Vec::new(),
    };
    let cur = status("leaf", "<p>質問</p>");
    let resolved = resolve_context(Some(&ctx), &cur);
    assert_eq!(resolved.thread_key, "root");
    assert_eq!(resolved.transcript.as_deref(), Some("- 始まり\n- 続き\n- 質問"));
}

// An empty or incomplete first answer fires one tightened retry, and the
// retry's non-empty text is what gets posted.
#[test]
fn incomplete_answer_retries_and_posts_retry_text() {
    let first = ResponsesResult {
        id: "r1".to_string(),
        text: "".to_string(),
        status: Some("incomplete".to_string()),
    };
    assert!(needs_retry(&first));

    let p = prompts();
    let retry_req = plan_retry_call("質問", None, false, false, &p, "2026-01-01T00:00:00+09:00");
    assert_eq!(retry_req.max_output_tokens, 120);
    assert!(retry_req.previous_response_id.is_none());

    let retry = ResponsesResult {
        id: "r2".to_string(),
        text: " 答えです ".to_string(),
        status: Some("completed".to_string()),
    };
    let adopted = adopt_retry(first, retry);
    assert_eq!(adopted.id, "r2");
    let out = finalize_reply(adopted);
    assert_eq!(out.text, "答えです");
    assert_eq!(out.response_id, "r2");
}

#[test]
fn blank_retry_keeps_first_answer() {
    let first = ResponsesResult {
        id: "r1".to_string(),
        text: "最初の答え".to_string(),
        status: Some("completed".to_string()),
    };
    assert!(!needs_retry(&first));
    let retry = ResponsesResult {
        id: "r2".to_string(),
        text: "   ".to_string(),
        status: None,
    };
    let adopted = adopt_retry(first, retry);
    assert_eq!(adopted.id, "r1");
}

#[test]
fn echo_retry_fires_only_off_forced_search() {
    let res = ResponsesResult {
        id: "r".to_string(),
        text: "今日の天気は？".to_string(),
        status: None,
    };
    assert!(needs_parrot_retry(false, "今日の天気は？", &res));
    assert!(!needs_parrot_retry(true, "今日の天気は？", &res));
    let p = prompts();
    let req = plan_parrot_retry_call("今日の天気は？", None, &p);
    assert_eq!(req.max_output_tokens, 1024);
    assert!(req.tools.is_empty());
}

#[test]
fn leaked_payload_is_replaced_by_apology() {
    let res = ResponsesResult {
        id: "r".to_string(),
        text: "{\"oops\": 1}".to_string(),
        status: None,
    };
    let out = finalize_reply(res);
    assert_eq!(out.text, "短く要点＋出典ドメインでまとめられなかったみたい。もう一度聞いて！");
}

// A dropped connection leads to the fixed backoff, a reconnect, and no
// replay of frames handled before the drop.
#[test]
fn stream_reconnects_after_drop_without_replay() {
    let mut sl = StreamLoop::new();
    assert_eq!(sl.phase, StreamPhase::Connecting);
    assert!(matches!(sl.step(StreamEventIn::Opened), StreamAction::Ignore));
    assert_eq!(sl.phase, StreamPhase::Connected);

    let a1 = sl.step(StreamEventIn::TextFrame("frame-1".to_string()));
    match a1 {
        StreamAction::HandleText(t) => assert_eq!(t, "frame-1"),
        _ => panic!("expected a dispatch"),
    }

    let a2 = sl.step(StreamEventIn::TransportError);
    match a2 {
        StreamAction::Wait(ms) => assert_eq!(ms, 5000),
        _ => panic!("expected the fixed backoff"),
    }
    assert_eq!(sl.phase, StreamPhase::Backoff);

    assert!(matches!(sl.step(StreamEventIn::BackoffElapsed), StreamAction::Open));
    assert_eq!(sl.phase, StreamPhase::Connecting);
    assert!(matches!(sl.step(StreamEventIn::Opened), StreamAction::Ignore));

    // after the reconnect only new frames are dispatched
    let a3 = sl.step(StreamEventIn::TextFrame("frame-2".to_string()));
    match a3 {
        StreamAction::HandleText(t) => assert_eq!(t, "frame-2"),
        _ => panic!("expected a dispatch"),
    }
}

#[test]
fn ping_and_other_frames_are_ignored() {
    let mut sl = StreamLoop::new();
    sl.step(StreamEventIn::Opened);
    assert!(matches!(sl.step(StreamEventIn::Ping), StreamAction::Ignore));
    assert!(matches!(sl.step(StreamEventIn::OtherFrame), StreamAction::Ignore));
    assert_eq!(sl.phase, StreamPhase::Connected);
}

#[test]
fn envelope_filter_passes_only_notification_payloads() {
    let ev = StreamEvent {
        event: "notification".to_string(),
        payload: Some("{}".to_string()),
    };
    assert_eq!(relevant_payload(&ev).map(|s| s.as_str()), Some("{}"));
    let other = StreamEvent { event: "update".to_string(), payload: Some("{}".to_string()) };
    assert!(relevant_payload(&other).is_none());
    let empty = StreamEvent { event: "notification".to_string(), payload: None };
    assert!(relevant_payload(&empty).is_none());
}

#[test]
fn placeholders_substitute_and_report() {
    let template = vec![msg("system", "文脈: {{CONTEXT}}"), msg("user", "Q: {{USER_TEXT}}")];
    let (out, had_user, had_ctx) = apply_placeholders(&template, "天気は？", Some("- 昨日の話"));
    assert!(had_user);
    assert!(had_ctx);
    assert_eq!(out[0].content, "文脈: - 昨日の話");
    assert_eq!(out[1].content, "Q: 天気は？");
}

#[test]
fn initial_messages_append_user_when_no_placeholder() {
    let p = prompts();
    let (force, req) = plan_initial_call("おはよう", None, Some("prev-1"), false, &p, "T");
    assert!(!force);
    assert!(req.tools.is_empty());
    assert_eq!(req.previous_response_id.as_deref(), Some("prev-1"));
    let last = req.messages.last().unwrap();
    assert_eq!(last.role, "user");
    assert_eq!(last.content, "おはよう");
    assert!(req
        .messages
        .iter()
        .any(|m| m.role == "system" && m.content == "CurrentTime(JST): T"));
}

#[test]
fn forced_search_enables_web_search_tool() {
    let p = prompts();
    let (force, req) = plan_initial_call("1.91.1の変更点は", None, None, false, &p, "T");
    assert!(force);
    assert_eq!(req.tools.len(), 1);
    match &req.tools[0] {
        Tool::WebSearchPreview { search_context_size } => {
            assert_eq!(search_context_size.as_deref(), Some("low"));
        }
    }
}

#[test]
fn split_merges_system_messages() {
    let msgs = vec![
        msg("system", "one"),
        msg("user", "hello"),
        msg("system", "two"),
    ];
    let (instructions, input) = split_messages_for_responses(msgs);
    assert_eq!(instructions.as_deref(), Some("one\n\ntwo"));
    assert_eq!(input.len(), 1);
    assert_eq!(input[0].content, "hello");
}

#[test]
fn split_without_system_messages_has_no_instructions() {
    let msgs = vec![msg("user", "hello")];
    let (instructions, input) = split_messages_for_responses(msgs);
    assert!(instructions.is_none());
    assert_eq!(input.len(), 1);
}

#[test]
fn free_toot_rewrites_last_user_message() {
    let p = prompts();
    let (msgs, slot) = build_messages_for_free_toot(&p, 4, 7, "T");
    assert_eq!(slot, "morning");
    assert_eq!(msgs[1].content, "春の朝のような投稿を生成してください。");
    let last = msgs.last().unwrap();
    assert_eq!(last.role, "system");
    assert_eq!(last.content, "CurrentTime(JST): T");
}

#[test]
fn season_and_time_labels() {
    assert_eq!(season_label_from_month(3), "春");
    assert_eq!(season_label_from_month(8), "夏");
    assert_eq!(season_label_from_month(11), "秋");
    assert_eq!(season_label_from_month(12), "冬");
    assert_eq!(time_label_from_hour(6), "朝");
    assert_eq!(time_label_from_hour(12), "昼");
    assert_eq!(time_label_from_hour(17), "夕方");
    assert_eq!(time_label_from_hour(23), "夜");
}

#[test]
fn visibility_parses_case_insensitively() {
    assert_eq!(Visibility::parse("PUBLIC"), Some(Visibility::Public));
    assert_eq!(Visibility::parse("unlisted"), Some(Visibility::Unlisted));
    assert_eq!(Visibility::parse("Private"), Some(Visibility::Private));
    assert_eq!(Visibility::parse("direct"), Some(Visibility::Direct));
    assert_eq!(Visibility::parse("followers"), None);
    assert_eq!(Visibility::Unlisted.as_str(), "unlisted");
}

#[test]
fn streaming_url_defaults_from_http_base() {
    assert_eq!(
        default_streaming_ws("https://mastodon.example"),
        "wss://mastodon.example/api/v1/streaming"
    );
    assert_eq!(
        default_streaming_ws("http://localhost:3000"),
        "ws://localhost:3000/api/v1/streaming"
    );
    assert_eq!(
        default_streaming_ws("wss://mastodon.example/api/v1/streaming"),
        "wss://mastodon.example/api/v1/streaming"
    );
}

#[test]
fn mask_hides_secrets() {
    assert_eq!(mask("abc"), "***");
    assert_eq!(mask("abcdef"), "***");
    assert_eq!(mask("abcdefgh"), "abc***");
}

#[test]
fn temperature_rule_by_model_name() {
    assert!(model_accepts_temperature("gpt-4.1-mini"));
    assert!(!model_accepts_temperature("gpt-5-large"));
}

#[test]
fn reply_status_text_leads_with_mention() {
    assert_eq!(build_reply_status_text("alice", "こんにちは"), "@alice こんにちは");
}

#[test]
fn empty_status_text_is_refused() {
    assert!(trimmed_status_text("   ").is_none());
    assert_eq!(trimmed_status_text(" 本文 ").as_deref(), Some("本文"));
}

#[test]
fn stream_url_attaches_subscription_query() {
    let got = build_stream_url("wss://mastodon.example/api/v1/streaming", "tok123");
    assert_eq!(
        got.as_deref(),
        Some("wss://mastodon.example/api/v1/streaming?stream=user&access_token=tok123")
    );
    assert!(build_stream_url("not a url", "tok").is_none());
}

#[test]
fn clock_reading_is_in_range() {
    let (now, month, hour) = replybot::clock::now_tokyo();
    assert!(!now.is_empty());
    assert!((1..=12).contains(&month));
    assert!(hour <= 23);
}
