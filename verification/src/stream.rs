//! The stream side of the pipeline: the envelope a text frame decodes
//! into, the filter that decides which notifications are acted on, the
//! reconnect state machine, and the stream URL.  Opening the socket and
//! reading frames happens outside; every decision along the way is here.

use vstd::prelude::*;
use vstd::string::StringExecFns;
use crate::mastodon::Notification;
use crate::text::str_eq;

verus! {

/// One decoded frame envelope: an event name and an optional payload.
pub struct StreamEvent {
    pub event: String,
    pub payload: Option<String>,
}

/// Hands out the payload exactly when the envelope is a notification
/// event that carries one; everything else is dropped.
pub fn relevant_payload<'a>(ev: &'a StreamEvent) -> (r: Option<&'a String>)
    ensures
        match r {
            Some(p) => ev.event@ == "notification"@ && ev.payload == Some(*p),
            None => ev.event@ != "notification"@ || ev.payload is None,
        },
{
    if !str_eq(ev.event.as_str(), "notification") {
        return None;
    }
    match &ev.payload {
        Some(p) => Some(p),
        None => None,
    }
}

/// What becomes of one notification.
#[derive(Clone, Copy, PartialEq, Eq, Structural, Debug)]
pub enum NotificationDecision {
    /// Not a mention: dropped.
    NotMention,
    /// A mention from a bot-flagged account: dropped, to prevent bot
    /// reply loops.
    FromBot,
    /// A mention without a status to reply to: dropped.
    NoStatus,
    /// A mention to answer.
    Handle,
}

/// The account is positively flagged as a bot.
pub open spec fn bot_flag(b: Option<bool>) -> bool {
    match b {
        Some(x) => x,
        None => false,
    }
}

/// The decision for a notification: only a mention from a non-bot
/// account with a status attached is handled.
pub open spec fn decision_spec(n: Notification) -> NotificationDecision {
    if n.notif_type@ != "mention"@ {
        NotificationDecision::NotMention
    } else if bot_flag(n.account.bot) {
        NotificationDecision::FromBot
    } else if n.status is None {
        NotificationDecision::NoStatus
    } else {
        NotificationDecision::Handle
    }
}

/// Classifies a notification.  Only `Handle` leads to a model call and a
/// reply; every other decision drops the notification after a log line.
pub fn classify_notification(n: &Notification) -> (r: NotificationDecision)
    ensures
        r == decision_spec(*n),
{
    if !str_eq(n.notif_type.as_str(), "mention") {
        return NotificationDecision::NotMention;
    }
    let is_bot = match n.account.bot {
        Some(b) => b,
        None => false,
    };
    if is_bot {
        return NotificationDecision::FromBot;
    }
    match &n.status {
        Some(_) => NotificationDecision::Handle,
        None => NotificationDecision::NoStatus,
    }
}

/// A mention whose author is flagged as a bot is never handled: no model
/// call is made and no reply is posted for it.
pub proof fn lemma_bot_mentions_dropped(n: Notification)
    requires
        n.account.bot == Some(true),
    ensures
        decision_spec(n) != NotificationDecision::Handle,
{
}

/// The fixed delay before every reconnect attempt.
pub const RECONNECT_DELAY_MS: u64 = 5000;

/// Where the stream loop stands.
#[derive(Clone, Copy, PartialEq, Eq, Structural, Debug)]
pub enum StreamPhase {
    /// About to open the transport.
    Connecting,
    /// Reading frames.
    Connected,
    /// Waiting out the fixed delay after a disconnect or failed connect.
    Backoff,
}

/// What the transport reports to the loop.
pub enum StreamEventIn {
    Opened,
    OpenFailed,
    TextFrame(String),
    Ping,
    OtherFrame,
    Closed,
    TransportError,
    BackoffElapsed,
}

/// What the loop asks its caller to do next.
pub enum StreamAction {
    /// Open the transport.
    Open,
    /// Hand this frame's text to the notification handler.
    HandleText(String),
    /// Sleep for this many milliseconds.
    Wait(u64),
    /// Nothing; read on.
    Ignore,
}

/// The reconnect loop's state.  It holds nothing but the phase: no frame
/// is buffered, so frames handled before a drop are never replayed after
/// the reconnect.
pub struct StreamLoop {
    pub phase: StreamPhase,
}

/// One step of the loop: pings are left to the transport's automatic
/// answer, text frames are dispatched, and any close, error or failed
/// connect leads to the fixed backoff and then a fresh connect.  The
/// loop never reaches a final state.
pub open spec fn stream_step_spec(phase: StreamPhase, ev: StreamEventIn) -> (
    StreamPhase,
    StreamAction,
) {
    match (phase, ev) {
        (StreamPhase::Connecting, StreamEventIn::Opened) => (
            StreamPhase::Connected,
            StreamAction::Ignore,
        ),
        (StreamPhase::Connecting, StreamEventIn::OpenFailed) => (
            StreamPhase::Backoff,
            StreamAction::Wait(RECONNECT_DELAY_MS),
        ),
        (StreamPhase::Connected, StreamEventIn::TextFrame(t)) => (
            StreamPhase::Connected,
            StreamAction::HandleText(t),
        ),
        (StreamPhase::Connected, StreamEventIn::Ping) => (
            StreamPhase::Connected,
            StreamAction::Ignore,
        ),
        (StreamPhase::Connected, StreamEventIn::OtherFrame) => (
            StreamPhase::Connected,
            StreamAction::Ignore,
        ),
        (StreamPhase::Connected, StreamEventIn::Closed) => (
            StreamPhase::Backoff,
            StreamAction::Wait(RECONNECT_DELAY_MS),
        ),
        (StreamPhase::Connected, StreamEventIn::TransportError) => (
            StreamPhase::Backoff,
            StreamAction::Wait(RECONNECT_DELAY_MS),
        ),
        (StreamPhase::Backoff, StreamEventIn::BackoffElapsed) => (
            StreamPhase::Connecting,
            StreamAction::Open,
        ),
        (p, _) => (p, StreamAction::Ignore),
    }
}

impl StreamLoop {
    /// A loop about to make its first connect.
    pub fn new() -> (r: Self)
        ensures
            r.phase == StreamPhase::Connecting,
    {
        StreamLoop { phase: StreamPhase::Connecting }
    }

    /// Advances the loop by one transport event and says what to do.
    pub fn step(&mut self, ev: StreamEventIn) -> (action: StreamAction)
        ensures
            (final(self).phase, action) == stream_step_spec(old(self).phase, ev),
    {
        let (next, action): (StreamPhase, StreamAction) = match (self.phase, ev) {
            (StreamPhase::Connecting, StreamEventIn::Opened) => (
                StreamPhase::Connected,
                StreamAction::Ignore,
            ),
            (StreamPhase::Connecting, StreamEventIn::OpenFailed) => (
                StreamPhase::Backoff,
                StreamAction::Wait(RECONNECT_DELAY_MS),
            ),
            (StreamPhase::Connected, StreamEventIn::TextFrame(t)) => (
                StreamPhase::Connected,
                StreamAction::HandleText(t),
            ),
            (StreamPhase::Connected, StreamEventIn::Ping) => (
                StreamPhase::Connected,
                StreamAction::Ignore,
            ),
            (StreamPhase::Connected, StreamEventIn::OtherFrame) => (
                StreamPhase::Connected,
                StreamAction::Ignore,
            ),
            (StreamPhase::Connected, StreamEventIn::Closed) => (
                StreamPhase::Backoff,
                StreamAction::Wait(RECONNECT_DELAY_MS),
            ),
            (StreamPhase::Connected, StreamEventIn::TransportError) => (
                StreamPhase::Backoff,
                StreamAction::Wait(RECONNECT_DELAY_MS),
            ),
            (StreamPhase::Backoff, StreamEventIn::BackoffElapsed) => (
                StreamPhase::Connecting,
                StreamAction::Open,
            ),
            (p, _) => (p, StreamAction::Ignore),
        };
        self.phase = next;
        action
    }
}

/// Any disconnect while connected leads, after exactly the fixed delay,
/// back to a connect attempt: the loop never stops on its own.
pub proof fn lemma_reconnect_after_drop(ev: StreamEventIn)
    requires
        ev is Closed || ev is TransportError,
    ensures
        stream_step_spec(StreamPhase::Connected, ev) == (
            StreamPhase::Backoff,
            StreamAction::Wait(RECONNECT_DELAY_MS),
        ),
        stream_step_spec(StreamPhase::Backoff, StreamEventIn::BackoffElapsed) == (
            StreamPhase::Connecting,
            StreamAction::Open,
        ),
{
}

/// Names the result of building the subscription URL with the url crate:
/// the parsed and normalized base with the given query attached, absent
/// exactly when the base does not parse.
pub uninterp spec fn stream_url_of(base: Seq<char>, query: Seq<char>) -> Option<Seq<char>>;

/// Relies on `url::Url::parse`, `Url::set_query` and `Url::as_str`: the
/// parse accepts or rejects the base on its text alone, and the result
/// serializes the parsed URL with the query replaced.
#[verifier::external_body]
fn url_with_query(base: &str, query: &str) -> (r: Option<String>)
    ensures
        r is Some <==> stream_url_of(base@, query@) is Some,
        match r {
            Some(s) => stream_url_of(base@, query@) == Some(s@),
            None => true,
        },
{
    match url::Url::parse(base) {
        Ok(mut u) => {
            u.set_query(Some(query));
            Some(u.as_str().to_string())
        },
        Err(_) => None,
    }
}

/// Builds the stream URL: the streaming base with the user-stream
/// subscription and the access token as its query.  `None` exactly when
/// the base does not parse as a URL.
pub fn build_stream_url(streaming_base_url: &str, token: &str) -> (r: Option<String>)
    ensures
        ({
            let q = "stream=user&access_token="@ + token@;
            match r {
                Some(s) => stream_url_of(streaming_base_url@, q) == Some(s@),
                None => stream_url_of(streaming_base_url@, q) is None,
            }
        }),
{
    let query = String::from_str("stream=user&access_token=").concat(token);
    url_with_query(streaming_base_url, query.as_str())
}

} // verus!
