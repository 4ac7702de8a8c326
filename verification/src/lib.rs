//! Core logic of a streaming social-media reply bot.
//!
//! The crate models the bot's reply pipeline: classifying inbound
//! notifications, reconstructing conversation transcripts, throttling model
//! calls, building prompt messages, repairing degraded model output, and
//! keeping a per-thread record of the last model response.  All I/O (the
//! event stream, HTTP calls, the durable store file) lives outside; the
//! functions here are pure decisions and transformations with contracts.

pub mod clock;
pub mod config;
pub mod context;
pub mod html;
pub mod free_toot;
pub mod json;
pub mod links;
pub mod mastodon;
pub mod messages;
pub mod parrot;
pub mod prompts;
pub mod rate;
pub mod reply;
pub mod search;
pub mod state;
pub mod store;
pub mod stream;
pub mod text;
pub mod types;
