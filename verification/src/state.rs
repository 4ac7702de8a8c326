//! The small piece of bot state kept across restarts besides the
//! conversation store: the last notification id seen by polling-mode
//! fallbacks.  Reading and writing its file happens outside.

use vstd::prelude::*;

verus! {

/// The persisted bot state.
pub struct BotState {
    pub last_notification_id: Option<String>,
}

impl BotState {
    /// A fresh state with nothing seen yet.
    pub fn new() -> (r: Self)
        ensures
            r.last_notification_id is None,
    {
        BotState { last_notification_id: None }
    }
}

} // verus!
