//! Process-wide application state.

use vstd::prelude::*;

verus! {

/// Counters shared by every command handler and the tray.
#[derive(Debug)]
pub struct AppState {
    /// Unread notifications shown on the badge.
    pub notification_count: u32,
    /// Whether a user is signed in.
    pub is_authenticated: bool,
}

impl AppState {
    /// The state a process starts with: nothing unread, nobody signed in.
    pub open spec fn initial() -> AppState {
        AppState { notification_count: 0, is_authenticated: false }
    }
}

impl Default for AppState {
    fn default() -> (state: AppState)
        ensures
            state == AppState::initial(),
    {
        AppState { notification_count: 0, is_authenticated: false }
    }
}

} // verus!
