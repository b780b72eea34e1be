//! The window state store: the count of windows created so far.

use vstd::prelude::*;

verus! {

/// Process-wide orchestration state.
///
/// The count starts at zero, only ever grows, and grows only through
/// [`AppState::increment_window_count`]. That method takes `&mut self`, so a
/// caller that shares the state between tasks has to hold it exclusively
/// (behind a lock, say) for as long as it mutates it.
#[derive(Debug)]
pub struct AppState {
    window_count: u64,
}

impl AppState {
    /// The number of windows created so far, as a mathematical integer.
    pub closed spec fn count(&self) -> nat {
        self.window_count as nat
    }

    /// A fresh state: no window has been created yet.
    pub fn new() -> (state: Self)
        ensures
            state.count() == 0,
    {
        AppState { window_count: 0 }
    }

    /// The number of windows created so far.
    pub fn window_count(&self) -> (n: u64)
        ensures
            n as nat == self.count(),
    {
        self.window_count
    }

    /// Whether the counter can still record another window.
    pub fn has_room(&self) -> (b: bool)
        ensures
            b == (self.count() < u64::MAX),
    {
        self.window_count < u64::MAX
    }

    /// Records that one more window has been created.
    pub fn increment_window_count(&mut self)
        requires
            old(self).count() < u64::MAX,
        ensures
            final(self).count() == old(self).count() + 1,
    {
        self.window_count = self.window_count + 1;
    }
}

impl Default for AppState {
    fn default() -> (state: Self)
        ensures
            state.count() == 0,
    {
        AppState::new()
    }
}

} // verus!
