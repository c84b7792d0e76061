//! Presentation-facing state shared with the web layer.
//!
//! The route table and the serving loop live in the runtime; the library
//! only owns the state they share — the clock — and how it is handed out
//! to request handlers.

use vstd::prelude::*;

use crate::clock::Clock;

verus! {

/// How many serving tasks run concurrently.
pub const WEB_TASK_POOL_SIZE: usize = 1;

/// The state used by the web app, containing the clock.
pub struct AppState {
    pub clock: Clock,
}

/// An extractor for getting the clock from the app state.
pub struct ClockExtractor(pub Clock);

/// Names the application whose route table the runtime builds: the
/// greeting, the version string, and the current time read through a
/// [`ClockExtractor`].
pub struct Application;

impl ClockExtractor {
    /// Hand a request handler its own copy of the shared clock. The copy
    /// equals the state's clock exactly.
    pub fn from_app_state(state: &AppState) -> (e: ClockExtractor)
        ensures
            e.0 == state.clock,
    {
        ClockExtractor(state.clock)
    }
}

} // verus!
