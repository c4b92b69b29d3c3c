//! Which lifecycle events are shown.
use vstd::prelude::*;

verus! {

/// The named points at which the loop reports.
#[derive(Clone, Copy, Debug, PartialEq, Eq, Structural)]
pub enum LogEvent {
    Connecting,
    Connected,
    Subscribed,
    Toggled,
    TilingError,
    WebsocketError,
    Disconnected,
}

/// Whether an event reports a failure.
pub open spec fn is_failure(e: LogEvent) -> bool {
    e is TilingError || e is WebsocketError
}

/// Decides what is reported: failures always, routine events only in a
/// verbose (debug) build.
#[derive(Clone, Copy, Debug, PartialEq, Eq, Structural)]
pub struct Logger {
    pub verbose: bool,
}

impl Logger {
    pub fn shows(&self, event: LogEvent) -> (r: bool)
        ensures
            r == (self.verbose || is_failure(event)),
    {
        match event {
            LogEvent::TilingError | LogEvent::WebsocketError => true,
            _ => self.verbose,
        }
    }
}

} // verus!
