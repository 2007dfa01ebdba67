//! The host that a run reports to: it receives each execution event and the
//! run's log lines.
use vstd::prelude::*;

use crate::lifecycle::ExecutionEvent;

verus! {

/// What a run reports to. A host that cannot take a report answers with the
/// reason.
pub trait Host {
    /// Receives an execution event.
    fn report(&mut self, event: ExecutionEvent) -> Result<(), String>;

    /// Receives a log line; a host that keeps no log takes every line.
    fn log(&mut self, message: String) -> Result<(), String> {
        Ok(())
    }
}

/// A host that takes every report and keeps nothing.
#[derive(Clone, Copy, Debug, Default)]
pub struct NoopHost;

impl Host for NoopHost {
    fn report(&mut self, event: ExecutionEvent) -> (r: Result<(), String>)
        ensures
            r is Ok,
    {
        Ok(())
    }
}

} // verus!
