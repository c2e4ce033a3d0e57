//! The shared application state: the supervised backend handle.
//!
//! At most one backend process is tracked at a time.  The handle is absent
//! before a successful start and after a successful stop, present
//! otherwise.  The UI event loop delivers events sequentially, so the
//! state is mutated by one event at a time; the runtime that registers the
//! handlers wraps this value in its own mutual-exclusion lock.

use vstd::prelude::*;
use crate::process::ProcessHandle;

verus! {

/// Process-wide state of the shell: the optional handle of the supervised
/// backend process.  Created once at startup, read and emptied by the
/// quit handler.
pub struct AppState {
    backend: Option<ProcessHandle>,
}

impl AppState {
    /// The handle currently tracked, if any.
    pub closed spec fn supervised(&self) -> Option<ProcessHandle> {
        self.backend
    }

    /// A state tracking `backend`, as the bootstrapper builds it right
    /// after the spawn attempt.
    pub fn new(backend: Option<ProcessHandle>) -> (r: AppState)
        ensures
            r.supervised() == backend,
    {
        AppState { backend }
    }

    /// Whether a backend process is currently tracked.
    pub fn has_backend(&self) -> (b: bool)
        ensures
            b == (self.supervised() is Some),
    {
        self.backend.is_some()
    }

    /// Hands out the tracked handle and stops tracking it.  The quit
    /// handler calls this exactly once, so the backend receives at most
    /// one stop request.
    pub fn take_backend(&mut self) -> (r: Option<ProcessHandle>)
        ensures
            r == old(self).supervised(),
            final(self).supervised() is None,
    {
        self.backend.take()
    }
}

} // verus!
