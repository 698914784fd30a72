//! Deferred cleanup of a finished session.
//!
//! A session that has ended stays in the registry for a grace delay, so that a reader
//! that is still under way finds what it looks for. The caller owns the timer: it
//! waits for `delay_ms` and then calls [`ScheduledCleanup::run`]. A cleanup is never
//! cancelled. One that runs late does no harm: it leaves a newer session alone.

use crate::options::SessionId;
use crate::registry::SessionRegistry;
use vstd::prelude::*;

verus! {

/// The grace delay, in milliseconds.
pub const CLEANUP_DELAY_MS: u64 = 200;

/// A cleanup to run once its delay has passed.
#[derive(Debug, Clone, Copy, PartialEq, Eq)]
pub struct ScheduledCleanup {
    /// The session to remove.
    pub session_id: SessionId,
    /// How long to wait before running, in milliseconds.
    pub delay_ms: u64,
}

/// The cleanup of session `session_id` after the grace delay.
pub open spec fn cleanup_of(session_id: SessionId) -> ScheduledCleanup {
    ScheduledCleanup { session_id, delay_ms: CLEANUP_DELAY_MS }
}

impl ScheduledCleanup {
    /// The cleanup of session `session_id` after the grace delay.
    pub fn for_session(session_id: SessionId) -> (cleanup: Self)
        ensures
            cleanup == cleanup_of(session_id),
    {
        ScheduledCleanup { session_id, delay_ms: CLEANUP_DELAY_MS }
    }

    /// Runs the cleanup: the active marker is cleared if it still names the session,
    /// and what is cached for the session is dropped in any case.
    pub fn run(&self, registry: &mut SessionRegistry)
        ensures
            final(registry)@ == old(registry)@.expire(self.session_id),
            final(registry)@.wf(),
    {
        registry.clear_active_menu_session(self.session_id);
        registry.clear_options_for_session(self.session_id);
    }
}

} // verus!
