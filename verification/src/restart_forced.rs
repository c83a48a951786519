//! The content policy that takes effect once a forced restart was
//! broadcast: from then on, every http and https load is rejected, so the
//! browser shows no further web content before it restarts.

use vstd::prelude::*;

verus! {

/// A content-policy verdict on one load.
#[derive(Clone, Copy, Debug, PartialEq, Eq, Structural)]
pub enum LoadDecision {
    /// Let the load proceed.
    Accept,
    /// Reject the load because a restart was forced.
    RejectRestartForced,
}

/// The broadcast topic this policy listens for.
pub open spec fn spec_restart_forced_topic() -> Seq<char> {
    "felt-restart-forced"@
}

/// The verdict for a load of the given scheme under the given flag: only
/// http and https loads are rejected, and only once the flag latched.
pub open spec fn spec_load_decision(restart_forced: bool, scheme: Seq<char>) -> LoadDecision {
    if (scheme == "http"@ || scheme == "https"@) && restart_forced {
        LoadDecision::RejectRestartForced
    } else {
        LoadDecision::Accept
    }
}

/// The observer-registered policy object.  Its flag latches when the
/// restart-forced topic is observed and is never cleared; registration with
/// the host observer service happens outside.
#[derive(Debug)]
pub struct FeltRestartForced {
    pub restart_forced: bool,
}

impl FeltRestartForced {
    /// A policy whose flag is down: every load is accepted.
    pub fn new() -> (r: FeltRestartForced)
        ensures
            !r.restart_forced,
    {
        FeltRestartForced { restart_forced: false }
    }

    /// Handles one observer notification: the restart-forced topic latches
    /// the flag, every other topic leaves it untouched.
    pub fn observe(&mut self, topic: &str)
        ensures
            final (self).restart_forced == (old(self).restart_forced || topic@
                == spec_restart_forced_topic()),
    {
        if crate::lifecycle::str_eq(topic, "felt-restart-forced") {
            self.restart_forced = true;
        }
    }

    /// The verdict for one load, by URI scheme.
    pub fn is_restart_forced(&self, scheme: &str) -> (r: LoadDecision)
        ensures
            r == spec_load_decision(self.restart_forced, scheme@),
    {
        let is_http = crate::lifecycle::str_eq(scheme, "http");
        let is_https = crate::lifecycle::str_eq(scheme, "https");
        if (is_http || is_https) && self.restart_forced {
            LoadDecision::RejectRestartForced
        } else {
            LoadDecision::Accept
        }
    }

    /// The should-load content-policy hook: same verdict as
    /// [`Self::is_restart_forced`].
    pub fn should_load(&self, scheme: &str) -> (r: LoadDecision)
        ensures
            r == spec_load_decision(self.restart_forced, scheme@),
    {
        self.is_restart_forced(scheme)
    }

    /// The should-process content-policy hook: same verdict as
    /// [`Self::is_restart_forced`].
    pub fn should_process(&self, scheme: &str) -> (r: LoadDecision)
        ensures
            r == spec_load_decision(self.restart_forced, scheme@),
    {
        self.is_restart_forced(scheme)
    }
}

} // verus!
