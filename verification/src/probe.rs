//! The liveness verdict of one connection attempt.

use vstd::prelude::*;

verus! {

/// The time one probe may take before it counts as failed, in milliseconds.
pub const PROBE_TIMEOUT_MS: u64 = 1000;

/// How one bounded connection attempt to the backend's endpoint ended.
#[derive(Clone, Copy, Debug, PartialEq, Eq)]
pub enum ConnectAttempt {
    /// The connection was established within the timeout.
    Connected,
    /// Nothing listens at the endpoint.
    Refused,
    /// The timeout passed before the connection was established.
    TimedOut,
    /// The attempt failed in any other way.
    Failed,
}

impl ConnectAttempt {
    /// The backend counts as live exactly when the connection succeeded.
    /// Every other ending is an ordinary "not ready", never an error.
    pub open spec fn live(self) -> bool {
        self is Connected
    }

    /// Whether the attempt shows the backend to be live.
    pub fn is_live(&self) -> (live: bool)
        ensures
            live == self.live(),
            live <==> *self == ConnectAttempt::Connected,
    {
        match self {
            ConnectAttempt::Connected => true,
            ConnectAttempt::Refused => false,
            ConnectAttempt::TimedOut => false,
            ConnectAttempt::Failed => false,
        }
    }
}

} // verus!
