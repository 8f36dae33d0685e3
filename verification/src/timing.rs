//! The timing parameters of the core's background work.

use vstd::prelude::*;

verus! {

/// Intervals and timeouts, in milliseconds unless the name says otherwise.
#[derive(Debug, Clone, Copy, PartialEq, Eq, Structural)]
pub struct Timing {
    pub reconcile_interval_ms: u64,
    pub verify_timeout_ms: u64,
    pub verify_sample_delay_ms: u64,
    pub rollback_verify_timeout_ms: u64,
    pub rpcd_rollback_timeout_secs: u32,
}

impl Default for Timing {
    /// Reconcile every 2 s; wait up to 90 s for a change to converge, sampling every 400 ms;
    /// up to 10 s after a rollback; and let rpcd roll back after 120 s.
    fn default() -> (r: Timing)
        ensures
            r == (Timing {
                reconcile_interval_ms: 2_000,
                verify_timeout_ms: 90_000,
                verify_sample_delay_ms: 400,
                rollback_verify_timeout_ms: 10_000,
                rpcd_rollback_timeout_secs: 120,
            }),
    {
        Timing {
            reconcile_interval_ms: 2_000,
            verify_timeout_ms: 90_000,
            verify_sample_delay_ms: 400,
            rollback_verify_timeout_ms: 10_000,
            rpcd_rollback_timeout_secs: 120,
        }
    }
}

} // verus!
