//! Housekeeping data of the radiation counter.
use vstd::prelude::*;

verus! {

/// Housekeeping snapshot: the latest per-channel readings, the start of the
/// current window, and the per-channel sums of the current and the previous
/// window.
#[derive(Debug, Clone, PartialEq)]
pub struct RCHk {
    /// Latest raw reading of each channel
    pub readings: Vec<u32>,
    /// Start of the current window
    pub timestamp: i64,
    /// Per-channel sums of the current window
    pub sum: Vec<u64>,
    /// Per-channel sums of the previous window
    pub prev_sum: Vec<u64>,
}

} // verus!
