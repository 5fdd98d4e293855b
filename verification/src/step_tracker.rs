//! Completed network steps.
use vstd::prelude::*;

verus! {

/// One completed network step. Times are in nanoseconds.
#[derive(Debug, Clone, Copy)]
pub struct EventStep {
    pub step: u32,
    pub size: usize,
    pub start_time: u64,
    pub fifo_wait_dur_ns: Option<u64>,
    pub dur_ns: u64,
}

/// How the steps of a proxy operation are followed.
#[derive(Debug, Clone, Copy)]
pub struct StepTracker {
    pub is_send: bool,
    pub is_v1: bool,
    pub track_fifo_wait: bool,
}

impl StepTracker {
    pub fn new(is_send: bool, is_v1: bool, track_fifo_wait: bool) -> (r: Self)
        ensures
            r == (StepTracker { is_send, is_v1, track_fifo_wait }),
    {
        StepTracker { is_send, is_v1, track_fifo_wait }
    }
}

} // verus!
