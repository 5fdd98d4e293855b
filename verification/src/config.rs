//! Profiler settings and clock readings.
use crate::sampler::SampleRate;
use vstd::prelude::*;

verus! {

/// The settings that tracking depends on.
#[derive(Debug, Clone, Copy)]
pub struct Config {
    /// Zero or below turns all telemetry off.
    pub telemetry_mode: i32,
    pub use_gpuviz: bool,
    pub use_cached_clock: bool,
    pub fifo_batch_size: usize,
    pub track_ncclop: bool,
    pub track_proxyop: bool,
    pub track_kernel_ch: bool,
    pub track_steps: bool,
    pub aggregate_steps: bool,
    pub track_recv_steps: bool,
    pub track_step_fifo_wait: bool,
    pub skip_small_collective: bool,
    pub skip_small_collective_steps: bool,
    pub small_msg_threshold: usize,
    pub skip_nvls: bool,
    pub p2p_sample_rate: SampleRate,
    pub p2p_recv_sample_rate: SampleRate,
    pub heartbeat_collective_progress: bool,
    pub otel_enable: bool,
    pub otel_latency_histogram_max_size: u32,
    pub otel_latency_histogram_max_scale: i32,
}

/// What the clocks show when a callback runs, in nanoseconds. Instants count
/// from a fixed origin of the monotonic clock.
#[derive(Debug, Clone, Copy)]
pub struct ClockReading {
    /// The current instant.
    pub now: u64,
    /// The instant at which the cached clock was last refreshed.
    pub cached: u64,
    /// What the cached clock shows as time since the profiler was created.
    pub cached_ns: u64,
}

} // verus!
