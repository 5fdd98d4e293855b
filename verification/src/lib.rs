//! Core of an NCCL profiler plugin: what each profiler callback does to the
//! profiler's state, and which telemetry it emits.
pub mod attributes;
pub mod config;
pub mod counters;
pub mod ctrl_fifo;
pub mod daemon;
pub mod duration;
pub mod event;
pub mod event_laws;
pub mod gap;
pub mod gap_laws;
pub mod hostname;
pub mod instruments;
pub mod latency;
pub mod lifecycle;
pub mod lifecycle_laws;
pub mod metric_laws;
pub mod nccl_metadata;
pub mod ncclop;
pub mod profiler;
pub mod ranking;
pub mod sampler;
pub mod spsc;
pub mod start_event;
pub mod start_laws;
pub mod step_tracker;
pub mod stop_event;
pub mod stop_laws;
pub mod table;
pub mod text;
