[package]
name = "nccl_profiler"
version = "0.1.0"
edition = "2021"
publish = false

[dependencies]
crossbeam = "0.8"
env_logger = "0.11"
libc = "0.2"
log = "0.4"
opentelemetry = { version = "0.29", features = ["metrics", "trace"] }
opentelemetry-otlp = { version = "0.29", features = ["grpc-tonic", "metrics", "trace"] }
opentelemetry_sdk = { version = "0.29", features = ["metrics", "trace", "spec_unstable_metrics_views", "testing"] }
rand = { version = "0.9", features = ["small_rng"] }
