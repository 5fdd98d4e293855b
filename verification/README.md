# nccl_profiler

The core of a profiler plugin for NCCL: what each profiler callback does to the
profiler's state, which messages it sends to the daemon, and which
OpenTelemetry measurements and spans it emits. The library under `src/` is
verified with Verus; `app/` puts it into a process, with clocks, threads,
OpenTelemetry providers and global state.

## Layout

- `attributes`, `instruments`: telemetry attributes and what is handed to
  OpenTelemetry instruments.
- `latency`, `duration`: histograms with a bound on how many connections or
  kinds of operation are recorded under attributes of their own; `ranking` and
  `table` hold the selection of the most active ones and the keyed table.
- `gap`, `gap_laws`: intervals without NCCL activity.
- `ncclop`: durations, sequence numbers and spans of completed operations, and
  how histograms are exported.
- `profiler`, `event`, `daemon`, `spsc`, `ctrl_fifo`, `counters`, `sampler`:
  the state behind the callbacks.
- `start_event`, `stop_event`, `event_laws`: events from start to stop.
- `lifecycle`: communicators that come and go.
- `hostname`, `text`: small text functions.

## Conventions

Instants are nanoseconds on the monotonic clock, wall clock times are
nanoseconds since the Unix epoch, and both are handed to the library as
integers. Messages to the daemon wait in the sending end of a thread's channel,
in order, until `app/` passes them on.

What is not proved is what the functions marked `external_body` state of
OpenTelemetry, crossbeam, rand and the standard library; the comment above each
says what that is.
