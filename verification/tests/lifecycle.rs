use nccl_profiler::config::{ClockReading, Config};
use nccl_profiler::counters::CounterTable;
use nccl_profiler::daemon::{ControlMessage, Message, ThreadControl};
use nccl_profiler::lifecycle::{finalize_handler, init_handler, init_handler_v4, InitState};
use nccl_profiler::profiler::{
    fifo_batch, gpuviz_start_ns, thread_local_state, wants_gpuviz, Communicator, ProcessInfo, Profiler, Version,
    EVENT_QUEUE_SZ,
};
use nccl_profiler::sampler::SampleRate;

fn config() -> Config {
    Config {
        telemetry_mode: 1,
        use_gpuviz: false,
        use_cached_clock: false,
        fifo_batch_size: 0,
        track_ncclop: true,
        track_proxyop: false,
        track_kernel_ch: false,
        track_steps: false,
        aggregate_steps: false,
        track_recv_steps: false,
        track_step_fifo_wait: false,
        skip_small_collective: true,
        skip_small_collective_steps: false,
        small_msg_threshold: 65536,
        skip_nvls: false,
        p2p_sample_rate: SampleRate::Always,
        p2p_recv_sample_rate: SampleRate::Always,
        heartbeat_collective_progress: false,
        otel_enable: false,
        otel_latency_histogram_max_size: 160,
        otel_latency_histogram_max_scale: 20,
    }
}

fn process(init_time: i128) -> ProcessInfo {
    ProcessInfo {
        pid: 7,
        hostname: String::from("host"),
        init_time,
        init_instant: 1_000,
    }
}

fn profiler(config: &Config, version: Version) -> Profiler {
    Profiler::new(version, config, process(5_000), Some(9), 4, &mut CounterTable::new())
}

#[test]
fn first_communicator_starts_the_profiler() {
    let config = config();
    let mut init = InitState::new();
    let mut counters = CounterTable::new();
    let mut mask = -1;

    let (comm, actions) =
        init_handler(&mut mask, Version::V2, &config, &mut init, &mut counters).unwrap();
    assert_eq!(mask, 1 | 2 | 4 | 8);
    assert_eq!((comm.comm_hash, comm.total_net_bytes), (None, 0));
    assert!(actions.init_logger);
    assert_eq!(actions.create_profiler, Some(Version::V2));
    assert!(actions.spawn_daemon);
    assert!(actions.announce.is_none());
    assert_eq!(init.init_count, 1);

    let (second, actions) =
        init_handler(&mut mask, Version::V2, &config, &mut init, &mut counters).unwrap();
    assert_eq!(second.total_net_bytes, 1);
    assert!(!actions.init_logger && actions.create_profiler.is_none() && !actions.spawn_daemon);
    assert_eq!(init.init_count, 2);

    // the daemon stops with the last communicator
    assert!(!finalize_handler(second, &config, &mut init).unwrap().join_daemon);
    assert!(finalize_handler(comm, &config, &mut init).unwrap().join_daemon);
    assert_eq!(init.init_count, 0);

    // a second cycle starts the daemon again but keeps the profiler
    let (_, actions) =
        init_handler(&mut mask, Version::V2, &config, &mut init, &mut counters).unwrap();
    assert!(actions.spawn_daemon);
    assert!(actions.create_profiler.is_none());
}

#[test]
fn named_communicators_are_announced() {
    let mut config = config();
    config.heartbeat_collective_progress = true;
    config.track_kernel_ch = true;
    config.aggregate_steps = true;
    let mut init = InitState::new();
    let mut counters = CounterTable::new();
    let mut mask = 0;
    let (comm, actions) =
        init_handler_v4(&mut mask, 0x77, Version::V4, &config, &mut init, &mut counters).unwrap();
    assert_eq!(mask, 1 | 2 | 4 | 8 | 16 | 64);
    assert_eq!(comm.comm_hash, Some(0x77));
    assert!(!actions.init_logger);
    assert_eq!(actions.create_profiler, Some(Version::V4));
    assert!(actions.spawn_daemon);
    match actions.announce {
        Some(Message::CommOpen(open)) => {
            assert_eq!(open.comm_hash, Some(0x77));
            assert_eq!(open.total_net_bytes, comm.total_net_bytes);
        }
        other => panic!("unexpected {:?}", other),
    }
    let actions = finalize_handler(comm, &config, &mut init).unwrap();
    assert!(matches!(actions.announce, Some(Message::CommClose(0x77))));
    assert!(actions.join_daemon);
}

#[test]
fn masks_follow_the_settings() {
    let mut config = config();
    let mut init = InitState::new();
    let mut counters = CounterTable::new();
    let mut mask = 0;
    init_handler_v4(&mut mask, 1, Version::V4, &config, &mut init, &mut counters).unwrap();
    assert_eq!(mask, 15);
    config.track_steps = true;
    init_handler_v4(&mut mask, 1, Version::V4, &config, &mut init, &mut counters).unwrap();
    assert_eq!(mask, 31);
    // steps are only reported to the newest interface
    init_handler(&mut mask, Version::V3, &config, &mut init, &mut counters).unwrap();
    assert_eq!(mask, 15);
    config.track_kernel_ch = true;
    init_handler(&mut mask, Version::V3, &config, &mut init, &mut counters).unwrap();
    assert_eq!(mask, 79);
}

#[test]
fn telemetry_off_asks_for_nothing() {
    let mut config = config();
    config.telemetry_mode = 0;
    let mut init = InitState::new();
    let mut counters = CounterTable::new();
    let mut mask = 5;
    let (comm, actions) =
        init_handler_v4(&mut mask, 1, Version::V4, &config, &mut init, &mut counters).unwrap();
    assert_eq!(mask, 0);
    assert!(actions.create_profiler.is_none() && !actions.spawn_daemon);
    assert_eq!(init.init_count, 0);
    let actions = finalize_handler(comm, &config, &mut init).unwrap();
    assert!(actions.announce.is_none() && !actions.join_daemon);
}

#[test]
fn profiler_at_start() {
    let mut config = config();
    config.otel_enable = true;
    config.heartbeat_collective_progress = true;
    config.use_gpuviz = true;
    let mut counters = CounterTable::new();
    counters.create();
    let profiler =
        Profiler::new(Version::V3, &config, process(5_000), Some(9), 4, &mut counters);
    assert_eq!(profiler.pid, 7);
    assert_eq!(profiler.gpuviz_lib, Some(9));
    assert!(profiler.gap_tracker.is_some());
    assert_eq!(profiler.remote_net_bytes, Some(1));
    assert_eq!(counters.get(1), 0);
    assert!(profiler.daemon.is_none());

    assert!(wants_gpuviz(&config));
    config.telemetry_mode = 0;
    assert!(!wants_gpuviz(&config));
    config.otel_enable = false;
    config.heartbeat_collective_progress = false;
    let profiler =
        Profiler::new(Version::V3, &config, process(5_000), Some(9), 4, &mut counters);
    assert_eq!(profiler.gpuviz_lib, None);
    assert!(profiler.gap_tracker.is_none());
    assert_eq!(profiler.remote_net_bytes, None);
    assert_eq!(gpuviz_start_ns(12), 12);
    assert_eq!(gpuviz_start_ns(-1), 0);
}

#[test]
fn timers_follow_the_configured_clock() {
    let clock = ClockReading {
        now: 1_700,
        cached: 1_600,
        cached_ns: 590,
    };
    let mut config = config();
    let fresh = profiler(&config, Version::V4);
    assert_eq!(fresh.recent_timer_instant(&clock), 1_700);
    assert_eq!(fresh.recent_timer_ns(&clock), 700);
    config.use_cached_clock = true;
    let cached = profiler(&config, Version::V4);
    assert_eq!(cached.recent_timer_instant(&clock), 1_600);
    assert_eq!(cached.recent_timer_ns(&clock), 590);

    assert_eq!(fresh.instant_to_timestamp(1_250), 5_250);
    assert_eq!(fresh.instant_to_timestamp(10), 5_000);
    assert!(fresh.instant_to_timestamp(1_250) < fresh.instant_to_timestamp(1_251));
    // before the epoch only the time since start is known
    let early = Profiler::new(Version::V4, &config, process(-3), None, 4, &mut CounterTable::new());
    assert_eq!(early.instant_to_timestamp(1_250), 250);
}

#[test]
fn daemon_handles_are_kept_once() {
    let mut profiler = profiler(&config(), Version::V4);
    assert_eq!(profiler.join_daemon(), None);
    assert_eq!(profiler.spawn_daemon(5), None);
    assert_eq!(profiler.spawn_daemon(6), Some(5));
    assert_eq!(profiler.join_daemon(), Some(6));
    assert_eq!(profiler.join_daemon(), None);
}

#[test]
fn threads_are_announced_in_order() {
    let mut profiler = profiler(&config(), Version::V4);
    for i in 0..256 {
        assert!(profiler.can_register_thread());
        profiler.register_thread(ThreadControl {
            ncclop_channel: i,
            channel: i + 1_000,
        });
    }
    assert!(!profiler.can_register_thread());
    let ControlMessage::NewThread(first) = profiler.next_control().unwrap();
    assert_eq!((first.ncclop_channel, first.channel), (0, 1_000));
    assert!(profiler.can_register_thread());
    for _ in 1..256 {
        assert!(profiler.next_control().is_some());
    }
    assert!(profiler.next_control().is_none());
}

#[test]
fn threads_at_start() {
    let mut settings = config();
    let profiler_v4 = profiler(&settings, Version::V4);
    let (state, control) = thread_local_state(&profiler_v4, 3, 4, 64);
    assert_eq!((control.ncclop_channel, control.channel), (3, 4));
    assert_eq!((state.ncclop_fifo.channel, state.fifo.channel), (3, 4));
    assert_eq!(state.fifo.capacity, EVENT_QUEUE_SZ);
    assert_eq!((state.ncclop_fifo.batch, state.fifo.batch), (1, 1));
    assert_eq!((state.free_lists.ncclop, state.free_lists.proxyop), (256, 256));
    assert_eq!((state.free_lists.steps, state.free_lists.kernelch), (256, 64));
    assert_eq!(state.free_lists.proxystep, 64);
    assert_eq!(state.proxyop_id, 0);

    assert_eq!(fifo_batch(&settings), 1);
    settings.fifo_batch_size = 16;
    assert_eq!(fifo_batch(&settings), 16);
    let mut profiler_v3 = profiler(&settings, Version::V3);
    let state = profiler_v3.init_thread_state(5, 6, 64);
    assert_eq!(state.free_lists.proxystep, 0);
    assert_eq!((state.ncclop_fifo.batch, state.fifo.batch), (16, 16));
    let ControlMessage::NewThread(control) = profiler_v3.next_control().unwrap();
    assert_eq!((control.ncclop_channel, control.channel), (5, 6));
}

#[test]
fn counters_are_independent() {
    let mut counters = CounterTable::new();
    let a = Communicator::new(&mut counters);
    let b = Communicator::new(&mut counters);
    assert_ne!(a.total_net_bytes, b.total_net_bytes);
    counters.add_to(a.total_net_bytes, 10);
    counters.add_to(a.total_net_bytes, 5);
    assert_eq!(counters.get(a.total_net_bytes), 15);
    assert_eq!(counters.get(b.total_net_bytes), 0);
}
