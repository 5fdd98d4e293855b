use nccl_profiler::config::{ClockReading, Config};
use nccl_profiler::counters::CounterTable;
use nccl_profiler::daemon::{Message, StepBatch};
use nccl_profiler::event::{is_nccl_activity, Event, Group, NcclOp, ProxyStep, StepTimes};
use nccl_profiler::nccl_metadata::{
    Algo, CollDescr, EventDescr, HandleKind, NcclOpKey, NcclOpType, OpDescr, P2pDescr,
    ParentHandle, ProxyOpDescr, ProxyOpState, ProxyStepDescr, ProxyStepState,
};
use nccl_profiler::profiler::{
    Communicator, KernelCh, ProcessInfo, Profiler, ProxyOpLocalData, ThreadLocalState, Version,
};
use nccl_profiler::sampler::{SampleRate, Sampler};
use nccl_profiler::spsc::Sender;
use nccl_profiler::start_event::{
    can_start_event, classify_coll, sample_p2p, start_event_handler, start_without_state, CollStart,
};
use nccl_profiler::step_tracker::EventStep;
use nccl_profiler::stop_event::{
    can_stop_event, record_event_state_handler, record_proxyop_event_state_handler_v4,
    record_proxystep_event_state_handler, stop_event_handler,
};

const CLOCK: ClockReading = ClockReading {
    now: 5_000,
    cached: 4_000,
    cached_ns: 2_900,
};

const COMM: Communicator = Communicator {
    comm_hash: Some(0xc0),
    total_net_bytes: 0,
};

fn config() -> Config {
    Config {
        telemetry_mode: 1,
        use_gpuviz: false,
        use_cached_clock: false,
        fifo_batch_size: 1,
        track_ncclop: true,
        track_proxyop: false,
        track_kernel_ch: true,
        track_steps: true,
        aggregate_steps: false,
        track_recv_steps: false,
        track_step_fifo_wait: false,
        skip_small_collective: true,
        skip_small_collective_steps: false,
        small_msg_threshold: 65536,
        skip_nvls: false,
        p2p_sample_rate: SampleRate::Always,
        p2p_recv_sample_rate: SampleRate::Always,
        heartbeat_collective_progress: false,
        otel_enable: true,
        otel_latency_histogram_max_size: 160,
        otel_latency_histogram_max_scale: 20,
    }
}

fn setup(config: &Config) -> (ThreadLocalState, Profiler, CounterTable) {
    let mut counters = CounterTable::new();
    counters.create();
    let process = ProcessInfo {
        pid: 7,
        hostname: String::from("host"),
        init_time: 0,
        init_instant: 1_000,
    };
    let mut profiler = Profiler::new(Version::V4, config, process, None, 2, &mut counters);
    let thread = profiler.init_thread_state(1, 2, 64);
    (thread, profiler, counters)
}

fn coll(op_type: NcclOpType, byte_count: usize) -> CollDescr {
    CollDescr {
        op_type,
        algo: Algo::Other,
        algo_name: "Ring",
        proto_name: "Simple",
        n_max_channel: 2,
        seq_num: 1,
        rank: 0,
        byte_count,
        comm_hash: Some(0xd0),
    }
}

fn p2p(is_send: bool, byte_count: usize) -> P2pDescr {
    P2pDescr {
        is_send,
        peer: 1,
        rank: 0,
        byte_count,
        comm_hash: None,
    }
}

fn parent(kind: HandleKind, ncclop: Option<usize>) -> ParentHandle {
    ParentHandle {
        is_null: false,
        kind,
        ncclop,
    }
}

fn proxyop(parent: ParentHandle, is_send: bool) -> ProxyOpDescr {
    ProxyOpDescr {
        parent,
        pid: 7,
        is_send,
        peer: 1,
        channel_id: 0,
        n_steps: 4,
        chunk_size: 1024,
    }
}

fn step(n: u32) -> EventStep {
    EventStep {
        step: n,
        size: 10,
        start_time: 1,
        fifo_wait_dur_ns: None,
        dur_ns: 3,
    }
}

fn start(
    thread: &mut ThreadLocalState,
    profiler: &mut Profiler,
    descr: EventDescr,
) -> Option<Event> {
    assert!(can_start_event(thread, profiler, &descr, &Some(COMM)));
    start_event_handler(thread, profiler, &descr, Some(COMM), Version::V4, &CLOCK, true).unwrap()
}

fn stop(
    thread: &mut ThreadLocalState,
    profiler: &mut Profiler,
    event: Event,
    last: Option<EventStep>,
) {
    assert!(can_stop_event(&event, &None));
    let unused = |_: ProxyStep, _: StepTimes| -> EventStep { panic!("no step ended") };
    stop_event_handler(thread, profiler, event, last, &mut None, unused, &CLOCK).unwrap();
}

fn in_flight(profiler: &Profiler) -> usize {
    profiler.gap_tracker.as_ref().unwrap().in_flight()
}

fn batch_steps(batch: &StepBatch) -> Vec<u32> {
    batch.steps().iter().map(|s| s.step).collect()
}

#[test]
fn collectives_are_classified() {
    let mut config = config();
    let small = coll(NcclOpType::Broadcast, 65536);
    let large = coll(NcclOpType::Broadcast, 65537);
    let reduce = coll(NcclOpType::AllReduce, 8);
    assert_eq!(classify_coll(&config, &small), CollStart::Small);
    assert_eq!(classify_coll(&config, &large), CollStart::Track);
    // an all-reduce is tracked whatever its size
    assert_eq!(classify_coll(&config, &reduce), CollStart::Track);

    config.skip_small_collective = false;
    assert_eq!(classify_coll(&config, &small), CollStart::Track);
    config.skip_small_collective_steps = true;
    assert_eq!(classify_coll(&config, &small), CollStart::TrackLite);
    assert_eq!(classify_coll(&config, &large), CollStart::Track);

    let mut nvls = large;
    nvls.algo = Algo::NvlsTree;
    assert_eq!(classify_coll(&config, &nvls), CollStart::Track);
    config.skip_nvls = true;
    assert_eq!(classify_coll(&config, &nvls), CollStart::TrackLite);
    nvls.algo = Algo::Nvls;
    assert_eq!(classify_coll(&config, &nvls), CollStart::TrackLite);

    config.track_steps = false;
    assert_eq!(classify_coll(&config, &large), CollStart::TrackLite);
    config.aggregate_steps = true;
    assert_eq!(classify_coll(&config, &large), CollStart::Track);

    config.track_ncclop = false;
    assert_eq!(classify_coll(&config, &large), CollStart::Ignore);
    config.track_proxyop = true;
    assert_eq!(classify_coll(&config, &small), CollStart::Placeholder);
}

#[test]
fn groups_start_and_stop() {
    let mut settings = config();
    let (mut thread, mut profiler, _) = setup(&settings);
    let event = start(&mut thread, &mut profiler, EventDescr::Group).unwrap();
    assert!(matches!(event, Event::Group(Group { start_time: 5_000 })));
    assert_eq!(in_flight(&profiler), 0);
    stop(&mut thread, &mut profiler, event, None);
    let sent = thread.fifo.drain();
    assert_eq!(sent.len(), 1);
    assert!(sent[0].use_barrier);
    assert!(matches!(sent[0].message, Message::Group(Group { start_time: 5_000 })));

    settings.track_ncclop = false;
    let (mut thread, mut profiler, _) = setup(&settings);
    assert!(start(&mut thread, &mut profiler, EventDescr::Group).is_none());
    settings.track_proxyop = true;
    let (mut thread, mut profiler, _) = setup(&settings);
    let event = start(&mut thread, &mut profiler, EventDescr::Group);
    assert!(matches!(event, Some(Event::Dummy(42))));
}

#[test]
fn collectives_are_announced() {
    let (mut thread, mut profiler, _) = setup(&config());
    let descr = coll(NcclOpType::AllGather, 1 << 20);
    let first = start(&mut thread, &mut profiler, EventDescr::Coll(descr)).unwrap();
    assert!(matches!(first, Event::NcclOp(0)));
    let second = start(&mut thread, &mut profiler, EventDescr::Coll(descr)).unwrap();
    assert!(matches!(second, Event::NcclOp(1)));
    assert_eq!(in_flight(&profiler), 2);

    let sent = thread.ncclop_fifo.drain();
    assert_eq!(sent.len(), 2);
    match &sent[1].message {
        Message::NcclOp(op) => {
            assert_eq!((op.id, op.start_time, op.comm_hash), (1, 5_000, 0xc0));
            assert!(op.end_time.is_none());
            assert_eq!(op.byte_count(), 1 << 20);
        }
        other => panic!("unexpected {:?}", other),
    }
    assert!(sent[1].use_barrier);

    stop(&mut thread, &mut profiler, first, None);
    stop(&mut thread, &mut profiler, second, None);
    assert_eq!(in_flight(&profiler), 0);
    assert!(thread.fifo.drain().is_empty());

    // without a node the operation stands as a placeholder
    let event = start_event_handler(
        &mut thread,
        &mut profiler,
        &EventDescr::Coll(descr),
        Some(COMM),
        Version::V4,
        &CLOCK,
        false,
    )
    .unwrap();
    assert!(matches!(event, Some(Event::Dummy(42))));
    assert!(thread.ncclop_fifo.drain().is_empty());
    assert_eq!(profiler.ncclop_cnt, 3);
    assert_eq!(in_flight(&profiler), 0);
}

#[test]
fn small_collectives_open_a_window_only() {
    let (mut thread, mut profiler, _) = setup(&config());
    let descr = coll(NcclOpType::Broadcast, 16);
    let event = start(&mut thread, &mut profiler, EventDescr::Coll(descr)).unwrap();
    assert!(matches!(event, Event::SmallNcclOp(0xc0)));
    assert_eq!(in_flight(&profiler), 1);
    assert!(thread.ncclop_fifo.drain().is_empty());
    stop(&mut thread, &mut profiler, event, None);
    assert_eq!(in_flight(&profiler), 0);
}

#[test]
fn communicator_hashes_are_resolved() {
    let mut settings = config();
    settings.track_ncclop = false;
    settings.track_proxyop = true;
    let (mut thread, mut profiler, _) = setup(&settings);
    let unnamed = Communicator {
        comm_hash: None,
        total_net_bytes: 0,
    };
    let mut descr = coll(NcclOpType::Broadcast, 16);
    let mut hash_of = |descr: CollDescr, comm: Communicator| {
        let event = start_event_handler(
            &mut thread,
            &mut profiler,
            &EventDescr::Coll(descr),
            Some(comm),
            Version::V1,
            &CLOCK,
            true,
        );
        match event.unwrap() {
            Some(Event::Dummy(hash)) => hash,
            other => panic!("unexpected {:?}", other),
        }
    };
    assert_eq!(hash_of(descr, COMM), 0xc0);
    assert_eq!(hash_of(descr, unnamed), 0xd0);
    descr.comm_hash = None;
    assert_eq!(hash_of(descr, unnamed), 42);
}

#[test]
fn transfers_are_sampled() {
    let mut settings = config();
    let (mut thread, mut profiler, _) = setup(&settings);
    let large = start(&mut thread, &mut profiler, EventDescr::P2p(p2p(true, 65537)));
    assert!(matches!(large, Some(Event::NcclOp(0))));
    // transfers at or below the threshold are never tracked
    assert!(start(&mut thread, &mut profiler, EventDescr::P2p(p2p(true, 65536))).is_none());
    assert_eq!(thread.ncclop_fifo.drain().len(), 1);

    settings.p2p_recv_sample_rate = SampleRate::Never;
    let (mut thread, mut profiler, _) = setup(&settings);
    assert!(start(&mut thread, &mut profiler, EventDescr::P2p(p2p(false, 1 << 20))).is_none());
    assert!(start(&mut thread, &mut profiler, EventDescr::P2p(p2p(true, 1 << 20))).is_some());

    settings.p2p_sample_rate = SampleRate::Never;
    let (mut thread, mut profiler, _) = setup(&settings);
    assert!(start(&mut thread, &mut profiler, EventDescr::P2p(p2p(true, 1 << 20))).is_none());

    settings.p2p_sample_rate = SampleRate::Always;
    settings.track_ncclop = false;
    settings.track_proxyop = true;
    let (mut thread, mut profiler, _) = setup(&settings);
    let event = start(&mut thread, &mut profiler, EventDescr::P2p(p2p(true, 16)));
    assert!(matches!(event, Some(Event::Dummy(0xc0))));
    assert_eq!(in_flight(&profiler), 0);
}

#[test]
fn cached_clock_times_transfers() {
    let mut settings = config();
    settings.use_cached_clock = true;
    let (mut thread, mut profiler, _) = setup(&settings);
    start(&mut thread, &mut profiler, EventDescr::P2p(p2p(true, 1 << 20)));
    let sent = thread.ncclop_fifo.drain();
    match &sent[0].message {
        Message::NcclOp(op) => assert_eq!(op.start_time, 4_000),
        other => panic!("unexpected {:?}", other),
    }
}

#[test]
fn light_proxy_operations_share_a_reference_count() {
    let (mut thread, mut profiler, _) = setup(&config());
    let descr = proxyop(parent(HandleKind::NcclOpLite, Some(11)), true);
    let a = start(&mut thread, &mut profiler, EventDescr::ProxyOp(descr)).unwrap();
    let b = start(&mut thread, &mut profiler, EventDescr::ProxyOp(descr)).unwrap();
    assert_eq!(in_flight(&profiler), 2);
    match (&a, &b) {
        (Event::ProxyOpLite(a), Event::ProxyOpLite(b)) => {
            assert_eq!((a.info.id, b.info.id), (0, 1));
            assert_eq!(a.parent_op, Some(11));
            assert!(a.info.comm.is_none());
        }
        other => panic!("unexpected {:?}", other),
    }

    // the start of the work is noted once
    let late = ClockReading {
        now: 5_100,
        ..CLOCK
    };
    record_proxyop_event_state_handler_v4(
        &mut thread,
        &profiler,
        &a,
        ProxyOpState::InProgress,
        &late,
    )
    .unwrap();
    let later = ClockReading {
        now: 5_200,
        ..CLOCK
    };
    record_proxyop_event_state_handler_v4(
        &mut thread,
        &profiler,
        &b,
        ProxyOpState::InProgress,
        &later,
    )
    .unwrap();

    stop(&mut thread, &mut profiler, a, None);
    assert!(thread.fifo.drain().is_empty());
    let unused = |_: ProxyStep, _: StepTimes| -> EventStep { panic!("no step ended") };
    let end = ClockReading {
        now: 5_900,
        ..CLOCK
    };
    stop_event_handler(&mut thread, &mut profiler, b, None, &mut None, unused, &end).unwrap();
    let sent = thread.fifo.drain();
    assert_eq!(sent.len(), 1);
    match &sent[0].message {
        Message::ProxyOpLite(start, dur_ns, info) => {
            assert_eq!((*start, *dur_ns, info.id), (5_100, 800, 1));
        }
        other => panic!("unexpected {:?}", other),
    }
    assert!(thread.ncclop_refcnt.entries.is_empty());
    assert_eq!(in_flight(&profiler), 0);
}

#[test]
fn other_states_of_light_proxy_operations_are_ignored() {
    let (mut thread, mut profiler, _) = setup(&config());
    let descr = proxyop(parent(HandleKind::NcclOpLite, Some(11)), true);
    let event = start(&mut thread, &mut profiler, EventDescr::ProxyOp(descr)).unwrap();
    let late = ClockReading {
        now: 5_100,
        ..CLOCK
    };
    record_proxyop_event_state_handler_v4(&mut thread, &profiler, &event, ProxyOpState::Other, &late)
        .unwrap();
    assert_eq!(thread.dec_ncclop_ref(7, 11), Some(5_000));
}

#[test]
fn kernel_channels_report_their_operation() {
    let (mut thread, mut profiler, _) = setup(&config());
    let handle = parent(HandleKind::Other, Some(3));
    let event = start(&mut thread, &mut profiler, EventDescr::KernelCh(handle)).unwrap();
    assert!(matches!(event, Event::KernelCh(KernelCh { parent_op: Some(3) })));
    stop(&mut thread, &mut profiler, event, None);
    let sent = thread.fifo.drain();
    assert!(matches!(sent[0].message, Message::KernelCh(5_000, 0, 3)));

    let mut null = handle;
    null.is_null = true;
    assert!(start(&mut thread, &mut profiler, EventDescr::KernelCh(null)).is_none());
    let small = parent(HandleKind::SmallNcclOp, Some(3));
    assert!(start(&mut thread, &mut profiler, EventDescr::KernelCh(small)).is_none());
    let group = parent(HandleKind::Other, None);
    assert!(start(&mut thread, &mut profiler, EventDescr::KernelCh(group)).is_none());
    assert_eq!(in_flight(&profiler), 0);
}

#[test]
fn proxy_operations_need_a_parent() {
    let (mut thread, mut profiler, _) = setup(&config());
    let mut null = parent(HandleKind::Other, Some(3));
    null.is_null = true;
    for handle in [null, parent(HandleKind::SmallNcclOp, Some(3))] {
        let descr = EventDescr::ProxyOp(proxyop(handle, true));
        assert!(start(&mut thread, &mut profiler, descr).is_none());
    }
    assert_eq!(thread.proxyop_id, 0);
    // a light one without an operation is dropped, but takes an identifier
    let descr = EventDescr::ProxyOp(proxyop(parent(HandleKind::NcclOpLite, None), true));
    assert!(start(&mut thread, &mut profiler, descr).is_none());
    assert_eq!(thread.proxyop_id, 1);
    // receives are light unless their steps are tracked
    let descr = EventDescr::ProxyOp(proxyop(parent(HandleKind::Other, Some(3)), false));
    let event = start(&mut thread, &mut profiler, descr);
    assert!(matches!(event, Some(Event::ProxyOpLite(_))));
}

#[test]
fn communicators_are_tied_within_the_process() {
    let mut settings = config();
    settings.heartbeat_collective_progress = true;
    let (mut thread, mut profiler, _) = setup(&settings);
    let mut descr = proxyop(parent(HandleKind::Other, Some(3)), true);
    match start(&mut thread, &mut profiler, EventDescr::ProxyOp(descr)) {
        Some(Event::ProxyOp(data)) => assert_eq!(data.info.comm.unwrap().comm_hash, Some(0xc0)),
        other => panic!("unexpected {:?}", other),
    }
    assert!(!can_start_event(&thread, &profiler, &EventDescr::ProxyOp(descr), &None));
    descr.pid = 8;
    assert!(can_start_event(&thread, &profiler, &EventDescr::ProxyOp(descr), &None));
    match start(&mut thread, &mut profiler, EventDescr::ProxyOp(descr)) {
        Some(Event::ProxyOp(data)) => assert!(data.info.comm.is_none()),
        other => panic!("unexpected {:?}", other),
    }
    assert!(!can_start_event(
        &thread,
        &profiler,
        &EventDescr::Coll(coll(NcclOpType::Reduce, 1)),
        &None
    ));
}

#[test]
fn every_step_reaches_the_daemon() {
    let mut settings = config();
    settings.track_proxyop = true;
    let (mut thread, mut profiler, _) = setup(&settings);
    let descr = proxyop(parent(HandleKind::Other, Some(3)), true);
    let mut event = start(&mut thread, &mut profiler, EventDescr::ProxyOp(descr)).unwrap();
    for n in 0..3 {
        record_event_state_handler(&mut thread, &profiler, &mut event, Some(step(n))).unwrap();
        record_event_state_handler(&mut thread, &profiler, &mut event, None).unwrap();
    }
    match &event {
        Event::ProxyOp(data) => assert_eq!(data.n_steps, 3),
        other => panic!("unexpected {:?}", other),
    }
    stop(&mut thread, &mut profiler, event, Some(step(3)));

    let sent = thread.fifo.drain();
    assert_eq!(sent.len(), 3);
    match &sent[0].message {
        Message::StepBatch(info, batch, last) => {
            assert_eq!((info.id, *last), (0, false));
            assert_eq!(batch_steps(batch), [0, 1]);
            assert!(batch.is_full());
        }
        other => panic!("unexpected {:?}", other),
    }
    assert!(!sent[0].use_barrier);
    match &sent[1].message {
        Message::ProxyOpExtra(extra) => assert_eq!(extra.descr.chunk_size, 1024),
        other => panic!("unexpected {:?}", other),
    }
    assert!(!sent[1].use_barrier);
    match &sent[2].message {
        Message::StepBatch(_, batch, last) => {
            assert!(*last);
            assert_eq!(batch_steps(batch), [2, 3]);
        }
        other => panic!("unexpected {:?}", other),
    }
    assert!(sent[2].use_barrier);
    assert_eq!(in_flight(&profiler), 0);
}

#[test]
fn proxy_operations_without_steps_report_their_end() {
    let (mut thread, mut profiler, _) = setup(&config());
    let descr = proxyop(parent(HandleKind::Other, None), true);
    let event = start(&mut thread, &mut profiler, EventDescr::ProxyOp(descr)).unwrap();
    stop(&mut thread, &mut profiler, event, None);
    let sent = thread.fifo.drain();
    assert_eq!(sent.len(), 1);
    assert!(matches!(sent[0].message, Message::ProxyOp(0)));
}

#[test]
fn steps_are_filed_with_their_proxy_operation() {
    let (mut thread, mut profiler, mut counters) = setup(&config());
    let descr = proxyop(parent(HandleKind::Other, Some(3)), true);
    let mut proxyop = match start(&mut thread, &mut profiler, EventDescr::ProxyOp(descr)) {
        Some(Event::ProxyOp(data)) => Some(data),
        other => panic!("unexpected {:?}", other),
    };
    let finalize = |step: ProxyStep, times: StepTimes| EventStep {
        step: step.step as u32,
        size: step.size,
        start_time: times.start_ns.unwrap(),
        fifo_wait_dur_ns: None,
        dur_ns: step.end_time.unwrap() - step.start_time.unwrap(),
    };
    for n in 0..2 {
        let descr = ProxyStepDescr {
            proxyop: Some(99),
            step: n,
        };
        let mut event = start(&mut thread, &mut profiler, EventDescr::ProxyStep(descr)).unwrap();
        assert!(!is_nccl_activity(&event));
        record_proxystep_event_state_handler(
            &profiler,
            &mut counters,
            &mut event,
            ProxyStepState::SendWait,
            512,
            None,
            &CLOCK,
        )
        .unwrap();
        assert!(can_stop_event(&event, &proxyop));
        assert!(!can_stop_event(&event, &None));
        let end = ClockReading {
            now: 5_040,
            ..CLOCK
        };
        stop_event_handler(
            &mut thread,
            &mut profiler,
            event,
            None,
            &mut proxyop,
            finalize,
            &end,
        )
        .unwrap();
    }
    let sent = thread.fifo.drain();
    assert_eq!(sent.len(), 1);
    match &sent[0].message {
        Message::StepBatch(_, batch, last) => {
            assert!(!*last);
            assert_eq!(batch_steps(batch), [0, 1]);
            assert_eq!((batch.steps()[0].size, batch.steps()[0].dur_ns), (512, 40));
            // the profiler was created at 1000
            assert_eq!(batch.steps()[0].start_time, 4_000);
        }
        other => panic!("unexpected {:?}", other),
    }
    assert!(proxyop.unwrap().steps.is_none());

    let orphan = ProxyStepDescr {
        proxyop: None,
        step: 1,
    };
    assert!(start(&mut thread, &mut profiler, EventDescr::ProxyStep(orphan)).is_none());
}

#[test]
fn step_states_set_the_times() {
    let mut settings = config();
    settings.heartbeat_collective_progress = true;
    let (_, profiler, mut counters) = setup(&settings);
    let mut report = |profiler: &Profiler, step: ProxyStep, state: ProxyStepState, comm| {
        let mut event = Event::ProxyStep(step);
        record_proxystep_event_state_handler(
            profiler,
            &mut counters,
            &mut event,
            state,
            100,
            comm,
            &CLOCK,
        )
        .unwrap();
        let total = (counters.get(0), counters.get(1));
        match event {
            Event::ProxyStep(step) => (step, total),
            other => panic!("unexpected {:?}", other),
        }
    };
    let fresh = ProxyStep::new(1, 9);

    let (step, bytes) = report(&profiler, fresh, ProxyStepState::SendPeerWait, None);
    assert_eq!((step.start_time, bytes), (None, (0, 0)));
    let (step, bytes) = report(&profiler, fresh, ProxyStepState::SendWait, Some(COMM));
    assert_eq!((step.start_time, step.fifo_ready_time, step.size), (Some(5_000), None, 100));
    assert_eq!(bytes, (100, 0));
    // bytes of other processes go to the common counter
    let (_, bytes) = report(&profiler, fresh, ProxyStepState::SendWait, None);
    assert_eq!(bytes, (100, 100));
    let (step, _) = report(&profiler, fresh, ProxyStepState::RecvWait, None);
    assert_eq!((step.start_time, step.size), (Some(5_000), 0));
    let (step, _) = report(&profiler, fresh, ProxyStepState::RecvFlushWait, None);
    assert_eq!((step.end_time, step.size), (Some(5_000), 100));
    let (step, bytes) = report(&profiler, fresh, ProxyStepState::Other, None);
    assert_eq!((step.start_time, step.end_time, step.size), (None, None, 0));
    assert_eq!(bytes, (100, 100));

    settings.track_step_fifo_wait = true;
    let (_, waiting, _) = setup(&settings);
    let (step, _) = report(&waiting, fresh, ProxyStepState::SendPeerWait, None);
    assert_eq!(step.start_time, Some(5_000));
    let mut started = fresh;
    started.start_time = Some(1);
    let (step, _) = report(&waiting, started, ProxyStepState::SendPeerWait, None);
    assert_eq!(step.start_time, Some(1));
    let (step, _) = report(&waiting, started, ProxyStepState::SendWait, None);
    assert_eq!((step.start_time, step.fifo_ready_time), (Some(1), Some(5_000)));
}

#[test]
fn states_of_other_events_change_nothing() {
    let (mut thread, profiler, mut counters) = setup(&config());
    let mut event = Event::NcclOp(4);
    record_event_state_handler(&mut thread, &profiler, &mut event, Some(step(1))).unwrap();
    record_proxystep_event_state_handler(
        &profiler,
        &mut counters,
        &mut event,
        ProxyStepState::SendWait,
        100,
        None,
        &CLOCK,
    )
    .unwrap();
    record_proxyop_event_state_handler_v4(
        &mut thread,
        &profiler,
        &event,
        ProxyOpState::InProgress,
        &CLOCK,
    )
    .unwrap();
    assert!(matches!(event, Event::NcclOp(4)));
    assert!(thread.fifo.drain().is_empty());
    assert_eq!(counters.get(0), 0);
}

#[test]
fn references_are_counted() {
    let (mut thread, _, _) = setup(&config());
    assert_eq!(thread.inc_ncclop_ref(7, 1, 10), 0);
    assert_eq!(thread.inc_ncclop_ref(7, 1, 20), 1);
    assert_eq!(thread.inc_ncclop_ref(8, 1, 30), 0);
    assert_eq!(thread.dec_ncclop_ref(7, 1), None);
    assert_eq!(thread.dec_ncclop_ref(7, 1), Some(10));
    assert_eq!(thread.dec_ncclop_ref(7, 1), None);
    thread.update_ncclop_start_time(8, 1, 40);
    thread.update_ncclop_start_time(8, 1, 50);
    thread.update_ncclop_start_time(9, 1, 60);
    assert_eq!(thread.dec_ncclop_ref(8, 1), Some(40));
}

#[test]
fn proxy_operation_identifiers_wrap() {
    let (mut thread, _, _) = setup(&config());
    assert_eq!(thread.next_proxyop_id(), 0);
    assert_eq!(thread.next_proxyop_id(), 1);
    thread.proxyop_id = u32::MAX;
    assert_eq!(thread.next_proxyop_id(), u32::MAX);
    assert_eq!(thread.next_proxyop_id(), 0);
}

#[test]
fn messages_leave_in_order() {
    let (mut thread, mut profiler, _) = setup(&config());
    thread.send_to_daemon(Message::CommClose(1), true);
    thread.send_to_daemon(Message::CommClose(2), false);
    thread.send_ncclop_to_daemon(Message::CommClose(3), true);
    let sent = thread.fifo.drain();
    assert!(matches!(sent[0].message, Message::CommClose(1)) && sent[0].use_barrier);
    assert!(matches!(sent[1].message, Message::CommClose(2)) && !sent[1].use_barrier);
    assert!(thread.fifo.drain().is_empty());
    assert_eq!(thread.ncclop_fifo.drain().len(), 1);

    let lite = thread.new_ncclop(&mut profiler, OpDescr::Other, 1, true, None, true);
    assert!(matches!(lite, Some(Event::NcclOpLite(0))));
    let none = thread.new_ncclop(&mut profiler, OpDescr::Other, 1, true, None, false);
    assert!(none.is_none());
    assert_eq!(thread.ncclop_fifo.drain().len(), 1);

    let mut sender = Sender::new(4, 8);
    sender.set_batch(3);
    assert_eq!((sender.channel, sender.capacity, sender.batch), (4, 8, 3));
}

#[test]
fn certain_rates_need_no_chance() {
    assert!(SampleRate::Always.admits(u32::MAX));
    assert!(!SampleRate::Never.admits(0));
    assert!(SampleRate::AtMost(5).admits(5));
    assert!(!SampleRate::AtMost(5).admits(6));

    let settings = config();
    let (mut thread, _, _) = setup(&settings);
    for _ in 0..100 {
        assert!(sample_p2p(&mut thread, &settings, false));
        assert!(thread.rnd_decision(SampleRate::Always));
        assert!(!thread.rnd_decision(SampleRate::Never));
        assert!(thread.rnd_decision(SampleRate::AtMost(u32::MAX)));
    }
}

#[test]
fn chance_decides_in_between() {
    let mut sampler = Sampler::new();
    let mut taken = 0;
    let mut numbers = Vec::new();
    for _ in 0..2_000 {
        if sampler.decide(SampleRate::AtMost(u32::MAX / 2)) {
            taken += 1;
        }
        numbers.push(sampler.draw());
    }
    assert!(taken > 700 && taken < 1_300);
    numbers.sort_unstable();
    numbers.dedup();
    assert!(numbers.len() > 1_900);
}

#[test]
fn batches_fill_up() {
    let mut data = ProxyOpLocalData::new(
        3,
        &proxyop(parent(HandleKind::Other, None), true),
        true,
        false,
        None,
    );
    assert!(data.step_tracker.is_v1 && data.step_tracker.is_send);
    assert!(data.has_batch_room());
    data.get_steps_mut(2).push(step(1));
    assert!(data.has_batch_room());
    data.get_steps_mut(9).push(step(2));
    assert!(!data.has_batch_room());
    assert!(data.get_steps_mut(9).is_full());
}

#[test]
fn operations_and_keys_tell_what_they_hold() {
    let op = NcclOp::from_descr(OpDescr::Coll(coll(NcclOpType::Reduce, 12)), 9, 2, None);
    assert_eq!((op.id, op.start_time, op.comm_hash), (2, 9, 0xd0));
    assert_eq!((op.rank(), op.byte_count()), (0, 12));
    let op = NcclOp::from_descr(OpDescr::P2p(p2p(true, 13)), 9, 2, None);
    assert_eq!((op.comm_hash, op.byte_count()), (42, 13));
    assert_eq!(NcclOpKey::NetSend(1, 2, 3).get_comm_hash(), 1);
    assert_eq!(NcclOpKey::NetRecv(2, 2, 3).get_comm_hash(), 2);
    assert_eq!(NcclOpKey::Other(3, 9).get_comm_hash(), 3);
}

#[test]
fn some_events_start_without_state() {
    let mut settings = config();
    let try_start = |settings: &Config, descr: EventDescr| {
        start_without_state(settings, &descr, &Some(COMM), &CLOCK)
    };
    let group = try_start(&settings, EventDescr::Group);
    assert!(matches!(group, Some(Some(Event::Group(Group { start_time: 5_000 })))));
    let reduce = EventDescr::Coll(coll(NcclOpType::AllReduce, 1));
    assert!(try_start(&settings, reduce).is_none());
    // a small collective opens a window, which takes a thread
    let small = EventDescr::Coll(coll(NcclOpType::Broadcast, 1));
    assert!(try_start(&settings, small).is_none());
    assert!(try_start(&settings, EventDescr::P2p(p2p(true, 1))).is_none());

    let no_op = parent(HandleKind::Other, None);
    let op = parent(HandleKind::Other, Some(3));
    let small_op = parent(HandleKind::SmallNcclOp, Some(3));
    assert!(matches!(try_start(&settings, EventDescr::KernelCh(no_op)), Some(None)));
    assert!(matches!(try_start(&settings, EventDescr::KernelCh(small_op)), Some(None)));
    assert!(try_start(&settings, EventDescr::KernelCh(op)).is_none());
    let descr = EventDescr::ProxyOp(proxyop(small_op, true));
    assert!(matches!(try_start(&settings, descr), Some(None)));
    assert!(try_start(&settings, EventDescr::ProxyOp(proxyop(no_op, true))).is_none());
    let step = |proxyop| EventDescr::ProxyStep(ProxyStepDescr { proxyop, step: 1 });
    assert!(matches!(try_start(&settings, step(None)), Some(None)));
    assert!(try_start(&settings, step(Some(4))).is_none());

    settings.track_ncclop = false;
    assert!(matches!(try_start(&settings, reduce), Some(None)));
    assert!(matches!(try_start(&settings, EventDescr::Group), Some(None)));
    settings.track_proxyop = true;
    assert!(matches!(try_start(&settings, reduce), Some(Some(Event::Dummy(0xc0)))));
    assert!(matches!(try_start(&settings, EventDescr::Group), Some(Some(Event::Dummy(42)))));
}

#[test]
fn byte_counters_are_read_only_for_sent_bytes() {
    let mut settings = config();
    settings.heartbeat_collective_progress = true;
    let (_, profiler, _) = setup(&settings);
    let mut no_counters = CounterTable::new();
    let mut event = Event::ProxyStep(ProxyStep::new(1, 9));
    record_proxystep_event_state_handler(
        &profiler,
        &mut no_counters,
        &mut event,
        ProxyStepState::RecvWait,
        100,
        None,
        &CLOCK,
    )
    .unwrap();
    match event {
        Event::ProxyStep(step) => assert_eq!(step.start_time, Some(5_000)),
        other => panic!("unexpected {:?}", other),
    }
}

#[test]
fn step_times_count_from_the_start() {
    let (_, profiler, _) = setup(&config());
    let mut step = ProxyStep::new(1, 9);
    step.start_time = Some(1_500);
    step.end_time = Some(900);
    let times = profiler.step_times(&step);
    assert_eq!((times.start_ns, times.fifo_ready_ns, times.end_ns), (Some(500), None, Some(0)));
    assert_eq!(profiler.instant_to_ns(1_001), 1);
    assert_eq!(profiler.instant_to_ns(999), 0);
}
