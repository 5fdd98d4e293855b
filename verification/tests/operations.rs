use nccl_profiler::config::Config;
use nccl_profiler::counters::CounterTable;
use nccl_profiler::duration::DurationHistogram;
use nccl_profiler::event::NcclOp;
use nccl_profiler::hostname::{hostname_from_buffer, terminated_bytes};
use nccl_profiler::nccl_metadata::{Algo, CollDescr, NcclOpType, OpDescr, P2pDescr};
use nccl_profiler::ncclop::{
    can_record_ncclop, coll_type_to_num, fits_wall_clock, gen_ncclop_attributes, histogram_views,
    ncclop_otel_name, plan_ncclop_trace, record_ncclop_duration, record_ncclop_seqnum, SpanRole,
};
use nccl_profiler::profiler::{ProcessInfo, Profiler, Version};
use nccl_profiler::sampler::SampleRate;
use opentelemetry::metrics::MeterProvider;
use opentelemetry::trace::{SpanId, TraceFlags, TraceId};
use opentelemetry::KeyValue;
use opentelemetry_sdk::metrics::data::Gauge;
use opentelemetry_sdk::metrics::{InMemoryMetricExporter, PeriodicReader, SdkMeterProvider};

fn config() -> Config {
    Config {
        telemetry_mode: 1,
        use_gpuviz: false,
        use_cached_clock: false,
        fifo_batch_size: 1,
        track_ncclop: true,
        track_proxyop: false,
        track_kernel_ch: false,
        track_steps: true,
        aggregate_steps: false,
        track_recv_steps: false,
        track_step_fifo_wait: false,
        skip_small_collective: true,
        skip_small_collective_steps: false,
        small_msg_threshold: 65536,
        skip_nvls: false,
        p2p_sample_rate: SampleRate::Always,
        p2p_recv_sample_rate: SampleRate::Always,
        heartbeat_collective_progress: false,
        otel_enable: false,
        otel_latency_histogram_max_size: 160,
        otel_latency_histogram_max_scale: 20,
    }
}

fn profiler(init_time: i128) -> Profiler {
    let process = ProcessInfo {
        pid: 7,
        hostname: String::from("host"),
        init_time,
        init_instant: 1_000,
    };
    Profiler::new(Version::V4, &config(), process, None, 4, &mut CounterTable::new())
}

fn coll(op_type: NcclOpType, seq_num: u64, rank: usize) -> CollDescr {
    CollDescr {
        op_type,
        algo: Algo::Other,
        algo_name: "Ring",
        proto_name: "LL128",
        n_max_channel: 8,
        seq_num,
        rank,
        byte_count: 1 << 20,
        comm_hash: None,
    }
}

fn p2p(is_send: bool) -> P2pDescr {
    P2pDescr {
        is_send,
        peer: 6,
        rank: 2,
        byte_count: 100_000,
        comm_hash: None,
    }
}

fn op(descr: OpDescr) -> NcclOp {
    NcclOp {
        id: 1,
        start_time: 1_500,
        comm_hash: 0xabcd,
        descr,
        child_start_time: Some(2_000),
        child_duration_ns: Some(250),
        end_time: Some(2_300),
    }
}

#[test]
fn operation_types_have_numbers_and_names() {
    let table = [
        (NcclOpType::Broadcast, 1, "ncclBroadcast"),
        (NcclOpType::Reduce, 2, "ncclReduce"),
        (NcclOpType::AllGather, 3, "ncclAllGather"),
        (NcclOpType::ReduceScatter, 4, "ncclReduceScatter"),
        (NcclOpType::AllReduce, 5, "ncclAllReduce"),
        (NcclOpType::Send, 0xabcd, "ncclSend"),
        (NcclOpType::Recv, 0xabcd, "ncclRecv"),
        (NcclOpType::Other, 0xabcd, "unknown nccl op"),
    ];
    for (op_type, number, name) in table {
        assert_eq!(coll_type_to_num(op_type), number);
        assert_eq!(ncclop_otel_name(op_type), name);
    }
}

#[test]
fn durations_of_operations_are_recorded() {
    let mut histogram = DurationHistogram::new("d", "ns", 8, String::from("host"));
    let all_reduce = op(OpDescr::Coll(coll(NcclOpType::AllReduce, 3, 1)));
    assert!(can_record_ncclop(&histogram, &all_reduce));
    assert_eq!(record_ncclop_duration(&mut histogram, &all_reduce), Some(()));
    assert!(histogram.high_fidelity(0xabcd, "ncclAllReduce", 1, 1 << 20));

    let send = op(OpDescr::P2p(p2p(true)));
    assert_eq!(record_ncclop_duration(&mut histogram, &send), Some(()));
    assert!(histogram.high_fidelity(0xabcd, "ncclSend", 2, 100_000));
    let recv = op(OpDescr::P2p(p2p(false)));
    assert_eq!(record_ncclop_duration(&mut histogram, &recv), Some(()));
    assert!(histogram.high_fidelity(0xabcd, "ncclRecv", 2, 100_000));
    assert_eq!(histogram.num_active(), 3);

    // without network or kernel activity there is nothing to record
    let mut idle = all_reduce;
    idle.child_duration_ns = None;
    assert_eq!(record_ncclop_duration(&mut histogram, &idle), None);
    assert_eq!(record_ncclop_duration(&mut histogram, &op(OpDescr::Other)), None);
    assert_eq!(histogram.num_active(), 3);
}

#[test]
fn sequence_numbers_are_recorded() {
    let exporter = InMemoryMetricExporter::default();
    let reader = PeriodicReader::builder(exporter.clone()).build();
    let provider = SdkMeterProvider::builder().with_reader(reader).build();
    let mut gauge = provider.meter("CoMMA").i64_gauge("nccl.collective.seq_num").build();

    let first = op(OpDescr::Coll(coll(NcclOpType::Broadcast, 41, 3)));
    assert_eq!(record_ncclop_seqnum(&mut gauge, &first, String::from("host")), Some(()));
    let next = op(OpDescr::Coll(coll(NcclOpType::Broadcast, 42, 3)));
    assert_eq!(record_ncclop_seqnum(&mut gauge, &next, String::from("host")), Some(()));
    let transfer = op(OpDescr::P2p(p2p(true)));
    assert_eq!(record_ncclop_seqnum(&mut gauge, &transfer, String::from("host")), Some(()));

    provider.force_flush().unwrap();
    let metrics = exporter.get_finished_metrics().unwrap();
    let metric = &metrics[0].scope_metrics[0].metrics[0];
    let data = metric.data.as_any().downcast_ref::<Gauge<i64>>().unwrap();
    assert_eq!(data.data_points.len(), 1);
    assert_eq!(data.data_points[0].value, 42);
    for attribute in [
        KeyValue::new("nccl.comm.hash", "0x000000000000abcd"),
        KeyValue::new("nccl.collective.name", "ncclBroadcast"),
        KeyValue::new("nccl.rank", 3_i64),
        KeyValue::new("nccl.hostname", "host"),
    ] {
        assert!(data.data_points[0].attributes.contains(&attribute));
    }
}

#[test]
fn spans_carry_what_is_known() {
    let profiler = profiler(5_000_000);
    let all_reduce = op(OpDescr::Coll(coll(NcclOpType::AllReduce, 3, 1)));
    let attr = gen_ncclop_attributes(&profiler, &all_reduce).unwrap();
    assert_eq!(attr.name, "ncclAllReduce");
    assert_eq!(attr.start_time, 5_001_000);
    assert_eq!(attr.duration, 300);
    assert_eq!(
        attr.attributes.key_values().as_slice(),
        &[
            KeyValue::new("nccl.comm.hash", "0x000000000000abcd"),
            KeyValue::new("nccl.rank", 1_i64),
            KeyValue::new("nccl.size.bytes", 1_i64 << 20),
            KeyValue::new("nccl.collective.algo", "Ring"),
            KeyValue::new("nccl.collective.proto", "LL128"),
            KeyValue::new("nccl.collective.n_max_channel", 8_i64),
        ]
    );

    let recv = op(OpDescr::P2p(p2p(false)));
    let attr = gen_ncclop_attributes(&profiler, &recv).unwrap();
    assert_eq!(attr.name, "ncclRecv");
    assert_eq!(
        attr.attributes.key_values().as_slice(),
        &[
            KeyValue::new("nccl.comm.hash", "0x000000000000abcd"),
            KeyValue::new("nccl.rank", 2_i64),
            KeyValue::new("nccl.size.bytes", 100_000_i64),
            KeyValue::new("nccl.p2p.peer.rank", 6_i64),
        ]
    );

    let mut unstarted = recv;
    unstarted.child_start_time = None;
    assert!(gen_ncclop_attributes(&profiler, &unstarted).is_none());
    let mut running = recv;
    running.end_time = None;
    assert!(gen_ncclop_attributes(&profiler, &running).is_none());
    assert!(gen_ncclop_attributes(&profiler, &op(OpDescr::Other)).is_none());
}

#[test]
fn collectives_share_a_span_over_all_ranks() {
    let profiler = profiler(5_000_000);
    let root = op(OpDescr::Coll(coll(NcclOpType::AllReduce, 3, 0)));
    let plan = plan_ncclop_trace(&profiler, &root).unwrap();
    let parent = plan.parent.unwrap();
    assert_eq!(parent.ids, Some((0xabcd, 0x5_0000_0003)));
    assert_eq!(parent.name, "ncclAllReduce");
    assert_eq!((parent.role, plan.span.role), (SpanRole::Server, SpanRole::Server));
    assert_eq!((parent.start_time, parent.end_time), (5_001_000, 5_001_300));
    assert_eq!(parent.attributes.key_values(), plan.span.attributes.key_values());
    assert_eq!(plan.span.ids, None);
    assert_eq!((plan.span.start_time, plan.span.end_time), (5_001_000, 5_001_300));

    let other = op(OpDescr::Coll(coll(NcclOpType::AllReduce, 3, 9)));
    let other_plan = plan_ncclop_trace(&profiler, &other).unwrap();
    assert!(other_plan.parent.is_none());
    let context = other_plan.context.unwrap();
    assert_eq!(Some(context.clone()), plan.context);
    assert_eq!(context.trace_id(), TraceId::from_hex("abcd").unwrap());
    assert_eq!(context.span_id(), SpanId::from_hex("500000003").unwrap());
    assert_eq!(context.trace_flags(), TraceFlags::SAMPLED);
    assert!(context.is_remote());
    assert!(context.is_valid());

    let next = op(OpDescr::Coll(coll(NcclOpType::AllReduce, 4, 9)));
    let next_plan = plan_ncclop_trace(&profiler, &next).unwrap();
    assert_ne!(next_plan.context.unwrap().span_id(), context.span_id());

    let send = op(OpDescr::P2p(p2p(true)));
    let plan = plan_ncclop_trace(&profiler, &send).unwrap();
    assert!(plan.parent.is_none() && plan.context.is_none());
    assert_eq!(plan.span.name, "ncclSend");
    assert!(plan_ncclop_trace(&profiler, &op(OpDescr::Other)).is_none());
}

#[test]
fn wall_clock_has_an_end() {
    const END: i128 = (1_i128 << 63) * 1_000_000_000;
    let send = op(OpDescr::P2p(p2p(true)));
    // the span ends 1300 ns after the profiler was created
    assert!(fits_wall_clock(&profiler(0), &send));
    assert!(fits_wall_clock(&profiler(-5), &send));
    assert!(fits_wall_clock(&profiler(END - 1_301), &send));
    assert!(!fits_wall_clock(&profiler(END - 1_300), &send));
    // without a span only the start counts
    let other = op(OpDescr::Other);
    assert!(fits_wall_clock(&profiler(END - 1_001), &other));
    assert!(!fits_wall_clock(&profiler(END - 1_000), &other));
}

#[test]
fn spans_before_the_profiler_start_with_it() {
    let mut early = op(OpDescr::P2p(p2p(true)));
    early.child_start_time = Some(10);
    early.end_time = Some(5);
    let attr = gen_ncclop_attributes(&profiler(77), &early).unwrap();
    assert_eq!((attr.start_time, attr.duration), (77, 0));
}

#[test]
fn host_names_end_at_the_terminator() {
    assert_eq!(terminated_bytes(b"node-7\0rest"), b"node-7".to_vec());
    assert_eq!(terminated_bytes(b"full"), b"full".to_vec());
    assert_eq!(hostname_from_buffer(0, b"node-7\0\0\0"), Some(String::from("node-7")));
    assert_eq!(hostname_from_buffer(0, b"\0"), Some(String::new()));
    assert_eq!(hostname_from_buffer(-1, b"node-7\0"), None);
    // what is no UTF-8 is replaced
    assert_eq!(hostname_from_buffer(0, b"a\xffb\0"), Some(String::from("a\u{fffd}b")));
    assert_eq!(hostname_from_buffer(0, "n\u{f6}de\0".as_bytes()), Some(String::from("n\u{f6}de")));
}

#[test]
fn histograms_are_exported_as_exponential() {
    let mut config = config();
    let views = histogram_views(&config);
    let names: Vec<&str> = views.iter().map(|view| view.instrument).collect();
    assert_eq!(names, ["*latency", "nccl.collective.duration", "nccl.collective.gap"]);
    for view in &views {
        assert_eq!((view.max_size, view.max_scale, view.record_min_max), (160, 20, true));
    }
    config.otel_latency_histogram_max_scale = -10;
    assert_eq!(histogram_views(&config)[0].max_scale, -10);
}
