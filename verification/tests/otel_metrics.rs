use nccl_profiler::duration::{size_class, DurationHistogram};
use nccl_profiler::latency::{HistogramManager, LatencyHistogram};
use nccl_profiler::nccl_metadata::NcclOpKey;
use nccl_profiler::ranking::top_k;
use nccl_profiler::step_tracker::EventStep;
use nccl_profiler::text::{format_hash, str_eq};
use nccl_profiler::{attributes, gap};
use opentelemetry::{global, KeyValue};
use opentelemetry_sdk::metrics::data::{Histogram, HistogramDataPoint};
use opentelemetry_sdk::metrics::{InMemoryMetricExporter, PeriodicReader, SdkMeterProvider};
use rand::seq::SliceRandom;
use std::sync::OnceLock;

fn host() -> String {
    String::from("host")
}

fn step(dur_ns: u64) -> EventStep {
    EventStep {
        step: 0,
        size: 65536,
        start_time: 1234567,
        fifo_wait_dur_ns: None,
        dur_ns,
    }
}

static INSTALLED: OnceLock<(SdkMeterProvider, InMemoryMetricExporter)> = OnceLock::new();

/// The provider that all tests share, and its exporter.
fn install_provider() -> (SdkMeterProvider, InMemoryMetricExporter) {
    INSTALLED
        .get_or_init(|| {
            let exporter = InMemoryMetricExporter::default();
            let reader = PeriodicReader::builder(exporter.clone()).build();
            let provider = SdkMeterProvider::builder().with_reader(reader).build();
            global::set_meter_provider(provider.clone());
            (provider, exporter)
        })
        .clone()
}

/// The exported streams of the histogram `name`, and its unit and scope.
fn exported(
    provider: &SdkMeterProvider,
    exporter: &InMemoryMetricExporter,
    name: &str,
) -> (Vec<HistogramDataPoint<u64>>, String, String) {
    provider.force_flush().unwrap();
    for resource in exporter.get_finished_metrics().unwrap().iter().rev() {
        for scope in &resource.scope_metrics {
            for metric in &scope.metrics {
                if metric.name == name {
                    let data = metric.data.as_any().downcast_ref::<Histogram<u64>>().unwrap();
                    return (
                        data.data_points.clone(),
                        metric.unit.to_string(),
                        scope.scope.name().to_string(),
                    );
                }
            }
        }
    }
    panic!("{} was not exported", name);
}

fn stream<'a>(
    points: &'a [HistogramDataPoint<u64>],
    attributes: &[KeyValue],
) -> &'a HistogramDataPoint<u64> {
    for point in points {
        if point.attributes.len() == attributes.len()
            && attributes.iter().all(|attribute| point.attributes.contains(attribute))
        {
            return point;
        }
    }
    panic!("no stream with {:?}", attributes);
}

#[test]
fn histogram_manager() {
    const MAX_CARDINALITY: usize = 16;
    const N_HISTOGRAM: usize = 32;
    let mut manager = HistogramManager::new("test", "s", MAX_CARDINALITY, host());

    let mut histograms = Vec::new();
    for i in 0..N_HISTOGRAM {
        let key = NcclOpKey::NetSend(0x123, 42, i);
        histograms.push(manager.get_histogram(key));
    }
    assert_eq!(manager.num_active(), MAX_CARDINALITY);

    let mut num_high_fidelity = 0;
    for h in histograms.iter() {
        if h.high_fidelity() {
            num_high_fidelity += 1;
        }
    }
    assert_eq!(num_high_fidelity, MAX_CARDINALITY);

    // random amounts of telemetry, none of them equal
    let mut rng = rand::rng();
    let mut n_telemetry: Vec<usize> = (0..histograms.len()).collect();
    n_telemetry.shuffle(&mut rng);
    for (i, h) in histograms.iter_mut().enumerate() {
        let n = n_telemetry[i];
        for _ in 0..n {
            h.record(&step(512));
        }
    }

    let mut n_telemetry: Vec<_> = n_telemetry.into_iter().enumerate().collect();
    n_telemetry.sort_by_key(|e| std::cmp::Reverse(e.1));

    for h in histograms {
        manager.retire(h);
    }

    manager.update_priority();
    assert_eq!(manager.num_active(), MAX_CARDINALITY);

    for (i, (hist_idx, _)) in n_telemetry.iter().enumerate() {
        let key = NcclOpKey::NetSend(0x123, 42, *hist_idx);
        let h = manager.get_histogram(key);
        assert_eq!(h.high_fidelity(), i < MAX_CARDINALITY);
    }
}

#[test]
fn latency_histogram_attributes() {
    let mut manager = HistogramManager::new("test.latency", "ns", 16, host());

    let send = manager.get_histogram(NcclOpKey::NetSend(0x123, 4, 8));
    assert!(send.attributes().contains(&KeyValue::new("nccl.source.rank", 4_i64)));
    assert!(send.attributes().contains(&KeyValue::new("nccl.destination.rank", 8_i64)));

    // for recv connections the local rank is the destination and the
    // peer is the remote sender
    let recv = manager.get_histogram(NcclOpKey::NetRecv(0x123, 4, 8));
    assert!(recv.attributes().contains(&KeyValue::new("nccl.source.rank", 8_i64)));
    assert!(recv.attributes().contains(&KeyValue::new("nccl.destination.rank", 4_i64)));

    let aggregated = LatencyHistogram::new(
        manager.histogram(),
        NcclOpKey::NetRecv(0x123, 4, 8),
        String::from("host"),
        false,
        0,
    );
    assert!(aggregated.attributes().contains(&KeyValue::new("nccl.metric.aggregated", true)));
}

#[test]
fn latency_histogram_close_comm() {
    const MAX_CARDINALITY: usize = 2;
    let mut manager = HistogramManager::new("test.latency.close", "ns", MAX_CARDINALITY, host());

    manager.get_histogram(NcclOpKey::NetSend(0x1, 0, 1));
    manager.get_histogram(NcclOpKey::NetRecv(0x1, 0, 1));
    let low = manager.get_histogram(NcclOpKey::NetSend(0x2, 0, 1));
    assert_eq!(manager.num_active(), MAX_CARDINALITY);
    assert!(!low.high_fidelity());

    // closing a comm frees its slots for later connections
    manager.close_comm(0x1);
    assert_eq!(manager.num_active(), 0);
    let h = manager.get_histogram(NcclOpKey::NetRecv(0x2, 0, 1));
    assert!(h.high_fidelity());
}

#[test]
fn size_class_boundaries() {
    assert_eq!(size_class(0), "lt1m");
    assert_eq!(size_class((1 << 20) - 1), "lt1m");
    assert_eq!(size_class(1 << 20), "1m_16m");
    assert_eq!(size_class(16 << 20), "1m_16m");
    assert_eq!(size_class((16 << 20) + 1), "gt16m");
}

#[test]
fn duration_histogram_cardinality() {
    const MAX_CARDINALITY: usize = 4;
    let mut histogram = DurationHistogram::new("test.duration", "ns", MAX_CARDINALITY, host());

    for comm_hash in 0..(MAX_CARDINALITY as u64 * 2) {
        histogram.record(1024, comm_hash, "ncclAllReduce", 0, 65536);
    }
    assert_eq!(histogram.num_active(), MAX_CARDINALITY);
    assert!(histogram.high_fidelity(0, "ncclAllReduce", 0, 65536));
    assert!(!histogram.high_fidelity(MAX_CARDINALITY as u64, "ncclAllReduce", 0, 65536));

    // repeated keys within the cap do not consume more slots, and the
    // rank is part of the key
    histogram.record(1024, 0, "ncclAllReduce", 0, 65536);
    histogram.record(1024, 0, "ncclAllReduce", 1, 65536);
    assert_eq!(histogram.num_active(), MAX_CARDINALITY);
    assert!(!histogram.high_fidelity(0, "ncclAllReduce", 1, 65536));
}

#[test]
fn duration_histogram_update_priority() {
    const MAX_CARDINALITY: usize = 2;
    let mut histogram =
        DurationHistogram::new("test.duration.priority", "ns", MAX_CARDINALITY, host());

    // comms 0 and 1 take the slots first; 2 and 3 arrive later but are
    // more active in this interval
    for comm_hash in 0..4 {
        histogram.record(1024, comm_hash, "ncclAllReduce", 0, 65536);
    }
    for _ in 0..8 {
        histogram.record(1024, 2, "ncclAllReduce", 0, 65536);
        histogram.record(1024, 3, "ncclAllReduce", 0, 65536);
    }
    assert!(histogram.high_fidelity(0, "ncclAllReduce", 0, 65536));
    assert!(!histogram.high_fidelity(2, "ncclAllReduce", 0, 65536));

    histogram.update_priority();
    assert_eq!(histogram.num_active(), MAX_CARDINALITY);
    assert!(!histogram.high_fidelity(0, "ncclAllReduce", 0, 65536));
    assert!(!histogram.high_fidelity(1, "ncclAllReduce", 0, 65536));
    assert!(histogram.high_fidelity(2, "ncclAllReduce", 0, 65536));
    assert!(histogram.high_fidelity(3, "ncclAllReduce", 0, 65536));
}

#[test]
fn duration_histogram_close_comm() {
    const MAX_CARDINALITY: usize = 2;
    let mut histogram =
        DurationHistogram::new("test.duration.close", "ns", MAX_CARDINALITY, host());

    histogram.record(1024, 1, "ncclAllReduce", 0, 65536);
    histogram.record(1024, 1, "ncclAllGather", 0, 65536);
    histogram.record(1024, 2, "ncclAllReduce", 0, 65536);
    assert_eq!(histogram.num_active(), MAX_CARDINALITY);
    assert!(!histogram.high_fidelity(2, "ncclAllReduce", 0, 65536));

    // closing a comm frees its slots for later comms
    histogram.close_comm(1);
    assert_eq!(histogram.num_active(), 0);
    histogram.record(1024, 2, "ncclAllReduce", 0, 1 << 24);
    assert!(histogram.high_fidelity(2, "ncclAllReduce", 0, 1 << 24));
}

#[test]
fn counts_start_anew_after_ranking() {
    let mut histogram = DurationHistogram::new("test.duration.aging", "ns", 1, host());
    for _ in 0..8 {
        histogram.record(1, 1, "ncclAllReduce", 0, 0);
    }
    histogram.record(1, 2, "ncclAllReduce", 0, 0);
    histogram.update_priority();
    assert!(histogram.high_fidelity(1, "ncclAllReduce", 0, 0));

    // the kind that was busy before is idle now
    histogram.record(1, 2, "ncclAllReduce", 0, 0);
    histogram.update_priority();
    assert!(!histogram.high_fidelity(1, "ncclAllReduce", 0, 0));
    assert!(histogram.high_fidelity(2, "ncclAllReduce", 0, 0));
}

#[test]
fn limit_zero_aggregates_everything() {
    let mut manager = HistogramManager::new("test.latency.zero", "ns", 0, host());
    let h = manager.get_histogram(NcclOpKey::NetSend(1, 0, 1));
    assert!(!h.high_fidelity());
    manager.update_priority();
    assert_eq!(manager.num_active(), 0);

    let mut histogram = DurationHistogram::new("test.duration.zero", "ns", 0, host());
    histogram.record(1, 1, "ncclAllReduce", 0, 0);
    histogram.update_priority();
    assert_eq!(histogram.num_active(), 0);
    assert!(!histogram.high_fidelity(1, "ncclAllReduce", 0, 0));
}

#[test]
fn latency_attribute_lists() {
    let mut manager = HistogramManager::new("test.latency.lists", "ns", 2, host());
    let send = manager.get_histogram(NcclOpKey::NetSend(0xabc, 1, 2));
    assert_eq!(
        send.attributes().as_slice(),
        &[
            KeyValue::new("nccl.communicator.hash", "0x0000000000000abc"),
            KeyValue::new("nccl.source.rank", 1_i64),
            KeyValue::new("nccl.destination.rank", 2_i64),
            KeyValue::new("nccl.hostname", "host"),
        ]
    );
    // the receiver describes the connection as the sender does
    let recv = manager.get_histogram(NcclOpKey::NetRecv(0xabc, 2, 1));
    assert_eq!(recv.attributes(), send.attributes());

    // other work is not recorded under attributes of its own
    let mut fresh = HistogramManager::new("test.latency.other", "ns", 1, host());
    let other = fresh.get_histogram(NcclOpKey::Other(0xabc, 1));
    assert!(other.attributes().is_empty());
    assert!(other.high_fidelity());

    let aggregated = manager.get_histogram(NcclOpKey::NetSend(0xdef, 1, 2));
    assert_eq!(
        aggregated.attributes().as_slice(),
        &[
            KeyValue::new("nccl.metric.aggregated", true),
            KeyValue::new("nccl.hostname", "host"),
        ]
    );
}

#[test]
fn steps_of_closed_connections_are_not_counted() {
    let mut manager = HistogramManager::new("test.latency.closed", "ns", 1, host());
    let mut old = manager.get_histogram(NcclOpKey::NetSend(1, 0, 1));
    for _ in 0..100 {
        old.record(&step(1));
    }
    manager.close_comm(1);
    // the same connection appears again, with a counter of its own
    let again = manager.get_histogram(NcclOpKey::NetSend(1, 0, 1));
    manager.retire(old);
    let mut other = manager.get_histogram(NcclOpKey::NetSend(2, 0, 1));
    other.record(&step(1));
    manager.retire(other);
    manager.retire(again);
    manager.update_priority();
    assert!(manager.get_histogram(NcclOpKey::NetSend(2, 0, 1)).high_fidelity());
    assert!(!manager.get_histogram(NcclOpKey::NetSend(1, 0, 1)).high_fidelity());
}

#[test]
fn known_connections_keep_their_place() {
    let mut manager = HistogramManager::new("test.latency.again", "ns", 1, host());
    assert!(manager.can_track_more());
    assert!(manager.get_histogram(NcclOpKey::NetSend(1, 0, 1)).high_fidelity());
    assert!(!manager.get_histogram(NcclOpKey::NetSend(1, 0, 2)).high_fidelity());
    assert!(manager.get_histogram(NcclOpKey::NetSend(1, 0, 1)).high_fidelity());
    assert_eq!(manager.num_active(), 1);
}

#[test]
fn latencies_reach_the_meter_provider() {
    let (provider, exporter) = install_provider();
    let mut manager = HistogramManager::new("nccl.net_send.latency", "ns", 1, host());
    let mut own = manager.get_histogram(NcclOpKey::NetSend(0x1f, 3, 5));
    let mut shared = manager.get_histogram(NcclOpKey::NetSend(0x1f, 3, 6));
    own.record(&step(100));
    own.record(&step(200));
    shared.record(&step(7));

    let (points, unit, scope) = exported(&provider, &exporter, "nccl.net_send.latency");
    assert_eq!(unit, "ns");
    assert_eq!(scope, "CoMMA");
    assert_eq!(points.len(), 2);
    let own = stream(
        &points,
        &[
            KeyValue::new("nccl.communicator.hash", "0x000000000000001f"),
            KeyValue::new("nccl.source.rank", 3_i64),
            KeyValue::new("nccl.destination.rank", 5_i64),
            KeyValue::new("nccl.hostname", "host"),
        ],
    );
    assert_eq!((own.count, own.sum), (2, 300));
    let shared = stream(
        &points,
        &[
            KeyValue::new("nccl.metric.aggregated", true),
            KeyValue::new("nccl.hostname", "host"),
        ],
    );
    assert_eq!((shared.count, shared.sum), (1, 7));
}

#[test]
fn durations_reach_the_meter_provider() {
    let (provider, exporter) = install_provider();
    let mut histogram = DurationHistogram::new("nccl.collective.duration", "ns", 1, host());
    histogram.record(1000, 0xbeef, "ncclAllReduce", 2, 1 << 20);
    histogram.record(30, 0xbeef, "ncclBroadcast", 2, 1 << 20);

    let (points, unit, scope) = exported(&provider, &exporter, "nccl.collective.duration");
    assert_eq!(unit, "ns");
    assert_eq!(scope, "CoMMA");
    let own = stream(
        &points,
        &[
            KeyValue::new("nccl.comm.hash", "0x000000000000beef"),
            KeyValue::new("nccl.collective.name", "ncclAllReduce"),
            KeyValue::new("nccl.size.class", "1m_16m"),
            KeyValue::new("nccl.rank", 2_i64),
            KeyValue::new("nccl.hostname", "host"),
        ],
    );
    assert_eq!((own.count, own.sum), (1, 1000));
    let shared = stream(
        &points,
        &[
            KeyValue::new("nccl.metric.aggregated", true),
            KeyValue::new("nccl.hostname", "host"),
        ],
    );
    assert_eq!((shared.count, shared.sum), (1, 30));
}

#[test]
fn gaps_reach_the_meter_provider() {
    let (provider, exporter) = install_provider();
    let mut tracker = gap::GapTracker::new(host(), 77);
    // a gap before the instrument is open is not recorded
    tracker.activity_begin(|| 10);
    tracker.activity_end(20);
    tracker.activity_begin(|| 30);
    tracker.activity_end(40);
    tracker.init_instrument();
    tracker.init_instrument();
    tracker.activity_begin(|| 100);
    tracker.activity_begin(|| 200);

    let (points, unit, scope) = exported(&provider, &exporter, "nccl.collective.gap");
    assert_eq!(unit, "ns");
    assert_eq!(scope, "CoMMA");
    assert_eq!(points.len(), 1);
    let gap = stream(
        &points,
        &[
            KeyValue::new("nccl.hostname", "host"),
            KeyValue::new("nccl.pid", 77_i64),
        ],
    );
    assert_eq!((gap.count, gap.sum), (1, 60));
}

#[test]
fn clones_record_to_the_same_instrument() {
    let (provider, exporter) = install_provider();
    let manager = HistogramManager::new("plain", "By", 1, host());
    let key = NcclOpKey::NetSend(1, 2, 3);
    let mut first = LatencyHistogram::new(manager.histogram(), key, host(), false, 0);
    let mut second = LatencyHistogram::new(manager.histogram(), key, host(), false, 0);
    first.record(&step(4));
    second.record(&step(6));

    let (points, unit, _) = exported(&provider, &exporter, "plain");
    assert_eq!(unit, "By");
    assert_eq!(points.len(), 1);
    assert_eq!((points[0].count, points[0].sum), (2, 10));
}

#[test]
fn attribute_sets_convert_in_order() {
    let set = attributes::AttributeSet::new(vec![
        attributes::Attr::of_bool("b", true),
        attributes::Attr::of_int("i", -7),
        attributes::Attr::of_text("t", String::from("text")),
    ]);
    let expected = vec![
        KeyValue::new("b", true),
        KeyValue::new("i", -7_i64),
        KeyValue::new("t", "text"),
    ];
    assert_eq!(set.key_values(), &expected);
    assert_eq!(set.duplicate().key_values(), &expected);
    assert!(set.contains_bool("b", true));
    assert!(!set.contains_bool("b", false));
    assert!(!set.contains_bool("t", true));
    assert!(!set.is_empty());
    assert!(attributes::AttributeSet::new(Vec::new()).is_empty());
}

#[test]
fn hashes_are_printed_in_full() {
    assert_eq!(format_hash(0), "0x0000000000000000");
    assert_eq!(format_hash(0x123), "0x0000000000000123");
    assert_eq!(format_hash(0xfedc_ba98_7654_3210), "0xfedcba9876543210");
    assert_eq!(format_hash(u64::MAX), format!("0x{:016x}", u64::MAX));
    assert!(str_eq("ncclSend", "ncclSend"));
    assert!(!str_eq("ncclSend", "ncclRecv"));
    assert!(!str_eq("nccl", "ncclRecv"));
}

#[test]
fn most_active_are_chosen() {
    assert_eq!(top_k(&vec![3, 9, 5, 7], 2), (vec![false, true, false, true], 2));
    assert_eq!(top_k(&vec![3, 9], 5), (vec![true, true], 2));
    assert_eq!(top_k(&vec![3, 9], 0), (vec![false, false], 0));
    assert_eq!(top_k(&Vec::new(), 3), (Vec::new(), 0));
    // of equal counts the earlier wins
    assert_eq!(top_k(&vec![1, 1, 1], 1), (vec![true, false, false], 1));
}

#[test]
fn durations_can_be_counted() {
    let mut histogram = DurationHistogram::new("test.duration.room", "ns", 1, host());
    assert!(histogram.can_record(1, "ncclAllReduce", 0, 0));
    histogram.record(1, 1, "ncclAllReduce", 0, 0);
    assert!(histogram.can_record(1, "ncclAllReduce", 0, 0));
}

#[test]
fn attributes_tell_streams_apart() {
    let (provider, exporter) = install_provider();
    let mut histogram = DurationHistogram::new("kinds", "ns", 8, host());
    histogram.record(1, 1, "ncclAllReduce", 0, 0);
    histogram.record(1, 2, "ncclAllReduce", 0, 0);
    histogram.record(1, 1, "ncclReduce", 0, 0);
    histogram.record(1, 1, "ncclAllReduce", 1, 0);
    histogram.record(1, 1, "ncclAllReduce", 0, 1 << 20);
    // the same kind again, in the same size class
    histogram.record(1, 1, "ncclAllReduce", 0, 1);
    let (points, _, _) = exported(&provider, &exporter, "kinds");
    assert_eq!(points.len(), 5);
    assert_ne!(format_hash(1), format_hash(2));
}

#[test]
fn repeated_closes_change_nothing() {
    let mut histogram = DurationHistogram::new("test.duration.again", "ns", 2, host());
    histogram.record(1, 1, "ncclAllReduce", 0, 0);
    histogram.record(1, 2, "ncclAllReduce", 0, 0);
    histogram.record(1, 3, "ncclAllReduce", 0, 0);
    histogram.close_comm(9);
    assert_eq!(histogram.num_active(), 2);
    for _ in 0..2 {
        histogram.close_comm(1);
        assert_eq!(histogram.num_active(), 1);
        assert!(!histogram.high_fidelity(1, "ncclAllReduce", 0, 0));
        assert!(histogram.high_fidelity(2, "ncclAllReduce", 0, 0));
        // nothing is promoted by the close
        assert!(!histogram.high_fidelity(3, "ncclAllReduce", 0, 0));
    }

    let mut manager = HistogramManager::new("test.latency.repeat", "ns", 2, host());
    manager.get_histogram(NcclOpKey::NetSend(1, 0, 1));
    manager.get_histogram(NcclOpKey::NetSend(2, 0, 1));
    manager.close_comm(9);
    assert_eq!(manager.num_active(), 2);
    for _ in 0..2 {
        manager.close_comm(1);
        assert_eq!(manager.num_active(), 1);
    }
    assert!(manager.get_histogram(NcclOpKey::NetSend(2, 0, 1)).high_fidelity());
}

#[test]
fn steps_count_for_their_connection_only() {
    let mut manager = HistogramManager::new("test.latency.count", "ns", 1, host());
    let first = manager.get_histogram(NcclOpKey::NetSend(1, 0, 1));
    let mut a = manager.get_histogram(NcclOpKey::NetSend(1, 0, 2));
    let mut b = manager.get_histogram(NcclOpKey::NetSend(1, 0, 2));
    a.record(&step(1));
    b.record(&step(1));
    let mut c = manager.get_histogram(NcclOpKey::NetSend(1, 0, 3));
    c.record(&step(1));
    for h in [first, a, b, c] {
        manager.retire(h);
    }
    manager.update_priority();
    assert!(!manager.get_histogram(NcclOpKey::NetSend(1, 0, 1)).high_fidelity());
    assert!(manager.get_histogram(NcclOpKey::NetSend(1, 0, 2)).high_fidelity());
    assert!(!manager.get_histogram(NcclOpKey::NetSend(1, 0, 3)).high_fidelity());
    // a ranking does not reset the counts
    let mut d = manager.get_histogram(NcclOpKey::NetSend(1, 0, 3));
    d.record(&step(1));
    d.record(&step(1));
    manager.retire(d);
    manager.update_priority();
    assert!(manager.get_histogram(NcclOpKey::NetSend(1, 0, 3)).high_fidelity());
}

#[test]
fn other_work_is_told_apart() {
    let mut manager = HistogramManager::new("test.latency.work", "ns", 2, host());
    manager.get_histogram(NcclOpKey::Other(1, 1));
    manager.get_histogram(NcclOpKey::Other(1, 2));
    manager.get_histogram(NcclOpKey::Other(1, 1));
    assert_eq!(manager.num_active(), 2);
}
