//! What holds of every measurement and of every span.
use crate::attributes::{bool_attr, int_attr, key_value_of, key_values_of, text_attr, AttrView};
use crate::config::Config;
use crate::duration::{
    duration_attributes, duration_comm_closed, duration_recorded, kinds_ranked,
    law_kinds_are_bounded, own_kinds, record_counts, size_class_text, DurationHistogram,
    DurationKey, DurationKeyView,
};
use crate::event::NcclOp;
use crate::gap::{gap_attributes, instrument_opened, GapTracker};
use crate::instruments::{gauge_sent, histogram_sent, requested, Measurement};
use crate::latency::{
    aggregated_attributes, connections_ranked, histogram_fetched, histogram_retired,
    latency_attributes, latency_comm_closed, law_aggregation_is_marked,
    law_connections_are_bounded, own_connections, step_counts, step_recorded, HistogramManager,
    LatencyHistogram,
};
use crate::nccl_metadata::{CollDescr, NcclOpKey, NcclOpType, OpDescr, P2pDescr};
use crate::ncclop::{
    are_histogram_views, coll_type_num, has_span, is_histogram_view, on_wall_clock,
    op_duration_recorded, op_type_name, seqnum_attributes, seqnum_recorded, span_attributes,
    span_context, starts_on_wall_clock, HistogramView, SpanPlan, SpanRole, TracePlan,
};
use crate::profiler::Profiler;
use crate::step_tracker::EventStep;
use crate::table::of_comm;
use crate::text::hash_text;
use opentelemetry::metrics::Gauge;
use opentelemetry::KeyValue;
use vstd::prelude::*;
use vstd::set_lib::{lemma_len_subset, lemma_map_size_bound};

verus! {

/// Attributes are converted one by one, in order.
pub proof fn law_conversion_keeps_order(attrs: Seq<AttrView>)
    ensures
        key_values_of(attrs).len() == attrs.len(),
        forall|i: int|
            0 <= i < attrs.len() ==> #[trigger] key_values_of(attrs)[i] == key_value_of(attrs[i]),
{
}

/// Everything without a place of its own is recorded under the mark and the
/// host name, and nothing else.
pub proof fn law_aggregated_attributes(hostname: Seq<char>)
    ensures
        aggregated_attributes(hostname).len() == 2,
        aggregated_attributes(hostname)[0] == bool_attr("nccl.metric.aggregated"@, true),
        aggregated_attributes(hostname)[1] == text_attr("nccl.hostname"@, hostname),
{
}

/// A connection with attributes of its own is recorded under its communicator,
/// the rank that sends, the rank that receives, and the host. Work that is no
/// transfer has no attributes.
pub proof fn law_latency_attributes(key: NcclOpKey, hostname: Seq<char>)
    ensures
        latency_attributes(key, hostname, false) == aggregated_attributes(hostname),
        ({
            let attrs = latency_attributes(key, hostname, true);
            match key {
                NcclOpKey::NetSend(hash, local, peer) => {
                    &&& attrs.len() == 4
                    &&& attrs[0] == text_attr("nccl.communicator.hash"@, hash_text(hash))
                    &&& attrs[1] == int_attr("nccl.source.rank"@, local as i64)
                    &&& attrs[2] == int_attr("nccl.destination.rank"@, peer as i64)
                    &&& attrs[3] == text_attr("nccl.hostname"@, hostname)
                },
                NcclOpKey::NetRecv(hash, local, peer) => {
                    &&& attrs.len() == 4
                    &&& attrs[0] == text_attr("nccl.communicator.hash"@, hash_text(hash))
                    &&& attrs[1] == int_attr("nccl.source.rank"@, peer as i64)
                    &&& attrs[2] == int_attr("nccl.destination.rank"@, local as i64)
                    &&& attrs[3] == text_attr("nccl.hostname"@, hostname)
                },
                NcclOpKey::Other(_, _) => attrs.len() == 0,
            }
        }),
{
}

/// A kind with attributes of its own is recorded under its communicator, its
/// name, its size class, the rank and the host.
pub proof fn law_duration_attributes(hostname: Seq<char>, key: DurationKeyView)
    ensures
        duration_attributes(hostname, key).len() == 5,
        duration_attributes(hostname, key)[0] == text_attr(
            "nccl.comm.hash"@,
            hash_text(key.comm_hash),
        ),
        duration_attributes(hostname, key)[1] == text_attr("nccl.collective.name"@, key.op_name),
        duration_attributes(hostname, key)[2] == text_attr("nccl.size.class"@, key.size_class),
        duration_attributes(hostname, key)[3] == int_attr("nccl.rank"@, key.rank as i64),
        duration_attributes(hostname, key)[4] == text_attr("nccl.hostname"@, hostname),
        !duration_attributes(hostname, key).contains(bool_attr("nccl.metric.aggregated"@, true)),
{
    let mark = bool_attr("nccl.metric.aggregated"@, true);
    let attrs = duration_attributes(hostname, key);
    assert forall|i: int| 0 <= i < attrs.len() implies attrs[i] != mark by {
        assert(!(attrs[i].value is Bool));
    }
}

/// A gap is recorded under the host and the process.
pub proof fn law_gap_attributes(hostname: Seq<char>, pid: i32)
    ensures
        gap_attributes(hostname, pid).len() == 2,
        gap_attributes(hostname, pid)[0] == text_attr("nccl.hostname"@, hostname),
        gap_attributes(hostname, pid)[1] == int_attr("nccl.pid"@, pid as i64),
{
}

/// Recording a step hands its duration to the instrument, once, under the
/// attributes of the connection, and counts it. Where the connection has no
/// attributes it is only counted.
pub proof fn law_steps_are_recorded_once(
    before: LatencyHistogram,
    after: LatencyHistogram,
    step: EventStep,
)
    requires
        step_recorded(before, after, step),
    ensures
        after.attrs() == before.attrs(),
        after.counter_id() == before.counter_id(),
        before.recorded() < usize::MAX ==> after.recorded() == before.recorded() + 1,
        before.recorded() == usize::MAX ==> after.recorded() == 0,
        before.attrs().len() == 0 ==> histogram_sent(after.instrument()) == histogram_sent(
            before.instrument(),
        ),
        before.attrs().len() > 0 ==> {
            let sent = histogram_sent(after.instrument());
            &&& sent.len() == histogram_sent(before.instrument()).len() + 1
            &&& sent.drop_last() == histogram_sent(before.instrument())
            &&& sent.last().value == step.dur_ns
            &&& sent.last().attributes == key_values_of(before.attrs())
        },
        requested(after.instrument()) == requested(before.instrument()),
{
    assert(usize::MAX.wrapping_add(1) == 0);
    if before.attrs().len() > 0 {
        assert(histogram_sent(after.instrument()).drop_last() =~= histogram_sent(
            before.instrument(),
        ));
    }
}

/// A histogram counts as one with attributes of its own exactly where none of
/// its attributes is the mark of aggregation.
pub proof fn law_fidelity_is_the_missing_mark(histogram: LatencyHistogram)
    ensures
        histogram.is_high_fidelity() <==> forall|i: int|
            0 <= i < histogram.attrs().len() ==> #[trigger] histogram.attrs()[i] != bool_attr(
                "nccl.metric.aggregated"@,
                true,
            ),
{
}

/// Fetching a histogram: a connection that is known keeps its place or goes
/// without, and nothing changes; a new one gets a place exactly where fewer
/// connections hold one than the limit allows, and starts at zero.
pub proof fn law_places_are_given_while_there_are_any(
    before: HistogramManager,
    after: HistogramManager,
    key: NcclOpKey,
    histogram: LatencyHistogram,
    other: NcclOpKey,
)
    requires
        before.wf(),
        histogram_fetched(before, after, key, histogram),
    ensures
        after.connections().contains_key(key),
        after.instrument() == before.instrument(),
        after.host() == before.host(),
        after.limit() == before.limit(),
        histogram.recorded() == 0,
        histogram.instrument() == before.instrument(),
        histogram.counter_id() == after.connections()[key].counter,
        histogram.attrs() == latency_attributes(
            key,
            before.host(),
            after.connections()[key].high_fidelity,
        ),
        histogram.attrs().contains(bool_attr("nccl.metric.aggregated"@, true))
            <==> !after.connections()[key].high_fidelity,
        histogram.is_high_fidelity() == after.connections()[key].high_fidelity,
        before.connections().contains_key(key) ==> after.connections() == before.connections()
            && after.active() == before.active() && after.next_counter_id()
            == before.next_counter_id(),
        !before.connections().contains_key(key) ==> {
            let held = Set::new(
                |k: NcclOpKey|
                    before.connections().contains_key(k) && before.connections()[k].high_fidelity,
            );
            &&& after.connections()[key].high_fidelity <==> held.len() < before.limit()
            &&& after.connections()[key].count == 0
            &&& after.connections()[key].counter == before.next_counter_id()
            &&& after.next_counter_id() == before.next_counter_id() + 1
            &&& after.active() == before.active() + if held.len() < before.limit() {
                1nat
            } else {
                0nat
            }
        },
        other != key ==> {
            &&& after.connections().contains_key(other) == before.connections().contains_key(other)
            &&& before.connections().contains_key(other) ==> after.connections()[other]
                == before.connections()[other]
        },
{
    law_connections_are_bounded(before);
    law_aggregation_is_marked(key, before.host(), after.connections()[key].high_fidelity);
    assert(Set::new(
        |k: NcclOpKey|
            before.connections().contains_key(k) && before.connections()[k].high_fidelity,
    ) =~= own_connections(before.connections()));
}

/// The histograms of `keys` were fetched one after the other: `states` before
/// each and after the last.
pub open spec fn histograms_fetched(
    states: Seq<HistogramManager>,
    keys: Seq<NcclOpKey>,
    histograms: Seq<LatencyHistogram>,
) -> bool {
    &&& states.len() == keys.len() + 1
    &&& histograms.len() == keys.len()
    &&& forall|i: int| 0 <= i < states.len() ==> (#[trigger] states[i]).wf()
    &&& forall|i: int|
        #![trigger keys[i]]
        0 <= i < keys.len() ==> histogram_fetched(states[i], states[i + 1], keys[i], histograms[i])
}

/// The attribute lists of `histograms` that do not carry the mark of
/// aggregation.
pub open spec fn unmarked_attributes(histograms: Seq<LatencyHistogram>) -> Set<Seq<AttrView>> {
    Set::new(
        |list: Seq<AttrView>|
            !list.contains(bool_attr("nccl.metric.aggregated"@, true)) && exists|i: int|
                0 <= i < histograms.len() && #[trigger] histograms[i].attrs() == list,
    )
}

proof fn lemma_fetched_lists(
    states: Seq<HistogramManager>,
    keys: Seq<NcclOpKey>,
    histograms: Seq<LatencyHistogram>,
)
    requires
        histograms_fetched(states, keys, histograms),
    ensures
        states.last().host() == states[0].host(),
        states.last().limit() == states[0].limit(),
        forall|i: int|
            0 <= i < keys.len() ==> {
                ||| #[trigger] histograms[i].attrs() == aggregated_attributes(states[0].host())
                ||| own_connections(states.last().connections()).contains(keys[i])
                    && histograms[i].attrs() == latency_attributes(
                    keys[i],
                    states[0].host(),
                    true,
                )
            },
    decreases keys.len(),
{
    if keys.len() > 0 {
        let n = keys.len() - 1;
        let rest = states.drop_last();
        let before = states[n];
        let after = states.last();
        assert forall|i: int|
            #![trigger keys.drop_last()[i]]
            0 <= i < keys.drop_last().len() implies histogram_fetched(
            rest[i],
            rest[i + 1],
            keys.drop_last()[i],
            histograms.drop_last()[i],
        ) by {
            assert(keys[i] == keys.drop_last()[i]);
        }
        assert forall|i: int| 0 <= i < rest.len() implies (#[trigger] rest[i]).wf() by {
            assert(states[i].wf());
        }
        lemma_fetched_lists(rest, keys.drop_last(), histograms.drop_last());
        assert(histogram_fetched(states[n], states[n + 1], keys[n], histograms[n]));
        assert(states[n].wf());
        assert(rest.last() == before);
        assert forall|i: int| 0 <= i < keys.len() implies {
            ||| #[trigger] histograms[i].attrs() == aggregated_attributes(states[0].host())
            ||| own_connections(after.connections()).contains(keys[i]) && histograms[i].attrs()
                == latency_attributes(keys[i], states[0].host(), true)
        } by {
            law_places_are_given_while_there_are_any(
                before,
                after,
                keys[n],
                histograms[n],
                keys[i],
            );
            if i < n {
                assert(histograms.drop_last()[i] == histograms[i]);
                assert(keys.drop_last()[i] == keys[i]);
            }
        }
    }
}

/// Cardinality is bounded: however many histograms of however many connections
/// are handed out between two rankings or closes, at most as many distinct
/// attribute lists without the mark of aggregation are among them as the limit
/// allows.
pub proof fn law_distinct_connections_are_bounded(
    states: Seq<HistogramManager>,
    keys: Seq<NcclOpKey>,
    histograms: Seq<LatencyHistogram>,
)
    requires
        histograms_fetched(states, keys, histograms),
    ensures
        unmarked_attributes(histograms).finite(),
        unmarked_attributes(histograms).len() <= states[0].limit(),
{
    lemma_fetched_lists(states, keys, histograms);
    let last = states.last();
    assert(states[states.len() - 1].wf());
    law_connections_are_bounded(last);
    let host = states[0].host();
    let lists = unmarked_attributes(histograms);
    let own = own_connections(last.connections());
    let f = |k: NcclOpKey| latency_attributes(k, host, true);
    let aggregated = aggregated_attributes(host);
    assert(aggregated[0] == bool_attr("nccl.metric.aggregated"@, true));
    lemma_map_size_bound(own, own.map(f), f);
    assert forall|list: Seq<AttrView>| #[trigger] lists.contains(list) implies own.map(f).contains(
        list,
    ) by {
        let i = choose|i: int|
            0 <= i < histograms.len() && #[trigger] histograms[i].attrs() == list;
        assert(histograms[i].attrs() == list);
        assert(list != aggregated);
        assert(own.contains(keys[i]));
        assert(f(keys[i]) == list);
    }
    lemma_len_subset(lists, own.map(f));
}

/// A ranking of connections: as many hold a place as the limit allows, none
/// of them has fewer steps than one that does not, and no step is forgotten.
pub proof fn law_busiest_connections_hold_the_places(
    before: HistogramManager,
    after: HistogramManager,
    a: NcclOpKey,
    b: NcclOpKey,
)
    requires
        before.wf(),
        connections_ranked(before, after),
    ensures
        after.connections().dom() == before.connections().dom(),
        after.limit() == before.limit(),
        after.instrument() == before.instrument(),
        after.host() == before.host(),
        after.next_counter_id() == before.next_counter_id(),
        ({
            let held = Set::new(
                |k: NcclOpKey|
                    after.connections().contains_key(k) && after.connections()[k].high_fidelity,
            );
            let known = before.connections().dom().len();
            &&& held.len() == if known < before.limit() {
                known
            } else {
                before.limit()
            }
            &&& after.active() == held.len()
        }),
        before.connections().contains_key(a) ==> {
            &&& after.connections()[a].count == before.connections()[a].count
            &&& after.connections()[a].counter == before.connections()[a].counter
        },
        before.connections().contains_key(a) && before.connections().contains_key(b)
            && after.connections()[a].high_fidelity && !after.connections()[b].high_fidelity
            ==> before.connections()[a].count >= before.connections()[b].count,
{
    law_connections_are_bounded(before);
    let own = own_connections(after.connections());
    let counts = step_counts(before.connections());
    assert(Set::new(
        |k: NcclOpKey|
            after.connections().contains_key(k) && after.connections()[k].high_fidelity,
    ) =~= own);
    assert(counts.dom() =~= before.connections().dom());
    if before.connections().contains_key(a) && before.connections().contains_key(b)
        && after.connections()[a].high_fidelity && !after.connections()[b].high_fidelity {
        assert(own.contains(a) && !own.contains(b));
        assert(counts[a] >= counts[b]);
    }
}

/// Closing a communicator forgets exactly its connections, which frees their
/// places; the others keep everything.
pub proof fn law_exactly_the_closed_connections_go(
    before: HistogramManager,
    after: HistogramManager,
    comm_hash: u64,
    key: NcclOpKey,
)
    requires
        latency_comm_closed(before, after, comm_hash),
    ensures
        after.limit() == before.limit(),
        after.instrument() == before.instrument(),
        after.host() == before.host(),
        after.next_counter_id() == before.next_counter_id(),
        ({
            let hash = match key {
                NcclOpKey::NetSend(hash, _, _) => hash,
                NcclOpKey::NetRecv(hash, _, _) => hash,
                NcclOpKey::Other(hash, _) => hash,
            };
            &&& after.connections().contains_key(key) <==> before.connections().contains_key(key)
                && hash != comm_hash
            &&& after.connections().contains_key(key) ==> after.connections()[key]
                == before.connections()[key]
        }),
        ({
            let freed = Set::new(
                |k: NcclOpKey|
                    before.connections().contains_key(k) && before.connections()[k].high_fidelity
                        && match k {
                        NcclOpKey::NetSend(hash, _, _) => hash == comm_hash,
                        NcclOpKey::NetRecv(hash, _, _) => hash == comm_hash,
                        NcclOpKey::Other(hash, _) => hash == comm_hash,
                    },
            );
            after.active() + freed.len() == before.active()
        }),
{
    assert(Set::new(
        |k: NcclOpKey|
            before.connections().contains_key(k) && before.connections()[k].high_fidelity
                && match k {
                NcclOpKey::NetSend(hash, _, _) => hash == comm_hash,
                NcclOpKey::NetRecv(hash, _, _) => hash == comm_hash,
                NcclOpKey::Other(hash, _) => hash == comm_hash,
            },
    ) =~= own_connections(before.connections()).intersect(of_comm::<NcclOpKey>(comm_hash)));
}

/// Handing a histogram back keeps every connection and every place, and adds
/// its steps where its counter is known.
pub proof fn law_returned_steps_are_added(
    before: HistogramManager,
    after: HistogramManager,
    histogram: LatencyHistogram,
    key: NcclOpKey,
)
    requires
        histogram_retired(before, after, histogram),
        before.connections().contains_key(key),
    ensures
        after.connections().dom() == before.connections().dom(),
        after.active() == before.active(),
        after.limit() == before.limit(),
        after.next_counter_id() == before.next_counter_id(),
        after.instrument() == before.instrument(),
        after.host() == before.host(),
        after.connections()[key].high_fidelity == before.connections()[key].high_fidelity,
        after.connections()[key].counter == before.connections()[key].counter,
        before.connections()[key].counter != histogram.counter_id()
            ==> after.connections()[key].count == before.connections()[key].count,
        before.connections()[key].counter == histogram.counter_id()
            && before.connections()[key].count + histogram.recorded() <= usize::MAX
            ==> after.connections()[key].count == before.connections()[key].count
            + histogram.recorded(),
        before.connections()[key].counter == histogram.counter_id()
            && before.connections()[key].count + histogram.recorded() > usize::MAX
            ==> after.connections()[key].count == before.connections()[key].count
            + histogram.recorded() - usize::MAX - 1,
{
}

/// Recording a duration: exactly one measurement more, with that duration. It
/// is sent under the attributes of its kind only where the kind holds a place,
/// and as aggregated otherwise. A kind that is known keeps its place or goes
/// without; a new one gets a place exactly where fewer kinds hold one than the
/// limit allows.
pub proof fn law_only_placed_kinds_use_their_attributes(
    before: DurationHistogram,
    after: DurationHistogram,
    dur_ns: u64,
    key: DurationKeyView,
    other: DurationKeyView,
)
    requires
        before.wf(),
        duration_recorded(before, after, dur_ns, key),
    ensures
        ({
            let sent = histogram_sent(after.instrument());
            &&& sent.len() == histogram_sent(before.instrument()).len() + 1
            &&& sent.drop_last() == histogram_sent(before.instrument())
            &&& sent.last().value == dur_ns
            &&& after.kinds().contains_key(key)
            &&& own_kinds(after.kinds()).contains(key) <==> after.kinds()[key].attributes is Some
            &&& own_kinds(after.kinds()).contains(key) ==> sent.last().attributes
                == key_values_of(duration_attributes(before.host(), key))
            &&& !own_kinds(after.kinds()).contains(key) ==> sent.last().attributes
                == key_values_of(aggregated_attributes(before.host()))
        }),
        requested(after.instrument()) == requested(before.instrument()),
        after.host() == before.host(),
        after.limit() == before.limit(),
        before.kinds().contains_key(key) ==> {
            &&& after.kinds()[key].attributes is Some <==> before.kinds()[key].attributes is Some
            &&& after.kinds()[key].count == before.kinds()[key].count + 1
            &&& after.active() == before.active()
        },
        !before.kinds().contains_key(key) ==> {
            let held = Set::new(
                |k: DurationKeyView|
                    before.kinds().contains_key(k) && before.kinds()[k].attributes is Some,
            );
            &&& after.kinds()[key].attributes is Some <==> held.len() < before.limit()
            &&& after.kinds()[key].count == 1
            &&& after.active() == before.active() + if held.len() < before.limit() {
                1nat
            } else {
                0nat
            }
        },
        other != key ==> {
            &&& after.kinds().contains_key(other) == before.kinds().contains_key(other)
            &&& before.kinds().contains_key(other) ==> after.kinds()[other]
                == before.kinds()[other]
        },
{
    law_kinds_are_bounded(before);
    assert(Set::new(
        |k: DurationKeyView|
            before.kinds().contains_key(k) && before.kinds()[k].attributes is Some,
    ) =~= own_kinds(before.kinds()));
    assert(histogram_sent(after.instrument()).drop_last() =~= histogram_sent(before.instrument()));
    if other != key {
        assert(after.kinds().dom().contains(other) == before.kinds().dom().contains(other));
    }
}

/// A duration can be recorded unless the count of its kind is at its end, so
/// that of a kind that is not known always can.
pub proof fn law_counts_have_room(histogram: DurationHistogram, key: DurationKeyView)
    ensures
        !histogram.kinds().contains_key(key) ==> histogram.has_count_room(key),
        histogram.kinds().contains_key(key) ==> (histogram.has_count_room(key)
            <==> histogram.kinds()[key].count < usize::MAX),
{
}

/// The durations that were recorded one after the other: `states` before each
/// and after the last, `keys` their kinds.
pub open spec fn durations_recorded(
    states: Seq<DurationHistogram>,
    durations: Seq<u64>,
    keys: Seq<DurationKeyView>,
) -> bool {
    &&& states.len() == keys.len() + 1
    &&& durations.len() == keys.len()
    &&& forall|i: int| 0 <= i < states.len() ==> (#[trigger] states[i]).wf()
    &&& forall|i: int|
        #![trigger keys[i]]
        0 <= i < keys.len() ==> duration_recorded(states[i], states[i + 1], durations[i], keys[i])
}

/// The attribute lists among the measurements from position `from` on that do
/// not carry the mark of aggregation.
pub open spec fn unmarked_lists(sent: Seq<Measurement<u64>>, from: int) -> Set<Seq<KeyValue>> {
    Set::new(
        |list: Seq<KeyValue>|
            !list.contains(key_value_of(bool_attr("nccl.metric.aggregated"@, true))) && exists|
                i: int,
            |
                from <= i < sent.len() && #[trigger] sent[i].attributes == list,
    )
}

/// Over any history of records: every duration is sent once and in order,
/// nothing that was sent before is touched, and every list is either that of a
/// kind that holds a place in the end or the aggregated one. No kind loses its
/// place.
pub proof fn law_durations_are_sent_under_their_lists(
    states: Seq<DurationHistogram>,
    durations: Seq<u64>,
    keys: Seq<DurationKeyView>,
)
    requires
        durations_recorded(states, durations, keys),
    ensures
        states.last().host() == states[0].host(),
        states.last().limit() == states[0].limit(),
        own_kinds(states[0].kinds()).subset_of(own_kinds(states.last().kinds())),
        ({
            let earlier = histogram_sent(states[0].instrument());
            let sent = histogram_sent(states.last().instrument());
            let from = earlier.len() as int;
            &&& sent.len() == from + keys.len()
            &&& sent.take(from) == earlier
            &&& forall|i: int|
                0 <= i < keys.len() ==> #[trigger] sent[from + i].value == durations[i]
            &&& forall|i: int|
                #![trigger sent[i]]
                from <= i < sent.len() ==> {
                    ||| sent[i].attributes == key_values_of(
                        aggregated_attributes(states[0].host()),
                    )
                    ||| own_kinds(states.last().kinds()).contains(keys[i - from])
                        && sent[i].attributes == key_values_of(
                        duration_attributes(states[0].host(), keys[i - from]),
                    )
                }
        }),
    decreases keys.len(),
{
    let earlier = histogram_sent(states[0].instrument());
    let from = earlier.len() as int;
    if keys.len() == 0 {
        assert(earlier.take(from) =~= earlier);
    } else {
        let n = keys.len() - 1;
        let rest = states.drop_last();
        let before = states[n];
        let after = states.last();
        let key = keys[n];
        assert forall|i: int|
            #![trigger keys.drop_last()[i]]
            0 <= i < keys.drop_last().len() implies duration_recorded(
            rest[i],
            rest[i + 1],
            durations.drop_last()[i],
            keys.drop_last()[i],
        ) by {
            assert(keys[i] == keys.drop_last()[i]);
        }
        assert forall|i: int| 0 <= i < rest.len() implies (#[trigger] rest[i]).wf() by {
            assert(states[i].wf());
        }
        law_durations_are_sent_under_their_lists(rest, durations.drop_last(), keys.drop_last());
        assert(duration_recorded(states[n], states[n + 1], durations[n], keys[n]));
        assert(states[n].wf());
        assert(rest.last() == before);
        law_only_placed_kinds_use_their_attributes(before, after, durations[n], key, key);
        let own_before = own_kinds(before.kinds());
        let own_after = own_kinds(after.kinds());
        assert forall|k: DurationKeyView| #[trigger] own_before.contains(k) implies own_after.contains(
            k,
        ) by {
            law_only_placed_kinds_use_their_attributes(before, after, durations[n], key, k);
        }
        let held = histogram_sent(before.instrument());
        let sent = histogram_sent(after.instrument());
        assert(sent.drop_last() == held);
        assert(sent.take(from) =~= held.take(from));
        assert forall|i: int| 0 <= i < keys.len() implies #[trigger] sent[from + i].value
            == durations[i] by {
            if i < n {
                assert(sent[from + i] == held[from + i]);
                assert(durations.drop_last()[i] == durations[i]);
            }
        }
        assert forall|i: int| #![trigger sent[i]] from <= i < sent.len() implies {
            ||| sent[i].attributes == key_values_of(aggregated_attributes(states[0].host()))
            ||| own_after.contains(keys[i - from]) && sent[i].attributes == key_values_of(
                duration_attributes(states[0].host(), keys[i - from]),
            )
        } by {
            if i < sent.len() - 1 {
                assert(held[i] == sent[i]);
                assert(keys.drop_last()[i - from] == keys[i - from]);
            } else {
                assert(sent[i] == sent.last());
            }
        }
    }
}

/// Cardinality is bounded: however many durations of however many kinds are
/// recorded between two rankings or closes, at most as many distinct attribute
/// lists without the mark of aggregation reach the instrument as the limit
/// allows.
pub proof fn law_distinct_lists_are_bounded(
    states: Seq<DurationHistogram>,
    durations: Seq<u64>,
    keys: Seq<DurationKeyView>,
)
    requires
        durations_recorded(states, durations, keys),
    ensures
        unmarked_lists(
            histogram_sent(states.last().instrument()),
            histogram_sent(states[0].instrument()).len() as int,
        ).finite(),
        unmarked_lists(
            histogram_sent(states.last().instrument()),
            histogram_sent(states[0].instrument()).len() as int,
        ).len() <= states[0].limit(),
{
    law_durations_are_sent_under_their_lists(states, durations, keys);
    let last = states.last();
    assert(states[states.len() - 1].wf());
    law_kinds_are_bounded(last);
    let host = states[0].host();
    let from = histogram_sent(states[0].instrument()).len() as int;
    let lists = unmarked_lists(histogram_sent(last.instrument()), from);
    let own = own_kinds(last.kinds());
    let f = |k: DurationKeyView| key_values_of(duration_attributes(host, k));
    let mark = key_value_of(bool_attr("nccl.metric.aggregated"@, true));
    let aggregated = key_values_of(aggregated_attributes(host));
    assert(aggregated[0] == mark);
    lemma_map_size_bound(own, own.map(f), f);
    assert forall|list: Seq<KeyValue>| #[trigger] lists.contains(list) implies own.map(f).contains(
        list,
    ) by {
        let i = choose|i: int|
            from <= i < histogram_sent(last.instrument()).len() && #[trigger] histogram_sent(
                last.instrument(),
            )[i].attributes == list;
        assert(histogram_sent(last.instrument())[i].attributes == list);
        assert(list != aggregated);
        let k = keys[i - from];
        assert(own.contains(k));
        assert(f(k) == list);
    }
    lemma_len_subset(lists, own.map(f));
}

/// A ranking of kinds: as many hold a place as the limit allows, none of them
/// was recorded less often since the last ranking than one that does not, and
/// counting starts anew. Nothing is recorded.
pub proof fn law_busiest_kinds_hold_the_places(
    before: DurationHistogram,
    after: DurationHistogram,
    a: DurationKeyView,
    b: DurationKeyView,
)
    requires
        before.wf(),
        kinds_ranked(before, after),
    ensures
        after.kinds().dom() == before.kinds().dom(),
        after.limit() == before.limit(),
        after.instrument() == before.instrument(),
        after.host() == before.host(),
        histogram_sent(after.instrument()) == histogram_sent(before.instrument()),
        ({
            let held = Set::new(
                |k: DurationKeyView|
                    after.kinds().contains_key(k) && after.kinds()[k].attributes is Some,
            );
            let known = before.kinds().dom().len();
            &&& held.len() == if known < before.limit() {
                known
            } else {
                before.limit()
            }
            &&& after.active() == held.len()
        }),
        before.kinds().contains_key(a) ==> after.kinds()[a].count == 0,
        before.kinds().contains_key(a) && before.kinds().contains_key(b)
            && after.kinds()[a].attributes is Some && after.kinds()[b].attributes is None
            ==> before.kinds()[a].count >= before.kinds()[b].count,
{
    law_kinds_are_bounded(before);
    let own = own_kinds(after.kinds());
    let counts = record_counts(before.kinds());
    assert(Set::new(
        |k: DurationKeyView|
            after.kinds().contains_key(k) && after.kinds()[k].attributes is Some,
    ) =~= own);
    assert(counts.dom() =~= before.kinds().dom());
    if before.kinds().contains_key(a) && before.kinds().contains_key(b)
        && after.kinds()[a].attributes is Some && after.kinds()[b].attributes is None {
        assert(own.contains(a) && !own.contains(b));
        assert(counts[a] >= counts[b]);
    }
}

/// Closing a communicator forgets exactly its kinds, which frees their places;
/// the others keep everything, and nothing is recorded.
pub proof fn law_exactly_the_closed_kinds_go(
    before: DurationHistogram,
    after: DurationHistogram,
    comm_hash: u64,
    key: DurationKeyView,
)
    requires
        duration_comm_closed(before, after, comm_hash),
    ensures
        after.limit() == before.limit(),
        after.instrument() == before.instrument(),
        after.host() == before.host(),
        histogram_sent(after.instrument()) == histogram_sent(before.instrument()),
        after.kinds().contains_key(key) <==> before.kinds().contains_key(key) && key.comm_hash
            != comm_hash,
        after.kinds().contains_key(key) ==> after.kinds()[key] == before.kinds()[key],
        ({
            let freed = Set::new(
                |k: DurationKeyView|
                    before.kinds().contains_key(k) && before.kinds()[k].attributes is Some
                        && k.comm_hash == comm_hash,
            );
            after.active() + freed.len() == before.active()
        }),
{
    assert(Set::new(
        |k: DurationKeyView|
            before.kinds().contains_key(k) && before.kinds()[k].attributes is Some && k.comm_hash
                == comm_hash,
    ) =~= own_kinds(before.kinds()).intersect(of_comm::<DurationKey>(comm_hash)));
}

/// The duration of a completed operation is recorded exactly where it had
/// network or kernel activity and is a collective or a transfer: once, with
/// the whole duration, under its communicator, name, size class and rank.
pub proof fn law_completed_operations_are_recorded(
    before: DurationHistogram,
    after: DurationHistogram,
    op: NcclOp,
    r: Option<()>,
)
    requires
        before.wf(),
        op_duration_recorded(before, after, op, r),
    ensures
        r is Some <==> op.child_duration_ns is Some && !(op.descr is Other),
        r is None ==> after == before,
        r is Some ==> {
            let (name, rank, bytes) = match op.descr {
                OpDescr::Coll(coll) => (op_type_name(coll.op_type), coll.rank, coll.byte_count),
                OpDescr::P2p(p2p) => (
                    if p2p.is_send {
                        "ncclSend"@
                    } else {
                        "ncclRecv"@
                    },
                    p2p.rank,
                    p2p.byte_count,
                ),
                OpDescr::Other => (Seq::empty(), 0usize, 0usize),
            };
            let key = DurationKeyView {
                comm_hash: op.comm_hash,
                op_name: name,
                size_class: size_class_text(bytes),
                rank,
            };
            let sent = histogram_sent(after.instrument());
            &&& after.kinds().contains_key(key)
            &&& sent.len() == histogram_sent(before.instrument()).len() + 1
            &&& op.child_duration_ns->0 <= u64::MAX ==> sent.last().value
                == op.child_duration_ns->0
            &&& sent.last().value == op.child_duration_ns->0 as u64
            &&& sent.drop_last() == histogram_sent(before.instrument())
            &&& sent.last().attributes == key_values_of(
                if after.kinds()[key].attributes is Some {
                    duration_attributes(before.host(), key)
                } else {
                    aggregated_attributes(before.host())
                },
            )
        },
{
    if r is Some {
        assert(histogram_sent(after.instrument()).drop_last() =~= histogram_sent(
            before.instrument(),
        ));
    }
}

/// The sequence number of a collective is recorded once, under its
/// communicator, name, rank and host; other operations have none.
pub proof fn law_sequence_numbers_are_recorded(
    before: Gauge<i64>,
    after: Gauge<i64>,
    op: NcclOp,
    hostname: Seq<char>,
    r: Option<()>,
)
    requires
        seqnum_recorded(before, after, op, hostname, r),
    ensures
        r is Some,
        !(op.descr is Coll) ==> gauge_sent(after) == gauge_sent(before),
        op.descr matches OpDescr::Coll(coll) ==> {
            let attrs = seqnum_attributes(op.comm_hash, coll, hostname);
            &&& gauge_sent(after).len() == gauge_sent(before).len() + 1
            &&& gauge_sent(after).drop_last() == gauge_sent(before)
            &&& coll.seq_num <= i64::MAX ==> gauge_sent(after).last().value == coll.seq_num
            &&& gauge_sent(after).last().value == coll.seq_num as i64
            &&& gauge_sent(after).last().attributes == key_values_of(attrs)
            &&& attrs.len() == 4
            &&& attrs[0] == text_attr("nccl.comm.hash"@, hash_text(op.comm_hash))
            &&& attrs[1] == text_attr("nccl.collective.name"@, op_type_name(coll.op_type))
            &&& attrs[2] == int_attr("nccl.rank"@, coll.rank as i64)
            &&& attrs[3] == text_attr("nccl.hostname"@, hostname)
        },
{
    if op.descr is Coll {
        assert(gauge_sent(after).drop_last() =~= gauge_sent(before));
    }
}

/// The span of an operation starts as long after the profiler as its activity
/// did, and lasts until the operation ended.
pub proof fn law_spans_cover_their_operation(
    plan: SpanPlan,
    profiler: Profiler,
    op: NcclOp,
    ids: Option<(u128, u64)>,
)
    requires
        plan.spans(profiler, op, ids),
        op.child_start_time is Some,
        op.end_time is Some,
    ensures
        plan.ids == ids,
        plan.role == SpanRole::Server,
        op.child_start_time->0 >= profiler.init_instant ==> plan.start_time - profiler.init_time
            == op.child_start_time->0 - profiler.init_instant,
        op.child_start_time->0 < profiler.init_instant ==> plan.start_time == profiler.init_time,
        op.end_time->0 >= op.child_start_time->0 ==> plan.end_time - plan.start_time
            == op.end_time->0 - op.child_start_time->0,
        op.end_time->0 < op.child_start_time->0 ==> plan.end_time == plan.start_time,
        op.descr matches OpDescr::Coll(coll) ==> plan.name@ == op_type_name(coll.op_type),
        op.descr matches OpDescr::P2p(p2p) ==> plan.name@ == if p2p.is_send {
            "ncclSend"@
        } else {
            "ncclRecv"@
        },
        plan.attributes@ == span_attributes(op),
{
}

/// An operation has a span exactly where its activity started, it ended, and it
/// is a collective or a transfer. Its span can be told on the wall clock where
/// neither its start nor its end lies beyond the last second that can be told.
pub proof fn law_which_operations_have_a_span(profiler: Profiler, op: NcclOp)
    ensures
        has_span(op) <==> op.child_start_time is Some && op.end_time is Some && !(
        op.descr is Other),
        op.child_start_time is None || op.end_time is None ==> on_wall_clock(profiler, op),
        op.child_start_time is Some && op.end_time is Some ==> {
            let since_init = if op.child_start_time->0 >= profiler.init_instant {
                op.child_start_time->0 - profiler.init_instant
            } else {
                0
            };
            let until_end = since_init + if op.end_time->0 >= op.child_start_time->0 {
                op.end_time->0 - op.child_start_time->0
            } else {
                0
            };
            &&& starts_on_wall_clock(profiler, op) <==> profiler.init_time + since_init
                < 0x8000_0000_0000_0000 * 1_000_000_000
            &&& on_wall_clock(profiler, op) <==> profiler.init_time + since_init
                < 0x8000_0000_0000_0000 * 1_000_000_000 && (!(op.descr is Other)
                ==> profiler.init_time + until_end < 0x8000_0000_0000_0000 * 1_000_000_000)
        },
{
}

/// Every operation type has a name of its own, and the collectives that are
/// named have a number of their own in span identifiers.
pub proof fn law_names_tell_operations_apart(a: NcclOpType, b: NcclOpType)
    ensures
        op_type_name(a) == op_type_name(b) <==> a == b,
        op_type_name(NcclOpType::Broadcast) == "ncclBroadcast"@,
        op_type_name(NcclOpType::Reduce) == "ncclReduce"@,
        op_type_name(NcclOpType::AllGather) == "ncclAllGather"@,
        op_type_name(NcclOpType::ReduceScatter) == "ncclReduceScatter"@,
        op_type_name(NcclOpType::AllReduce) == "ncclAllReduce"@,
        op_type_name(NcclOpType::Send) == "ncclSend"@,
        op_type_name(NcclOpType::Recv) == "ncclRecv"@,
        coll_type_num(NcclOpType::Broadcast) == 1,
        coll_type_num(NcclOpType::Reduce) == 2,
        coll_type_num(NcclOpType::AllGather) == 3,
        coll_type_num(NcclOpType::ReduceScatter) == 4,
        coll_type_num(NcclOpType::AllReduce) == 5,
        coll_type_num(a) == coll_type_num(b) ==> a == b || coll_type_num(a) == 0xabcd,
        coll_type_num(a) == 0xabcd <==> a is Send || a is Recv || a is Other,
        1 <= coll_type_num(a) <= 5 || coll_type_num(a) == 0xabcd,
{
    reveal_strlit("ncclBroadcast");
    reveal_strlit("ncclReduce");
    reveal_strlit("ncclAllGather");
    reveal_strlit("ncclReduceScatter");
    reveal_strlit("ncclAllReduce");
    reveal_strlit("ncclSend");
    reveal_strlit("ncclRecv");
    reveal_strlit("unknown nccl op");
    if op_type_name(a) == op_type_name(b) {
        assert(op_type_name(a).len() == op_type_name(b).len());
        assert(op_type_name(a)[4] == op_type_name(b)[4]);
        assert(op_type_name(a)[7] == op_type_name(b)[7]);
        assert("ncclBroadcast"@.len() == 13 && "ncclReduce"@.len() == 10 && "ncclAllGather"@.len()
            == 13 && "ncclReduceScatter"@.len() == 17 && "ncclAllReduce"@.len() == 13
            && "ncclSend"@.len() == 8 && "ncclRecv"@.len() == 8 && "unknown nccl op"@.len() == 15);
        assert("ncclBroadcast"@[4] == 'B' && "ncclAllGather"@[4] == 'A' && "ncclAllReduce"@[4]
            == 'A');
        assert("ncclAllGather"@[7] == 'G' && "ncclAllReduce"@[7] == 'R');
        assert("ncclSend"@[4] == 'S' && "ncclRecv"@[4] == 'R');
    }
}

/// What a span tells of its operation.
pub proof fn law_span_attributes(op: NcclOp, coll: CollDescr, p2p: P2pDescr)
    ensures
        op.descr == OpDescr::Coll(coll) ==> {
            let attrs = span_attributes(op);
            &&& attrs.len() == 6
            &&& attrs[0] == text_attr("nccl.comm.hash"@, hash_text(op.comm_hash))
            &&& attrs[1] == int_attr("nccl.rank"@, coll.rank as i64)
            &&& attrs[2] == int_attr("nccl.size.bytes"@, coll.byte_count as i64)
            &&& attrs[3] == text_attr("nccl.collective.algo"@, coll.algo_name@)
            &&& attrs[4] == text_attr("nccl.collective.proto"@, coll.proto_name@)
            &&& attrs[5] == int_attr("nccl.collective.n_max_channel"@, coll.n_max_channel as i64)
        },
        op.descr == OpDescr::P2p(p2p) ==> {
            let attrs = span_attributes(op);
            &&& attrs.len() == 4
            &&& attrs[0] == text_attr("nccl.comm.hash"@, hash_text(op.comm_hash))
            &&& attrs[1] == int_attr("nccl.rank"@, p2p.rank as i64)
            &&& attrs[2] == int_attr("nccl.size.bytes"@, p2p.byte_count as i64)
            &&& attrs[3] == int_attr("nccl.p2p.peer.rank"@, p2p.peer as i64)
        },
{
}

/// The spans of a collective are tied together over all ranks: every rank
/// refers to one parent, which rank 0 builds under the very identifiers that
/// the others refer to. Transfers stand alone.
pub proof fn law_ranks_share_their_parent(
    profiler_a: Profiler,
    a: NcclOp,
    plan_a: TracePlan,
    coll_a: CollDescr,
    profiler_b: Profiler,
    b: NcclOp,
    plan_b: TracePlan,
    coll_b: CollDescr,
)
    requires
        plan_a.traces(profiler_a, a),
        plan_b.traces(profiler_b, b),
        a.descr == OpDescr::Coll(coll_a),
        b.descr == OpDescr::Coll(coll_b),
        a.comm_hash == b.comm_hash,
        coll_a.op_type == coll_b.op_type,
        coll_a.seq_num == coll_b.seq_num,
    ensures
        plan_a.context is Some,
        plan_a.context == plan_b.context,
        plan_a.parent is Some <==> coll_a.rank == 0,
        plan_a.span.spans(profiler_a, a, None),
        plan_a.parent matches Some(parent) ==> {
            &&& parent.ids matches Some((trace_id, span_id))
            &&& trace_id == a.comm_hash
            &&& span_id == ((coll_type_num(coll_a.op_type) as u64) << 32u64) | coll_a.seq_num
            &&& plan_b.context == Some(span_context(trace_id, span_id, 1, true))
            &&& parent.spans(profiler_a, a, parent.ids)
        },
{
}

/// A transfer has one span, without a parent.
pub proof fn law_transfers_stand_alone(profiler: Profiler, op: NcclOp, plan: TracePlan)
    requires
        plan.traces(profiler, op),
        op.descr is P2p,
    ensures
        plan.context is None,
        plan.parent is None,
        plan.span.spans(profiler, op, None),
{
}

/// Histograms are exported with the configured size and, as far as it can be
/// told, scale.
pub proof fn law_views_follow_the_settings(
    view: HistogramView,
    config: Config,
    instrument: Seq<char>,
)
    requires
        is_histogram_view(view, config, instrument),
    ensures
        view.instrument@ == instrument,
        view.max_size == config.otel_latency_histogram_max_size,
        -128 <= config.otel_latency_histogram_max_scale <= 127 ==> view.max_scale
            == config.otel_latency_histogram_max_scale,
        view.max_scale == config.otel_latency_histogram_max_scale as i8,
        view.record_min_max,
{
}

/// The latency, the duration and the gap histogram are exported, each under
/// its name.
pub proof fn law_three_histograms_are_exported(views: Seq<HistogramView>, config: Config)
    requires
        are_histogram_views(views, config),
    ensures
        views.len() == 3,
        views[0].instrument@ == "*latency"@,
        views[1].instrument@ == "nccl.collective.duration"@,
        views[2].instrument@ == "nccl.collective.gap"@,
        forall|i: int|
            0 <= i < 3 ==> (#[trigger] views[i]).max_size
                == config.otel_latency_histogram_max_size && views[i].record_min_max,
{
}

/// The gap histogram is asked for once, in nanoseconds; opening it loses
/// neither counters nor measurements.
pub proof fn law_gap_histogram_is_opened_once(
    before: GapTracker,
    open: GapTracker,
    again: GapTracker,
)
    requires
        instrument_opened(before, open),
        instrument_opened(open, again),
    ensures
        again.counters() == before.counters(),
        again.attrs() == before.attrs(),
        open.instrument() is Some,
        again.instrument() == open.instrument(),
        before.instrument() is Some ==> open.instrument() == before.instrument(),
        before.instrument() is None ==> {
            let spec = requested(open.instrument()->0);
            &&& spec.scope == "CoMMA"@
            &&& spec.name == "nccl.collective.gap"@
            &&& spec.unit == "ns"@
            &&& histogram_sent(open.instrument()->0).len() == 0
        },
{
}

/// Histograms start empty: nothing is known, nothing was sent, no place is
/// taken, and the instrument is asked for under the given name and unit.
pub proof fn law_histograms_start_empty(
    manager: HistogramManager,
    durations: DurationHistogram,
    name: Seq<char>,
    unit: Seq<char>,
    limit: nat,
    hostname: Seq<char>,
    connection: NcclOpKey,
    kind: DurationKeyView,
)
    ensures
        manager.is_fresh(name, unit, limit, hostname) ==> {
            &&& requested(manager.instrument()).scope == "CoMMA"@
            &&& requested(manager.instrument()).name == name
            &&& requested(manager.instrument()).unit == unit
            &&& histogram_sent(manager.instrument()).len() == 0
            &&& !manager.connections().contains_key(connection)
            &&& manager.active() == 0
            &&& manager.limit() == limit
            &&& manager.host() == hostname
        },
        durations.is_fresh(name, unit, limit, hostname) ==> {
            &&& requested(durations.instrument()).scope == "CoMMA"@
            &&& requested(durations.instrument()).name == name
            &&& requested(durations.instrument()).unit == unit
            &&& histogram_sent(durations.instrument()).len() == 0
            &&& !durations.kinds().contains_key(kind)
            &&& durations.active() == 0
            &&& durations.limit() == limit
            &&& durations.host() == hostname
        },
{
}

} // verus!
