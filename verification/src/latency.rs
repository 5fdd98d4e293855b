//! Latency histograms of network connections, with a bound on how many
//! connections are recorded under attributes of their own.
use crate::attributes::{
    bool_attr, int_attr, key_values_of, text_attr, Attr, AttrView, AttributeSet,
};
use crate::instruments::{
    build_histogram, histogram_record, histogram_sent, requested, InstrumentSpec, Measurement,
};
use crate::nccl_metadata::NcclOpKey;
use crate::ranking::{count_set, is_top_keys};
use crate::step_tracker::EventStep;
use crate::table::{
    activity, counts_of, holds_place, keys_of, keys_where, lemma_comm_dropped, lemma_count_by_key,
    lemma_filter_order, lemma_ranked, lemma_same_keys, lemma_without_unknown_comm, map_of, of_comm,
    outside_comm, places, without_comm, Contender, Table,
};
use crate::text::{format_hash, hash_text, law_hash_text_identifies, lemma_rank_cast};
use opentelemetry::metrics::Histogram;
use opentelemetry::KeyValue;
use vstd::prelude::*;

verus! {

/// The attribute list shared by everything that is recorded without
/// attributes of its own.
pub open spec fn aggregated_attributes(hostname: Seq<char>) -> Seq<AttrView> {
    seq![
        bool_attr("nccl.metric.aggregated"@, true),
        text_attr("nccl.hostname"@, hostname),
    ]
}

/// The attributes of one transfer direction of a communicator.
pub open spec fn transfer_attributes(
    comm_hash: u64,
    source: usize,
    destination: usize,
    hostname: Seq<char>,
) -> Seq<AttrView> {
    seq![
        text_attr("nccl.communicator.hash"@, hash_text(comm_hash)),
        int_attr("nccl.source.rank"@, source as i64),
        int_attr("nccl.destination.rank"@, destination as i64),
        text_attr("nccl.hostname"@, hostname),
    ]
}

/// The attributes under which latencies of `key` are recorded. A receiving
/// rank is the destination and its peer the source.
pub open spec fn latency_attributes(
    key: NcclOpKey,
    hostname: Seq<char>,
    high_fidelity: bool,
) -> Seq<AttrView> {
    if !high_fidelity {
        aggregated_attributes(hostname)
    } else {
        match key {
            NcclOpKey::NetSend(hash, source, destination) => transfer_attributes(
                hash,
                source,
                destination,
                hostname,
            ),
            NcclOpKey::NetRecv(hash, local, peer) => transfer_attributes(hash, peer, local, hostname),
            NcclOpKey::Other(_, _) => Seq::empty(),
        }
    }
}

/// Builds the attributes of records without attributes of their own.
pub(crate) fn build_aggregated_attributes(hostname: String) -> (r: AttributeSet)
    ensures
        r@ == aggregated_attributes(hostname@),
{
    let mut attrs: Vec<Attr> = Vec::new();
    attrs.push(Attr::of_bool("nccl.metric.aggregated", true));
    attrs.push(Attr::of_text("nccl.hostname", hostname));
    let r = AttributeSet::new(attrs);
    assert(r@ =~= aggregated_attributes(hostname@));
    r
}

fn build_transfer_attributes(
    comm_hash: u64,
    source: usize,
    destination: usize,
    hostname: String,
) -> (r: AttributeSet)
    ensures
        r@ == transfer_attributes(comm_hash, source, destination, hostname@),
{
    let mut attrs: Vec<Attr> = Vec::new();
    attrs.push(Attr::of_text("nccl.communicator.hash", format_hash(comm_hash)));
    attrs.push(Attr::of_int("nccl.source.rank", source as i64));
    attrs.push(Attr::of_int("nccl.destination.rank", destination as i64));
    attrs.push(Attr::of_text("nccl.hostname", hostname));
    let r = AttributeSet::new(attrs);
    assert(r@ =~= transfer_attributes(comm_hash, source, destination, hostname@));
    r
}

/// What recording a step does: its duration is recorded, unless the connection
/// has no attributes, and the step is counted in any case.
pub open spec fn step_recorded(
    before: LatencyHistogram,
    after: LatencyHistogram,
    step: EventStep,
) -> bool {
    &&& after.attrs() == before.attrs()
    &&& after.counter_id() == before.counter_id()
    &&& after.recorded() == before.recorded().wrapping_add(1)
    &&& if before.attrs().len() == 0 {
        after.instrument() == before.instrument()
    } else {
        &&& requested(after.instrument()) == requested(before.instrument())
        &&& histogram_sent(after.instrument()) == histogram_sent(before.instrument()).push(
            Measurement { value: step.dur_ns, attributes: key_values_of(before.attrs()) },
        )
    }
}

/// Records the latencies of one connection.
///
/// The attributes are built once per connection, so recording a step
/// allocates nothing. How many steps were recorded is added to the manager's
/// counter when the histogram is handed back to
/// [`HistogramManager::retire`].
#[derive(Debug)]
pub struct LatencyHistogram {
    inner: Histogram<u64>,
    attributes: AttributeSet,
    local_counter: usize,
    counter: u64,
}

impl LatencyHistogram {
    /// The instrument that latencies are recorded to.
    pub closed spec fn instrument(&self) -> Histogram<u64> {
        self.inner
    }

    /// The attributes under which latencies are recorded.
    pub closed spec fn attrs(&self) -> Seq<AttrView> {
        self.attributes@
    }

    /// The connection is recorded under attributes of its own.
    pub open spec fn is_high_fidelity(&self) -> bool {
        !self.attrs().contains(bool_attr("nccl.metric.aggregated"@, true))
    }

    /// How many steps were recorded.
    pub closed spec fn recorded(&self) -> usize {
        self.local_counter
    }

    /// The counter that the steps are added to in the end.
    pub closed spec fn counter_id(&self) -> u64 {
        self.counter
    }

    pub fn new(
        inner: Histogram<u64>,
        op_key: NcclOpKey,
        hostname: String,
        high_fidelity: bool,
        counter: u64,
    ) -> (r: Self)
        ensures
            r.attrs() == latency_attributes(op_key, hostname@, high_fidelity),
            r.instrument() == inner,
            r.recorded() == 0,
            r.counter_id() == counter,
    {
        let attributes = if !high_fidelity {
            build_aggregated_attributes(hostname)
        } else {
            match op_key {
                NcclOpKey::NetSend(hash, source, destination) => build_transfer_attributes(
                    hash,
                    source,
                    destination,
                    hostname,
                ),
                NcclOpKey::NetRecv(hash, local, peer) => build_transfer_attributes(
                    hash,
                    peer,
                    local,
                    hostname,
                ),
                NcclOpKey::Other(_, _) => AttributeSet::new(Vec::new()),
            }
        };
        assert(op_key is Other && high_fidelity ==> attributes@ =~= Seq::<AttrView>::empty());
        LatencyHistogram {
            inner,
            attributes,
            local_counter: 0,
            counter,
        }
    }

    /// Records the duration of a step, unless the connection has no
    /// attributes, and counts the step in any case.
    pub fn record(&mut self, step: &EventStep)
        ensures
            step_recorded(*old(self), *final(self), *step),
    {
        if !self.attributes.is_empty() {
            histogram_record(&mut self.inner, step.dur_ns, self.attributes.key_values());
        }
        self.local_counter = self.local_counter.wrapping_add(1);
    }

    /// Whether the connection is recorded under attributes of its own.
    pub fn high_fidelity(&self) -> (r: bool)
        ensures
            r == self.is_high_fidelity(),
    {
        !self.attributes.contains_bool("nccl.metric.aggregated", true)
    }

    /// The attributes under which latencies are recorded.
    pub fn attributes(&self) -> (r: &Vec<KeyValue>)
        ensures
            r@ == key_values_of(self.attrs()),
    {
        self.attributes.key_values()
    }
}

/// What the manager knows of one connection.
#[derive(Debug, Clone, Copy)]
pub struct HistogramInfo {
    /// The connection is among those recorded under attributes of their own.
    pub high_fidelity: bool,
    /// Identifies this connection's counter among all counters ever made.
    pub counter: u64,
    /// How many steps were recorded for the connection.
    pub count: usize,
}

impl Contender for HistogramInfo {
    open spec fn spec_holds_place(self) -> bool {
        self.high_fidelity
    }

    open spec fn spec_activity(self) -> usize {
        self.count
    }

    fn holds_place(&self) -> (r: bool) {
        self.high_fidelity
    }

    fn activity(&self) -> (r: usize) {
        self.count
    }
}

/// The connections that are recorded under attributes of their own.
pub open spec fn own_connections(connections: Map<NcclOpKey, HistogramInfo>) -> Set<NcclOpKey> {
    keys_where(connections, holds_place())
}

/// The step counts of all connections.
pub open spec fn step_counts(connections: Map<NcclOpKey, HistogramInfo>) -> Map<NcclOpKey, usize> {
    counts_of(connections, activity())
}

/// The entry of a connection that is seen for the first time.
pub open spec fn fresh_info(active: nat, limit: nat, counter: u64) -> HistogramInfo {
    HistogramInfo { high_fidelity: active < limit, counter, count: 0 }
}

/// `info` after `steps` more steps were counted for `counter`.
pub open spec fn counted(info: HistogramInfo, counter: u64, steps: usize) -> HistogramInfo {
    if info.counter == counter {
        HistogramInfo { count: info.count.wrapping_add(steps), ..info }
    } else {
        info
    }
}

/// What fetching the histogram of a connection does. A connection that is
/// seen for the first time gets attributes of its own while the limit allows
/// one more.
pub open spec fn histogram_fetched(
    before: HistogramManager,
    after: HistogramManager,
    key: NcclOpKey,
    histogram: LatencyHistogram,
) -> bool {
    let fresh = fresh_info(before.active(), before.limit(), before.next_counter_id());
    &&& after.instrument() == before.instrument()
    &&& after.host() == before.host()
    &&& after.limit() == before.limit()
    &&& if before.connections().contains_key(key) {
        &&& after.connections() == before.connections()
        &&& after.active() == before.active()
        &&& after.next_counter_id() == before.next_counter_id()
    } else {
        &&& after.connections() == before.connections().insert(key, fresh)
        &&& after.active() == before.active() + if fresh.high_fidelity {
            1nat
        } else {
            0nat
        }
        &&& after.next_counter_id() == before.next_counter_id() + 1
    }
    &&& histogram.attrs() == latency_attributes(
        key,
        before.host(),
        after.connections()[key].high_fidelity,
    )
    &&& histogram.is_high_fidelity() == after.connections()[key].high_fidelity
    &&& histogram.counter_id() == after.connections()[key].counter
    &&& histogram.instrument() == before.instrument()
    &&& histogram.recorded() == 0
}

/// What handing a histogram back does: its steps are added to the counter of
/// its connection, and to no other.
pub open spec fn histogram_retired(
    before: HistogramManager,
    after: HistogramManager,
    histogram: LatencyHistogram,
) -> bool {
    &&& after.instrument() == before.instrument()
    &&& after.host() == before.host()
    &&& after.limit() == before.limit()
    &&& after.active() == before.active()
    &&& after.next_counter_id() == before.next_counter_id()
    &&& after.connections().dom() == before.connections().dom()
    &&& forall|key: NcclOpKey|
        before.connections().contains_key(key) ==> #[trigger] after.connections()[key] == counted(
            before.connections()[key],
            histogram.counter_id(),
            histogram.recorded(),
        )
}

/// What a ranking does: the connections with the most recorded steps get
/// attributes of their own, the others lose theirs, and nothing else changes.
pub open spec fn connections_ranked(before: HistogramManager, after: HistogramManager) -> bool {
    &&& after.instrument() == before.instrument()
    &&& after.host() == before.host()
    &&& after.limit() == before.limit()
    &&& after.next_counter_id() == before.next_counter_id()
    &&& after.connections().dom() == before.connections().dom()
    &&& forall|key: NcclOpKey|
        before.connections().contains_key(key) ==> #[trigger] after.connections()[key] == (
        HistogramInfo {
            high_fidelity: after.connections()[key].high_fidelity,
            ..before.connections()[key]
        })
    &&& is_top_keys(
        step_counts(before.connections()),
        before.limit(),
        own_connections(after.connections()),
    )
    &&& after.active() == own_connections(after.connections()).len()
}

/// What closing a communicator does: exactly its connections are forgotten,
/// which frees the places of those with attributes of their own.
pub open spec fn latency_comm_closed(
    before: HistogramManager,
    after: HistogramManager,
    comm_hash: u64,
) -> bool {
    &&& after.instrument() == before.instrument()
    &&& after.host() == before.host()
    &&& after.limit() == before.limit()
    &&& after.next_counter_id() == before.next_counter_id()
    &&& after.connections() == without_comm::<NcclOpKey, HistogramInfo>(
        before.connections(),
        comm_hash,
    )
    &&& after.active() + own_connections(before.connections()).intersect(
        of_comm::<NcclOpKey>(comm_hash),
    ).len() == before.active()
}

/// Hands out the latency histograms of connections and bounds how many of
/// them carry attributes of their own.
#[derive(Debug)]
pub struct HistogramManager {
    histogram: Histogram<u64>,
    hostname: String,
    info: Table<NcclOpKey, HistogramInfo>,
    num_active: usize,
    cardinality_limit: usize,
    next_counter: u64,
}

impl HistogramManager {
    /// The instrument that all histograms record to.
    pub closed spec fn instrument(&self) -> Histogram<u64> {
        self.histogram
    }

    /// The host name in all attributes.
    pub closed spec fn host(&self) -> Seq<char> {
        self.hostname@
    }

    /// The known connections by key.
    pub closed spec fn connections(&self) -> Map<NcclOpKey, HistogramInfo> {
        self.info@
    }

    /// How many connections may carry attributes of their own.
    pub closed spec fn limit(&self) -> nat {
        self.cardinality_limit as nat
    }

    /// The counter that the next new connection gets.
    pub closed spec fn next_counter_id(&self) -> u64 {
        self.next_counter
    }

    /// How many connections carry attributes of their own, as the manager
    /// keeps it.
    pub closed spec fn active(&self) -> nat {
        self.num_active as nat
    }

    /// The known connections, oldest first.
    spec fn entries(&self) -> Seq<(NcclOpKey, HistogramInfo)> {
        self.info.entries@
    }

    /// Keys are distinct, counters are distinct and were all handed out
    /// before, and the number of connections with attributes of their own is
    /// kept exactly and is within the limit.
    pub closed spec fn wf(&self) -> bool {
        &&& self.info.wf()
        &&& self.active() == count_set(places(self.entries()))
        &&& self.active() <= self.limit()
        &&& forall|i: int|
            0 <= i < self.entries().len() ==> #[trigger] self.entries()[i].1.counter
                < self.next_counter
        &&& forall|i: int, j: int|
            0 <= i < j < self.entries().len() ==> #[trigger] self.entries()[i].1.counter
                != #[trigger] self.entries()[j].1.counter
    }

    /// Nothing was recorded to the histogram `name` yet.
    pub open spec fn is_fresh(
        &self,
        name: Seq<char>,
        unit: Seq<char>,
        limit: nat,
        hostname: Seq<char>,
    ) -> bool {
        &&& requested(self.instrument()) == (InstrumentSpec { scope: "CoMMA"@, name, unit })
        &&& histogram_sent(self.instrument()) == Seq::<Measurement<u64>>::empty()
        &&& self.host() == hostname
        &&& self.connections() == Map::<NcclOpKey, HistogramInfo>::empty()
        &&& self.limit() == limit
        &&& self.active() == 0
        &&& self.next_counter_id() == 0
    }

    /// A manager of the histogram `name` without connections.
    pub fn new(name: &str, unit: &str, cardinality_limit: usize, hostname: String) -> (r: Self)
        ensures
            r.wf(),
            r.is_fresh(name@, unit@, cardinality_limit as nat, hostname@),
    {
        HistogramManager {
            histogram: build_histogram("CoMMA", name, unit),
            hostname,
            info: Table::new(),
            num_active: 0,
            cardinality_limit,
            next_counter: 0,
        }
    }

    /// The histogram of a connection.
    pub fn get_histogram(&mut self, key: NcclOpKey) -> (r: LatencyHistogram)
        requires
            old(self).wf(),
            old(self).next_counter_id() < u64::MAX,
        ensures
            final(self).wf(),
            histogram_fetched(*old(self), *final(self), key, r),
    {
        let info: HistogramInfo = match self.info.find(&key) {
            Some(i) => self.info.entries[i].1,
            None => {
                let high_fidelity = self.num_active < self.cardinality_limit;
                let info = HistogramInfo { high_fidelity, counter: self.next_counter, count: 0 };
                let ghost before = self.entries();
                self.info.push(key, info);
                proof {
                    assert(places(self.entries()).drop_last() =~= places(before));
                }
                if high_fidelity {
                    self.num_active = self.num_active + 1;
                }
                self.next_counter = self.next_counter + 1;
                info
            },
        };
        proof {
            law_aggregation_is_marked(key, self.host(), info.high_fidelity);
        }
        LatencyHistogram::new(
            self.histogram.clone(),
            key,
            self.hostname.clone(),
            info.high_fidelity,
            info.counter,
        )
    }

    /// Takes a histogram back: its steps are added to the counter of its
    /// connection. They are lost if the connection was closed meanwhile.
    pub fn retire(&mut self, histogram: LatencyHistogram)
        requires
            old(self).wf(),
        ensures
            final(self).wf(),
            histogram_retired(*old(self), *final(self), histogram),
    {
        let ghost before = self.entries();
        let n: usize = self.info.entries.len();
        let mut i: usize = 0;
        while i < n
            invariant
                n == before.len(),
                self.entries().len() == n,
                i <= n,
                self.info.wf(),
                self.histogram == old(self).histogram,
                self.hostname == old(self).hostname,
                self.num_active == old(self).num_active,
                self.cardinality_limit == old(self).cardinality_limit,
                self.next_counter == old(self).next_counter,
                forall|j: int|
                    #![trigger self.entries()[j]]
                    0 <= j < i ==> self.entries()[j] == (
                        before[j].0,
                        counted(before[j].1, histogram.counter, histogram.local_counter),
                    ),
                forall|j: int| i <= j < n ==> #[trigger] self.entries()[j] == before[j],
            decreases n - i,
        {
            assert(self.entries()[i as int] == before[i as int]);
            let info: HistogramInfo = self.info.entries[i].1;
            if info.counter == histogram.counter {
                let count: usize = info.count.wrapping_add(histogram.local_counter);
                self.info.set(
                    i,
                    HistogramInfo {
                        high_fidelity: info.high_fidelity,
                        counter: info.counter,
                        count,
                    },
                );
            }
            i = i + 1;
        }
        proof {
            assert(keys_of(self.entries()) =~= keys_of(before));
            assert(places(self.entries()) =~= places(before));
            assert forall|key: NcclOpKey| map_of(before).contains_key(key) implies #[trigger] map_of(
                self.entries(),
            )[key] == counted(map_of(before)[key], histogram.counter, histogram.local_counter) by {
                lemma_same_keys(before, self.entries(), key);
            }
            lemma_same_keys(before, self.entries(), arbitrary());
        }
    }

    /// Gives attributes of their own to the connections with the most
    /// recorded steps.
    pub fn update_priority(&mut self)
        requires
            old(self).wf(),
        ensures
            final(self).wf(),
            connections_ranked(*old(self), *final(self)),
    {
        let ghost before = self.entries();
        let n: usize = self.info.entries.len();
        let (flags, chosen) = self.info.most_active(self.cardinality_limit);
        let mut i: usize = 0;
        while i < n
            invariant
                n == before.len(),
                flags@.len() == n,
                self.entries().len() == n,
                i <= n,
                self.info.wf(),
                self.histogram == old(self).histogram,
                self.hostname == old(self).hostname,
                self.cardinality_limit == old(self).cardinality_limit,
                self.next_counter == old(self).next_counter,
                forall|j: int|
                    #![trigger self.entries()[j]]
                    0 <= j < i ==> self.entries()[j] == (
                        before[j].0,
                        HistogramInfo { high_fidelity: flags@[j], ..before[j].1 },
                    ),
                forall|j: int| i <= j < n ==> #[trigger] self.entries()[j] == before[j],
            decreases n - i,
        {
            assert(self.entries()[i as int] == before[i as int]);
            let info: HistogramInfo = self.info.entries[i].1;
            self.info.set(
                i,
                HistogramInfo {
                    high_fidelity: flags[i],
                    counter: info.counter,
                    count: info.count,
                },
            );
            i = i + 1;
        }
        self.num_active = chosen;
        proof {
            let after = self.entries();
            assert(keys_of(after) =~= keys_of(before));
            assert(places(after) =~= flags@);
            lemma_ranked(before, after, self.limit());
            assert forall|key: NcclOpKey| map_of(before).contains_key(key) implies #[trigger] map_of(
                after,
            )[key] == (HistogramInfo {
                high_fidelity: map_of(after)[key].high_fidelity,
                ..map_of(before)[key]
            }) by {
                lemma_same_keys(before, after, key);
            }
            lemma_same_keys(before, after, arbitrary());
        }
    }

    /// Forgets the connections of a communicator, which frees their places
    /// for later connections.
    pub fn close_comm(&mut self, comm_hash: u64)
        requires
            old(self).wf(),
        ensures
            final(self).wf(),
            latency_comm_closed(*old(self), *final(self), comm_hash),
    {
        let ghost before = self.entries();
        self.info.drop_comm(comm_hash);
        self.num_active = self.info.count_places();
        proof {
            let keep = outside_comm::<NcclOpKey, HistogramInfo>(comm_hash);
            lemma_comm_dropped(before, comm_hash);
            assert forall|i: int| 0 <= i < self.entries().len() implies #[trigger] self.entries()[i].1.counter
                < self.next_counter by {
                before.lemma_filter_contains_rev(keep, self.entries()[i]);
            }
            assert forall|i: int, j: int| 0 <= i < j < self.entries().len() implies #[trigger] self.entries()[i].1.counter
                != #[trigger] self.entries()[j].1.counter by {
                lemma_filter_order(before, keep, i, j);
            }
        }
    }

    /// Whether a connection that is seen for the first time can still be
    /// tracked.
    pub fn can_track_more(&self) -> (r: bool)
        ensures
            r == (self.next_counter_id() < u64::MAX),
    {
        self.next_counter < u64::MAX
    }

    /// A handle to the instrument that all histograms record to.
    pub fn histogram(&self) -> (r: Histogram<u64>)
        ensures
            r == self.instrument(),
    {
        self.histogram.clone()
    }

    /// How many connections carry attributes of their own.
    pub fn num_active(&self) -> (r: usize)
        ensures
            r == self.active(),
    {
        self.num_active
    }
}

/// The number that the manager keeps is the number of connections recorded
/// under attributes of their own, and never exceeds the limit. With limit zero
/// there is none.
pub proof fn law_connections_are_bounded(manager: HistogramManager)
    requires
        manager.wf(),
    ensures
        manager.connections().dom().finite(),
        own_connections(manager.connections()).finite(),
        own_connections(manager.connections()).len() == manager.active(),
        manager.active() <= manager.limit(),
        manager.limit() == 0 ==> own_connections(manager.connections()) == Set::<
            NcclOpKey,
        >::empty(),
{
    lemma_count_by_key(manager.entries(), holds_place());
    if manager.limit() == 0 {
        own_connections(manager.connections()).lemma_len0_is_empty();
    }
}

/// No two connections share a counter, and every counter was handed out
/// before.
pub proof fn law_counters_are_distinct(manager: HistogramManager, a: NcclOpKey, b: NcclOpKey)
    requires
        manager.wf(),
        manager.connections().contains_key(a),
        manager.connections().contains_key(b),
    ensures
        manager.connections()[a].counter < manager.next_counter_id(),
        manager.connections()[a].counter == manager.connections()[b].counter <==> a == b,
{
    let entries = manager.entries();
    lemma_same_keys(entries, entries, a);
    lemma_same_keys(entries, entries, b);
    let i = keys_of(entries).index_of(a);
    let j = keys_of(entries).index_of(b);
    assert(entries[i].1.counter < manager.next_counter);
    if i < j {
        assert(entries[i].1.counter != entries[j].1.counter);
    } else if j < i {
        assert(entries[j].1.counter != entries[i].1.counter);
    }
}

/// Handing a histogram back counts its steps for the connection it was fetched
/// for, and for no other.
pub proof fn law_steps_count_for_their_connection(
    manager: HistogramManager,
    after: HistogramManager,
    histogram: LatencyHistogram,
    key: NcclOpKey,
    other: NcclOpKey,
)
    requires
        manager.wf(),
        manager.connections().contains_key(key),
        histogram.counter_id() == manager.connections()[key].counter,
        histogram_retired(manager, after, histogram),
    ensures
        after.connections()[key].count == manager.connections()[key].count.wrapping_add(
            histogram.recorded(),
        ),
        other != key && manager.connections().contains_key(other) ==> after.connections()[other]
            == manager.connections()[other],
{
    if manager.connections().contains_key(other) {
        law_counters_are_distinct(manager, key, other);
    }
}

/// A connection that is fetched anew after its communicator was closed starts
/// at zero, and a histogram from before the close never counts for it.
pub proof fn law_closed_connections_start_anew(
    before: HistogramManager,
    closed: HistogramManager,
    later: HistogramManager,
    fetched: HistogramManager,
    after: HistogramManager,
    key: NcclOpKey,
    old_histogram: LatencyHistogram,
    new_histogram: LatencyHistogram,
)
    requires
        before.wf(),
        before.connections().contains_key(key),
        old_histogram.counter_id() == before.connections()[key].counter,
        latency_comm_closed(before, closed, key.spec_comm_hash()),
        later.next_counter_id() >= closed.next_counter_id(),
        !later.connections().contains_key(key),
        histogram_fetched(later, fetched, key, new_histogram),
        histogram_retired(fetched, after, old_histogram),
    ensures
        !closed.connections().contains_key(key),
        fetched.connections()[key].count == 0,
        after.connections()[key] == fetched.connections()[key],
{
    law_counters_are_distinct(before, key, key);
}

/// Closing a communicator that has no connections changes nothing.
pub proof fn law_unknown_latency_close_changes_nothing(
    before: HistogramManager,
    after: HistogramManager,
    comm_hash: u64,
)
    requires
        latency_comm_closed(before, after, comm_hash),
        forall|key: NcclOpKey| #[trigger]
            before.connections().contains_key(key) ==> key.spec_comm_hash() != comm_hash,
    ensures
        after.connections() == before.connections(),
        after.active() == before.active(),
        after.next_counter_id() == before.next_counter_id(),
{
    lemma_without_unknown_comm::<NcclOpKey, HistogramInfo>(before.connections(), comm_hash);
    assert(own_connections(before.connections()).intersect(of_comm::<NcclOpKey>(comm_hash))
        =~= Set::<NcclOpKey>::empty());
}

/// Closing a communicator a second time changes nothing.
pub proof fn law_repeated_latency_close_changes_nothing(
    before: HistogramManager,
    once: HistogramManager,
    twice: HistogramManager,
    comm_hash: u64,
)
    requires
        latency_comm_closed(before, once, comm_hash),
        latency_comm_closed(once, twice, comm_hash),
    ensures
        twice.connections() == once.connections(),
        twice.active() == once.active(),
        twice.next_counter_id() == once.next_counter_id(),
{
    law_unknown_latency_close_changes_nothing(once, twice, comm_hash);
}

/// A connection is marked as aggregated exactly where it has no attributes of
/// its own.
pub proof fn law_aggregation_is_marked(key: NcclOpKey, hostname: Seq<char>, high_fidelity: bool)
    ensures
        latency_attributes(key, hostname, high_fidelity).contains(
            bool_attr("nccl.metric.aggregated"@, true),
        ) <==> !high_fidelity,
{
    let mark = bool_attr("nccl.metric.aggregated"@, true);
    let attrs = latency_attributes(key, hostname, high_fidelity);
    if !high_fidelity {
        assert(attrs[0] == mark);
    } else {
        assert forall|i: int| 0 <= i < attrs.len() implies attrs[i] != mark by {
            assert(!(attrs[i].value is Bool));
        }
    }
}

/// Both ends of a connection describe it in the same way: what the receiver
/// records as local rank and peer is what the sender records as destination
/// and source.
pub proof fn law_receive_mirrors_send(
    comm_hash: u64,
    source: usize,
    destination: usize,
    hostname: Seq<char>,
    high_fidelity: bool,
)
    ensures
        latency_attributes(
            NcclOpKey::NetRecv(comm_hash, destination, source),
            hostname,
            high_fidelity,
        ) == latency_attributes(
            NcclOpKey::NetSend(comm_hash, source, destination),
            hostname,
            high_fidelity,
        ),
{
}

/// The attributes of a transfer tell it from every other transfer on the
/// host.
pub proof fn law_transfer_attributes_identify(
    hostname: Seq<char>,
    hash_a: u64,
    source_a: usize,
    destination_a: usize,
    hash_b: u64,
    source_b: usize,
    destination_b: usize,
)
    ensures
        transfer_attributes(hash_a, source_a, destination_a, hostname) == transfer_attributes(
            hash_b,
            source_b,
            destination_b,
            hostname,
        ) <==> hash_a == hash_b && source_a == source_b && destination_a == destination_b,
{
    let a = transfer_attributes(hash_a, source_a, destination_a, hostname);
    let b = transfer_attributes(hash_b, source_b, destination_b, hostname);
    law_hash_text_identifies(hash_a, hash_b);
    lemma_rank_cast(source_a, source_b);
    lemma_rank_cast(destination_a, destination_b);
    if a == b {
        assert(a[0] == b[0] && a[1] == b[1] && a[2] == b[2]);
    }
}

} // verus!
