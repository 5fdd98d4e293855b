//! Durations of NCCL operations, with a bound on how many kinds of operation
//! are recorded under attributes of their own.
use crate::attributes::{int_attr, key_values_of, text_attr, Attr, AttrView, AttributeSet};
use crate::instruments::{
    build_histogram, histogram_record, histogram_sent, requested, InstrumentSpec, Measurement,
};
use crate::latency::{aggregated_attributes, build_aggregated_attributes};
use crate::ranking::{count_set, is_top_keys};
use crate::table::{
    activity, counts_of, holds_place, keys_of, keys_where, lemma_comm_dropped, lemma_count_by_key,
    lemma_ranked, lemma_same_keys, lemma_without_unknown_comm, map_of, of_comm, outside_comm,
    places, without_comm, CommKey, Contender, Table, TableKey,
};
use crate::text::{
    format_hash, hash_text, law_hash_text_identifies, lemma_rank_cast, str_eq,
};
use opentelemetry::metrics::Histogram;
use vstd::prelude::*;
use vstd::set_lib::lemma_len_subset;

verus! {

const SIZE_CLASS_SMALL_MAX: usize = 1_048_576;

const SIZE_CLASS_MEDIUM_MAX: usize = 16_777_216;

/// The size class of an operation: below 1 MiB, from 1 to 16 MiB, or above.
pub open spec fn size_class_text(byte_count: usize) -> Seq<char> {
    if byte_count < 0x10_0000 {
        "lt1m"@
    } else if byte_count <= 0x100_0000 {
        "1m_16m"@
    } else {
        "gt16m"@
    }
}

/// The size class of an operation.
pub fn size_class(byte_count: usize) -> (r: &'static str)
    ensures
        r@ == size_class_text(byte_count),
{
    if byte_count < SIZE_CLASS_SMALL_MAX {
        "lt1m"
    } else if byte_count <= SIZE_CLASS_MEDIUM_MAX {
        "1m_16m"
    } else {
        "gt16m"
    }
}

/// A kind of operation that durations are grouped by.
#[derive(Debug, Clone, Copy)]
pub struct DurationKey {
    pub comm_hash: u64,
    pub op_name: &'static str,
    pub size_class: &'static str,
    pub rank: usize,
}

/// What a [`DurationKey`] holds.
pub struct DurationKeyView {
    pub comm_hash: u64,
    pub op_name: Seq<char>,
    pub size_class: Seq<char>,
    pub rank: usize,
}

impl View for DurationKey {
    type V = DurationKeyView;

    open spec fn view(&self) -> DurationKeyView {
        DurationKeyView {
            comm_hash: self.comm_hash,
            op_name: self.op_name@,
            size_class: self.size_class@,
            rank: self.rank,
        }
    }
}

impl TableKey for DurationKey {
    fn same(&self, other: &Self) -> (r: bool) {
        self.comm_hash == other.comm_hash && self.rank == other.rank && str_eq(
            self.op_name,
            other.op_name,
        ) && str_eq(self.size_class, other.size_class)
    }
}

impl CommKey for DurationKey {
    open spec fn comm_of(key: DurationKeyView) -> u64 {
        key.comm_hash
    }

    fn comm_hash(&self) -> (r: u64) {
        self.comm_hash
    }
}

/// The kind of operation that a duration belongs to.
pub open spec fn duration_key(
    comm_hash: u64,
    op_name: Seq<char>,
    rank: usize,
    byte_count: usize,
) -> DurationKeyView {
    DurationKeyView { comm_hash, op_name, size_class: size_class_text(byte_count), rank }
}

/// The attributes of a kind of operation.
pub open spec fn duration_attributes(hostname: Seq<char>, key: DurationKeyView) -> Seq<AttrView> {
    seq![
        text_attr("nccl.comm.hash"@, hash_text(key.comm_hash)),
        text_attr("nccl.collective.name"@, key.op_name),
        text_attr("nccl.size.class"@, key.size_class),
        int_attr("nccl.rank"@, key.rank as i64),
        text_attr("nccl.hostname"@, hostname),
    ]
}

/// What is known of one kind of operation.
#[derive(Debug)]
pub struct DurationInfo {
    /// Present where the kind is among those recorded under attributes of
    /// their own.
    pub attributes: Option<AttributeSet>,
    /// How many durations were recorded since the last ranking.
    pub count: usize,
}

impl Contender for DurationInfo {
    open spec fn spec_holds_place(self) -> bool {
        self.attributes is Some
    }

    open spec fn spec_activity(self) -> usize {
        self.count
    }

    fn holds_place(&self) -> (r: bool) {
        self.attributes.is_some()
    }

    fn activity(&self) -> (r: usize) {
        self.count
    }
}

/// The kinds that are recorded under attributes of their own.
pub open spec fn own_kinds(kinds: Map<DurationKeyView, DurationInfo>) -> Set<DurationKeyView> {
    keys_where(kinds, holds_place())
}

/// How often each kind was recorded since the last ranking.
pub open spec fn record_counts(kinds: Map<DurationKeyView, DurationInfo>) -> Map<
    DurationKeyView,
    usize,
> {
    counts_of(kinds, activity())
}

/// The attributes of a kind, where it has any, are those of its key.
spec fn attributes_match(
    hostname: Seq<char>,
    entries: Seq<(DurationKey, DurationInfo)>,
) -> bool {
    forall|i: int|
        #![trigger entries[i]]
        0 <= i < entries.len() ==> (entries[i].1.attributes matches Some(attributes)
            ==> attributes@ == duration_attributes(hostname, entries[i].0@))
}

/// The durations of NCCL operations.
#[derive(Debug)]
pub struct DurationHistogram {
    inner: Histogram<u64>,
    hostname: String,
    info: Table<DurationKey, DurationInfo>,
    aggregated: AttributeSet,
    num_active: usize,
    cardinality_limit: usize,
}

/// What recording a duration of the kind `key` does. A kind that is seen for
/// the first time gets attributes of its own while the limit allows one more;
/// a kind without such attributes is recorded as aggregated.
pub open spec fn duration_recorded(
    before: DurationHistogram,
    after: DurationHistogram,
    dur_ns: u64,
    key: DurationKeyView,
) -> bool {
    let known = before.kinds().contains_key(key);
    let own = if known {
        before.kinds()[key].attributes is Some
    } else {
        before.active() < before.limit()
    };
    &&& after.host() == before.host()
    &&& after.limit() == before.limit()
    &&& requested(after.instrument()) == requested(before.instrument())
    &&& after.kinds().dom() == before.kinds().dom().insert(key)
    &&& after.kinds()[key].attributes is Some <==> own
    &&& after.kinds()[key].count == if known {
        before.kinds()[key].count + 1
    } else {
        1
    }
    &&& forall|other: DurationKeyView|
        other != key && before.kinds().contains_key(other) ==> #[trigger] after.kinds()[other]
            == before.kinds()[other]
    &&& after.active() == before.active() + if own && !known {
        1nat
    } else {
        0nat
    }
    &&& histogram_sent(after.instrument()) == histogram_sent(before.instrument()).push(
        Measurement {
            value: dur_ns,
            attributes: key_values_of(
                if own {
                    duration_attributes(before.host(), key)
                } else {
                    aggregated_attributes(before.host())
                },
            ),
        },
    )
}

/// What a ranking does: the kinds recorded most often since the last one get
/// attributes of their own, the others lose theirs, and counting starts anew.
pub open spec fn kinds_ranked(before: DurationHistogram, after: DurationHistogram) -> bool {
    &&& after.host() == before.host()
    &&& after.limit() == before.limit()
    &&& after.instrument() == before.instrument()
    &&& after.kinds().dom() == before.kinds().dom()
    &&& forall|key: DurationKeyView|
        before.kinds().contains_key(key) ==> (#[trigger] after.kinds()[key]).count == 0
    &&& is_top_keys(record_counts(before.kinds()), before.limit(), own_kinds(after.kinds()))
    &&& after.active() == own_kinds(after.kinds()).len()
}

/// What closing a communicator does: exactly its kinds are forgotten, which
/// frees the places of those with attributes of their own.
pub open spec fn duration_comm_closed(
    before: DurationHistogram,
    after: DurationHistogram,
    comm_hash: u64,
) -> bool {
    &&& after.host() == before.host()
    &&& after.limit() == before.limit()
    &&& after.instrument() == before.instrument()
    &&& after.kinds() == without_comm::<DurationKey, DurationInfo>(before.kinds(), comm_hash)
    &&& after.active() + own_kinds(before.kinds()).intersect(
        of_comm::<DurationKey>(comm_hash),
    ).len() == before.active()
}

impl DurationHistogram {
    /// The instrument that durations are recorded to.
    pub closed spec fn instrument(&self) -> Histogram<u64> {
        self.inner
    }

    /// The host name in all attributes.
    pub closed spec fn host(&self) -> Seq<char> {
        self.hostname@
    }

    /// The known kinds of operation, oldest first.
    spec fn entries(&self) -> Seq<(DurationKey, DurationInfo)> {
        self.info.entries@
    }

    /// The known kinds of operation by key.
    pub closed spec fn kinds(&self) -> Map<DurationKeyView, DurationInfo> {
        self.info@
    }

    /// How many kinds may carry attributes of their own.
    pub closed spec fn limit(&self) -> nat {
        self.cardinality_limit as nat
    }

    /// How many kinds carry attributes of their own, as the histogram keeps
    /// it.
    pub closed spec fn active(&self) -> nat {
        self.num_active as nat
    }

    /// Keys are distinct, attributes are those of their keys, and the number
    /// of kinds with attributes of their own is kept exactly and is within
    /// the limit.
    pub closed spec fn wf(&self) -> bool {
        &&& self.info.wf()
        &&& self.active() == count_set(places(self.entries()))
        &&& self.active() <= self.limit()
        &&& attributes_match(self.host(), self.entries())
        &&& self.aggregated@ == aggregated_attributes(self.host())
    }

    /// One more record of the kind `key` can be counted.
    pub open spec fn has_count_room(&self, key: DurationKeyView) -> bool {
        self.kinds().contains_key(key) ==> self.kinds()[key].count < usize::MAX
    }

    /// Nothing was recorded to the histogram `name` yet.
    pub open spec fn is_fresh(
        &self,
        name: Seq<char>,
        unit: Seq<char>,
        limit: nat,
        hostname: Seq<char>,
    ) -> bool {
        &&& requested(self.instrument()) == (InstrumentSpec { scope: "CoMMA"@, name, unit })
        &&& histogram_sent(self.instrument()) == Seq::<Measurement<u64>>::empty()
        &&& self.host() == hostname
        &&& self.kinds() == Map::<DurationKeyView, DurationInfo>::empty()
        &&& self.limit() == limit
        &&& self.active() == 0
    }

    /// A histogram `name` without records.
    pub fn new(name: &str, unit: &str, cardinality_limit: usize, hostname: String) -> (r: Self)
        ensures
            r.wf(),
            r.is_fresh(name@, unit@, cardinality_limit as nat, hostname@),
    {
        DurationHistogram {
            inner: build_histogram("CoMMA", name, unit),
            aggregated: build_aggregated_attributes(hostname.clone()),
            hostname,
            info: Table::new(),
            num_active: 0,
            cardinality_limit,
        }
    }

    /// Builds the attributes of a kind of operation.
    fn build_attributes(hostname: &String, key: &DurationKey) -> (r: AttributeSet)
        ensures
            r@ == duration_attributes(hostname@, key@),
    {
        let mut attrs: Vec<Attr> = Vec::new();
        attrs.push(Attr::of_text("nccl.comm.hash", format_hash(key.comm_hash)));
        attrs.push(Attr::of_text("nccl.collective.name", key.op_name.to_owned()));
        attrs.push(Attr::of_text("nccl.size.class", key.size_class.to_owned()));
        attrs.push(Attr::of_int("nccl.rank", key.rank as i64));
        attrs.push(Attr::of_text("nccl.hostname", hostname.clone()));
        let r = AttributeSet::new(attrs);
        assert(r@ =~= duration_attributes(hostname@, key@));
        r
    }

    /// Records a duration. A kind of operation that is seen for the first
    /// time gets attributes of its own while the limit allows one more; a
    /// kind without such attributes is recorded as aggregated.
    pub fn record(
        &mut self,
        dur_ns: u64,
        comm_hash: u64,
        op_name: &'static str,
        rank: usize,
        byte_count: usize,
    )
        requires
            old(self).wf(),
            old(self).has_count_room(duration_key(comm_hash, op_name@, rank, byte_count)),
        ensures
            final(self).wf(),
            duration_recorded(
                *old(self),
                *final(self),
                dur_ns,
                duration_key(comm_hash, op_name@, rank, byte_count),
            ),
    {
        let key = DurationKey { comm_hash, op_name, size_class: size_class(byte_count), rank };
        let ghost before = self.entries();
        let at: usize = match self.info.find(&key) {
            Some(i) => i,
            None => {
                let at: usize = self.info.entries.len();
                let own = self.num_active < self.cardinality_limit;
                let attributes = if own {
                    Some(Self::build_attributes(&self.hostname, &key))
                } else {
                    None
                };
                self.info.push(key, DurationInfo { attributes, count: 0 });
                if own {
                    self.num_active = self.num_active + 1;
                }
                proof {
                    assert(places(self.entries()).drop_last() =~= places(before));
                    self.info.lemma_at(at as int);
                }
                at
            },
        };
        let ghost mid = self.entries();
        let ghost mid_info = self.info;
        self.info.entries[at].1.count = self.info.entries[at].1.count + 1;
        proof {
            assert(self.info.keys() =~= mid_info.keys());
            assert(places(self.entries()) =~= places(mid));
            self.info.lemma_at(at as int);
            assert forall|other: DurationKeyView| #[trigger]
                mid_info@.dom().contains(other) && other != key@ implies self.info@[other]
                == mid_info@[other] by {
                let j = mid_info.keys().index_of(other);
                mid_info.lemma_at(j);
                self.info.lemma_at(j);
            }
        }
        match &self.info.entries[at].1.attributes {
            Some(attributes) => histogram_record(&mut self.inner, dur_ns, attributes.key_values()),
            None => histogram_record(&mut self.inner, dur_ns, self.aggregated.key_values()),
        }
        proof {
            let known = old(self).kinds().contains_key(key@);
            let own = if known {
                old(self).kinds()[key@].attributes is Some
            } else {
                old(self).active() < old(self).limit()
            };
            assert(key@ == duration_key(comm_hash, op_name@, rank, byte_count));
            assert(self.kinds().dom() =~= old(self).kinds().dom().insert(key@));
            assert(self.kinds()[key@].attributes is Some <==> own);
        }
    }

    /// Gives attributes of their own to the kinds that were recorded most
    /// often since the last ranking, and starts counting anew.
    pub fn update_priority(&mut self)
        requires
            old(self).wf(),
        ensures
            final(self).wf(),
            kinds_ranked(*old(self), *final(self)),
    {
        let ghost before = self.entries();
        let n: usize = self.info.entries.len();
        let (flags, chosen) = self.info.most_active(self.cardinality_limit);
        let mut i: usize = 0;
        while i < n
            invariant
                n == before.len(),
                flags@.len() == n,
                self.entries().len() == n,
                i <= n,
                self.info.wf(),
                self.inner == old(self).inner,
                self.hostname == old(self).hostname,
                self.aggregated == old(self).aggregated,
                self.cardinality_limit == old(self).cardinality_limit,
                attributes_match(self.host(), self.entries()),
                forall|j: int|
                    #![trigger self.entries()[j]]
                    0 <= j < i ==> {
                        &&& self.entries()[j].0 == before[j].0
                        &&& self.entries()[j].1.count == 0
                        &&& self.entries()[j].1.attributes is Some <==> flags@[j]
                    },
                forall|j: int| i <= j < n ==> #[trigger] self.entries()[j] == before[j],
            decreases n - i,
        {
            assert(self.entries()[i as int] == before[i as int]);
            let ghost held = self.entries();
            let attributes = if flags[i] {
                match self.info.entries[i].1.attributes.take() {
                    Some(attributes) => Some(attributes),
                    None => Some(Self::build_attributes(&self.hostname, &self.info.entries[i].0)),
                }
            } else {
                None
            };
            self.info.entries[i].1 = DurationInfo { attributes, count: 0 };
            proof {
                assert(self.entries() =~= held.update(i as int, self.entries()[i as int]));
                assert(self.info.keys() =~= keys_of(held));
            }
            i = i + 1;
        }
        self.num_active = chosen;
        proof {
            let after = self.entries();
            assert(keys_of(after) =~= keys_of(before));
            assert(places(after) =~= flags@);
            lemma_ranked(before, after, self.limit());
            assert forall|key: DurationKeyView| map_of(before).contains_key(key) implies (
            #[trigger] map_of(after)[key]).count == 0 by {
                lemma_same_keys(before, after, key);
            }
            lemma_same_keys(before, after, arbitrary());
        }
    }

    /// Forgets the kinds of operation of a communicator, which frees their
    /// places for later ones.
    pub fn close_comm(&mut self, comm_hash: u64)
        requires
            old(self).wf(),
        ensures
            final(self).wf(),
            duration_comm_closed(*old(self), *final(self), comm_hash),
    {
        let ghost before = self.entries();
        self.info.drop_comm(comm_hash);
        self.num_active = self.info.count_places();
        proof {
            let keep = outside_comm::<DurationKey, DurationInfo>(comm_hash);
            lemma_comm_dropped(before, comm_hash);
            assert forall|i: int| #![trigger self.entries()[i]] 0 <= i < self.entries().len() implies (
            self.entries()[i].1.attributes matches Some(attributes) ==> attributes@
                == duration_attributes(self.host(), self.entries()[i].0@)) by {
                before.lemma_filter_contains_rev(keep, self.entries()[i]);
            }
        }
    }

    /// How many kinds carry attributes of their own.
    pub fn num_active(&self) -> (r: usize)
        ensures
            r == self.active(),
    {
        self.num_active
    }

    /// Whether one more record of the kind of an operation can be counted.
    pub fn can_record(
        &self,
        comm_hash: u64,
        op_name: &'static str,
        rank: usize,
        byte_count: usize,
    ) -> (r: bool)
        requires
            self.wf(),
        ensures
            r == self.has_count_room(duration_key(comm_hash, op_name@, rank, byte_count)),
    {
        let key = DurationKey { comm_hash, op_name, size_class: size_class(byte_count), rank };
        match self.info.find(&key) {
            Some(i) => self.info.entries[i].1.count < usize::MAX,
            None => true,
        }
    }

    /// Whether the kind of an operation is known and carries attributes of
    /// its own.
    pub fn high_fidelity(
        &self,
        comm_hash: u64,
        op_name: &'static str,
        rank: usize,
        byte_count: usize,
    ) -> (r: bool)
        requires
            self.wf(),
        ensures
            ({
                let key = duration_key(comm_hash, op_name@, rank, byte_count);
                r <==> self.kinds().contains_key(key) && self.kinds()[key].attributes is Some
            }),
    {
        let key = DurationKey { comm_hash, op_name, size_class: size_class(byte_count), rank };
        match self.info.find(&key) {
            Some(i) => self.info.entries[i].1.attributes.is_some(),
            None => false,
        }
    }
}

/// The number that the histogram keeps is the number of kinds recorded under
/// attributes of their own, and never exceeds the limit. With limit zero there
/// is none.
pub proof fn law_kinds_are_bounded(histogram: DurationHistogram)
    requires
        histogram.wf(),
    ensures
        histogram.kinds().dom().finite(),
        own_kinds(histogram.kinds()).finite(),
        own_kinds(histogram.kinds()).len() == histogram.active(),
        histogram.active() <= histogram.limit(),
        histogram.limit() == 0 ==> own_kinds(histogram.kinds()) == Set::<DurationKeyView>::empty(),
{
    lemma_count_by_key(histogram.entries(), holds_place());
    if histogram.limit() == 0 {
        own_kinds(histogram.kinds()).lemma_len0_is_empty();
    }
}

/// Idle kinds age out: where as many kinds as the limit allows were recorded
/// since the last ranking, no kind that was not keeps attributes of its own.
pub proof fn law_idle_kinds_age_out(
    before: DurationHistogram,
    after: DurationHistogram,
    busy: Set<DurationKeyView>,
    idle: DurationKeyView,
)
    requires
        before.wf(),
        kinds_ranked(before, after),
        busy.finite(),
        busy.len() >= before.limit(),
        forall|key: DurationKeyView| #[trigger]
            busy.contains(key) ==> before.kinds().contains_key(key) && before.kinds()[key].count
                > 0,
        before.kinds().contains_key(idle),
        before.kinds()[idle].count == 0,
    ensures
        !own_kinds(after.kinds()).contains(idle),
{
    let own = own_kinds(after.kinds());
    let counts = record_counts(before.kinds());
    if own.contains(idle) {
        assert forall|key: DurationKeyView| #[trigger] busy.contains(key) implies own.contains(
            key,
        ) by {
            assert(counts[idle] == 0 && counts[key] > 0);
        }
        assert(!busy.contains(idle));
        assert(busy.insert(idle).subset_of(own));
        lemma_len_subset(busy.insert(idle), own);
    }
}

/// Closing a communicator that has no kinds changes nothing.
pub proof fn law_unknown_duration_close_changes_nothing(
    before: DurationHistogram,
    after: DurationHistogram,
    comm_hash: u64,
)
    requires
        duration_comm_closed(before, after, comm_hash),
        forall|key: DurationKeyView| #[trigger]
            before.kinds().contains_key(key) ==> key.comm_hash != comm_hash,
    ensures
        after.kinds() == before.kinds(),
        after.active() == before.active(),
{
    lemma_without_unknown_comm::<DurationKey, DurationInfo>(before.kinds(), comm_hash);
    assert(own_kinds(before.kinds()).intersect(of_comm::<DurationKey>(comm_hash)) =~= Set::<
        DurationKeyView,
    >::empty());
}

/// Closing a communicator a second time changes nothing.
pub proof fn law_repeated_duration_close_changes_nothing(
    before: DurationHistogram,
    once: DurationHistogram,
    twice: DurationHistogram,
    comm_hash: u64,
)
    requires
        duration_comm_closed(before, once, comm_hash),
        duration_comm_closed(once, twice, comm_hash),
    ensures
        twice.kinds() == once.kinds(),
        twice.active() == once.active(),
{
    law_unknown_duration_close_changes_nothing(once, twice, comm_hash);
}

/// The attributes of a kind of operation tell it from every other kind on the
/// host.
pub proof fn law_duration_attributes_identify(
    hostname: Seq<char>,
    a: DurationKeyView,
    b: DurationKeyView,
)
    ensures
        duration_attributes(hostname, a) == duration_attributes(hostname, b) <==> a == b,
{
    let x = duration_attributes(hostname, a);
    let y = duration_attributes(hostname, b);
    law_hash_text_identifies(a.comm_hash, b.comm_hash);
    lemma_rank_cast(a.rank, b.rank);
    if x == y {
        assert(x[0] == y[0] && x[1] == y[1] && x[2] == y[2] && x[3] == y[3]);
    }
}

/// There are three size classes, split at 1 MiB and after 16 MiB.
pub proof fn law_size_classes_split(byte_count: usize)
    ensures
        size_class_text(byte_count) == "lt1m"@ <==> byte_count < 0x10_0000,
        size_class_text(byte_count) == "1m_16m"@ <==> 0x10_0000 <= byte_count <= 0x100_0000,
        size_class_text(byte_count) == "gt16m"@ <==> 0x100_0000 < byte_count,
{
    reveal_strlit("lt1m");
    reveal_strlit("1m_16m");
    reveal_strlit("gt16m");
    assert("lt1m"@.len() == 4 && "1m_16m"@.len() == 6 && "gt16m"@.len() == 5);
}

} // verus!
