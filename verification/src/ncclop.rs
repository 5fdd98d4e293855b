//! Telemetry of completed NCCL operations.
use crate::attributes::{int_attr, key_values_of, text_attr, Attr, AttrView, AttributeSet};
use crate::config::Config;
use crate::duration::{duration_key, duration_recorded, DurationHistogram, DurationKeyView};
use crate::event::NcclOp;
use crate::gap::minus;
use crate::instruments::{gauge_record, gauge_sent, Measurement};
use crate::nccl_metadata::{CollDescr, NcclOpType, OpDescr, P2pDescr};
use crate::profiler::Profiler;
use crate::text::{format_hash, hash_text};
use opentelemetry::metrics::Gauge;
use opentelemetry::trace::{SpanContext, SpanId, TraceFlags, TraceId, TraceState};
use vstd::prelude::*;

verus! {

/// The number that stands for an operation type in span identifiers. None is
/// zero, as the zero identifier is invalid.
pub open spec fn coll_type_num(t: NcclOpType) -> u32 {
    match t {
        NcclOpType::Broadcast => 1,
        NcclOpType::Reduce => 2,
        NcclOpType::AllGather => 3,
        NcclOpType::ReduceScatter => 4,
        NcclOpType::AllReduce => 5,
        _ => 0xabcd,
    }
}

/// The number that stands for an operation type in span identifiers.
pub fn coll_type_to_num(t: NcclOpType) -> (r: u32)
    ensures
        r == coll_type_num(t),
{
    match t {
        NcclOpType::Broadcast => 1,
        NcclOpType::Reduce => 2,
        NcclOpType::AllGather => 3,
        NcclOpType::ReduceScatter => 4,
        NcclOpType::AllReduce => 5,
        _ => 0xabcd,
    }
}

/// The name of an operation type in telemetry.
pub open spec fn op_type_name(t: NcclOpType) -> Seq<char> {
    match t {
        NcclOpType::Broadcast => "ncclBroadcast"@,
        NcclOpType::Reduce => "ncclReduce"@,
        NcclOpType::AllGather => "ncclAllGather"@,
        NcclOpType::ReduceScatter => "ncclReduceScatter"@,
        NcclOpType::AllReduce => "ncclAllReduce"@,
        NcclOpType::Send => "ncclSend"@,
        NcclOpType::Recv => "ncclRecv"@,
        NcclOpType::Other => "unknown nccl op"@,
    }
}

/// The name of an operation type in telemetry.
pub fn ncclop_otel_name(op_type: NcclOpType) -> (r: &'static str)
    ensures
        r@ == op_type_name(op_type),
{
    match op_type {
        NcclOpType::Broadcast => "ncclBroadcast",
        NcclOpType::Reduce => "ncclReduce",
        NcclOpType::AllGather => "ncclAllGather",
        NcclOpType::ReduceScatter => "ncclReduceScatter",
        NcclOpType::AllReduce => "ncclAllReduce",
        NcclOpType::Send => "ncclSend",
        NcclOpType::Recv => "ncclRecv",
        NcclOpType::Other => "unknown nccl op",
    }
}

/// The name of an operation in telemetry, for collectives and point-to-point
/// transfers.
pub open spec fn op_name(descr: OpDescr) -> Option<Seq<char>> {
    match descr {
        OpDescr::Coll(coll) => Some(op_type_name(coll.op_type)),
        OpDescr::P2p(p2p) => Some(
            if p2p.is_send {
                "ncclSend"@
            } else {
                "ncclRecv"@
            },
        ),
        OpDescr::Other => None,
    }
}

fn op_otel_name(descr: &OpDescr) -> (r: Option<&'static str>)
    ensures
        r is Some <==> op_name(*descr) is Some,
        r matches Some(name) ==> name@ == op_name(*descr)->0,
{
    match descr {
        OpDescr::Coll(coll) => Some(ncclop_otel_name(coll.op_type)),
        OpDescr::P2p(p2p) => if p2p.is_send {
            Some("ncclSend")
        } else {
            Some("ncclRecv")
        },
        OpDescr::Other => None,
    }
}

/// An operation whose duration is recorded: it had network or kernel activity
/// and is a collective or a point-to-point transfer.
pub open spec fn has_duration(op: NcclOp) -> bool {
    op.child_duration_ns is Some && op_name(op.descr) is Some
}

/// The kind of operation that the duration of `op` belongs to.
pub open spec fn op_duration_key(op: NcclOp) -> DurationKeyView {
    duration_key(op.comm_hash, op_name(op.descr)->0, op.spec_rank(), op.spec_byte_count())
}

/// Whether the duration of a completed operation can be counted, if it is to
/// be recorded at all.
pub fn can_record_ncclop(histogram: &DurationHistogram, op: &NcclOp) -> (r: bool)
    requires
        histogram.wf(),
    ensures
        r == (has_duration(*op) ==> histogram.has_count_room(op_duration_key(*op))),
{
    match (op.child_duration_ns, op_otel_name(&op.descr)) {
        (Some(_), Some(name)) => histogram.can_record(
            op.comm_hash,
            name,
            op.rank(),
            op.byte_count(),
        ),
        _ => true,
    }
}

/// What recording the duration of a completed operation does.
pub open spec fn op_duration_recorded(
    before: DurationHistogram,
    after: DurationHistogram,
    op: NcclOp,
    r: Option<()>,
) -> bool {
    &&& r is Some <==> has_duration(op)
    &&& if has_duration(op) {
        duration_recorded(before, after, op.child_duration_ns->0 as u64, op_duration_key(op))
    } else {
        after == before
    }
}

/// Records the duration of a completed operation. Operations without network
/// or kernel activity are not recorded.
pub fn record_ncclop_duration(histogram: &mut DurationHistogram, op: &NcclOp) -> (r: Option<()>)
    requires
        old(histogram).wf(),
        has_duration(*op) ==> old(histogram).has_count_room(op_duration_key(*op)),
    ensures
        final(histogram).wf(),
        op_duration_recorded(*old(histogram), *final(histogram), *op, r),
{
    let duration: u128 = match op.child_duration_ns {
        Some(duration) => duration,
        None => return None,
    };
    let name = match op_otel_name(&op.descr) {
        Some(name) => name,
        None => return None,
    };
    let dur_ns: u64 = #[verifier::truncate]
    (duration as u64);
    histogram.record(dur_ns, op.comm_hash, name, op.rank(), op.byte_count());
    Some(())
}

/// The attributes of a sequence number.
pub open spec fn seqnum_attributes(
    comm_hash: u64,
    coll: CollDescr,
    hostname: Seq<char>,
) -> Seq<AttrView> {
    seq![
        text_attr("nccl.comm.hash"@, hash_text(comm_hash)),
        text_attr("nccl.collective.name"@, op_type_name(coll.op_type)),
        int_attr("nccl.rank"@, coll.rank as i64),
        text_attr("nccl.hostname"@, hostname),
    ]
}

/// What recording the sequence number of an operation does.
pub open spec fn seqnum_recorded(
    before: Gauge<i64>,
    after: Gauge<i64>,
    op: NcclOp,
    hostname: Seq<char>,
    r: Option<()>,
) -> bool {
    r is Some && match op.descr {
        OpDescr::Coll(coll) => gauge_sent(after) == gauge_sent(before).push(
            Measurement {
                value: coll.seq_num as i64,
                attributes: key_values_of(seqnum_attributes(op.comm_hash, coll, hostname)),
            },
        ),
        _ => after == before,
    }
}

/// Records the sequence number of a collective; other operations have none.
pub fn record_ncclop_seqnum(gauge: &mut Gauge<i64>, op: &NcclOp, hostname: String) -> (r: Option<()>)
    ensures
        seqnum_recorded(*old(gauge), *final(gauge), *op, hostname@, r),
{
    if let OpDescr::Coll(coll) = &op.descr {
        let mut attrs: Vec<Attr> = Vec::new();
        attrs.push(Attr::of_text("nccl.comm.hash", format_hash(op.comm_hash)));
        attrs.push(
            Attr::of_text("nccl.collective.name", ncclop_otel_name(coll.op_type).to_owned()),
        );
        attrs.push(Attr::of_int("nccl.rank", coll.rank as i64));
        attrs.push(Attr::of_text("nccl.hostname", hostname));
        let attributes = AttributeSet::new(attrs);
        assert(attributes@ =~= seqnum_attributes(op.comm_hash, *coll, hostname@));
        gauge_record(gauge, coll.seq_num as i64, attributes.key_values());
    }
    Some(())
}

/// The attributes of the span of a collective.
pub open spec fn coll_span_attributes(op: NcclOp, coll: CollDescr) -> Seq<AttrView> {
    seq![
        text_attr("nccl.comm.hash"@, hash_text(op.comm_hash)),
        int_attr("nccl.rank"@, op.spec_rank() as i64),
        int_attr("nccl.size.bytes"@, op.spec_byte_count() as i64),
        text_attr("nccl.collective.algo"@, coll.algo_name@),
        text_attr("nccl.collective.proto"@, coll.proto_name@),
        int_attr("nccl.collective.n_max_channel"@, coll.n_max_channel as i64),
    ]
}

/// The attributes of the span of a point-to-point transfer.
pub open spec fn p2p_span_attributes(op: NcclOp, p2p: P2pDescr) -> Seq<AttrView> {
    seq![
        text_attr("nccl.comm.hash"@, hash_text(op.comm_hash)),
        int_attr("nccl.rank"@, op.spec_rank() as i64),
        int_attr("nccl.size.bytes"@, op.spec_byte_count() as i64),
        int_attr("nccl.p2p.peer.rank"@, p2p.peer as i64),
    ]
}

/// The attributes of the span of an operation.
pub open spec fn span_attributes(op: NcclOp) -> Seq<AttrView> {
    match op.descr {
        OpDescr::Coll(coll) => coll_span_attributes(op, coll),
        OpDescr::P2p(p2p) => p2p_span_attributes(op, p2p),
        OpDescr::Other => Seq::empty(),
    }
}

/// One past the latest wall clock time that can be told, in nanoseconds since
/// the Unix epoch.
pub const WALL_CLOCK_END_NS: i128 = 9_223_372_036_854_775_808_000_000_000;

/// An operation that has a span: its activity started, it ended, and it is a
/// collective or a point-to-point transfer.
pub open spec fn has_span(op: NcclOp) -> bool {
    op.child_start_time is Some && op.end_time is Some && op_name(op.descr) is Some
}

/// When the span of an operation starts, on the wall clock.
pub open spec fn span_start(profiler: Profiler, op: NcclOp) -> int {
    profiler.init_time + minus(op.child_start_time->0, profiler.init_instant)
}

/// How long the span of an operation is.
pub open spec fn span_duration(op: NcclOp) -> u64 {
    minus(op.end_time->0, op.child_start_time->0)
}

/// The start of an operation can be told on the wall clock.
pub open spec fn starts_on_wall_clock(profiler: Profiler, op: NcclOp) -> bool {
    op.child_start_time is Some && op.end_time is Some ==> span_start(profiler, op)
        < WALL_CLOCK_END_NS
}

/// The start and the end of an operation can be told on the wall clock.
pub open spec fn on_wall_clock(profiler: Profiler, op: NcclOp) -> bool {
    &&& starts_on_wall_clock(profiler, op)
    &&& has_span(op) ==> span_start(profiler, op) + span_duration(op) < WALL_CLOCK_END_NS
}

/// Whether the start and the end of an operation can be told on the wall
/// clock.
pub fn fits_wall_clock(profiler: &Profiler, op: &NcclOp) -> (r: bool)
    ensures
        r == on_wall_clock(*profiler, *op),
{
    match (op.child_start_time, op.end_time) {
        (Some(start_time), Some(end_time)) => {
            let since_init: u64 = start_time.saturating_sub(profiler.init_instant);
            let duration: u64 = end_time.saturating_sub(start_time);
            let named = op_otel_name(&op.descr).is_some();
            let room: i128 = WALL_CLOCK_END_NS - since_init as i128;
            profiler.init_time < room && (!named || profiler.init_time < room - duration as i128)
        },
        _ => true,
    }
}

/// What is known of an operation for tracing.
#[derive(Debug)]
pub struct NcclOpAttr {
    pub name: &'static str,
    /// In nanoseconds since the Unix epoch.
    pub start_time: i128,
    /// In nanoseconds.
    pub duration: u64,
    pub attributes: AttributeSet,
}

/// Collects what is known of an operation for tracing.
pub fn gen_ncclop_attributes(profiler: &Profiler, op: &NcclOp) -> (r: Option<NcclOpAttr>)
    requires
        starts_on_wall_clock(*profiler, *op),
    ensures
        r is Some <==> has_span(*op),
        r matches Some(attr) ==> {
            &&& attr.name@ == op_name(op.descr)->0
            &&& attr.start_time == span_start(*profiler, *op)
            &&& attr.duration == span_duration(*op)
            &&& attr.attributes@ == span_attributes(*op)
        },
{
    let start_time: u64 = match op.child_start_time {
        Some(start_time) => start_time,
        None => return None,
    };
    let end_time: u64 = match op.end_time {
        Some(end_time) => end_time,
        None => return None,
    };
    let duration: u64 = end_time.saturating_sub(start_time);
    let since_init: u64 = start_time.saturating_sub(profiler.init_instant);
    let start: i128 = profiler.init_time + since_init as i128;
    let name = match op_otel_name(&op.descr) {
        Some(name) => name,
        None => return None,
    };
    let mut attrs: Vec<Attr> = Vec::new();
    attrs.push(Attr::of_text("nccl.comm.hash", format_hash(op.comm_hash)));
    attrs.push(Attr::of_int("nccl.rank", op.rank() as i64));
    attrs.push(Attr::of_int("nccl.size.bytes", op.byte_count() as i64));
    match &op.descr {
        OpDescr::Coll(coll) => {
            attrs.push(Attr::of_text("nccl.collective.algo", coll.algo_name.to_owned()));
            attrs.push(Attr::of_text("nccl.collective.proto", coll.proto_name.to_owned()));
            attrs.push(Attr::of_int("nccl.collective.n_max_channel", coll.n_max_channel as i64));
        },
        OpDescr::P2p(p2p) => {
            attrs.push(Attr::of_int("nccl.p2p.peer.rank", p2p.peer as i64));
        },
        OpDescr::Other => {},
    }
    let attributes = AttributeSet::new(attrs);
    assert(attributes@ =~= span_attributes(*op));
    Some(NcclOpAttr { name, start_time: start, duration, attributes })
}

/// The identity of a span in a trace.
#[verifier::external_type_specification]
#[verifier::external_body]
pub struct ExSpanContext(opentelemetry::trace::SpanContext);

/// What `SpanContext::new` returns, with an empty trace state, for a trace
/// identifier and a span identifier in big-endian bytes.
pub uninterp spec fn span_context(
    trace_id: u128,
    span_id: u64,
    flags: u8,
    is_remote: bool,
) -> SpanContext;

/// `SpanContext::new`: the context depends on the identifiers, the flags and
/// the origin alone.
#[verifier::external_body]
fn new_span_context(trace_id: u128, span_id: u64, flags: u8, is_remote: bool) -> (r: SpanContext)
    ensures
        r == span_context(trace_id, span_id, flags, is_remote),
{
    SpanContext::new(
        TraceId::from_bytes(trace_id.to_be_bytes()),
        SpanId::from_bytes(span_id.to_be_bytes()),
        TraceFlags::new(flags),
        is_remote,
        TraceState::default(),
    )
}

/// The flag of a sampled trace.
pub const TRACE_SAMPLED: u8 = 1;

/// The trace that the spans of a communicator belong to.
pub open spec fn trace_id_of(comm_hash: u64) -> u128 {
    comm_hash as u128
}

/// The span that stands for a collective on all ranks.
pub open spec fn span_id_of(coll: CollDescr) -> u64 {
    ((coll_type_num(coll.op_type) as u64) << 32u64) | coll.seq_num
}

/// The role of a span in a trace.
#[derive(Debug, Clone, Copy, PartialEq, Eq, Structural)]
pub enum SpanRole {
    Client,
    Server,
    Producer,
    Consumer,
    Internal,
}

/// A span to be built, with its times on the wall clock.
#[derive(Debug)]
pub struct SpanPlan {
    /// The identifiers of trace and span, where they are fixed.
    pub ids: Option<(u128, u64)>,
    pub name: &'static str,
    pub role: SpanRole,
    pub start_time: i128,
    pub end_time: i128,
    pub attributes: AttributeSet,
}

impl SpanPlan {
    /// The span of an operation, as seen from the server side, under the given
    /// identifiers.
    pub open spec fn spans(&self, profiler: Profiler, op: NcclOp, ids: Option<(u128, u64)>) -> bool {
        &&& self.ids == ids
        &&& self.name@ == op_name(op.descr)->0
        &&& self.role == SpanRole::Server
        &&& self.start_time == span_start(profiler, op)
        &&& self.end_time == span_start(profiler, op) + span_duration(op)
        &&& self.attributes@ == span_attributes(op)
    }
}

/// The spans to be built for an operation.
#[derive(Debug)]
pub struct TracePlan {
    /// The common span of a collective, which rank 0 builds.
    pub parent: Option<SpanPlan>,
    /// The common span of a collective, which the span of each rank refers to.
    pub context: Option<SpanContext>,
    /// The span of this rank.
    pub span: SpanPlan,
}

impl TracePlan {
    /// The spans of an operation.
    pub open spec fn traces(&self, profiler: Profiler, op: NcclOp) -> bool {
        &&& self.span.spans(profiler, op, None)
        &&& match op.descr {
            OpDescr::Coll(coll) => {
                let trace_id = trace_id_of(op.comm_hash);
                let span_id = span_id_of(coll);
                &&& self.context == Some(span_context(trace_id, span_id, TRACE_SAMPLED, true))
                &&& self.parent is Some <==> op.spec_rank() == 0
                &&& self.parent matches Some(parent) ==> parent.spans(
                    profiler,
                    op,
                    Some((trace_id, span_id)),
                )
            },
            _ => self.context is None && self.parent is None,
        }
    }
}

/// Plans the spans of an operation. The spans of a collective are tied
/// together over all ranks: trace and span identifiers of the common span
/// follow from the communicator and the collective.
pub fn plan_ncclop_trace(profiler: &Profiler, op: &NcclOp) -> (r: Option<TracePlan>)
    requires
        on_wall_clock(*profiler, *op),
    ensures
        r is Some <==> has_span(*op),
        r matches Some(plan) ==> plan.traces(*profiler, *op),
{
    let attr = match gen_ncclop_attributes(profiler, op) {
        Some(attr) => attr,
        None => return None,
    };
    let end_time: i128 = attr.start_time + attr.duration as i128;
    let mut parent: Option<SpanPlan> = None;
    let mut context: Option<SpanContext> = None;
    if let OpDescr::Coll(coll) = &op.descr {
        let trace_id: u128 = op.comm_hash as u128;
        let coll_type: u32 = coll_type_to_num(coll.op_type);
        let span_id: u64 = ((coll_type as u64) << 32u64) | coll.seq_num;
        if op.rank() == 0 {
            parent = Some(
                SpanPlan {
                    ids: Some((trace_id, span_id)),
                    name: attr.name,
                    role: SpanRole::Server,
                    start_time: attr.start_time,
                    end_time,
                    attributes: attr.attributes.duplicate(),
                },
            );
        }
        context = Some(new_span_context(trace_id, span_id, TRACE_SAMPLED, true));
    }
    let span = SpanPlan {
        ids: None,
        name: attr.name,
        role: SpanRole::Server,
        start_time: attr.start_time,
        end_time,
        attributes: attr.attributes,
    };
    Some(TracePlan { parent, context, span })
}

/// The common span of a collective never has the invalid identifier zero.
pub proof fn law_span_id_is_valid(coll: CollDescr)
    ensures
        span_id_of(coll) != 0,
{
    let t = coll_type_num(coll.op_type) as u64;
    let n = coll.seq_num;
    assert((t << 32u64) | n != 0) by (bit_vector)
        requires
            0 < t <= 0xabcd,
    ;
}

/// Collectives of one communicator share their common span exactly where the
/// low halves of their sequence numbers agree, and so do their type numbers
/// joined with the high halves. With sequence numbers below 2^32 these are the
/// collectives with the same type number and sequence number.
pub proof fn law_span_id_identifies_collective(a: CollDescr, b: CollDescr)
    ensures
        span_id_of(a) == span_id_of(b) <==> {
            &&& a.seq_num & 0xffff_ffff == b.seq_num & 0xffff_ffff
            &&& coll_type_num(a.op_type) as u64 | (a.seq_num >> 32u64) == coll_type_num(
                b.op_type,
            ) as u64 | (b.seq_num >> 32u64)
        },
        a.seq_num < 0x1_0000_0000 && b.seq_num < 0x1_0000_0000 ==> (span_id_of(a) == span_id_of(b)
            <==> coll_type_num(a.op_type) == coll_type_num(b.op_type) && a.seq_num == b.seq_num),
{
    let t = coll_type_num(a.op_type) as u64;
    let u = coll_type_num(b.op_type) as u64;
    let m = a.seq_num;
    let n = b.seq_num;
    assert((t << 32u64) | m == (u << 32u64) | n <==> m & 0xffff_ffff == n & 0xffff_ffff && t | (m
        >> 32u64) == u | (n >> 32u64)) by (bit_vector)
        requires
            t <= 0xabcd,
            u <= 0xabcd,
    ;
    assert(m < 0x1_0000_0000 && n < 0x1_0000_0000 ==> ((t << 32u64) | m == (u << 32u64) | n <==> t
        == u && m == n)) by (bit_vector)
        requires
            t <= 0xabcd,
            u <= 0xabcd,
    ;
}

/// Every communicator has a trace of its own.
pub proof fn law_trace_id_identifies_communicator(a: u64, b: u64)
    ensures
        trace_id_of(a) == trace_id_of(b) <==> a == b,
{
}

/// How a histogram is aggregated for export: as a base-2 exponential
/// histogram.
#[derive(Debug, Clone, Copy)]
pub struct HistogramView {
    pub instrument: &'static str,
    pub max_size: u32,
    pub max_scale: i8,
    pub record_min_max: bool,
}

/// The view of the instruments that `instrument` names.
pub open spec fn is_histogram_view(view: HistogramView, config: Config, instrument: Seq<char>) -> bool {
    &&& view.instrument@ == instrument
    &&& view.max_size == config.otel_latency_histogram_max_size
    &&& view.max_scale == config.otel_latency_histogram_max_scale as i8
    &&& view.record_min_max
}

fn histogram_view(config: &Config, instrument: &'static str) -> (r: HistogramView)
    ensures
        is_histogram_view(r, *config, instrument@),
{
    HistogramView {
        instrument,
        max_size: config.otel_latency_histogram_max_size,
        max_scale: #[verifier::truncate]
        (config.otel_latency_histogram_max_scale as i8),
        record_min_max: true,
    }
}

/// The views of the latency, duration and gap histograms.
pub open spec fn are_histogram_views(views: Seq<HistogramView>, config: Config) -> bool {
    &&& views.len() == 3
    &&& is_histogram_view(views[0], config, "*latency"@)
    &&& is_histogram_view(views[1], config, "nccl.collective.duration"@)
    &&& is_histogram_view(views[2], config, "nccl.collective.gap"@)
}

/// The views under which the latency, duration and gap histograms are
/// exported.
pub fn histogram_views(config: &Config) -> (r: Vec<HistogramView>)
    ensures
        are_histogram_views(r@, *config),
{
    let mut r: Vec<HistogramView> = Vec::new();
    r.push(histogram_view(config, "*latency"));
    r.push(histogram_view(config, "nccl.collective.duration"));
    r.push(histogram_view(config, "nccl.collective.gap"));
    r
}

} // verus!
