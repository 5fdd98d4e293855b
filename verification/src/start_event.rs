//! NCCL starts an event.
use crate::attributes::key_values_of;
use crate::config::{ClockReading, Config};
use crate::daemon::MessageView;
use crate::event::{
    is_activity, is_nccl_activity, resolve_comm_hash, resolved_comm_hash, Event, Group, NcclOp,
    ProxyStep,
};
use crate::gap::{minus, GapTracker};
use crate::instruments::{histogram_sent, requested, Measurement};
use crate::nccl_metadata::{
    Algo, CollDescr, EventDescr, HandleKind, NcclOpType, NcclResult, OpDescr, P2pDescr,
    ParentHandle, ProxyOpDescr, ProxyStepDescr,
};
use crate::profiler::{
    refs_after_inc, refs_before, Communicator, KernelCh, OpRef, Profiler, ProxyOpLocalData,
    ThreadLocalState, Version,
};
use crate::sampler::SampleRate;
use vstd::prelude::*;

verus! {

/// The placeholder that stands for an operation which could not be tracked.
pub const UNTRACKED_OP: usize = 42;

/// What becomes of a collective.
#[derive(Debug, Clone, Copy, PartialEq, Eq, Structural)]
pub enum CollStart {
    /// It is not tracked at all.
    Ignore,
    /// It is not tracked, but is the parent of proxy operations.
    Placeholder,
    /// It is below the size threshold and takes the fast path.
    Small,
    /// It is tracked without its steps.
    TrackLite,
    /// It is tracked with its steps.
    Track,
}

/// A collective that takes a small-message path. All-reduces never do.
pub open spec fn is_small_collective(config: Config, descr: CollDescr) -> bool {
    &&& config.skip_small_collective || config.skip_small_collective_steps
    &&& descr.op_type != NcclOpType::AllReduce
    &&& descr.byte_count <= config.small_msg_threshold
}

/// The steps of a collective outside the small-message paths are not tracked.
pub open spec fn skips_steps(config: Config, descr: CollDescr) -> bool {
    ||| !config.track_steps && !config.aggregate_steps
    ||| config.skip_nvls && (descr.algo == Algo::Nvls || descr.algo == Algo::NvlsTree)
}

/// What becomes of a collective.
pub open spec fn coll_start(config: Config, descr: CollDescr) -> CollStart {
    if config.track_ncclop {
        if is_small_collective(config, descr) {
            if config.skip_small_collective {
                CollStart::Small
            } else {
                CollStart::TrackLite
            }
        } else if skips_steps(config, descr) {
            CollStart::TrackLite
        } else {
            CollStart::Track
        }
    } else if config.track_proxyop {
        CollStart::Placeholder
    } else {
        CollStart::Ignore
    }
}

/// Decides what becomes of a collective.
pub fn classify_coll(config: &Config, descr: &CollDescr) -> (r: CollStart)
    ensures
        r == coll_start(*config, *descr),
{
    if config.track_ncclop {
        let skip_step_tracking = !(config.track_steps || config.aggregate_steps);
        let skip_small_msg = config.skip_small_collective || config.skip_small_collective_steps;
        if skip_small_msg && descr.op_type != NcclOpType::AllReduce && descr.byte_count
            <= config.small_msg_threshold {
            if config.skip_small_collective {
                CollStart::Small
            } else {
                CollStart::TrackLite
            }
        } else if skip_step_tracking || (config.skip_nvls && (descr.algo == Algo::Nvls
            || descr.algo == Algo::NvlsTree)) {
            CollStart::TrackLite
        } else {
            CollStart::Track
        }
    } else if config.track_proxyop {
        CollStart::Placeholder
    } else {
        CollStart::Ignore
    }
}

/// What one decision reads of the numbers drawn: the decision, and the
/// numbers left.
pub open spec fn decided(rate: SampleRate, draws: Seq<u32>) -> (bool, Seq<u32>) {
    if rate.is_certain() {
        (rate is Always, draws)
    } else {
        (rate.spec_admits(draws[0]), draws.skip(1))
    }
}

/// Whether a point-to-point transfer is sampled, given the numbers drawn for
/// it: sends at the common rate, receives at both rates.
pub open spec fn p2p_sampled(config: Config, is_send: bool, draws: Seq<u32>) -> bool {
    let (common, rest) = decided(config.p2p_sample_rate, draws);
    common && (is_send || decided(config.p2p_recv_sample_rate, rest).0)
}

/// How many numbers are drawn to sample a point-to-point transfer.
pub open spec fn p2p_draws(config: Config, is_send: bool, draws: Seq<u32>) -> nat {
    let first: nat = if config.p2p_sample_rate.is_certain() {
        0
    } else {
        1
    };
    let second: nat = if decided(config.p2p_sample_rate, draws).0 && !is_send
        && !config.p2p_recv_sample_rate.is_certain() {
        1
    } else {
        0
    };
    first + second
}

/// `draws` were drawn, one after the other.
pub open spec fn drew(before: ThreadLocalState, after: ThreadLocalState, draws: Seq<u32>) -> bool {
    after.sampler.drawn() == before.sampler.drawn() + draws
}

/// The numbers drawn between two states.
pub open spec fn draws_between(before: ThreadLocalState, after: ThreadLocalState) -> Seq<u32> {
    after.sampler.drawn().skip(before.sampler.drawn().len() as int)
}

/// Samples a point-to-point transfer.
pub fn sample_p2p(thread: &mut ThreadLocalState, config: &Config, is_send: bool) -> (r: bool)
    ensures
        *final(thread) == (ThreadLocalState { sampler: final(thread).sampler, ..*old(thread) }),
        drew(*old(thread), *final(thread), draws_between(*old(thread), *final(thread))),
        draws_between(*old(thread), *final(thread)).len() == p2p_draws(
            *config,
            is_send,
            draws_between(*old(thread), *final(thread)),
        ),
        r == p2p_sampled(*config, is_send, draws_between(*old(thread), *final(thread))),
{
    let ghost before = thread.sampler.drawn();
    let common = thread.rnd_decision(config.p2p_sample_rate);
    let ghost mid = thread.sampler.drawn();
    let r = if common {
        if is_send {
            true
        } else {
            thread.rnd_decision(config.p2p_recv_sample_rate)
        }
    } else {
        false
    };
    proof {
        let draws = draws_between(*old(thread), *thread);
        assert(thread.sampler.drawn() =~= before + draws);
        if config.p2p_sample_rate.is_certain() {
            assert(draws =~= thread.sampler.drawn().skip(mid.len() as int));
        } else {
            assert(draws[0] == mid.last());
            assert(draws.skip(1) =~= thread.sampler.drawn().skip(mid.len() as int));
        }
    }
    r
}

/// An operation was announced to the daemon under the next identifier, or
/// stands as a placeholder where no node was available.
pub open spec fn op_started(
    before: ThreadLocalState,
    after: ThreadLocalState,
    count: u64,
    op: NcclOp,
    is_lite: bool,
    node_available: bool,
    event: Option<Event>,
) -> bool {
    if node_available {
        &&& event == Some(
            if is_lite {
                Event::NcclOpLite(count as usize)
            } else {
                Event::NcclOp(count as usize)
            },
        )
        &&& after.ncclop_fifo.same_channel(&before.ncclop_fifo)
        &&& after.ncclop_fifo@ == before.ncclop_fifo@.push((MessageView::NcclOp(op), true))
    } else {
        &&& event == Some(Event::Dummy(UNTRACKED_OP))
        &&& after.ncclop_fifo == before.ncclop_fifo
    }
}

fn start_op(
    thread: &mut ThreadLocalState,
    profiler: &mut Profiler,
    descr: OpDescr,
    time: u64,
    is_lite: bool,
    comm_hash: Option<u64>,
    node_available: bool,
) -> (r: Option<Event>)
    ensures
        *final(profiler) == (Profiler {
            ncclop_cnt: old(profiler).ncclop_cnt.wrapping_add(1),
            ..*old(profiler)
        }),
        *final(thread) == (ThreadLocalState {
            ncclop_fifo: final(thread).ncclop_fifo,
            ..*old(thread)
        }),
        op_started(
            *old(thread),
            *final(thread),
            old(profiler).ncclop_cnt,
            NcclOp::announced(descr, time, old(profiler).ncclop_cnt as usize, comm_hash),
            is_lite,
            node_available,
            r,
        ),
{
    match thread.new_ncclop(profiler, descr, time, is_lite, comm_hash, node_available) {
        Some(event) => Some(event),
        None => Some(Event::Dummy(UNTRACKED_OP)),
    }
}

/// What starting a group does.
pub open spec fn group_started(config: Config, clock: ClockReading, event: Option<Event>) -> bool {
    if config.track_ncclop {
        event == Some(Event::Group(Group { start_time: clock.now }))
    } else if config.track_proxyop {
        event == Some(Event::Dummy(UNTRACKED_OP))
    } else {
        event is None
    }
}

/// What starting a collective does.
pub open spec fn coll_started(
    before: ThreadLocalState,
    after: ThreadLocalState,
    profiler: Profiler,
    count_after: u64,
    descr: CollDescr,
    comm: Communicator,
    clock: ClockReading,
    node_available: bool,
    event: Option<Event>,
) -> bool {
    let count = profiler.ncclop_cnt;
    let start = coll_start(profiler.config, descr);
    let hash = resolved_comm_hash(comm.comm_hash, descr.comm_hash) as usize;
    match start {
        CollStart::Ignore => event is None && after == before && count_after == count,
        CollStart::Placeholder => event == Some(Event::Dummy(hash)) && after == before
            && count_after == count,
        CollStart::Small => event == Some(Event::SmallNcclOp(hash)) && after == before
            && count_after == count,
        _ => {
            &&& count_after == count.wrapping_add(1)
            &&& after == (ThreadLocalState { ncclop_fifo: after.ncclop_fifo, ..before })
            &&& op_started(
                before,
                after,
                count,
                NcclOp::announced(
                    OpDescr::Coll(descr),
                    clock.now,
                    count as usize,
                    comm.comm_hash,
                ),
                start == CollStart::TrackLite,
                node_available,
                event,
            )
        },
    }
}

/// What starting a point-to-point transfer does.
pub open spec fn p2p_started(
    before: ThreadLocalState,
    after: ThreadLocalState,
    profiler: Profiler,
    count_after: u64,
    descr: P2pDescr,
    comm: Communicator,
    clock: ClockReading,
    node_available: bool,
    event: Option<Event>,
) -> bool {
    let config = profiler.config;
    let count = profiler.ncclop_cnt;
    let draws = draws_between(before, after);
    let sampled = p2p_sampled(config, descr.is_send, draws);
    let takes_part = sampled && config.track_ncclop && descr.byte_count > config.small_msg_threshold;
    let hash = resolved_comm_hash(comm.comm_hash, descr.comm_hash) as usize;
    &&& drew(before, after, draws)
    &&& draws.len() == p2p_draws(config, descr.is_send, draws)
    &&& after == (ThreadLocalState {
        ncclop_fifo: after.ncclop_fifo,
        sampler: after.sampler,
        ..before
    })
    &&& if takes_part {
        &&& count_after == count.wrapping_add(1)
        &&& op_started(
            before,
            after,
            count,
            NcclOp::announced(
                OpDescr::P2p(descr),
                profiler.spec_recent_instant(clock),
                count as usize,
                comm.comm_hash,
            ),
            false,
            node_available,
            event,
        )
    } else {
        &&& count_after == count
        &&& after.ncclop_fifo == before.ncclop_fifo
        &&& if sampled && !config.track_ncclop && config.track_proxyop {
            event == Some(Event::Dummy(hash))
        } else {
            event is None
        }
    }
}

/// A parent handle under which nothing is tracked.
pub open spec fn untracked_parent(parent: ParentHandle) -> bool {
    parent.is_null || parent.kind == HandleKind::SmallNcclOp
}

/// A proxy operation whose steps are not tracked.
pub open spec fn skips_proxyop_steps(config: Config, descr: ProxyOpDescr) -> bool {
    descr.parent.kind == HandleKind::NcclOpLite || !descr.is_send && !config.track_recv_steps
}

/// The communicator that a proxy operation is tied to: only one of this
/// process can be read.
pub open spec fn proxyop_comm(
    profiler: Profiler,
    descr: ProxyOpDescr,
    comm: Option<Communicator>,
) -> Option<Communicator> {
    if profiler.config.heartbeat_collective_progress && profiler.pid == descr.pid {
        comm
    } else {
        None
    }
}

/// What starting a proxy operation does.
pub open spec fn proxyop_started(
    before: ThreadLocalState,
    after: ThreadLocalState,
    profiler: Profiler,
    descr: ProxyOpDescr,
    comm: Option<Communicator>,
    version: Version,
    clock: ClockReading,
    event: Option<Event>,
) -> bool {
    let data = ProxyOpLocalData {
        parent_op: descr.parent.ncclop,
        ..ProxyOpLocalData::started(
            before.proxyop_id,
            descr,
            version is V1,
            profiler.config.track_step_fifo_wait,
            proxyop_comm(profiler, descr, comm),
        )
    };
    if untracked_parent(descr.parent) {
        event is None && after == before
    } else {
        &&& after == (ThreadLocalState {
            proxyop_id: before.proxyop_id.wrapping_add(1),
            ncclop_refcnt: after.ncclop_refcnt,
            sampler: after.sampler,
            ..before
        })
        &&& if skips_proxyop_steps(profiler.config, descr) {
            &&& after.sampler == before.sampler
            &&& match descr.parent.ncclop {
                Some(op) => {
                    &&& event == Some(Event::ProxyOpLite(data))
                    &&& after.refs() == refs_after_inc(
                        before.refs(),
                        OpRef { pid: descr.pid, op },
                        profiler.spec_recent_instant(clock),
                    )
                },
                None => event is None && after.ncclop_refcnt == before.ncclop_refcnt,
            }
        } else {
            &&& after.ncclop_refcnt == before.ncclop_refcnt
            &&& drew(before, after, seq![after.sampler.drawn().last()])
            &&& event == Some(
                Event::ProxyOp(
                    ProxyOpLocalData { rng_seed: after.sampler.drawn().last(), ..data },
                ),
            )
        }
    }
}

/// What starting a kernel channel does.
pub open spec fn kernelch_started(
    before: ThreadLocalState,
    after: ThreadLocalState,
    profiler: Profiler,
    parent: ParentHandle,
    clock: ClockReading,
    event: Option<Event>,
) -> bool {
    if untracked_parent(parent) {
        event is None && after == before
    } else {
        match parent.ncclop {
            Some(op) => {
                &&& event == Some(Event::KernelCh(KernelCh { parent_op: Some(op) }))
                &&& after == (ThreadLocalState { ncclop_refcnt: after.ncclop_refcnt, ..before })
                &&& after.refs() == refs_after_inc(
                    before.refs(),
                    OpRef { pid: profiler.pid, op },
                    profiler.spec_recent_instant(clock),
                )
            },
            None => event is None && after == before,
        }
    }
}

/// What starting a step of a proxy operation does.
pub open spec fn proxystep_started(descr: ProxyStepDescr, event: Option<Event>) -> bool {
    match descr.proxyop {
        Some(parent) => event == Some(
            Event::ProxyStep(ProxyStep::started(descr.step, parent)),
        ),
        None => event is None,
    }
}

/// What the start of an event does to the gap tracker: activity begins a
/// window, anything else leaves it alone.
pub open spec fn window_begun(
    before: Option<GapTracker>,
    after: Option<GapTracker>,
    event: Option<Event>,
    now_ns: u64,
) -> bool {
    if event is Some && is_activity(event->0) {
        match before {
            None => after is None,
            Some(tracker) => {
                &&& after matches Some(begun)
                &&& begun.counters() == tracker.counters().begin()
                &&& begun.attrs() == tracker.attrs()
                &&& match tracker.instrument() {
                    None => begun.instrument() is None,
                    Some(histogram) => {
                        &&& begun.instrument() matches Some(recorded)
                        &&& if tracker.counters().observes_gap() {
                            &&& requested(recorded) == requested(histogram)
                            &&& histogram_sent(recorded) == histogram_sent(histogram).push(
                                Measurement {
                                    value: minus(now_ns, tracker.counters().idle_since_ns),
                                    attributes: key_values_of(tracker.attrs()),
                                },
                            )
                        } else {
                            recorded == histogram
                        }
                    },
                }
            },
        }
    } else {
        after == before
    }
}

/// What starting an event does.
pub open spec fn event_started(
    before: ThreadLocalState,
    after: ThreadLocalState,
    profiler: Profiler,
    profiler_after: Profiler,
    descr: EventDescr,
    comm: Option<Communicator>,
    version: Version,
    clock: ClockReading,
    node_available: bool,
    event: Option<Event>,
) -> bool {
    &&& profiler_after == (Profiler {
        ncclop_cnt: profiler_after.ncclop_cnt,
        gap_tracker: profiler_after.gap_tracker,
        ..profiler
    })
    &&& window_begun(
        profiler.gap_tracker,
        profiler_after.gap_tracker,
        event,
        profiler.spec_recent_ns(clock),
    )
    &&& match descr {
        EventDescr::Coll(coll) => coll_started(
            before,
            after,
            profiler,
            profiler_after.ncclop_cnt,
            coll,
            comm->0,
            clock,
            node_available,
            event,
        ),
        EventDescr::P2p(p2p) => p2p_started(
            before,
            after,
            profiler,
            profiler_after.ncclop_cnt,
            p2p,
            comm->0,
            clock,
            node_available,
            event,
        ),
        other => {
            &&& profiler_after.ncclop_cnt == profiler.ncclop_cnt
            &&& match other {
                EventDescr::ProxyOp(op) => proxyop_started(
                    before,
                    after,
                    profiler,
                    op,
                    comm,
                    version,
                    clock,
                    event,
                ),
                EventDescr::KernelCh(parent) => kernelch_started(
                    before,
                    after,
                    profiler,
                    parent,
                    clock,
                    event,
                ),
                EventDescr::ProxyStep(step) => after == before && proxystep_started(step, event),
                _ => after == before && group_started(profiler.config, clock, event),
            }
        },
    }
}

/// The operation of a parent handle can take one more reference.
pub open spec fn has_ref_room(thread: ThreadLocalState, pid: i32, ncclop: Option<usize>) -> bool {
    ncclop matches Some(op) ==> refs_before(thread.refs(), OpRef { pid, op }) < usize::MAX
}

/// What NCCL guarantees when it starts an event: the communicator of an
/// operation is there, and so is that of a proxy operation of this process.
pub open spec fn can_start(
    thread: ThreadLocalState,
    profiler: Profiler,
    descr: EventDescr,
    comm: Option<Communicator>,
) -> bool {
    match descr {
        EventDescr::Coll(_) => comm is Some,
        EventDescr::P2p(_) => comm is Some,
        EventDescr::ProxyOp(op) => !untracked_parent(op.parent) ==> {
            &&& profiler.config.heartbeat_collective_progress && profiler.pid == op.pid
                ==> comm is Some
            &&& skips_proxyop_steps(profiler.config, op) ==> has_ref_room(
                thread,
                op.pid,
                op.parent.ncclop,
            )
        },
        EventDescr::KernelCh(parent) => !untracked_parent(parent) ==> has_ref_room(
            thread,
            profiler.pid,
            parent.ncclop,
        ),
        _ => true,
    }
}

fn ref_room(thread: &ThreadLocalState, pid: i32, ncclop: Option<usize>) -> (r: bool)
    requires
        thread.wf(),
    ensures
        r == has_ref_room(*thread, pid, ncclop),
{
    match ncclop {
        Some(op) => match thread.ncclop_refcnt.find(&OpRef { pid, op }) {
            Some(i) => thread.ncclop_refcnt.entries[i].1.count < usize::MAX,
            None => true,
        },
        None => true,
    }
}

/// Whether all is there that starting an event needs.
pub fn can_start_event(
    thread: &ThreadLocalState,
    profiler: &Profiler,
    descr: &EventDescr,
    comm: &Option<Communicator>,
) -> (r: bool)
    requires
        thread.wf(),
    ensures
        r == can_start(*thread, *profiler, *descr, *comm),
{
    match descr {
        EventDescr::Coll(_) => comm.is_some(),
        EventDescr::P2p(_) => comm.is_some(),
        EventDescr::ProxyOp(op) => {
            let untracked = op.parent.is_null || op.parent.kind == HandleKind::SmallNcclOp;
            let tied = profiler.config.heartbeat_collective_progress && profiler.pid == op.pid;
            let skips_steps = op.parent.kind == HandleKind::NcclOpLite || (!op.is_send
                && !profiler.config.track_recv_steps);
            untracked || ((!tied || comm.is_some()) && (!skips_steps || ref_room(
                thread,
                op.pid,
                op.parent.ncclop,
            )))
        },
        EventDescr::KernelCh(parent) => {
            let untracked = parent.is_null || parent.kind == HandleKind::SmallNcclOp;
            untracked || ref_room(thread, profiler.pid, parent.ncclop)
        },
        _ => true,
    }
}

/// Starting an event touches no state: neither the thread nor the profiler.
pub open spec fn starts_without_state(config: Config, descr: EventDescr) -> bool {
    match descr {
        EventDescr::Group => true,
        EventDescr::Coll(coll) => coll_start(config, coll) is Ignore || coll_start(
            config,
            coll,
        ) is Placeholder,
        EventDescr::P2p(_) => false,
        EventDescr::ProxyOp(op) => untracked_parent(op.parent),
        EventDescr::KernelCh(parent) => untracked_parent(parent) || parent.ncclop is None,
        EventDescr::ProxyStep(step) => step.proxyop is None,
    }
}

/// The event that starts where no state is touched.
pub open spec fn stateless_event(
    config: Config,
    descr: EventDescr,
    comm: Option<Communicator>,
    clock: ClockReading,
) -> Option<Event> {
    match descr {
        EventDescr::Group => if config.track_ncclop {
            Some(Event::Group(Group { start_time: clock.now }))
        } else if config.track_proxyop {
            Some(Event::Dummy(UNTRACKED_OP))
        } else {
            None
        },
        EventDescr::Coll(coll) => if coll_start(config, coll) is Placeholder {
            Some(
                Event::Dummy(
                    resolved_comm_hash(comm->0.comm_hash, coll.comm_hash) as usize,
                ),
            )
        } else {
            None
        },
        _ => None,
    }
}

/// Starts an event that touches no state, which takes neither a thread nor a
/// profiler; any other event is left to [`start_event_handler`].
pub fn start_without_state(
    config: &Config,
    descr: &EventDescr,
    comm: &Option<Communicator>,
    clock: &ClockReading,
) -> (r: Option<Option<Event>>)
    requires
        *descr is Coll ==> *comm is Some,
    ensures
        r is Some <==> starts_without_state(*config, *descr),
        r matches Some(event) ==> event == stateless_event(*config, *descr, *comm, *clock),
{
    match descr {
        EventDescr::Group => Some(start_group(config, clock)),
        EventDescr::Coll(coll) => match classify_coll(config, coll) {
            CollStart::Ignore => Some(None),
            CollStart::Placeholder => {
                let own: Option<u64> = match comm {
                    Some(comm) => comm.comm_hash,
                    None => None,
                };
                let hash: u64 = resolve_comm_hash(own, coll.comm_hash);
                Some(Some(Event::Dummy(#[verifier::truncate] (hash as usize))))
            },
            _ => None,
        },
        EventDescr::P2p(_) => None,
        EventDescr::ProxyOp(op) => if op.parent.is_null || op.parent.kind
            == HandleKind::SmallNcclOp {
            Some(None)
        } else {
            None
        },
        EventDescr::KernelCh(parent) => if parent.is_null || parent.kind == HandleKind::SmallNcclOp
            || parent.ncclop.is_none() {
            Some(None)
        } else {
            None
        },
        EventDescr::ProxyStep(step) => if step.proxyop.is_none() {
            Some(None)
        } else {
            None
        },
    }
}

fn start_group(config: &Config, clock: &ClockReading) -> (r: Option<Event>)
    ensures
        group_started(*config, *clock, r),
{
    if config.track_ncclop {
        Some(Event::Group(Group { start_time: clock.now }))
    } else if config.track_proxyop {
        Some(Event::Dummy(UNTRACKED_OP))
    } else {
        None
    }
}

fn start_coll(
    thread: &mut ThreadLocalState,
    profiler: &mut Profiler,
    descr: &CollDescr,
    comm: &Communicator,
    clock: &ClockReading,
    node_available: bool,
) -> (r: Option<Event>)
    ensures
        *final(profiler) == (Profiler {
            ncclop_cnt: final(profiler).ncclop_cnt,
            ..*old(profiler)
        }),
        coll_started(
            *old(thread),
            *final(thread),
            *old(profiler),
            final(profiler).ncclop_cnt,
            *descr,
            *comm,
            *clock,
            node_available,
            r,
        ),
{
    let start = classify_coll(&profiler.config, descr);
    match start {
        CollStart::Ignore => None,
        CollStart::Placeholder => {
            let hash: u64 = resolve_comm_hash(comm.comm_hash, descr.comm_hash);
            Some(Event::Dummy(#[verifier::truncate] (hash as usize)))
        },
        CollStart::Small => {
            let hash: u64 = resolve_comm_hash(comm.comm_hash, descr.comm_hash);
            Some(Event::SmallNcclOp(#[verifier::truncate] (hash as usize)))
        },
        CollStart::TrackLite => start_op(
            thread,
            profiler,
            OpDescr::Coll(*descr),
            clock.now,
            true,
            comm.comm_hash,
            node_available,
        ),
        CollStart::Track => start_op(
            thread,
            profiler,
            OpDescr::Coll(*descr),
            clock.now,
            false,
            comm.comm_hash,
            node_available,
        ),
    }
}

fn start_p2p(
    thread: &mut ThreadLocalState,
    profiler: &mut Profiler,
    descr: &P2pDescr,
    comm: &Communicator,
    clock: &ClockReading,
    node_available: bool,
) -> (r: Option<Event>)
    ensures
        *final(profiler) == (Profiler {
            ncclop_cnt: final(profiler).ncclop_cnt,
            ..*old(profiler)
        }),
        p2p_started(
            *old(thread),
            *final(thread),
            *old(profiler),
            final(profiler).ncclop_cnt,
            *descr,
            *comm,
            *clock,
            node_available,
            r,
        ),
{
    let should_sample = sample_p2p(thread, &profiler.config, descr.is_send);
    if should_sample {
        if profiler.config.track_ncclop {
            if descr.byte_count > profiler.config.small_msg_threshold {
                let time: u64 = profiler.recent_timer_instant(clock);
                start_op(
                    thread,
                    profiler,
                    OpDescr::P2p(*descr),
                    time,
                    false,
                    comm.comm_hash,
                    node_available,
                )
            } else {
                None
            }
        } else if profiler.config.track_proxyop {
            let hash: u64 = resolve_comm_hash(comm.comm_hash, descr.comm_hash);
            Some(Event::Dummy(#[verifier::truncate] (hash as usize)))
        } else {
            None
        }
    } else {
        None
    }
}

fn start_proxyop(
    thread: &mut ThreadLocalState,
    profiler: &Profiler,
    descr: &ProxyOpDescr,
    comm: Option<Communicator>,
    version: Version,
    clock: &ClockReading,
) -> (r: Option<Event>)
    requires
        old(thread).wf(),
        can_start(*old(thread), *profiler, EventDescr::ProxyOp(*descr), comm),
    ensures
        final(thread).wf(),
        proxyop_started(
            *old(thread),
            *final(thread),
            *profiler,
            *descr,
            comm,
            version,
            *clock,
            r,
        ),
{
    if descr.parent.is_null || descr.parent.kind == HandleKind::SmallNcclOp {
        return None;
    }
    let id: u32 = thread.next_proxyop_id();
    let tied = if profiler.config.heartbeat_collective_progress && profiler.pid == descr.pid {
        comm
    } else {
        None
    };
    let mut data = ProxyOpLocalData::new(
        id,
        descr,
        version == Version::V1,
        profiler.config.track_step_fifo_wait,
        tied,
    );
    data.parent_op = descr.parent.ncclop;
    let skip_step_tracking = descr.parent.kind == HandleKind::NcclOpLite || (!descr.is_send
        && !profiler.config.track_recv_steps);
    if skip_step_tracking {
        match descr.parent.ncclop {
            Some(ncclop) => {
                let now: u64 = profiler.recent_timer_instant(clock);
                thread.inc_ncclop_ref(data.info.pid, ncclop, now);
                Some(Event::ProxyOpLite(data))
            },
            None => None,
        }
    } else {
        let ghost before = thread.sampler.drawn();
        data.rng_seed = thread.sampler.draw();
        proof {
            assert(thread.sampler.drawn() =~= before + seq![data.rng_seed]);
        }
        Some(Event::ProxyOp(data))
    }
}

fn start_kernelch(
    thread: &mut ThreadLocalState,
    profiler: &Profiler,
    parent: &ParentHandle,
    clock: &ClockReading,
) -> (r: Option<Event>)
    requires
        old(thread).wf(),
        can_start(*old(thread), *profiler, EventDescr::KernelCh(*parent), None),
    ensures
        final(thread).wf(),
        kernelch_started(*old(thread), *final(thread), *profiler, *parent, *clock, r),
{
    if parent.is_null || parent.kind == HandleKind::SmallNcclOp {
        return None;
    }
    match parent.ncclop {
        Some(ncclop) => {
            let now: u64 = profiler.recent_timer_instant(clock);
            thread.inc_ncclop_ref(profiler.pid, ncclop, now);
            Some(Event::KernelCh(KernelCh { parent_op: Some(ncclop) }))
        },
        None => None,
    }
}

/// NCCL starts an event: decides whether and how it is tracked, announces
/// tracked operations to the daemon, and opens an activity window.
pub fn start_event_handler(
    thread: &mut ThreadLocalState,
    profiler: &mut Profiler,
    descr: &EventDescr,
    comm: Option<Communicator>,
    version: Version,
    clock: &ClockReading,
    node_available: bool,
) -> (r: NcclResult<Option<Event>>)
    requires
        old(thread).wf(),
        can_start(*old(thread), *old(profiler), *descr, comm),
    ensures
        final(thread).wf(),
        r matches Ok(event) && event_started(
            *old(thread),
            *final(thread),
            *old(profiler),
            *final(profiler),
            *descr,
            comm,
            version,
            *clock,
            node_available,
            event,
        ),
{
    let event = match descr {
        EventDescr::Group => start_group(&profiler.config, clock),
        EventDescr::Coll(coll) => {
            let comm = comm.unwrap();
            start_coll(thread, profiler, coll, &comm, clock, node_available)
        },
        EventDescr::P2p(p2p) => {
            let comm = comm.unwrap();
            start_p2p(thread, profiler, p2p, &comm, clock, node_available)
        },
        EventDescr::ProxyOp(op) => start_proxyop(thread, profiler, op, comm, version, clock),
        EventDescr::KernelCh(parent) => start_kernelch(thread, profiler, parent, clock),
        EventDescr::ProxyStep(step) => match step.proxyop {
            Some(parent) => Some(Event::ProxyStep(ProxyStep::new(step.step, parent))),
            None => None,
        },
    };
    let begins = match &event {
        Some(event) => is_nccl_activity(event),
        None => false,
    };
    if begins {
        let now_ns: u64 = profiler.recent_timer_ns(clock);
        if let Some(gap_tracker) = &mut profiler.gap_tracker {
            let read_clock = (|| -> (now: u64)
                ensures
                    now == now_ns,
            {
                now_ns
            });
            gap_tracker.activity_begin(read_clock);
        }
    }
    Ok(event)
}

} // verus!
