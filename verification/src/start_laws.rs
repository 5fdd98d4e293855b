//! What holds of every event that NCCL starts.
use crate::attributes::key_values_of;
use crate::config::{ClockReading, Config};
use crate::daemon::MessageView;
use crate::event::{Event, Group};
use crate::instruments::{histogram_sent, requested};
use crate::nccl_metadata::{
    CollDescr, EventDescr, OpDescr, P2pDescr, ParentHandle, ProxyOpDescr, ProxyStepDescr,
};
use crate::profiler::{
    refs_after_inc, Communicator, KernelCh, OpRef, Profiler, RefCount, ThreadLocalState, Version,
};
use crate::sampler::SampleRate;
use crate::start_event::{can_start, draws_between, event_started, starts_without_state};
use vstd::prelude::*;

verus! {

/// Time runs at the rate of the configured clock: without the cached clock,
/// the time since start and the start add up to the current instant.
pub proof fn law_timers_show_the_clock(profiler: Profiler, clock: ClockReading)
    ensures
        !profiler.config.use_cached_clock ==> {
            &&& profiler.spec_recent_instant(clock) == clock.now
            &&& clock.now >= profiler.init_instant ==> profiler.spec_recent_ns(clock)
                + profiler.init_instant == clock.now
            &&& clock.now < profiler.init_instant ==> profiler.spec_recent_ns(clock) == 0
        },
        profiler.config.use_cached_clock ==> {
            &&& profiler.spec_recent_instant(clock) == clock.cached
            &&& profiler.spec_recent_ns(clock) == clock.cached_ns
        },
{
}

/// The profiler keeps everything but its count of operations and its gap
/// tracker, and a thread only ever adds to its outgoing operations.
pub proof fn law_start_leaves_the_rest_alone(
    before: ThreadLocalState,
    after: ThreadLocalState,
    profiler: Profiler,
    profiler_after: Profiler,
    descr: EventDescr,
    comm: Option<Communicator>,
    version: Version,
    clock: ClockReading,
    node_available: bool,
    event: Option<Event>,
)
    requires
        event_started(
            before,
            after,
            profiler,
            profiler_after,
            descr,
            comm,
            version,
            clock,
            node_available,
            event,
        ),
    ensures
        profiler_after.config == profiler.config,
        profiler_after.version == profiler.version,
        profiler_after.pid == profiler.pid,
        profiler_after.init_time == profiler.init_time,
        profiler_after.init_instant == profiler.init_instant,
        profiler_after.daemon == profiler.daemon,
        profiler_after.ctrl_fifo == profiler.ctrl_fifo,
        profiler_after.remote_net_bytes == profiler.remote_net_bytes,
        profiler_after.gpuviz_lib == profiler.gpuviz_lib,
        profiler_after.step_batch_capacity == profiler.step_batch_capacity,
        after.fifo == before.fifo,
        after.free_lists == before.free_lists,
        before.ncclop_fifo@.is_prefix_of(after.ncclop_fifo@),
        after.ncclop_fifo@.len() <= before.ncclop_fifo@.len() + 1,
        after.ncclop_fifo.channel == before.ncclop_fifo.channel,
        after.ncclop_fifo.batch == before.ncclop_fifo.batch,
        after.ncclop_fifo.capacity == before.ncclop_fifo.capacity,
        !(descr is ProxyOp) ==> after.proxyop_id == before.proxyop_id,
        !(descr is ProxyOp) && !(descr is KernelCh) ==> after.refs() == before.refs(),
        !(descr is P2p) && !(descr is ProxyOp) ==> after.sampler == before.sampler,
{
}

/// A group starts with the current instant where operations are tracked, and
/// as a placeholder where only proxy operations are.
pub proof fn law_groups_start_now(
    before: ThreadLocalState,
    after: ThreadLocalState,
    profiler: Profiler,
    profiler_after: Profiler,
    comm: Option<Communicator>,
    version: Version,
    clock: ClockReading,
    node_available: bool,
    event: Option<Event>,
)
    requires
        event_started(
            before,
            after,
            profiler,
            profiler_after,
            EventDescr::Group,
            comm,
            version,
            clock,
            node_available,
            event,
        ),
    ensures
        after == before,
        profiler_after == profiler,
        profiler.config.track_ncclop ==> event == Some(
            Event::Group(Group { start_time: clock.now }),
        ),
        !profiler.config.track_ncclop && profiler.config.track_proxyop ==> event == Some(
            Event::Dummy(42),
        ),
        !profiler.config.track_ncclop && !profiler.config.track_proxyop ==> event is None,
{
}

/// Where operations are tracked, every collective outside the fast path is
/// announced, once, with its communicator, the current instant and the next
/// identifier. Its steps are followed where steps are wanted, NVLS is not
/// skipped for it, and its size does not rule them out.
pub proof fn law_collectives_are_announced(
    before: ThreadLocalState,
    after: ThreadLocalState,
    profiler: Profiler,
    profiler_after: Profiler,
    coll: CollDescr,
    comm: Communicator,
    version: Version,
    clock: ClockReading,
    node_available: bool,
    event: Option<Event>,
)
    requires
        event_started(
            before,
            after,
            profiler,
            profiler_after,
            EventDescr::Coll(coll),
            Some(comm),
            version,
            clock,
            node_available,
            event,
        ),
        profiler.config.track_ncclop,
        !profiler.config.skip_small_collective || coll.op_type is AllReduce || coll.byte_count
            > profiler.config.small_msg_threshold,
    ensures
        profiler_after.ncclop_cnt == profiler.ncclop_cnt.wrapping_add(1),
        after.refs() == before.refs(),
        node_available ==> {
            &&& after.ncclop_fifo@.len() == before.ncclop_fifo@.len() + 1
            &&& after.ncclop_fifo@.drop_last() == before.ncclop_fifo@
            &&& after.ncclop_fifo@.last().1
            &&& after.ncclop_fifo@.last().0 matches MessageView::NcclOp(op)
            &&& op.id == profiler.ncclop_cnt as usize
            &&& op.start_time == clock.now
            &&& op.descr == OpDescr::Coll(coll)
            &&& comm.comm_hash is Some ==> op.comm_hash == comm.comm_hash->0
            &&& comm.comm_hash is None && coll.comm_hash is Some ==> op.comm_hash
                == coll.comm_hash->0
            &&& comm.comm_hash is None && coll.comm_hash is None ==> op.comm_hash == 42
            &&& op.child_start_time is None && op.child_duration_ns is None && op.end_time is None
            &&& event == Some(Event::NcclOp(op.id)) || event == Some(Event::NcclOpLite(op.id))
            &&& event == Some(Event::NcclOp(op.id)) <==> {
                &&& profiler.config.track_steps || profiler.config.aggregate_steps
                &&& profiler.config.skip_nvls ==> coll.algo is Other
                &&& profiler.config.skip_small_collective_steps ==> coll.op_type is AllReduce
                    || coll.byte_count > profiler.config.small_msg_threshold
            }
        },
        !node_available ==> {
            &&& event == Some(Event::Dummy(42))
            &&& after == before
            &&& profiler_after.gap_tracker == profiler.gap_tracker
        },
{
    assert(after.ncclop_fifo@.drop_last() =~= before.ncclop_fifo@ || !node_available);
}

/// A collective that is not announced leaves the thread and the count of
/// operations alone. It stands for its communicator where it is on the fast
/// path, or where only proxy operations are tracked.
pub proof fn law_other_collectives_stand_for_their_communicator(
    before: ThreadLocalState,
    after: ThreadLocalState,
    profiler: Profiler,
    profiler_after: Profiler,
    coll: CollDescr,
    comm: Communicator,
    version: Version,
    clock: ClockReading,
    node_available: bool,
    event: Option<Event>,
    hash: u64,
)
    requires
        event_started(
            before,
            after,
            profiler,
            profiler_after,
            EventDescr::Coll(coll),
            Some(comm),
            version,
            clock,
            node_available,
            event,
        ),
        !profiler.config.track_ncclop || profiler.config.skip_small_collective && !(
        coll.op_type is AllReduce) && coll.byte_count <= profiler.config.small_msg_threshold,
        comm.comm_hash is Some ==> hash == comm.comm_hash->0,
        comm.comm_hash is None && coll.comm_hash is Some ==> hash == coll.comm_hash->0,
        comm.comm_hash is None && coll.comm_hash is None ==> hash == 42,
    ensures
        after == before,
        profiler_after.ncclop_cnt == profiler.ncclop_cnt,
        profiler.config.track_ncclop ==> event == Some(Event::SmallNcclOp(hash as usize)),
        !profiler.config.track_ncclop && profiler.config.track_proxyop ==> event == Some(
            Event::Dummy(hash as usize),
        ),
        !profiler.config.track_ncclop && !profiler.config.track_proxyop ==> event is None,
{
}

/// A transfer is announced exactly where operations are tracked, it is above
/// the threshold, and chance takes it: a send where the first number drawn is
/// within the common rate, a receive where the next one is within the receive
/// rate as well. A rate of one or zero draws no number.
pub proof fn law_sampled_transfers_are_announced(
    before: ThreadLocalState,
    after: ThreadLocalState,
    profiler: Profiler,
    profiler_after: Profiler,
    p2p: P2pDescr,
    comm: Communicator,
    version: Version,
    clock: ClockReading,
    node_available: bool,
    event: Option<Event>,
)
    requires
        event_started(
            before,
            after,
            profiler,
            profiler_after,
            EventDescr::P2p(p2p),
            Some(comm),
            version,
            clock,
            node_available,
            event,
        ),
    ensures
        before.sampler.drawn().is_prefix_of(after.sampler.drawn()),
        ({
            let config = profiler.config;
            let numbers = after.sampler.drawn();
            let n = before.sampler.drawn().len() as int;
            let common = match config.p2p_sample_rate {
                SampleRate::Always => true,
                SampleRate::Never => false,
                SampleRate::AtMost(bar) => numbers[n] <= bar,
            };
            let m = if config.p2p_sample_rate is AtMost {
                n + 1
            } else {
                n
            };
            let received = match config.p2p_recv_sample_rate {
                SampleRate::Always => true,
                SampleRate::Never => false,
                SampleRate::AtMost(bar) => numbers[m] <= bar,
            };
            let taken = common && (p2p.is_send || received);
            let asks_again = common && !p2p.is_send && config.p2p_recv_sample_rate is AtMost;
            let announced = taken && config.track_ncclop && p2p.byte_count
                > config.small_msg_threshold;
            &&& numbers.len() == if asks_again {
                m + 1
            } else {
                m
            }
            &&& announced && node_available ==> {
                &&& event == Some(Event::NcclOp(profiler.ncclop_cnt as usize))
                &&& after.ncclop_fifo@.len() == before.ncclop_fifo@.len() + 1
                &&& after.ncclop_fifo@.drop_last() == before.ncclop_fifo@
                &&& after.ncclop_fifo@.last().1
                &&& after.ncclop_fifo@.last().0 matches MessageView::NcclOp(op)
                &&& op.id == profiler.ncclop_cnt as usize
                &&& op.start_time == if config.use_cached_clock {
                    clock.cached
                } else {
                    clock.now
                }
                &&& op.descr == OpDescr::P2p(p2p)
                &&& comm.comm_hash is Some ==> op.comm_hash == comm.comm_hash->0
                &&& comm.comm_hash is None && p2p.comm_hash is Some ==> op.comm_hash
                    == p2p.comm_hash->0
                &&& comm.comm_hash is None && p2p.comm_hash is None ==> op.comm_hash == 42
                &&& op.child_start_time is None && op.child_duration_ns is None
                    && op.end_time is None
            }
            &&& announced && !node_available ==> event == Some(Event::Dummy(42))
                && after.ncclop_fifo == before.ncclop_fifo
            &&& profiler_after.ncclop_cnt == if announced {
                profiler.ncclop_cnt.wrapping_add(1)
            } else {
                profiler.ncclop_cnt
            }
            &&& !announced ==> after.ncclop_fifo == before.ncclop_fifo && (event is None || event
                == Some(
                Event::Dummy(
                    (if comm.comm_hash is Some {
                        comm.comm_hash->0
                    } else if p2p.comm_hash is Some {
                        p2p.comm_hash->0
                    } else {
                        42
                    }) as usize,
                ),
            ))
            &&& !announced && event is Some <==> taken && !config.track_ncclop
                && config.track_proxyop
        }),
{
    let draws = draws_between(before, after);
    let n = before.sampler.drawn().len() as int;
    assert(before.sampler.drawn() + draws == after.sampler.drawn());
    if draws.len() > 0 {
        assert(draws[0] == after.sampler.drawn()[n]);
    }
    if draws.len() > 1 {
        assert(draws.skip(1)[0] == after.sampler.drawn()[n + 1]);
    }
    assert(after.ncclop_fifo@.len() > 0 ==> after.ncclop_fifo@.drop_last()
        =~= before.ncclop_fifo@ || after.ncclop_fifo == before.ncclop_fifo);
}

/// Where operations are tracked and both rates are one, every transfer above
/// the threshold is announced, in either direction.
pub proof fn law_all_transfers_are_announced(
    before: ThreadLocalState,
    after: ThreadLocalState,
    profiler: Profiler,
    profiler_after: Profiler,
    p2p: P2pDescr,
    comm: Communicator,
    version: Version,
    clock: ClockReading,
    event: Option<Event>,
)
    requires
        event_started(
            before,
            after,
            profiler,
            profiler_after,
            EventDescr::P2p(p2p),
            Some(comm),
            version,
            clock,
            true,
            event,
        ),
        profiler.config.p2p_sample_rate is Always,
        profiler.config.p2p_recv_sample_rate is Always,
        profiler.config.track_ncclop,
        p2p.byte_count > profiler.config.small_msg_threshold,
    ensures
        event == Some(Event::NcclOp(profiler.ncclop_cnt as usize)),
        after.ncclop_fifo@.len() == before.ncclop_fifo@.len() + 1,
        after.ncclop_fifo@.last().0 matches MessageView::NcclOp(op) && op.descr == OpDescr::P2p(p2p),
{
    law_sampled_transfers_are_announced(
        before,
        after,
        profiler,
        profiler_after,
        p2p,
        comm,
        version,
        clock,
        true,
        event,
    );
}

/// A higher bar never takes less, and the highest bar takes everything.
pub proof fn law_higher_rates_take_more(low: u32, high: u32, draw: u32)
    ensures
        SampleRate::AtMost(low).spec_admits(draw) && low <= high ==> SampleRate::AtMost(
            high,
        ).spec_admits(draw),
        SampleRate::AtMost(u32::MAX).spec_admits(draw),
        SampleRate::AtMost(draw).spec_admits(draw),
        low < draw ==> !SampleRate::AtMost(low).spec_admits(draw),
{
}

/// A reference that an event takes: one more for its operation, whose work
/// starts with the first reference, and nothing else.
pub proof fn law_reference_is_added(refs: Map<OpRef, RefCount>, key: OpRef, other: OpRef, now: u64)
    requires
        refs.contains_key(key) ==> refs[key].count < usize::MAX,
    ensures
        refs_after_inc(refs, key, now).contains_key(key),
        !refs.contains_key(key) ==> {
            &&& refs_after_inc(refs, key, now)[key].count == 1
            &&& refs_after_inc(refs, key, now)[key].start_time == now
            &&& !refs_after_inc(refs, key, now)[key].reported
        },
        refs.contains_key(key) ==> {
            &&& refs_after_inc(refs, key, now)[key].count == refs[key].count + 1
            &&& refs_after_inc(refs, key, now)[key].start_time == refs[key].start_time
            &&& refs_after_inc(refs, key, now)[key].reported == refs[key].reported
        },
        other != key ==> refs_after_inc(refs, key, now).contains_key(other) == refs.contains_key(
            other,
        ) && (refs.contains_key(other) ==> refs_after_inc(refs, key, now)[other] == refs[other]),
{
}

/// A proxy operation without a parent, or with one on the fast path, is
/// ignored. Any other takes the next identifier. Its steps are followed unless
/// its operation is a light one or it receives and receives are not followed;
/// then it counts as a reference to its operation, or is dropped where it has
/// none. It is tied to its communicator only within this process.
pub proof fn law_proxy_operations_start(
    before: ThreadLocalState,
    after: ThreadLocalState,
    profiler: Profiler,
    profiler_after: Profiler,
    descr: ProxyOpDescr,
    comm: Option<Communicator>,
    version: Version,
    clock: ClockReading,
    node_available: bool,
    event: Option<Event>,
    other: OpRef,
)
    requires
        event_started(
            before,
            after,
            profiler,
            profiler_after,
            EventDescr::ProxyOp(descr),
            comm,
            version,
            clock,
            node_available,
            event,
        ),
    ensures
        profiler_after.ncclop_cnt == profiler.ncclop_cnt,
        after.ncclop_fifo == before.ncclop_fifo,
        after.fifo == before.fifo,
        other != (OpRef { pid: descr.pid, op: descr.parent.ncclop->0 }) ==> {
            &&& after.refs().contains_key(other) == before.refs().contains_key(other)
            &&& before.refs().contains_key(other) ==> after.refs()[other] == before.refs()[other]
        },
        descr.parent.is_null || descr.parent.kind is SmallNcclOp ==> event is None && after
            == before,
        !descr.parent.is_null && !(descr.parent.kind is SmallNcclOp) ==> {
            let light = descr.parent.kind is NcclOpLite || !descr.is_send
                && !profiler.config.track_recv_steps;
            &&& after.proxyop_id == before.proxyop_id.wrapping_add(1)
            &&& !light ==> {
                &&& event matches Some(Event::ProxyOp(_))
                &&& after.refs() == before.refs()
                &&& after.sampler.drawn().len() == before.sampler.drawn().len() + 1
                &&& event->0->ProxyOp_0.rng_seed == after.sampler.drawn().last()
            }
            &&& light && descr.parent.ncclop is None ==> event is None && after.refs()
                == before.refs()
            &&& light && descr.parent.ncclop is Some ==> {
                let key = OpRef { pid: descr.pid, op: descr.parent.ncclop->0 };
                &&& event matches Some(Event::ProxyOpLite(_))
                &&& after.sampler == before.sampler
                &&& event->0->ProxyOpLite_0.rng_seed == 0
                &&& after.refs().contains_key(key)
                &&& !before.refs().contains_key(key) ==> {
                    &&& after.refs()[key].count == 1
                    &&& !after.refs()[key].reported
                    &&& after.refs()[key].start_time == if profiler.config.use_cached_clock {
                        clock.cached
                    } else {
                        clock.now
                    }
                }
                &&& before.refs().contains_key(key) && before.refs()[key].count < usize::MAX
                    ==> after.refs()[key].count == before.refs()[key].count + 1
                    && after.refs()[key].start_time == before.refs()[key].start_time
                    && after.refs()[key].reported == before.refs()[key].reported
            }
            &&& event is Some ==> {
                let data = if light {
                    event->0->ProxyOpLite_0
                } else {
                    event->0->ProxyOp_0
                };
                &&& data.info.id == before.proxyop_id
                &&& data.info.pid == descr.pid
                &&& data.info.is_send == descr.is_send
                &&& data.info.comm == if profiler.config.heartbeat_collective_progress
                    && profiler.pid == descr.pid {
                    comm
                } else {
                    None
                }
                &&& data.extra.descr == descr
                &&& data.parent_op == descr.parent.ncclop
                &&& data.n_steps == 0
                &&& data.steps is None
                &&& data.step_tracker.is_send == descr.is_send
                &&& data.step_tracker.is_v1 == (version is V1)
                &&& data.step_tracker.track_fifo_wait == profiler.config.track_step_fifo_wait
            }
        },
{
    if descr.parent.ncclop is Some {
        let key = OpRef { pid: descr.pid, op: descr.parent.ncclop->0 };
        if before.refs().contains_key(key) ==> before.refs()[key].count < usize::MAX {
            law_reference_is_added(
                before.refs(),
                key,
                key,
                profiler.spec_recent_instant(clock),
            );
        }
    }
}

/// A kernel channel of an operation outside the fast path counts as a reference
/// to it; any other is ignored.
pub proof fn law_kernel_channels_start(
    before: ThreadLocalState,
    after: ThreadLocalState,
    profiler: Profiler,
    profiler_after: Profiler,
    parent: ParentHandle,
    comm: Option<Communicator>,
    version: Version,
    clock: ClockReading,
    node_available: bool,
    event: Option<Event>,
    other: OpRef,
)
    requires
        event_started(
            before,
            after,
            profiler,
            profiler_after,
            EventDescr::KernelCh(parent),
            comm,
            version,
            clock,
            node_available,
            event,
        ),
    ensures
        profiler_after.ncclop_cnt == profiler.ncclop_cnt,
        after.ncclop_fifo == before.ncclop_fifo,
        after.fifo == before.fifo,
        after.proxyop_id == before.proxyop_id,
        other != (OpRef { pid: profiler.pid, op: parent.ncclop->0 }) ==> {
            &&& after.refs().contains_key(other) == before.refs().contains_key(other)
            &&& before.refs().contains_key(other) ==> after.refs()[other] == before.refs()[other]
        },
        event is Some <==> !parent.is_null && !(parent.kind is SmallNcclOp)
            && parent.ncclop is Some,
        event is None ==> after == before,
        event is Some ==> {
            let key = OpRef { pid: profiler.pid, op: parent.ncclop->0 };
            &&& event == Some(Event::KernelCh(KernelCh { parent_op: parent.ncclop }))
            &&& after.refs().contains_key(key)
            &&& !before.refs().contains_key(key) ==> {
                &&& after.refs()[key].count == 1
                &&& !after.refs()[key].reported
                &&& after.refs()[key].start_time == if profiler.config.use_cached_clock {
                    clock.cached
                } else {
                    clock.now
                }
            }
            &&& before.refs().contains_key(key) && before.refs()[key].count < usize::MAX
                ==> after.refs()[key].count == before.refs()[key].count + 1
                && after.refs()[key].start_time == before.refs()[key].start_time
                && after.refs()[key].reported == before.refs()[key].reported
        },
{
    if parent.ncclop is Some {
        let key = OpRef { pid: profiler.pid, op: parent.ncclop->0 };
        if before.refs().contains_key(key) ==> before.refs()[key].count < usize::MAX {
            law_reference_is_added(
                before.refs(),
                key,
                key,
                profiler.spec_recent_instant(clock),
            );
        }
    }
}

/// A step of a fully tracked proxy operation starts blank; any other is
/// ignored.
pub proof fn law_steps_start_blank(
    before: ThreadLocalState,
    after: ThreadLocalState,
    profiler: Profiler,
    profiler_after: Profiler,
    descr: ProxyStepDescr,
    comm: Option<Communicator>,
    version: Version,
    clock: ClockReading,
    node_available: bool,
    event: Option<Event>,
)
    requires
        event_started(
            before,
            after,
            profiler,
            profiler_after,
            EventDescr::ProxyStep(descr),
            comm,
            version,
            clock,
            node_available,
            event,
        ),
    ensures
        after == before,
        profiler_after == profiler,
        descr.proxyop is None ==> event is None,
        descr.proxyop is Some ==> {
            &&& event matches Some(Event::ProxyStep(step))
            &&& step.step == descr.step
            &&& step.parent == descr.proxyop->0
            &&& step.size == 0
            &&& step.start_time is None && step.fifo_ready_time is None && step.end_time is None
        },
{
}

/// Operations, proxy operations and kernel channels are activity: each opens a
/// window when it starts. The gap that this ends is recorded, once, where
/// nothing was in flight and an activity ended before: the time from then to
/// now. Groups, placeholders and steps are no activity, and neither is an event
/// that is not tracked.
pub proof fn law_activity_opens_a_window(
    before: ThreadLocalState,
    after: ThreadLocalState,
    profiler: Profiler,
    profiler_after: Profiler,
    descr: EventDescr,
    comm: Option<Communicator>,
    version: Version,
    clock: ClockReading,
    node_available: bool,
    event: Option<Event>,
    now_ns: u64,
)
    requires
        event_started(
            before,
            after,
            profiler,
            profiler_after,
            descr,
            comm,
            version,
            clock,
            node_available,
            event,
        ),
        profiler.config.use_cached_clock ==> now_ns == clock.cached_ns,
        !profiler.config.use_cached_clock && clock.now >= profiler.init_instant ==> now_ns
            + profiler.init_instant == clock.now,
        !profiler.config.use_cached_clock && clock.now < profiler.init_instant ==> now_ns == 0,
        profiler.gap_tracker matches Some(tracker) ==> tracker.counters().in_flight() < 0xffff_ffff,
    ensures
        profiler_after.gap_tracker is Some <==> profiler.gap_tracker is Some,
        ({
            let activity = event is Some && (event->0 is NcclOp || event->0 is NcclOpLite
                || event->0 is SmallNcclOp || event->0 is ProxyOp || event->0 is ProxyOpLite
                || event->0 is KernelCh);
            let old_tracker = profiler.gap_tracker->0;
            let new_tracker = profiler_after.gap_tracker->0;
            let idle_since = old_tracker.counters().idle_since_ns;
            &&& !activity ==> profiler_after.gap_tracker == profiler.gap_tracker
            &&& activity && profiler.gap_tracker is Some ==> {
                &&& new_tracker.counters().in_flight() == old_tracker.counters().in_flight() + 1
                &&& new_tracker.counters().idle_since_ns == idle_since
                &&& new_tracker.counters().last_state == old_tracker.counters().last_state
                &&& new_tracker.counters().stall_logged == old_tracker.counters().stall_logged
                &&& new_tracker.counters().begins() == (old_tracker.counters().begins() + 1)
                    % 0x1_0000_0000
                &&& new_tracker.attrs() == old_tracker.attrs()
                &&& new_tracker.instrument() is Some <==> old_tracker.instrument() is Some
                &&& old_tracker.instrument() matches Some(histogram) ==> {
                    let recorded = new_tracker.instrument()->0;
                    &&& requested(recorded) == requested(histogram)
                    &&& if old_tracker.counters().in_flight() == 0 && idle_since > 0 {
                        let sent = histogram_sent(recorded);
                        &&& sent.len() == histogram_sent(histogram).len() + 1
                        &&& sent.drop_last() == histogram_sent(histogram)
                        &&& now_ns >= idle_since ==> sent.last().value + idle_since == now_ns
                        &&& now_ns < idle_since ==> sent.last().value == 0
                        &&& sent.last().attributes == key_values_of(old_tracker.attrs())
                    } else {
                        recorded == histogram
                    }
                }
            }
        }),
{
    if profiler.gap_tracker is Some && profiler.gap_tracker->0.instrument() is Some
        && profiler_after.gap_tracker is Some && profiler_after.gap_tracker->0.instrument() is Some {
        let histogram = profiler.gap_tracker->0.instrument()->0;
        let recorded = profiler_after.gap_tracker->0.instrument()->0;
        if histogram_sent(recorded).len() > histogram_sent(histogram).len() {
            assert(histogram_sent(recorded).drop_last() =~= histogram_sent(histogram));
        }
    }
}

/// What NCCL has to provide when it starts an event: the communicator of an
/// operation, and that of a proxy operation of this process where progress is
/// reported; and an operation can take one more reference. Groups and steps
/// need nothing.
pub proof fn law_what_starting_needs(
    thread: ThreadLocalState,
    profiler: Profiler,
    descr: EventDescr,
    comm: Option<Communicator>,
)
    ensures
        descr is Group || descr is ProxyStep ==> can_start(thread, profiler, descr, comm),
        descr is Coll || descr is P2p ==> (can_start(thread, profiler, descr, comm)
            <==> comm is Some),
        descr matches EventDescr::ProxyOp(op) ==> {
            let key = OpRef { pid: op.pid, op: op.parent.ncclop->0 };
            let ignored = op.parent.is_null || op.parent.kind is SmallNcclOp;
            let light = op.parent.kind is NcclOpLite || !op.is_send
                && !profiler.config.track_recv_steps;
            can_start(thread, profiler, descr, comm) <==> ignored || {
                &&& comm is Some || !profiler.config.heartbeat_collective_progress || profiler.pid
                    != op.pid
                &&& !light || op.parent.ncclop is None || !thread.refs().contains_key(key)
                    || thread.refs()[key].count < usize::MAX
            }
        },
        descr matches EventDescr::KernelCh(parent) ==> {
            let key = OpRef { pid: profiler.pid, op: parent.ncclop->0 };
            can_start(thread, profiler, descr, comm) <==> parent.is_null
                || parent.kind is SmallNcclOp || parent.ncclop is None
                || !thread.refs().contains_key(key) || thread.refs()[key].count < usize::MAX
        },
{
}

/// Which events start without a thread and a profiler: groups, collectives
/// where operations are not tracked, proxy operations and kernel channels that
/// are ignored, and steps without a proxy operation.
pub proof fn law_which_starts_need_no_state(config: Config, descr: EventDescr)
    ensures
        starts_without_state(config, descr) <==> match descr {
            EventDescr::Group => true,
            EventDescr::Coll(_) => !config.track_ncclop,
            EventDescr::P2p(_) => false,
            EventDescr::ProxyOp(op) => op.parent.is_null || op.parent.kind is SmallNcclOp,
            EventDescr::KernelCh(parent) => parent.is_null || parent.kind is SmallNcclOp
                || parent.ncclop is None,
            EventDescr::ProxyStep(step) => step.proxyop is None,
        },
{
}

} // verus!
