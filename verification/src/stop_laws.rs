//! What holds of every event that NCCL stops, and of every report on the way.
use crate::attributes::key_values_of;
use crate::config::ClockReading;
use crate::daemon::MessageView;
use crate::event::{Event, ProxyStep, StepTimes};
use crate::gap::minus;
use crate::instruments::{histogram_sent, Measurement};
use crate::nccl_metadata::{
    EventDescr, ParentHandle, ProxyOpDescr, ProxyOpState, ProxyStepState,
};
use crate::profiler::{
    refs_after_dec, refs_after_start, Communicator, OpRef, Profiler, ProxyOpLocalData, RefCount,
    ThreadLocalState, Version,
};
use crate::start_event::event_started;
use crate::start_laws::{law_kernel_channels_start, law_proxy_operations_start};
use crate::step_tracker::EventStep;
use crate::stop_event::{
    can_stop, event_stopped, finalize_args, light_progress_recorded, progress_recorded, step_filed,
    step_state_recorded, step_stopped,
};
use vstd::prelude::*;

verus! {

/// What is left of a duration and what is taken from it make up the whole, and
/// nothing is negative.
pub proof fn law_differences_saturate(a: u64, b: u64)
    ensures
        a >= b ==> minus(a, b) + b == a,
        a <= b ==> minus(a, b) == 0,
{
}

/// The profiler keeps everything but its gap tracker, the thread everything
/// but its messages to the daemon and its references, and no message that
/// waits is lost.
pub proof fn law_stop_leaves_the_rest_alone(
    before: ThreadLocalState,
    after: ThreadLocalState,
    profiler: Profiler,
    profiler_after: Profiler,
    event: Event,
    step: Option<EventStep>,
    clock: ClockReading,
)
    requires
        event_stopped(before, after, profiler, profiler_after, event, step, clock),
    ensures
        profiler_after.config == profiler.config,
        profiler_after.version == profiler.version,
        profiler_after.gpuviz_lib == profiler.gpuviz_lib,
        profiler_after.remote_net_bytes == profiler.remote_net_bytes,
        profiler_after.step_batch_capacity == profiler.step_batch_capacity,
        profiler_after.pid == profiler.pid,
        profiler_after.init_time == profiler.init_time,
        profiler_after.init_instant == profiler.init_instant,
        profiler_after.ncclop_cnt == profiler.ncclop_cnt,
        profiler_after.daemon == profiler.daemon,
        profiler_after.ctrl_fifo == profiler.ctrl_fifo,
        after.ncclop_fifo == before.ncclop_fifo,
        after.proxyop_id == before.proxyop_id,
        after.sampler == before.sampler,
        after.fifo.channel == before.fifo.channel,
        after.fifo.batch == before.fifo.batch,
        after.fifo.capacity == before.fifo.capacity,
        after.free_lists == before.free_lists,
        !(event is ProxyStep) ==> before.fifo@.is_prefix_of(after.fifo@),
        !(event is ProxyOpLite) && !(event is KernelCh) ==> after.refs() == before.refs(),
{
}

/// A group is sent to the daemon, at once. The ends of operations and of
/// placeholders send nothing.
pub proof fn law_ends_without_work(
    before: ThreadLocalState,
    after: ThreadLocalState,
    profiler: Profiler,
    profiler_after: Profiler,
    event: Event,
    step: Option<EventStep>,
    clock: ClockReading,
)
    requires
        event_stopped(before, after, profiler, profiler_after, event, step, clock),
    ensures
        event matches Event::Group(group) ==> {
            &&& after.fifo@.len() == before.fifo@.len() + 1
            &&& after.fifo@.drop_last() == before.fifo@
            &&& after.fifo@.last() == (MessageView::Group(group), true)
        },
        event is NcclOp || event is NcclOpLite || event is SmallNcclOp || event is Dummy
            ==> after.fifo@ == before.fifo@,
{
    if event is Group {
        assert(after.fifo@.drop_last() =~= before.fifo@);
    }
}

/// Reported work covers its whole span. The end of a kernel channel or of a
/// light proxy operation sends exactly one message, at once, where it held the
/// last reference to its operation, and none otherwise. The message starts
/// where the references say that the work started, and lasts until now.
pub proof fn law_reported_work_covers_its_span(
    before: ThreadLocalState,
    after: ThreadLocalState,
    profiler: Profiler,
    profiler_after: Profiler,
    event: Event,
    step: Option<EventStep>,
    clock: ClockReading,
)
    requires
        event_stopped(before, after, profiler, profiler_after, event, step, clock),
    ensures
        event matches Event::KernelCh(kernelch) ==> {
            let key = OpRef { pid: profiler.pid, op: kernelch.parent_op->0 };
            if kernelch.parent_op is Some && before.refs().contains_key(key)
                && before.refs()[key].count == 1 {
                &&& after.fifo@.len() == before.fifo@.len() + 1
                &&& after.fifo@.drop_last() == before.fifo@
                &&& after.fifo@.last().1
                &&& after.fifo@.last().0 matches MessageView::KernelCh(start, dur_ns, op)
                &&& op == kernelch.parent_op->0
                &&& start == before.refs()[key].start_time
                &&& start <= clock.now ==> start + dur_ns == clock.now
                &&& start > clock.now ==> dur_ns == 0
            } else {
                after.fifo@ == before.fifo@
            }
        },
        event matches Event::ProxyOpLite(data) ==> {
            let key = OpRef { pid: data.info.pid, op: data.parent_op->0 };
            if data.parent_op is Some && before.refs().contains_key(key)
                && before.refs()[key].count == 1 {
                &&& after.fifo@.len() == before.fifo@.len() + 1
                &&& after.fifo@.drop_last() == before.fifo@
                &&& after.fifo@.last().1
                &&& after.fifo@.last().0 matches MessageView::ProxyOpLite(start, dur_ns, info)
                &&& info == data.info
                &&& start == before.refs()[key].start_time
                &&& start <= clock.now ==> start + dur_ns == clock.now
                &&& start > clock.now ==> dur_ns == 0
            } else {
                after.fifo@ == before.fifo@
            }
        },
{
    if after.fifo@.len() > before.fifo@.len() {
        assert(after.fifo@.drop_last() =~= before.fifo@ || event is ProxyOp || event is ProxyStep
            || event is Group);
    }
}

/// A reference that an ending event drops: one less for its operation, which
/// is forgotten with the last one, and nothing else.
pub proof fn law_reference_is_dropped(refs: Map<OpRef, RefCount>, key: OpRef, other: OpRef)
    requires
        refs.contains_key(key) ==> refs[key].count > 0,
    ensures
        !refs.contains_key(key) ==> refs_after_dec(refs, key) == refs,
        refs.contains_key(key) && refs[key].count == 1 ==> !refs_after_dec(refs, key).contains_key(
            key,
        ),
        refs.contains_key(key) && refs[key].count > 1 ==> {
            &&& refs_after_dec(refs, key).contains_key(key)
            &&& refs_after_dec(refs, key)[key].count + 1 == refs[key].count
            &&& refs_after_dec(refs, key)[key].start_time == refs[key].start_time
            &&& refs_after_dec(refs, key)[key].reported == refs[key].reported
        },
        other != key ==> refs_after_dec(refs, key).contains_key(other) == refs.contains_key(other)
            && (refs.contains_key(other) ==> refs_after_dec(refs, key)[other] == refs[other]),
{
}

/// The end of a kernel channel or of a light proxy operation gives up one
/// reference to its operation, which is forgotten with the last one. No other
/// operation loses one.
pub proof fn law_stop_gives_up_the_reference(
    before: ThreadLocalState,
    after: ThreadLocalState,
    profiler: Profiler,
    profiler_after: Profiler,
    event: Event,
    step: Option<EventStep>,
    clock: ClockReading,
    key: OpRef,
)
    requires
        event_stopped(before, after, profiler, profiler_after, event, step, clock),
        before.refs().contains_key(key) ==> before.refs()[key].count > 0,
    ensures
        ({
            let held = match event {
                Event::KernelCh(kernelch) => kernelch.parent_op == Some(key.op) && profiler.pid
                    == key.pid,
                Event::ProxyOpLite(data) => data.parent_op == Some(key.op) && data.info.pid
                    == key.pid,
                _ => false,
            };
            &&& !before.refs().contains_key(key) ==> !after.refs().contains_key(key)
            &&& before.refs().contains_key(key) && !held ==> after.refs().contains_key(key)
                && after.refs()[key] == before.refs()[key]
            &&& before.refs().contains_key(key) && held ==> {
                &&& after.refs().contains_key(key) <==> before.refs()[key].count > 1
                &&& before.refs()[key].count > 1 ==> {
                    &&& after.refs()[key].count + 1 == before.refs()[key].count
                    &&& after.refs()[key].start_time == before.refs()[key].start_time
                    &&& after.refs()[key].reported == before.refs()[key].reported
                }
            }
        }),
{
}

/// The first report that the work of an operation starts moves its start to
/// now, keeps its references, and touches no other operation.
pub proof fn law_reported_start_is_noted(
    refs: Map<OpRef, RefCount>,
    key: OpRef,
    other: OpRef,
    now: u64,
)
    ensures
        refs.contains_key(key) && !refs[key].reported ==> {
            &&& refs_after_start(refs, key, now).contains_key(key)
            &&& refs_after_start(refs, key, now)[key].start_time == now
            &&& refs_after_start(refs, key, now)[key].reported
            &&& refs_after_start(refs, key, now)[key].count == refs[key].count
        },
        !refs.contains_key(key) || refs[key].reported ==> refs_after_start(refs, key, now) == refs,
        other != key ==> refs_after_start(refs, key, now).contains_key(other)
            == refs.contains_key(other) && (refs.contains_key(other) ==> refs_after_start(
            refs,
            key,
            now,
        )[other] == refs[other]),
{
}

/// The work of an operation starts when its first light proxy operation is
/// reported in progress. Other states and other events change nothing.
pub proof fn law_progress_starts_the_work(
    before: ThreadLocalState,
    after: ThreadLocalState,
    profiler: Profiler,
    event: Event,
    state: ProxyOpState,
    clock: ClockReading,
    other: OpRef,
)
    requires
        light_progress_recorded(before, after, profiler, event, state, clock),
    ensures
        after.fifo == before.fifo,
        after.ncclop_fifo == before.ncclop_fifo,
        after.sampler == before.sampler,
        !(event is ProxyOpLite) || !(state is InProgress) ==> after.refs() == before.refs(),
        event matches Event::ProxyOpLite(data) ==> {
            let key = OpRef { pid: data.info.pid, op: data.parent_op->0 };
            &&& data.parent_op is None ==> after.refs() == before.refs()
            &&& other != key ==> after.refs().contains_key(other) == before.refs().contains_key(
                other,
            ) && (before.refs().contains_key(other) ==> after.refs()[other]
                == before.refs()[other])
            &&& state is InProgress && data.parent_op is Some && before.refs().contains_key(key)
                && !before.refs()[key].reported ==> {
                &&& after.refs().contains_key(key)
                &&& after.refs()[key].count == before.refs()[key].count
                &&& after.refs()[key].reported
                &&& after.refs()[key].start_time == if profiler.config.use_cached_clock {
                    clock.cached
                } else {
                    clock.now
                }
            }
            &&& data.parent_op is Some && before.refs().contains_key(key)
                && before.refs()[key].reported ==> after.refs() == before.refs()
        },
{
}

/// The whole life of an operation's only kernel channel: the work that is
/// reported when it stops starts when it started and ends when it stops.
pub proof fn law_kernel_channel_is_reported_in_full(
    t0: ThreadLocalState,
    t1: ThreadLocalState,
    t2: ThreadLocalState,
    p0: Profiler,
    p1: Profiler,
    p2: Profiler,
    parent: ParentHandle,
    comm: Option<Communicator>,
    version: Version,
    node_available: bool,
    event: Event,
    step: Option<EventStep>,
    c1: ClockReading,
    c2: ClockReading,
)
    requires
        !p0.config.use_cached_clock,
        c1.now <= c2.now,
        event_started(
            t0,
            t1,
            p0,
            p1,
            EventDescr::KernelCh(parent),
            comm,
            version,
            c1,
            node_available,
            Some(event),
        ),
        !t0.refs().contains_key(OpRef { pid: p0.pid, op: parent.ncclop->0 }),
        event_stopped(t1, t2, p1, p2, event, step, c2),
    ensures
        t2.fifo@.len() == t0.fifo@.len() + 1,
        t2.fifo@.last() == (
            MessageView::KernelCh(c1.now, (c2.now - c1.now) as u64, parent.ncclop->0),
            true,
        ),
{
    law_kernel_channels_start(
        t0,
        t1,
        p0,
        p1,
        parent,
        comm,
        version,
        c1,
        node_available,
        Some(event),
        OpRef { pid: p0.pid, op: 0 },
    );
    law_reported_work_covers_its_span(t1, t2, p1, p2, event, step, c2);
}

/// The whole life of an operation's only light proxy operation: the work that
/// is reported when it stops starts when it was reported in progress, and ends
/// when it stops.
pub proof fn law_light_proxy_operation_is_reported_in_full(
    t0: ThreadLocalState,
    t1: ThreadLocalState,
    t2: ThreadLocalState,
    t3: ThreadLocalState,
    p0: Profiler,
    p1: Profiler,
    p2: Profiler,
    descr: ProxyOpDescr,
    comm: Option<Communicator>,
    version: Version,
    node_available: bool,
    data: ProxyOpLocalData,
    step: Option<EventStep>,
    c1: ClockReading,
    c2: ClockReading,
    c3: ClockReading,
)
    requires
        !p0.config.use_cached_clock,
        c2.now <= c3.now,
        event_started(
            t0,
            t1,
            p0,
            p1,
            EventDescr::ProxyOp(descr),
            comm,
            version,
            c1,
            node_available,
            Some(Event::ProxyOpLite(data)),
        ),
        !t0.refs().contains_key(OpRef { pid: descr.pid, op: descr.parent.ncclop->0 }),
        light_progress_recorded(
            t1,
            t2,
            p1,
            Event::ProxyOpLite(data),
            ProxyOpState::InProgress,
            c2,
        ),
        event_stopped(t2, t3, p1, p2, Event::ProxyOpLite(data), step, c3),
    ensures
        t3.fifo@.len() == t0.fifo@.len() + 1,
        t3.fifo@.last() == (
            MessageView::ProxyOpLite(c2.now, (c3.now - c2.now) as u64, data.info),
            true,
        ),
        data.info.pid == descr.pid,
        !t3.refs().contains_key(OpRef { pid: descr.pid, op: descr.parent.ncclop->0 }),
{
    let key = OpRef { pid: descr.pid, op: descr.parent.ncclop->0 };
    let event = Event::ProxyOpLite(data);
    law_proxy_operations_start(
        t0,
        t1,
        p0,
        p1,
        descr,
        comm,
        version,
        c1,
        node_available,
        Some(event),
        key,
    );
    law_progress_starts_the_work(t1, t2, p1, event, ProxyOpState::InProgress, c2, key);
    law_reported_work_covers_its_span(t2, t3, p1, p2, event, step, c3);
    law_stop_gives_up_the_reference(t2, t3, p1, p2, event, step, c3, key);
}

/// The end of a proxy operation closes it, once and at once: with the steps
/// that were not sent yet, marked as the last ones, or with its identifier
/// where there are none. Before that its description is sent where proxy
/// operations are tracked.
pub proof fn law_proxy_operations_are_closed(
    before: ThreadLocalState,
    after: ThreadLocalState,
    profiler: Profiler,
    profiler_after: Profiler,
    data: ProxyOpLocalData,
    step: Option<EventStep>,
    clock: ClockReading,
)
    requires
        event_stopped(before, after, profiler, profiler_after, Event::ProxyOp(data), step, clock),
    ensures
        ({
            let n = before.fifo@.len() as int;
            let closing = after.fifo@.last();
            &&& after.fifo@.len() == n + if profiler.config.track_proxyop {
                2int
            } else {
                1int
            }
            &&& after.fifo@.take(n) == before.fifo@
            &&& profiler.config.track_proxyop ==> after.fifo@[n] == (
                MessageView::ProxyOpExtra(data.extra),
                false,
            )
            &&& closing.1
            &&& step is None && data.pending().len() == 0 ==> closing.0 == MessageView::ProxyOp(
                data.info.id,
            )
            &&& step is None && data.pending().len() > 0 ==> closing.0 == MessageView::StepBatch(
                data.info,
                data.pending(),
                true,
            )
            &&& step matches Some(last) ==> closing.0 == MessageView::StepBatch(
                data.info,
                data.pending().push(last),
                true,
            )
        }),
{
    assert(after.fifo@.take(before.fifo@.len() as int) =~= before.fifo@);
}

/// A completed step waits until its batch is full. The full batch is sent,
/// holds as many steps as fit and in the order in which they completed, and is
/// not marked as the last one.
pub proof fn law_batches_are_full(
    before: ThreadLocalState,
    after: ThreadLocalState,
    proxyop: ProxyOpLocalData,
    proxyop_after: ProxyOpLocalData,
    capacity: usize,
    step: EventStep,
)
    requires
        proxyop.wf(),
        capacity > 0,
        step_filed(before, after, proxyop, proxyop_after, capacity, step),
    ensures
        proxyop_after.info == proxyop.info,
        proxyop_after.extra == proxyop.extra,
        proxyop_after.parent_op == proxyop.parent_op,
        proxyop_after.n_steps == proxyop.n_steps,
        proxyop_after.step_tracker == proxyop.step_tracker,
        proxyop_after.rng_seed == proxyop.rng_seed,
        ({
            let room = match proxyop.steps {
                Some(batch) => batch.room(),
                None => capacity as nat,
            };
            if proxyop.pending().len() + 1 < room {
                &&& after.fifo@ == before.fifo@
                &&& proxyop_after.pending() == proxyop.pending().push(step)
            } else {
                &&& after.fifo@.len() == before.fifo@.len() + 1
                &&& after.fifo@.drop_last() == before.fifo@
                &&& !after.fifo@.last().1
                &&& after.fifo@.last().0 matches MessageView::StepBatch(info, steps, last)
                &&& info == proxyop.info
                &&& steps == proxyop.pending().push(step)
                &&& steps.len() == room
                &&& !last
                &&& proxyop_after.pending().len() == 0
            }
        }),
{
    if after.fifo@.len() > before.fifo@.len() {
        assert(after.fifo@.drop_last() =~= before.fifo@);
    }
}

/// A report that completes a step counts and files it; any other report
/// changes nothing.
pub proof fn law_progress_files_the_step(
    before: ThreadLocalState,
    after: ThreadLocalState,
    event: Event,
    event_after: Event,
    step: Option<EventStep>,
    capacity: usize,
)
    requires
        progress_recorded(before, after, event, event_after, step, capacity),
    ensures
        step is None || !(event is ProxyOp) ==> event_after == event && after == before,
        event matches Event::ProxyOp(data) ==> (step matches Some(completed) ==> {
            &&& event_after matches Event::ProxyOp(data_after)
            &&& data.n_steps < usize::MAX ==> data_after.n_steps == data.n_steps + 1
            &&& data_after.info == data.info
            &&& data_after.extra == data.extra
            &&& data_after.step_tracker == data.step_tracker
            &&& data_after.rng_seed == data.rng_seed
            &&& data_after.parent_op == data.parent_op
            &&& after.ncclop_fifo == before.ncclop_fifo
            &&& after.sampler == before.sampler
            &&& after.proxyop_id == before.proxyop_id
            &&& after.fifo.channel == before.fifo.channel
            &&& after.fifo.batch == before.fifo.batch
            &&& after.fifo.capacity == before.fifo.capacity
            &&& after.refs() == before.refs()
            &&& after.fifo@ == before.fifo@ ==> data_after.pending() == data.pending().push(
                completed,
            )
            &&& after.fifo@ != before.fifo@ ==> after.fifo@ == before.fifo@.push(
                (
                    MessageView::StepBatch(data.info, data.pending().push(completed), false),
                    false,
                ),
            )
        }),
{
    if let (Event::ProxyOp(data), Some(completed)) = (event, step) {
        assert(before.fifo@ + Seq::<(MessageView, bool)>::empty() =~= before.fifo@);
        assert(before.fifo@ + seq![
            (MessageView::StepBatch(data.info, data.pending().push(completed), false), false),
        ] =~= before.fifo@.push(
            (MessageView::StepBatch(data.info, data.pending().push(completed), false), false),
        ));
        assert(before.fifo@.push(
            (MessageView::StepBatch(data.info, data.pending().push(completed), false), false),
        ).len() == before.fifo@.len() + 1);
    }
}

/// What the reports of its states make of a step. A send starts when it waits
/// for its peer where that wait is followed, and else when it waits for the
/// transfer; a receive starts when it waits, and ends when it waits for the
/// flush. The size comes with the transfer. No report touches what it does not
/// speak of.
pub proof fn law_step_states_set_the_times(
    profiler: Profiler,
    step: ProxyStep,
    event_after: Event,
    counters: Seq<usize>,
    counters_after: Seq<usize>,
    state: ProxyStepState,
    trans_size: usize,
    comm: Option<Communicator>,
    clock: ClockReading,
    now: u64,
)
    requires
        step_state_recorded(
            profiler,
            Event::ProxyStep(step),
            event_after,
            counters,
            counters_after,
            state,
            trans_size,
            comm,
            clock,
        ),
        now == if profiler.config.use_cached_clock {
            clock.cached
        } else {
            clock.now
        },
    ensures
        event_after is ProxyStep,
        ({
            let after = event_after->ProxyStep_0;
            let follows_wait = profiler.config.track_step_fifo_wait;
            &&& after.step == step.step && after.parent == step.parent
            &&& state is SendPeerWait ==> {
                &&& after.start_time == if follows_wait && step.start_time is None {
                    Some(now)
                } else {
                    step.start_time
                }
                &&& after.fifo_ready_time == step.fifo_ready_time
                &&& after.end_time == step.end_time
                &&& after.size == step.size
            }
            &&& state is SendWait ==> {
                &&& follows_wait ==> after.fifo_ready_time == Some(now) && after.start_time
                    == step.start_time
                &&& !follows_wait ==> after.start_time == Some(now) && after.fifo_ready_time
                    == step.fifo_ready_time
                &&& after.end_time == step.end_time
                &&& after.size == trans_size
            }
            &&& state is RecvWait ==> {
                &&& after.start_time == Some(now)
                &&& after.fifo_ready_time == step.fifo_ready_time
                &&& after.end_time == step.end_time
                &&& after.size == step.size
            }
            &&& state is RecvFlushWait ==> {
                &&& after.start_time == step.start_time
                &&& after.fifo_ready_time == step.fifo_ready_time
                &&& after.end_time == Some(now)
                &&& after.size == trans_size
            }
            &&& state is Other ==> after == step
        }),
{
}

/// Sent bytes are counted once: when a step waits for the transfer, and only
/// where progress is reported. They go to the communicator where it is known,
/// and else to the common counter of other processes. No other counter moves.
pub proof fn law_sent_bytes_are_counted_once(
    profiler: Profiler,
    event: Event,
    event_after: Event,
    counters: Seq<usize>,
    counters_after: Seq<usize>,
    state: ProxyStepState,
    trans_size: usize,
    comm: Option<Communicator>,
    clock: ClockReading,
    id: int,
)
    requires
        step_state_recorded(
            profiler,
            event,
            event_after,
            counters,
            counters_after,
            state,
            trans_size,
            comm,
            clock,
        ),
        0 <= id < counters.len(),
        comm is Some ==> comm->0.total_net_bytes < counters.len(),
        comm is None && profiler.remote_net_bytes is Some ==> profiler.remote_net_bytes->0
            < counters.len(),
    ensures
        !(event is ProxyStep) ==> event_after == event,
        counters_after.len() == counters.len(),
        ({
            let counts = event is ProxyStep && state is SendWait
                && profiler.remote_net_bytes is Some;
            let target = if comm is Some {
                comm->0.total_net_bytes
            } else {
                profiler.remote_net_bytes->0
            };
            &&& counts && id == target ==> counters_after[id] == counters[id].wrapping_add(
                trans_size,
            )
            &&& !counts || id != target ==> counters_after[id] == counters[id]
        }),
{
}

/// A step whose end NCCL reported keeps it, however late it is stopped; only
/// a step whose end was never reported ends at the stop. All its times are
/// also given as time since the profiler was created.
pub proof fn law_reported_end_is_kept(step: ProxyStep, profiler: Profiler, clock: ClockReading)
    ensures
        ({
            let (ended, times) = finalize_args(step, profiler, clock);
            &&& step.end_time is Some ==> ended.end_time == step.end_time
            &&& step.end_time is None ==> ended.end_time == Some(
                if profiler.config.use_cached_clock {
                    clock.cached
                } else {
                    clock.now
                },
            )
            &&& ended.step == step.step
            &&& ended.parent == step.parent
            &&& ended.size == step.size
            &&& ended.start_time == step.start_time
            &&& ended.fifo_ready_time == step.fifo_ready_time
            &&& times.end_ns is Some
            &&& ended.end_time->0 >= profiler.init_instant ==> times.end_ns->0
                + profiler.init_instant == ended.end_time->0
            &&& ended.end_time->0 < profiler.init_instant ==> times.end_ns->0 == 0
            &&& times.start_ns is Some <==> step.start_time is Some
            &&& step.start_time matches Some(t) ==> (t >= profiler.init_instant
                ==> times.start_ns->0 + profiler.init_instant == t) && (t < profiler.init_instant
                ==> times.start_ns->0 == 0)
            &&& times.fifo_ready_ns is Some <==> step.fifo_ready_time is Some
            &&& step.fifo_ready_time matches Some(t) ==> (t >= profiler.init_instant
                ==> times.fifo_ready_ns->0 + profiler.init_instant == t) && (t
                < profiler.init_instant ==> times.fifo_ready_ns->0 == 0)
        }),
{
}

/// The end of a step hands the step to be finalized once its end is known: the
/// reported one, or else now. What comes of it is filed with the proxy
/// operation of the step, behind the steps that wait there, or is sent with
/// them where the batch is full.
pub proof fn law_stopped_steps_are_filed<F>(
    before: ThreadLocalState,
    after: ThreadLocalState,
    profiler: Profiler,
    step: ProxyStep,
    parent: ProxyOpLocalData,
    parent_after: Option<ProxyOpLocalData>,
    finalize: F,
    clock: ClockReading,
) where F: FnOnce(ProxyStep, StepTimes) -> EventStep
    requires
        profiler.wf(),
        parent.wf(),
        step_stopped(
            before,
            after,
            profiler,
            step,
            Some(parent),
            parent_after,
            finalize,
            clock,
        ),
    ensures
        parent_after is Some,
        parent_after->0.steps matches Some(batch) ==> 0 < batch@.len() < batch.room(),
        exists|ended: ProxyStep, times: StepTimes, completed: EventStep|
            {
                &&& #[trigger] finalize.ensures((ended, times), completed)
                &&& step.end_time is Some ==> ended == step
                &&& step.end_time is None ==> ended == (ProxyStep {
                    end_time: Some(
                        if profiler.config.use_cached_clock {
                            clock.cached
                        } else {
                            clock.now
                        },
                    ),
                    ..step
                })
                &&& ended.end_time->0 >= profiler.init_instant ==> times.end_ns == Some(
                    (ended.end_time->0 - profiler.init_instant) as u64,
                )
                &&& ended.end_time->0 < profiler.init_instant ==> times.end_ns == Some(0u64)
                &&& after.fifo@ == before.fifo@ ==> parent_after->0.pending()
                    == parent.pending().push(completed)
                &&& after.fifo@ != before.fifo@ ==> parent_after->0.pending().len() == 0
                    && after.fifo@.last() == (
                    MessageView::StepBatch(parent.info, parent.pending().push(completed), false),
                    false,
                )
            },
{
    let args = finalize_args(step, profiler, clock);
    let completed = choose|completed: EventStep|
        #![trigger finalize.ensures(finalize_args(step, profiler, clock), completed)]
        {
            &&& finalize.ensures(finalize_args(step, profiler, clock), completed)
            &&& parent_after matches Some(proxyop)
            &&& proxyop.wf()
            &&& step_filed(
                before,
                after,
                parent,
                proxyop,
                profiler.step_batch_capacity,
                completed,
            )
        };
    law_reported_end_is_kept(step, profiler, clock);
    law_batches_are_full(
        before,
        after,
        parent,
        parent_after->0,
        profiler.step_batch_capacity,
        completed,
    );
    assert(finalize.ensures((args.0, args.1), completed));
}

/// A receive ends when its data arrived: after the report that it waits for
/// the flush, a stop at any later time files it with the time of the report.
pub proof fn law_receives_end_with_the_arrival(
    profiler: Profiler,
    step: ProxyStep,
    reported: ProxyStep,
    counters: Seq<usize>,
    counters_after: Seq<usize>,
    trans_size: usize,
    comm: Option<Communicator>,
    arrival: ClockReading,
    stop: ClockReading,
)
    requires
        !profiler.config.use_cached_clock,
        profiler.init_instant <= arrival.now,
        step_state_recorded(
            profiler,
            Event::ProxyStep(step),
            Event::ProxyStep(reported),
            counters,
            counters_after,
            ProxyStepState::RecvFlushWait,
            trans_size,
            comm,
            arrival,
        ),
    ensures
        finalize_args(reported, profiler, stop).0.end_time == Some(arrival.now),
        finalize_args(reported, profiler, stop).1.end_ns == Some(
            (arrival.now - profiler.init_instant) as u64,
        ),
        finalize_args(reported, profiler, stop).0.size == trans_size,
        finalize_args(reported, profiler, stop).0.start_time == step.start_time,
{
    law_step_states_set_the_times(
        profiler,
        step,
        Event::ProxyStep(reported),
        counters,
        counters_after,
        ProxyStepState::RecvFlushWait,
        trans_size,
        comm,
        arrival,
        arrival.now,
    );
    law_reported_end_is_kept(reported, profiler, stop);
}

/// Operations, proxy operations and kernel channels close their window when
/// they stop, and note when that was: the idle time starts at the latest stop.
/// Nothing is recorded. Groups, placeholders and steps close nothing.
pub proof fn law_activity_closes_its_window(
    before: ThreadLocalState,
    after: ThreadLocalState,
    profiler: Profiler,
    profiler_after: Profiler,
    event: Event,
    step: Option<EventStep>,
    clock: ClockReading,
    now_ns: u64,
)
    requires
        event_stopped(before, after, profiler, profiler_after, event, step, clock),
        profiler.config.use_cached_clock ==> now_ns == clock.cached_ns,
        !profiler.config.use_cached_clock && clock.now >= profiler.init_instant ==> now_ns
            + profiler.init_instant == clock.now,
        !profiler.config.use_cached_clock && clock.now < profiler.init_instant ==> now_ns == 0,
    ensures
        profiler_after.gap_tracker is Some <==> profiler.gap_tracker is Some,
        event is Group || event is Dummy || event is ProxyStep ==> profiler_after.gap_tracker
            == profiler.gap_tracker,
        profiler.gap_tracker is Some ==> {
            let old_tracker = profiler.gap_tracker->0;
            let new_tracker = profiler_after.gap_tracker->0;
            &&& new_tracker.instrument() == old_tracker.instrument()
            &&& new_tracker.attrs() == old_tracker.attrs()
            &&& event is NcclOp || event is NcclOpLite || event is SmallNcclOp || event is ProxyOp
                || event is ProxyOpLite || event is KernelCh ==> {
                &&& old_tracker.counters().in_flight() > 0 ==> new_tracker.counters().in_flight()
                    == old_tracker.counters().in_flight() - 1 && new_tracker.counters().begins()
                    == old_tracker.counters().begins()
                &&& new_tracker.counters().last_state == old_tracker.counters().last_state
                &&& new_tracker.counters().stall_logged == old_tracker.counters().stall_logged
                &&& new_tracker.counters().idle_since_ns >= now_ns
                &&& new_tracker.counters().idle_since_ns >= old_tracker.counters().idle_since_ns
                &&& new_tracker.counters().idle_since_ns == now_ns
                    || new_tracker.counters().idle_since_ns == old_tracker.counters().idle_since_ns
            }
        },
{
}

/// What has to be there when an event stops: the proxy operation of a step. A
/// batch that waits holds a step and has room for another.
pub proof fn law_what_stopping_needs(event: Event, parent: Option<ProxyOpLocalData>)
    ensures
        !(event is ProxyOp) && !(event is ProxyStep) ==> can_stop(event, parent),
        event matches Event::ProxyOp(data) ==> (can_stop(event, parent) <==> (data.steps matches Some(
            batch,
        ) ==> 0 < batch@.len() < batch.room())),
        event is ProxyStep ==> (can_stop(event, parent) <==> parent is Some && (
        parent->0.steps matches Some(batch) ==> 0 < batch@.len() < batch.room())),
{
}

/// The gap that is recorded is the time between the events: where an activity
/// stops and leaves nothing in flight, and the next activity starts, the
/// measurement that goes to the gap histogram is the time from the stop to the
/// start, on the configured clock.
pub proof fn law_gap_is_the_time_between_events(
    t0: ThreadLocalState,
    t1: ThreadLocalState,
    stopped: Event,
    step: Option<EventStep>,
    c1: ClockReading,
    p0: Profiler,
    p1: Profiler,
    t2: ThreadLocalState,
    t3: ThreadLocalState,
    p2: Profiler,
    descr: EventDescr,
    comm: Option<Communicator>,
    version: Version,
    node_available: bool,
    started: Event,
    c2: ClockReading,
)
    requires
        event_stopped(t0, t1, p0, p1, stopped, step, c1),
        event_started(
            t2,
            t3,
            p1,
            p2,
            descr,
            comm,
            version,
            c2,
            node_available,
            Some(started),
        ),
        stopped is NcclOp || stopped is NcclOpLite || stopped is SmallNcclOp || stopped is ProxyOp
            || stopped is ProxyOpLite || stopped is KernelCh,
        started is NcclOp || started is NcclOpLite || started is SmallNcclOp || started is ProxyOp
            || started is ProxyOpLite || started is KernelCh,
        p0.gap_tracker is Some,
        p0.gap_tracker->0.instrument() is Some,
        p0.gap_tracker->0.counters().in_flight() == 1,
        if p0.config.use_cached_clock {
            &&& p0.gap_tracker->0.counters().idle_since_ns <= c1.cached_ns
            &&& 0 < c1.cached_ns <= c2.cached_ns
        } else {
            &&& p0.gap_tracker->0.counters().idle_since_ns + p0.init_instant <= c1.now
            &&& p0.init_instant < c1.now <= c2.now
        },
    ensures
        p2.gap_tracker is Some,
        p2.gap_tracker->0.instrument() is Some,
        p2.gap_tracker->0.counters().in_flight() == 1,
        histogram_sent(p2.gap_tracker->0.instrument()->0) == histogram_sent(
            p0.gap_tracker->0.instrument()->0,
        ).push(
            Measurement {
                value: if p0.config.use_cached_clock {
                    (c2.cached_ns - c1.cached_ns) as u64
                } else {
                    (c2.now - c1.now) as u64
                },
                attributes: key_values_of(p0.gap_tracker->0.attrs()),
            },
        ),
{
    law_activity_closes_its_window(t0, t1, p0, p1, stopped, step, c1, p0.spec_recent_ns(c1));
}

/// Nothing is recorded while anything is in flight: an event that starts then
/// leaves the gap histogram alone, and so does every event that stops.
pub proof fn law_no_gap_while_busy(
    t0: ThreadLocalState,
    t1: ThreadLocalState,
    p0: Profiler,
    p1: Profiler,
    descr: EventDescr,
    comm: Option<Communicator>,
    version: Version,
    node_available: bool,
    started: Option<Event>,
    t2: ThreadLocalState,
    t3: ThreadLocalState,
    p2: Profiler,
    p3: Profiler,
    stopped: Event,
    step: Option<EventStep>,
    clock: ClockReading,
)
    requires
        event_started(
            t0,
            t1,
            p0,
            p1,
            descr,
            comm,
            version,
            clock,
            node_available,
            started,
        ),
        p0.gap_tracker is Some,
        p0.gap_tracker->0.counters().in_flight() > 0,
        event_stopped(t2, t3, p2, p3, stopped, step, clock),
        p2.gap_tracker is Some,
    ensures
        p1.gap_tracker is Some,
        p1.gap_tracker->0.instrument() == p0.gap_tracker->0.instrument(),
        p3.gap_tracker is Some,
        p3.gap_tracker->0.instrument() == p2.gap_tracker->0.instrument(),
{
}

} // verus!
