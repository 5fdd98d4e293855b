//! NCCL stops an event, or reports how one proceeds.
use crate::config::ClockReading;
use crate::counters::CounterTable;
use crate::daemon::{Message, MessageView};
use crate::event::{is_activity, is_nccl_activity, times_since, Event, ProxyStep, StepTimes};
use crate::gap::{minus, GapTracker};
use crate::nccl_metadata::{NcclResult, ProxyOpState, ProxyStepState};
use crate::profiler::{
    refs_after_dec, refs_after_start, released, Communicator, OpRef, Profiler, ProxyOpLocalData,
    RefCount, ThreadLocalState,
};
use crate::step_tracker::EventStep;
use vstd::prelude::*;

verus! {

/// `steps` and then `step`, if there is one.
pub open spec fn with_step(steps: Seq<EventStep>, step: Option<EventStep>) -> Seq<EventStep> {
    match step {
        Some(step) => steps.push(step),
        None => steps,
    }
}

/// What completing a step does to its proxy operation: the step waits with
/// the others until the batch is full, which is then sent.
pub open spec fn step_completed(
    before: ProxyOpLocalData,
    after: ProxyOpLocalData,
    capacity: usize,
    step: EventStep,
) -> bool {
    let steps = before.pending().push(step);
    let room = before.batch_room(capacity);
    &&& after == (ProxyOpLocalData { steps: after.steps, ..before })
    &&& if steps.len() >= room {
        after.steps is None
    } else {
        after.steps is Some && after.pending() == steps && after.batch_room(capacity) == room
    }
}

/// The message that completing a step sends, if any.
pub open spec fn step_messages(
    data: ProxyOpLocalData,
    capacity: usize,
    step: EventStep,
) -> Seq<(MessageView, bool)> {
    let steps = data.pending().push(step);
    if steps.len() >= data.batch_room(capacity) {
        seq![(MessageView::StepBatch(data.info, steps, false), false)]
    } else {
        Seq::empty()
    }
}

/// Files a completed step, and sends the batch if it is full.
fn complete_step(
    thread: &mut ThreadLocalState,
    data: &mut ProxyOpLocalData,
    capacity: usize,
    step: EventStep,
)
    requires
        capacity > 0,
        old(data).wf(),
    ensures
        final(data).wf(),
        *final(thread) == (ThreadLocalState { fifo: final(thread).fifo, ..*old(thread) }),
        final(thread).fifo.same_channel(&old(thread).fifo),
        step_completed(*old(data), *final(data), capacity, step),
        final(thread).fifo@ == old(thread).fifo@ + step_messages(*old(data), capacity, step),
{
    let ghost sent = step_messages(*data, capacity, step);
    let full = {
        let steps = data.get_steps_mut(capacity);
        steps.push(step);
        steps.is_full()
    };
    if full {
        let batch = data.steps.take();
        if let Some(batch) = batch {
            thread.send_to_daemon(Message::StepBatch(data.info, batch, false), false);
        }
    }
    proof {
        assert(thread.fifo@ =~= old(thread).fifo@ + sent);
    }
}

/// The references to an operation that an ending event drops.
pub open spec fn refs_after_stop(
    refs: Map<OpRef, RefCount>,
    pid: i32,
    parent_op: Option<usize>,
) -> Map<OpRef, RefCount> {
    match parent_op {
        Some(op) => refs_after_dec(refs, OpRef { pid, op }),
        None => refs,
    }
}

/// The start time of the operation that an ending event held the last
/// reference to.
pub open spec fn finished_op(
    refs: Map<OpRef, RefCount>,
    pid: i32,
    parent_op: Option<usize>,
) -> Option<u64> {
    match parent_op {
        Some(op) => released(refs, OpRef { pid, op }),
        None => None,
    }
}

/// The step with its end, which is now if it was not reported.
pub open spec fn ended_step(step: ProxyStep, now: u64) -> ProxyStep {
    ProxyStep {
        end_time: if step.end_time is None {
            Some(now)
        } else {
            step.end_time
        },
        ..step
    }
}

/// What an ending step is turned into its final form from: the step with its
/// end, and its times since the profiler was created.
pub open spec fn finalize_args(step: ProxyStep, profiler: Profiler, clock: ClockReading) -> (
    ProxyStep,
    StepTimes,
) {
    let ended = ended_step(step, profiler.spec_recent_instant(clock));
    (ended, times_since(ended, profiler.init_instant))
}

/// What the end of a proxy operation sends: its description, where that is
/// wanted, and the steps that were not sent yet, or its identifier where
/// there are none.
pub open spec fn proxyop_messages(
    data: ProxyOpLocalData,
    step: Option<EventStep>,
    track_proxyop: bool,
) -> Seq<(MessageView, bool)> {
    let steps = with_step(data.pending(), step);
    let closing = if steps.len() > 0 {
        (MessageView::StepBatch(data.info, steps, true), true)
    } else {
        (MessageView::ProxyOp(data.info.id), true)
    };
    if track_proxyop {
        seq![(MessageView::ProxyOpExtra(data.extra), false), closing]
    } else {
        seq![closing]
    }
}

/// What the end of an event that is no step sends.
pub open spec fn stop_messages(
    event: Event,
    refs: Map<OpRef, RefCount>,
    profiler: Profiler,
    step: Option<EventStep>,
    now: u64,
) -> Seq<(MessageView, bool)> {
    match event {
        Event::Group(group) => seq![(MessageView::Group(group), true)],
        Event::ProxyOpLite(data) => match finished_op(refs, data.info.pid, data.parent_op) {
            Some(start) => seq![
                (MessageView::ProxyOpLite(start, minus(now, start), data.info), true),
            ],
            None => Seq::empty(),
        },
        Event::ProxyOp(data) => proxyop_messages(data, step, profiler.config.track_proxyop),
        Event::KernelCh(kernelch) => match finished_op(refs, profiler.pid, kernelch.parent_op) {
            Some(start) => seq![
                (MessageView::KernelCh(start, minus(now, start), kernelch.parent_op->0), true),
            ],
            None => Seq::empty(),
        },
        _ => Seq::empty(),
    }
}

/// The references after the end of an event.
pub open spec fn refs_at_stop(
    event: Event,
    refs: Map<OpRef, RefCount>,
    profiler: Profiler,
) -> Map<OpRef, RefCount> {
    match event {
        Event::ProxyOpLite(data) => refs_after_stop(refs, data.info.pid, data.parent_op),
        Event::KernelCh(kernelch) => refs_after_stop(refs, profiler.pid, kernelch.parent_op),
        _ => refs,
    }
}

/// What the end of an event does to the gap tracker: activity ends its
/// window, anything else leaves it alone.
pub open spec fn window_ended(
    before: Option<GapTracker>,
    after: Option<GapTracker>,
    event: Event,
    now_ns: u64,
) -> bool {
    if is_activity(event) {
        match before {
            None => after is None,
            Some(tracker) => {
                &&& after matches Some(ended)
                &&& ended.counters() == tracker.counters().end(now_ns)
                &&& ended.attrs() == tracker.attrs()
                &&& ended.instrument() == tracker.instrument()
            },
        }
    } else {
        after == before
    }
}

/// What filing a completed step does to its proxy operation and to the
/// messages on their way.
pub open spec fn step_filed(
    before: ThreadLocalState,
    after: ThreadLocalState,
    proxyop: ProxyOpLocalData,
    proxyop_after: ProxyOpLocalData,
    capacity: usize,
    step: EventStep,
) -> bool {
    &&& step_completed(proxyop, proxyop_after, capacity, step)
    &&& after.fifo@ == before.fifo@ + step_messages(proxyop, capacity, step)
}

/// What the end of an event does to the thread and to the profiler, but for
/// the step that it may file.
pub open spec fn event_stopped(
    before: ThreadLocalState,
    after: ThreadLocalState,
    profiler: Profiler,
    profiler_after: Profiler,
    event: Event,
    step: Option<EventStep>,
    clock: ClockReading,
) -> bool {
    &&& after == (ThreadLocalState {
        fifo: after.fifo,
        ncclop_refcnt: after.ncclop_refcnt,
        ..before
    })
    &&& after.fifo.same_channel(&before.fifo)
    &&& profiler_after == (Profiler { gap_tracker: profiler_after.gap_tracker, ..profiler })
    &&& window_ended(
        profiler.gap_tracker,
        profiler_after.gap_tracker,
        event,
        profiler.spec_recent_ns(clock),
    )
    &&& after.refs() == refs_at_stop(event, before.refs(), profiler)
    &&& !(event is ProxyStep) ==> after.fifo@ == before.fifo@ + stop_messages(
        event,
        before.refs(),
        profiler,
        step,
        clock.now,
    )
}

/// What the end of a step does: what `finalize` makes of it, with its end, is
/// filed with its proxy operation.
pub open spec fn step_stopped<F>(
    before: ThreadLocalState,
    after: ThreadLocalState,
    profiler: Profiler,
    step: ProxyStep,
    parent: Option<ProxyOpLocalData>,
    parent_after: Option<ProxyOpLocalData>,
    finalize: F,
    clock: ClockReading,
) -> bool where F: FnOnce(ProxyStep, StepTimes) -> EventStep {
    exists|completed: EventStep|
        #![trigger finalize.ensures(finalize_args(step, profiler, clock), completed)]
        {
            &&& finalize.ensures(finalize_args(step, profiler, clock), completed)
            &&& parent_after matches Some(proxyop)
            &&& proxyop.wf()
            &&& step_filed(
                before,
                after,
                parent->0,
                proxyop,
                profiler.step_batch_capacity,
                completed,
            )
        }
}

/// What NCCL guarantees when it stops an event: the proxy operation of a
/// step is still there.
pub open spec fn can_stop(event: Event, parent: Option<ProxyOpLocalData>) -> bool {
    match event {
        Event::ProxyOp(data) => data.wf(),
        Event::ProxyStep(_) => parent matches Some(data) && data.wf(),
        _ => true,
    }
}

/// Whether all is there that stopping an event needs.
pub fn can_stop_event(event: &Event, parent: &Option<ProxyOpLocalData>) -> (r: bool)
    ensures
        r == can_stop(*event, *parent),
{
    match event {
        Event::ProxyOp(data) => data.has_batch_room(),
        Event::ProxyStep(_) => match parent {
            Some(data) => data.has_batch_room(),
            None => false,
        },
        _ => true,
    }
}

fn stop_proxyop(
    thread: &mut ThreadLocalState,
    profiler: &Profiler,
    data: ProxyOpLocalData,
    step: Option<EventStep>,
)
    requires
        profiler.wf(),
        data.wf(),
    ensures
        *final(thread) == (ThreadLocalState { fifo: final(thread).fifo, ..*old(thread) }),
        final(thread).fifo.same_channel(&old(thread).fifo),
        final(thread).fifo@ == old(thread).fifo@ + proxyop_messages(
            data,
            step,
            profiler.config.track_proxyop,
        ),
{
    let ghost sent = proxyop_messages(data, step, profiler.config.track_proxyop);
    let mut data = data;
    if let Some(step) = step {
        let steps = data.get_steps_mut(profiler.step_batch_capacity);
        steps.push(step);
    }
    if profiler.config.track_proxyop {
        thread.send_to_daemon(Message::ProxyOpExtra(data.extra), false);
    }
    match data.steps.take() {
        Some(steps) => {
            thread.send_to_daemon(Message::StepBatch(data.info, steps, true), true);
        },
        None => {
            thread.send_to_daemon(Message::ProxyOp(data.info.id), true);
        },
    }
    proof {
        assert(thread.fifo@ =~= old(thread).fifo@ + sent);
    }
}

/// NCCL stops an event: sends what is known of it to the daemon, and closes
/// its activity window.
///
/// `step` is the step that the end of a proxy operation completes, if any.
/// `parent` is the proxy operation of a step, and `finalize` turns the step,
/// once its end is known, and its times since the profiler was created into
/// what is filed with the proxy operation.
pub fn stop_event_handler<F>(
    thread: &mut ThreadLocalState,
    profiler: &mut Profiler,
    event: Event,
    step: Option<EventStep>,
    parent: &mut Option<ProxyOpLocalData>,
    finalize: F,
    clock: &ClockReading,
) -> (r: NcclResult<()>) where F: FnOnce(ProxyStep, StepTimes) -> EventStep
    requires
        old(thread).wf(),
        old(profiler).wf(),
        can_stop(event, *old(parent)),
        event matches Event::ProxyStep(data) ==> finalize.requires(
            finalize_args(data, *old(profiler), *clock),
        ),
    ensures
        r is Ok,
        final(thread).wf(),
        event_stopped(
            *old(thread),
            *final(thread),
            *old(profiler),
            *final(profiler),
            event,
            step,
            *clock,
        ),
        match event {
            Event::ProxyStep(data) => step_stopped(
                *old(thread),
                *final(thread),
                *old(profiler),
                data,
                *old(parent),
                *final(parent),
                finalize,
                *clock,
            ),
            _ => *final(parent) == *old(parent),
        },
{
    let ghost refs = thread.refs();
    let ghost fifo = thread.fifo@;
    let end_nccl_activity = is_nccl_activity(&event);
    assert(fifo + Seq::<(MessageView, bool)>::empty() =~= fifo);
    match event {
        Event::Group(group) => {
            thread.send_to_daemon(Message::Group(group), true);
            assert(thread.fifo@ =~= fifo + seq![(MessageView::Group(group), true)]);
        },
        Event::ProxyOpLite(data) => {
            if let Some(ncclop) = data.parent_op {
                if let Some(start_time) = thread.dec_ncclop_ref(data.info.pid, ncclop) {
                    let dur_ns: u64 = clock.now.saturating_sub(start_time);
                    thread.send_to_daemon(
                        Message::ProxyOpLite(start_time, dur_ns, data.info),
                        true,
                    );
                    assert(thread.fifo@ =~= fifo + seq![
                        (
                            MessageView::ProxyOpLite(
                                start_time,
                                minus(clock.now, start_time),
                                data.info,
                            ),
                            true,
                        ),
                    ]);
                }
            }
        },
        Event::ProxyOp(data) => {
            stop_proxyop(thread, profiler, data, step);
        },
        Event::ProxyStep(data) => {
            let mut data = data;
            if data.end_time.is_none() {
                data.end_time = Some(profiler.recent_timer_instant(clock));
            }
            let times = profiler.step_times(&data);
            let completed = finalize(data, times);
            if let Some(parent) = parent {
                complete_step(thread, parent, profiler.step_batch_capacity, completed);
            }
        },
        Event::KernelCh(kernelch) => {
            if let Some(ncclop) = kernelch.parent_op {
                if let Some(start_time) = thread.dec_ncclop_ref(profiler.pid, ncclop) {
                    let dur_ns: u64 = clock.now.saturating_sub(start_time);
                    thread.send_to_daemon(Message::KernelCh(start_time, dur_ns, ncclop), true);
                    assert(thread.fifo@ =~= fifo + seq![
                        (
                            MessageView::KernelCh(start_time, minus(clock.now, start_time), ncclop),
                            true,
                        ),
                    ]);
                }
            }
        },
        Event::Dummy(_) => {},
        Event::SmallNcclOp(_) => {},
        Event::NcclOpLite(_) => {},
        Event::NcclOp(_) => {},
    }
    if end_nccl_activity {
        let now_ns: u64 = profiler.recent_timer_ns(clock);
        if let Some(gap_tracker) = &mut profiler.gap_tracker {
            gap_tracker.activity_end(now_ns);
        }
    }
    Ok(())
}

/// What a report of how a proxy operation proceeds does.
pub open spec fn progress_recorded(
    before: ThreadLocalState,
    after: ThreadLocalState,
    event: Event,
    event_after: Event,
    step: Option<EventStep>,
    capacity: usize,
) -> bool {
    match (event, step) {
        (Event::ProxyOp(data), Some(step)) => {
            &&& event_after matches Event::ProxyOp(data_after)
            &&& step_filed(
                before,
                after,
                ProxyOpLocalData { n_steps: (data.n_steps + 1) as usize, ..data },
                data_after,
                capacity,
                step,
            )
            &&& after == (ThreadLocalState { fifo: after.fifo, ..before })
            &&& after.fifo.same_channel(&before.fifo)
        },
        _ => event_after == event && after == before,
    }
}

/// NCCL reports how a proxy operation proceeds. `step` is the step that this
/// completes, if any.
pub fn record_event_state_handler(
    thread: &mut ThreadLocalState,
    profiler: &Profiler,
    event: &mut Event,
    step: Option<EventStep>,
) -> (r: NcclResult<()>)
    requires
        profiler.wf(),
        *old(event) matches Event::ProxyOp(data) ==> data.wf() && data.n_steps < usize::MAX,
    ensures
        r is Ok,
        *old(event) is ProxyOp ==> (*final(event) matches Event::ProxyOp(after) && after.wf()),
        progress_recorded(
            *old(thread),
            *final(thread),
            *old(event),
            *final(event),
            step,
            profiler.step_batch_capacity,
        ),
{
    if let Event::ProxyOp(data) = event {
        if let Some(step) = step {
            data.n_steps = data.n_steps + 1;
            complete_step(thread, data, profiler.step_batch_capacity, step);
        }
    }
    Ok(())
}

/// A step after NCCL reported its state.
pub open spec fn step_in_state(
    step: ProxyStep,
    state: ProxyStepState,
    trans_size: usize,
    track_fifo_wait: bool,
    now: u64,
) -> ProxyStep {
    match state {
        ProxyStepState::SendPeerWait => if step.start_time is None && track_fifo_wait {
            ProxyStep { start_time: Some(now), ..step }
        } else {
            step
        },
        ProxyStepState::SendWait => if track_fifo_wait {
            ProxyStep { fifo_ready_time: Some(now), size: trans_size, ..step }
        } else {
            ProxyStep { start_time: Some(now), size: trans_size, ..step }
        },
        ProxyStepState::RecvWait => ProxyStep { start_time: Some(now), ..step },
        ProxyStepState::RecvFlushWait => ProxyStep {
            size: trans_size,
            end_time: Some(now),
            ..step
        },
        ProxyStepState::Other => step,
    }
}

/// The counter that sent bytes go to: that of the communicator where it is
/// known, else the common one of other processes.
pub open spec fn bytes_counter(remote_net_bytes: usize, comm: Option<Communicator>) -> usize {
    match comm {
        Some(comm) => comm.total_net_bytes,
        None => remote_net_bytes,
    }
}

/// What a report of the state of a step does to the step and to the byte
/// counters.
pub open spec fn step_state_recorded(
    profiler: Profiler,
    event: Event,
    event_after: Event,
    counters: Seq<usize>,
    counters_after: Seq<usize>,
    state: ProxyStepState,
    trans_size: usize,
    comm: Option<Communicator>,
    clock: ClockReading,
) -> bool {
    match event {
        Event::ProxyStep(step) => {
            &&& event_after == Event::ProxyStep(
                step_in_state(
                    step,
                    state,
                    trans_size,
                    profiler.config.track_step_fifo_wait,
                    profiler.spec_recent_instant(clock),
                ),
            )
            &&& counters_after == match profiler.remote_net_bytes {
                Some(remote) if state == ProxyStepState::SendWait => {
                    let id = bytes_counter(remote, comm) as int;
                    counters.update(id, counters[id].wrapping_add(trans_size))
                },
                _ => counters,
            }
        },
        _ => event_after == event && counters_after == counters,
    }
}

/// NCCL reports the state of a step, and how many bytes it transfers. `comm`
/// is the communicator that the step's proxy operation is tied to.
pub fn record_proxystep_event_state_handler(
    profiler: &Profiler,
    counters: &mut CounterTable,
    event: &mut Event,
    state: ProxyStepState,
    trans_size: usize,
    comm: Option<Communicator>,
    clock: &ClockReading,
) -> (r: NcclResult<()>)
    requires
        *old(event) is ProxyStep && state == ProxyStepState::SendWait ==> (
        profiler.remote_net_bytes matches Some(remote) ==> bytes_counter(remote, comm) < old(
            counters,
        )@.len()),
    ensures
        r is Ok,
        step_state_recorded(
            *profiler,
            *old(event),
            *final(event),
            old(counters)@,
            final(counters)@,
            state,
            trans_size,
            comm,
            *clock,
        ),
        !(*old(event) is ProxyStep) ==> *final(counters) == *old(counters),
{
    if let Event::ProxyStep(data) = event {
        let now: u64 = profiler.recent_timer_instant(clock);
        match state {
            ProxyStepState::SendPeerWait => {
                if data.start_time.is_none() && profiler.config.track_step_fifo_wait {
                    data.start_time = Some(now);
                }
            },
            ProxyStepState::SendWait => {
                if profiler.config.track_step_fifo_wait {
                    data.fifo_ready_time = Some(now);
                } else {
                    data.start_time = Some(now);
                }
                data.size = trans_size;
                if let Some(remote) = profiler.remote_net_bytes {
                    let id: usize = match comm {
                        Some(comm) => comm.total_net_bytes,
                        None => remote,
                    };
                    counters.add_to(id, trans_size);
                }
            },
            ProxyStepState::RecvWait => {
                data.start_time = Some(now);
            },
            ProxyStepState::RecvFlushWait => {
                data.size = trans_size;
                data.end_time = Some(now);
            },
            ProxyStepState::Other => {},
        }
    }
    Ok(())
}

/// What a report of the state of a proxy operation whose steps are not tracked
/// does.
pub open spec fn light_progress_recorded(
    before: ThreadLocalState,
    after: ThreadLocalState,
    profiler: Profiler,
    event: Event,
    state: ProxyOpState,
    clock: ClockReading,
) -> bool {
    &&& after == (ThreadLocalState { ncclop_refcnt: after.ncclop_refcnt, ..before })
    &&& after.refs() == match event {
        Event::ProxyOpLite(data) => match data.parent_op {
            Some(op) if state == ProxyOpState::InProgress => refs_after_start(
                before.refs(),
                OpRef { pid: data.info.pid, op },
                profiler.spec_recent_instant(clock),
            ),
            _ => before.refs(),
        },
        _ => before.refs(),
    }
}

/// NCCL reports the state of a proxy operation whose steps are not tracked:
/// once it is in progress, the work of its operation started.
pub fn record_proxyop_event_state_handler_v4(
    thread: &mut ThreadLocalState,
    profiler: &Profiler,
    event: &Event,
    state: ProxyOpState,
    clock: &ClockReading,
) -> (r: NcclResult<()>)
    requires
        old(thread).wf(),
    ensures
        r is Ok,
        final(thread).wf(),
        light_progress_recorded(
            *old(thread),
            *final(thread),
            *profiler,
            *event,
            state,
            *clock,
        ),
{
    if let Event::ProxyOpLite(data) = event {
        if state != ProxyOpState::InProgress {
            return Ok(());
        }
        if let Some(ncclop) = data.parent_op {
            let now: u64 = profiler.recent_timer_instant(clock);
            thread.update_ncclop_start_time(data.info.pid, ncclop, now);
        }
    }
    Ok(())
}

} // verus!
