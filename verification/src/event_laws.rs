//! What holds of events from start to stop.
use crate::config::{ClockReading, Config};
use crate::daemon::MessageView;
use crate::event::{is_activity, Event};
use crate::gap::GapTracker;
use crate::gap_laws::law_begin_and_end_balance;
use crate::nccl_metadata::{
    CollDescr, EventDescr, NcclOpType, P2pDescr, ParentHandle, ProxyOpDescr,
};
use crate::profiler::{
    refs_after_dec, refs_after_inc, refs_after_start, refs_before, released, Communicator, OpRef,
    Profiler, ProxyOpLocalData, RefCount, ThreadLocalState, Version,
};
use crate::start_event::{
    coll_start, coll_started, event_started, group_started, kernelch_started, p2p_draws,
    p2p_sampled, p2p_started, proxyop_started, stateless_event, starts_without_state, window_begun,
    CollStart,
};
use crate::step_tracker::EventStep;
use crate::stop_event::{
    proxyop_messages, refs_at_stop, step_completed, step_messages, window_ended, with_step,
};
use vstd::prelude::*;

verus! {

/// Every operation with references has at least one.
pub open spec fn refs_positive(refs: Map<OpRef, RefCount>) -> bool {
    forall|key: OpRef| #[trigger] refs.contains_key(key) ==> refs[key].count > 0
}

proof fn lemma_refs_positive(thread: ThreadLocalState)
    requires
        thread.wf(),
    ensures
        refs_positive(thread.refs()),
{
    assert forall|key: OpRef| #[trigger] thread.refs().contains_key(key) implies thread.refs()[key].count
        > 0 by {
        let keys = thread.ncclop_refcnt.keys();
        let i = keys.index_of(key);
        assert(keys[i] == key);
        assert(thread.ncclop_refcnt.entries@[i].1.count > 0);
    }
}

/// Dropping a reference undoes adding one.
pub proof fn law_drop_undoes_add(refs: Map<OpRef, RefCount>, key: OpRef, now: u64)
    requires
        refs_positive(refs),
        refs_before(refs, key) < usize::MAX,
    ensures
        refs_after_dec(refs_after_inc(refs, key, now), key) == refs,
        refs_before(refs_after_inc(refs, key, now), key) == refs_before(refs, key) + 1,
        refs_positive(refs_after_inc(refs, key, now)),
{
    let added = refs_after_inc(refs, key, now);
    assert(added.contains_key(key));
    assert(refs_after_dec(added, key) =~= refs);
}

/// The start of an operation's work is noted once: later reports change
/// nothing.
pub proof fn law_start_is_noted_once(refs: Map<OpRef, RefCount>, key: OpRef, first: u64, later: u64)
    ensures
        refs_after_start(refs_after_start(refs, key, first), key, later) == refs_after_start(
            refs,
            key,
            first,
        ),
{
}

/// The references after `n` were dropped.
pub open spec fn refs_after_drops(refs: Map<OpRef, RefCount>, key: OpRef, n: nat) -> Map<
    OpRef,
    RefCount,
>
    decreases n,
{
    if n == 0 {
        refs
    } else {
        refs_after_dec(refs_after_drops(refs, key, (n - 1) as nat), key)
    }
}

proof fn lemma_after_drops(refs: Map<OpRef, RefCount>, key: OpRef, n: nat)
    requires
        refs.contains_key(key),
        n < refs[key].count,
    ensures
        refs_after_drops(refs, key, n).contains_key(key),
        refs_after_drops(refs, key, n)[key] == (RefCount {
            count: (refs[key].count - n) as usize,
            ..refs[key]
        }),
    decreases n,
{
    if n > 0 {
        lemma_after_drops(refs, key, (n - 1) as nat);
    }
}

/// The work of an operation is reported exactly once, with its start time:
/// when the last of the events that refer to it ends.
pub proof fn law_work_is_reported_at_last_end(refs: Map<OpRef, RefCount>, key: OpRef, n: nat)
    requires
        refs.contains_key(key),
        n < refs[key].count,
    ensures
        released(refs_after_drops(refs, key, n), key) == if n + 1 == refs[key].count {
            Some(refs[key].start_time)
        } else {
            None
        },
        n + 1 == refs[key].count ==> !refs_after_drops(refs, key, n + 1).contains_key(key),
{
    lemma_after_drops(refs, key, n);
}

/// Stopping a proxy operation drops exactly the references that starting it
/// took.
pub proof fn law_proxyop_stop_undoes_start(
    before: ThreadLocalState,
    after: ThreadLocalState,
    profiler: Profiler,
    descr: ProxyOpDescr,
    comm: Option<Communicator>,
    version: Version,
    clock: ClockReading,
    event: Event,
)
    requires
        before.wf(),
        proxyop_started(before, after, profiler, descr, comm, version, clock, Some(event)),
        descr.parent.ncclop matches Some(op) ==> refs_before(
            before.refs(),
            OpRef { pid: descr.pid, op },
        ) < usize::MAX,
    ensures
        refs_at_stop(event, after.refs(), profiler) == before.refs(),
{
    lemma_refs_positive(before);
    if let Some(op) = descr.parent.ncclop {
        law_drop_undoes_add(
            before.refs(),
            OpRef { pid: descr.pid, op },
            profiler.spec_recent_instant(clock),
        );
    }
}

/// Stopping a kernel channel drops exactly the reference that starting it
/// took.
pub proof fn law_kernelch_stop_undoes_start(
    before: ThreadLocalState,
    after: ThreadLocalState,
    profiler: Profiler,
    parent: ParentHandle,
    clock: ClockReading,
    event: Event,
)
    requires
        before.wf(),
        kernelch_started(before, after, profiler, parent, clock, Some(event)),
        parent.ncclop matches Some(op) ==> refs_before(
            before.refs(),
            OpRef { pid: profiler.pid, op },
        ) < usize::MAX,
    ensures
        refs_at_stop(event, after.refs(), profiler) == before.refs(),
{
    lemma_refs_positive(before);
    if let Some(op) = parent.ncclop {
        law_drop_undoes_add(
            before.refs(),
            OpRef { pid: profiler.pid, op },
            profiler.spec_recent_instant(clock),
        );
    }
}

/// Every event that opens an activity window closes it again: starting and
/// stopping an event leaves as many windows in flight as before.
pub proof fn law_windows_balance(
    before: GapTracker,
    running: GapTracker,
    after: GapTracker,
    event: Event,
    start_ns: u64,
    stop_ns: u64,
)
    requires
        window_begun(Some(before), Some(running), Some(event), start_ns),
        window_ended(Some(running), Some(after), event, stop_ns),
    ensures
        after.counters().in_flight() == before.counters().in_flight(),
        is_activity(event) && before.counters().in_flight() < 0xffff_ffff
            ==> running.counters().in_flight() == before.counters().in_flight() + 1,
        !is_activity(event) ==> after == before,
{
    law_begin_and_end_balance(before.counters(), stop_ns);
}

/// Where starting an event touches no state, starting it with a thread and a
/// profiler gives the same event and leaves both alone.
pub proof fn law_stateless_start_agrees(
    before: ThreadLocalState,
    after: ThreadLocalState,
    profiler: Profiler,
    profiler_after: Profiler,
    descr: EventDescr,
    comm: Option<Communicator>,
    version: Version,
    clock: ClockReading,
    node_available: bool,
    event: Option<Event>,
)
    requires
        starts_without_state(profiler.config, descr),
        event_started(
            before,
            after,
            profiler,
            profiler_after,
            descr,
            comm,
            version,
            clock,
            node_available,
            event,
        ),
    ensures
        event == stateless_event(profiler.config, descr, comm, clock),
        after == before,
        profiler_after == profiler,
{
}

/// Without operation tracking, groups, collectives and point-to-point
/// transfers are no activity: only proxy operations and kernel channels are.
pub proof fn law_untracked_operations_are_no_activity(
    before: ThreadLocalState,
    after: ThreadLocalState,
    profiler: Profiler,
    count_after: u64,
    coll: CollDescr,
    p2p: P2pDescr,
    comm: Communicator,
    clock: ClockReading,
    node_available: bool,
    event: Event,
)
    requires
        !profiler.config.track_ncclop,
        ({
            ||| group_started(profiler.config, clock, Some(event))
            ||| coll_started(
                before,
                after,
                profiler,
                count_after,
                coll,
                comm,
                clock,
                node_available,
                Some(event),
            )
            ||| p2p_started(
                before,
                after,
                profiler,
                count_after,
                p2p,
                comm,
                clock,
                node_available,
                Some(event),
            )
        }),
    ensures
        !is_activity(event),
{
}

/// Where operations are tracked, an all-reduce is tracked whatever its size;
/// any other collective at or below the threshold takes the fast path where
/// that is wanted.
pub proof fn law_small_collectives_are_skipped(config: Config, descr: CollDescr)
    requires
        config.track_ncclop,
    ensures
        descr.op_type == NcclOpType::AllReduce ==> coll_start(config, descr) == CollStart::Track
            || coll_start(config, descr) == CollStart::TrackLite,
        coll_start(config, descr) == CollStart::Small <==> config.skip_small_collective
            && descr.op_type != NcclOpType::AllReduce && descr.byte_count
            <= config.small_msg_threshold,
{
}

/// Where operations are tracked, a point-to-point transfer at or below the
/// threshold is never tracked: no event, and no message to the daemon.
pub proof fn law_small_transfers_are_ignored(
    before: ThreadLocalState,
    after: ThreadLocalState,
    profiler: Profiler,
    count_after: u64,
    descr: P2pDescr,
    comm: Communicator,
    clock: ClockReading,
    node_available: bool,
    event: Option<Event>,
)
    requires
        profiler.config.track_ncclop,
        descr.byte_count <= profiler.config.small_msg_threshold,
        p2p_started(
            before,
            after,
            profiler,
            count_after,
            descr,
            comm,
            clock,
            node_available,
            event,
        ),
    ensures
        event is None,
        count_after == profiler.ncclop_cnt,
        after.ncclop_fifo == before.ncclop_fifo,
        after.fifo == before.fifo,
{
}

/// Rates of one and zero decide without chance: all transfers are sampled
/// where both rates are one, and none where the common rate is zero. A
/// receive is never sampled where the receive rate is zero.
pub proof fn law_certain_rates_decide(config: Config, is_send: bool, draws: Seq<u32>)
    ensures
        config.p2p_sample_rate is Always && config.p2p_recv_sample_rate is Always ==> p2p_sampled(
            config,
            is_send,
            draws,
        ) && p2p_draws(config, is_send, draws) == 0,
        config.p2p_sample_rate is Never ==> !p2p_sampled(config, is_send, draws) && p2p_draws(
            config,
            is_send,
            draws,
        ) == 0,
        config.p2p_recv_sample_rate is Never && !is_send ==> !p2p_sampled(config, is_send, draws),
{
}

/// The steps in the batches among `messages`, in order.
pub open spec fn delivered(messages: Seq<(MessageView, bool)>) -> Seq<EventStep>
    decreases messages.len(),
{
    if messages.len() == 0 {
        Seq::empty()
    } else {
        let rest = delivered(messages.drop_last());
        match messages.last().0 {
            MessageView::StepBatch(_, steps, _) => rest + steps,
            _ => rest,
        }
    }
}

proof fn lemma_delivered_concat(a: Seq<(MessageView, bool)>, b: Seq<(MessageView, bool)>)
    ensures
        delivered(a + b) == delivered(a) + delivered(b),
    decreases b.len(),
{
    if b.len() == 0 {
        assert(a + b =~= a);
        assert(delivered(a) + delivered(b) =~= delivered(a));
    } else {
        lemma_delivered_concat(a, b.drop_last());
        assert((a + b).drop_last() =~= a + b.drop_last());
        assert((a + b).last() == b.last());
        assert(delivered(a + b) =~= delivered(a) + delivered(b));
    }
}

/// The messages that completing `steps` sends, one step after the other;
/// `states` are the states of the proxy operation before each step and after
/// the last.
pub open spec fn batches(
    states: Seq<ProxyOpLocalData>,
    steps: Seq<EventStep>,
    capacity: usize,
) -> Seq<(MessageView, bool)>
    decreases steps.len(),
{
    if steps.len() == 0 {
        Seq::empty()
    } else {
        batches(states.drop_last(), steps.drop_last(), capacity) + step_messages(
            states[steps.len() - 1],
            capacity,
            steps.last(),
        )
    }
}

/// The proxy operation goes through `states` as `steps` complete.
pub open spec fn steps_completed(
    states: Seq<ProxyOpLocalData>,
    steps: Seq<EventStep>,
    capacity: usize,
) -> bool {
    &&& states.len() == steps.len() + 1
    &&& forall|i: int|
        0 <= i < steps.len() ==> #[trigger] step_completed(
            states[i],
            states[i + 1],
            capacity,
            steps[i],
        )
}

proof fn lemma_batches(states: Seq<ProxyOpLocalData>, steps: Seq<EventStep>, capacity: usize)
    requires
        steps_completed(states, steps, capacity),
    ensures
        delivered(batches(states, steps, capacity)) + states.last().pending()
            == states[0].pending() + steps,
        states.last().info == states[0].info,
    decreases steps.len(),
{
    if steps.len() == 0 {
        assert(delivered(Seq::<(MessageView, bool)>::empty()) =~= Seq::<EventStep>::empty());
        assert(delivered(batches(states, steps, capacity)) + states.last().pending()
            =~= states[0].pending() + steps);
    } else {
        let n = steps.len() - 1;
        let rest = states.drop_last();
        let before = states[n];
        let after = states.last();
        let sent = step_messages(before, capacity, steps.last());
        let earlier = batches(rest, steps.drop_last(), capacity);
        assert forall|i: int| 0 <= i < steps.drop_last().len() implies #[trigger] step_completed(
            rest[i],
            rest[i + 1],
            capacity,
            steps.drop_last()[i],
        ) by {
            assert(step_completed(states[i], states[i + 1], capacity, steps[i]));
        }
        lemma_batches(rest, steps.drop_last(), capacity);
        assert(step_completed(states[n], states[n + 1], capacity, steps[n]));
        assert(rest.last() == before);
        lemma_delivered_concat(earlier, sent);
        assert(delivered(sent) + after.pending() =~= before.pending().push(steps.last())) by {
            reveal_with_fuel(delivered, 2);
        }
        assert(delivered(earlier) + before.pending().push(steps.last()) =~= (delivered(earlier)
            + before.pending()).push(steps.last()));
        assert(delivered(earlier + sent) + after.pending() =~= delivered(earlier) + (delivered(sent)
            + after.pending()));
        assert((states[0].pending() + steps.drop_last()).push(steps.last()) =~= states[0].pending()
            + steps);
    }
}

/// No step is lost, repeated or reordered: the batches sent while a proxy
/// operation runs, and what is sent when it ends, hold all its steps in the
/// order in which they completed.
pub proof fn law_every_step_is_delivered(
    states: Seq<ProxyOpLocalData>,
    steps: Seq<EventStep>,
    capacity: usize,
    last: Option<EventStep>,
    track_proxyop: bool,
)
    requires
        steps_completed(states, steps, capacity),
    ensures
        delivered(
            batches(states, steps, capacity) + proxyop_messages(
                states.last(),
                last,
                track_proxyop,
            ),
        ) == with_step(states[0].pending() + steps, last),
{
    let sent = batches(states, steps, capacity);
    let closing = proxyop_messages(states.last(), last, track_proxyop);
    lemma_batches(states, steps, capacity);
    lemma_delivered_concat(sent, closing);
    assert(delivered(closing) =~= with_step(states.last().pending(), last)) by {
        reveal_with_fuel(delivered, 3);
    }
    assert(delivered(sent) + with_step(states.last().pending(), last) =~= with_step(
        states[0].pending() + steps,
        last,
    ));
}

/// Timestamps keep the order of instants.
pub proof fn law_timestamps_keep_order(profiler: Profiler, earlier: u64, later: u64)
    requires
        earlier <= later,
    ensures
        profiler.timestamp(earlier) <= profiler.timestamp(later),
{
}

} // verus!
