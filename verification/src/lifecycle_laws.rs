//! What holds of communicators, of the profiler and of its threads at start.
use crate::attributes::{int_attr, text_attr};
use crate::config::Config;
use crate::ctrl_fifo::queue_capacity;
use crate::daemon::{ControlMessage, MessageView, ThreadControl};
use crate::event::NcclOp;
use crate::lifecycle::{
    comm_finalized, comm_initialized, comm_initialized_v4, FinalizeActions, InitActions, InitState,
};
use crate::nccl_metadata::OpDescr;
use crate::profiler::{
    control_taken, counts_remote_bytes, daemon_given_up, daemon_noted, effective_batch,
    thread_registered, unix_time, uses_gpuviz, Communicator, OpRef, ProcessInfo, Profiler,
    ThreadLocalState, Version,
};
use crate::spsc::{drained, Envelope, Sender};
use vstd::prelude::*;

verus! {

proof fn lemma_mask_sums(kernel: u32, steps: u32)
    requires
        kernel == 0 || kernel == 64,
        steps == 0 || steps == 16,
    ensures
        (1u32 | 2 | 4 | 8 | kernel) == 15 + kernel,
        (1u32 | 2 | 4 | 8 | kernel | steps) == 15 + kernel + steps,
{
    assert((1u32 | 2 | 4 | 8 | kernel) == 15 + kernel && (1u32 | 2 | 4 | 8 | kernel | steps) == 15
        + kernel + steps) by (bit_vector)
        requires
            kernel == 0 || kernel == 64,
            steps == 0 || steps == 16,
    ;
}

/// Initializing a communicator: with telemetry, groups, collectives, transfers
/// and proxy operations are asked for, and kernel channels where they are
/// followed; the first communicator starts the daemon and, unless that was done
/// before, has the profiler created. Without telemetry nothing is asked for and
/// nothing is started. The communicator has no name, and a counter of its own.
pub proof fn law_communicators_are_initialized(
    config: Config,
    version: Version,
    before: InitState,
    after: InitState,
    mask: i32,
    counters: nat,
    comm: Communicator,
    actions: InitActions,
)
    requires
        comm_initialized(config, version, before, after, mask, counters, comm, actions),
        before.init_count < usize::MAX,
    ensures
        comm.comm_hash is None,
        comm.total_net_bytes == counters,
        actions.announce is None,
        config.telemetry_mode > 0 ==> {
            &&& mask == 15 + if config.track_kernel_ch {
                64int
            } else {
                0
            }
            &&& after.init_count == before.init_count + 1
            &&& after.profiler_created
            &&& actions.spawn_daemon <==> before.init_count == 0
            &&& actions.init_logger <==> before.init_count == 0
            &&& actions.create_profiler is Some <==> before.init_count == 0
                && !before.profiler_created
            &&& actions.create_profiler matches Some(wanted) ==> wanted == version
        },
        config.telemetry_mode <= 0 ==> {
            &&& mask == 0
            &&& after == before
            &&& !actions.spawn_daemon
            &&& !actions.init_logger
            &&& actions.create_profiler is None
        },
{
    lemma_mask_sums(0, 0);
    lemma_mask_sums(64, 0);
}

/// Initializing a named communicator: as any other, and steps are asked for
/// where they are followed or aggregated, and the daemon hears of the
/// communicator where progress is reported.
pub proof fn law_named_communicators_are_initialized(
    config: Config,
    version: Version,
    comm_hash: u64,
    before: InitState,
    after: InitState,
    mask: i32,
    counters: nat,
    comm: Communicator,
    actions: InitActions,
)
    requires
        comm_initialized_v4(
            config,
            version,
            comm_hash,
            before,
            after,
            mask,
            counters,
            comm,
            actions,
        ),
        before.init_count < usize::MAX,
    ensures
        comm.comm_hash == Some(comm_hash),
        comm.total_net_bytes == counters,
        !actions.init_logger,
        actions.announce is Some <==> config.heartbeat_collective_progress,
        actions.announce matches Some(message) ==> message@ == MessageView::CommOpen(comm),
        config.telemetry_mode > 0 ==> {
            &&& mask == 15 + (if config.track_kernel_ch {
                64int
            } else {
                0
            }) + (if config.track_steps || config.aggregate_steps {
                16int
            } else {
                0
            })
            &&& after.init_count == before.init_count + 1
            &&& after.profiler_created
            &&& actions.spawn_daemon <==> before.init_count == 0
            &&& actions.create_profiler is Some <==> before.init_count == 0
                && !before.profiler_created
            &&& actions.create_profiler matches Some(wanted) ==> wanted == version
        },
        config.telemetry_mode <= 0 ==> {
            &&& mask == 0
            &&& after == before
            &&& !actions.spawn_daemon
            &&& actions.create_profiler is None
        },
{
    lemma_mask_sums(0, 0);
    lemma_mask_sums(64, 0);
    lemma_mask_sums(0, 16);
    lemma_mask_sums(64, 16);
}

/// Finalizing a communicator: with telemetry there is one less, the daemon
/// hears of it where it has a name, and is stopped with the last one; the
/// profiler stays. Without telemetry nothing happens.
pub proof fn law_communicators_are_finalized(
    comm: Communicator,
    config: Config,
    before: InitState,
    after: InitState,
    actions: FinalizeActions,
)
    requires
        comm_finalized(comm, config, before, after, actions),
        before.init_count > 0,
    ensures
        after.profiler_created == before.profiler_created,
        config.telemetry_mode > 0 ==> {
            &&& after.init_count + 1 == before.init_count
            &&& actions.join_daemon <==> after.init_count == 0
            &&& actions.announce is Some <==> comm.comm_hash is Some
            &&& actions.announce matches Some(message) ==> message@ == MessageView::CommClose(
                comm.comm_hash->0,
            )
        },
        config.telemetry_mode <= 0 ==> {
            &&& after == before
            &&& !actions.join_daemon
            &&& actions.announce is None
        },
{
}

/// A communicator that comes and goes leaves as many as before. It stops the
/// daemon exactly where it started it, and with telemetry the daemon hears of
/// its end under the name that it came with.
pub proof fn law_communicators_come_and_go(
    config: Config,
    version: Version,
    comm_hash: u64,
    before: InitState,
    between: InitState,
    after: InitState,
    mask: i32,
    counters: nat,
    comm: Communicator,
    opening: InitActions,
    closing: FinalizeActions,
)
    requires
        comm_initialized_v4(
            config,
            version,
            comm_hash,
            before,
            between,
            mask,
            counters,
            comm,
            opening,
        ),
        comm_finalized(comm, config, between, after, closing),
        before.init_count < usize::MAX,
    ensures
        after.init_count == before.init_count,
        closing.join_daemon == opening.spawn_daemon,
        config.telemetry_mode > 0 ==> closing.announce is Some && closing.announce->0@
            == MessageView::CommClose(comm_hash),
{
    law_named_communicators_are_initialized(
        config,
        version,
        comm_hash,
        before,
        between,
        mask,
        counters,
        comm,
        opening,
    );
}

/// The profiler at start: the settings and the process as given, nothing
/// announced, nothing queued, no daemon. Gaps are followed exactly where
/// telemetry is exported: none is in flight, none ended, and they are recorded
/// under the host and the process. The visualisation library is held only where
/// telemetry is on and wants it.
pub proof fn law_profiler_at_start(
    profiler: Profiler,
    version: Version,
    config: Config,
    process: ProcessInfo,
    gpuviz: Option<u64>,
    step_batch_capacity: usize,
)
    requires
        profiler.is_created(version, config, process, gpuviz, step_batch_capacity),
    ensures
        profiler.config == config,
        profiler.version == version,
        profiler.pid == process.pid,
        profiler.init_time == process.init_time,
        profiler.init_instant == process.init_instant,
        profiler.ncclop_cnt == 0,
        profiler.daemon is None,
        profiler.step_batch_capacity == step_batch_capacity,
        profiler.control_messages().len() == 0,
        profiler.has_control_room(),
        queue_capacity(profiler.ctrl_fifo) == 256,
        config.telemetry_mode > 0 && config.use_gpuviz ==> profiler.gpuviz_lib == gpuviz,
        config.telemetry_mode <= 0 || !config.use_gpuviz ==> profiler.gpuviz_lib is None,
        uses_gpuviz(config) <==> config.telemetry_mode > 0 && config.use_gpuviz,
        profiler.gap_tracker is Some <==> config.otel_enable,
        profiler.gap_tracker matches Some(tracker) ==> {
            &&& tracker.counters().in_flight() == 0
            &&& tracker.counters().begins() == 0
            &&& tracker.counters().idle_since_ns == 0
            &&& !tracker.counters().stall_logged
            &&& tracker.instrument() is None
            &&& tracker.attrs().len() == 2
            &&& tracker.attrs()[0] == text_attr("nccl.hostname"@, process.hostname@)
            &&& tracker.attrs()[1] == int_attr("nccl.pid"@, process.pid as i64)
        },
{
}

/// A thread at start: its two channels hold 8192 messages each and make them
/// visible in batches of the configured size, but of at least one; nothing was
/// sent, no operation is referred to, and no random number was drawn. Nodes for
/// steps are set aside only where NCCL reports steps of its own.
pub proof fn law_thread_at_start(
    thread: ThreadLocalState,
    profiler: Profiler,
    ncclop_channel: u64,
    channel: u64,
    freelist_batch: usize,
    key: OpRef,
)
    requires
        thread.is_initial(profiler, ncclop_channel, channel, freelist_batch),
        freelist_batch * 4 <= usize::MAX,
    ensures
        thread.wf(),
        thread.ncclop_fifo.channel == ncclop_channel,
        thread.fifo.channel == channel,
        thread.ncclop_fifo.capacity == 8192,
        thread.fifo.capacity == 8192,
        thread.ncclop_fifo.batch == thread.fifo.batch,
        thread.fifo.batch >= 1,
        profiler.config.fifo_batch_size >= 1 ==> thread.fifo.batch
            == profiler.config.fifo_batch_size,
        profiler.config.fifo_batch_size == 0 ==> thread.fifo.batch == 1,
        effective_batch(profiler.config) == thread.fifo.batch,
        thread.ncclop_fifo@.len() == 0,
        thread.fifo@.len() == 0,
        !thread.refs().contains_key(key),
        thread.free_lists.ncclop == freelist_batch * 4,
        thread.free_lists.proxyop == freelist_batch * 4,
        thread.free_lists.steps == freelist_batch * 4,
        thread.free_lists.kernelch == freelist_batch,
        profiler.version is V4 ==> thread.free_lists.proxystep == freelist_batch,
        !(profiler.version is V4) ==> thread.free_lists.proxystep == 0,
        thread.proxyop_id == 0,
        thread.sampler.drawn().len() == 0,
{
}

/// Timestamps run with the clock: from start on, an instant is as much later
/// than the start on the wall clock as it is on the monotonic clock. Where the
/// wall clock stood before the epoch, time counts from start.
pub proof fn law_timestamps_run_with_the_clock(profiler: Profiler, t: u64)
    ensures
        t >= profiler.init_instant && profiler.init_time >= 0 ==> profiler.timestamp(t)
            - profiler.init_time == t - profiler.init_instant,
        t < profiler.init_instant && profiler.init_time >= 0 ==> profiler.timestamp(t)
            == profiler.init_time,
        t >= profiler.init_instant && profiler.init_time < 0 ==> profiler.timestamp(t) == t
            - profiler.init_instant,
        t < profiler.init_instant && profiler.init_time < 0 ==> profiler.timestamp(t) == 0,
{
}

/// Rank and size of an operation are those that NCCL announced; what is no
/// collective and no transfer has neither.
pub proof fn law_operations_know_their_size(op: NcclOp)
    ensures
        op.descr matches OpDescr::Coll(coll) ==> op.spec_rank() == coll.rank
            && op.spec_byte_count() == coll.byte_count,
        op.descr matches OpDescr::P2p(p2p) ==> op.spec_rank() == p2p.rank && op.spec_byte_count()
            == p2p.byte_count,
        op.descr is Other ==> op.spec_rank() == 0 && op.spec_byte_count() == 0,
{
}

/// Bytes sent on behalf of other processes have a counter exactly where
/// progress is reported. It stands at zero, and no other counter moves.
pub proof fn law_remote_bytes_have_a_counter(
    config: Config,
    remote_net_bytes: Option<usize>,
    counters: Seq<usize>,
    counters_after: Seq<usize>,
    id: int,
)
    requires
        counts_remote_bytes(config, remote_net_bytes, counters, counters_after),
    ensures
        remote_net_bytes is Some <==> config.heartbeat_collective_progress,
        remote_net_bytes matches Some(remote) ==> {
            &&& counters_after.len() == counters.len() + 1
            &&& remote == counters.len()
            &&& counters_after[remote as int] == 0
        },
        remote_net_bytes is None ==> counters_after.len() == counters.len(),
        0 <= id < counters.len() ==> counters_after[id] == counters[id],
{
}

/// The wall clock time is kept, as far as 64 bits can tell it; a time before
/// the epoch counts as the epoch.
pub proof fn law_unix_time(init_time: i128)
    ensures
        0 <= init_time <= u64::MAX ==> unix_time(init_time) == init_time,
        init_time < 0 ==> unix_time(init_time) == 0,
{
}

/// The daemon that was noted last is the one that is given up, one that it
/// replaces is handed back, and none is left.
pub proof fn law_daemons_are_handed_back(
    p0: Profiler,
    p1: Profiler,
    p2: Profiler,
    daemon: u64,
    previous: Option<u64>,
    last: Option<u64>,
)
    requires
        daemon_noted(p0, p1, daemon, previous),
        daemon_given_up(p1, p2, last),
    ensures
        previous == p0.daemon,
        p1.daemon == Some(daemon),
        last == Some(daemon),
        p2.daemon is None,
        p2 == (Profiler { daemon: None, ..p0 }),
{
}

/// Threads are announced in order: what was announced first is taken out
/// first, whatever is announced meanwhile, and nothing else of the profiler
/// changes.
pub proof fn law_threads_are_announced_in_order(
    p0: Profiler,
    p1: Profiler,
    p2: Profiler,
    p3: Profiler,
    p4: Profiler,
    a: ThreadControl,
    b: ThreadControl,
    first: Option<ControlMessage>,
    second: Option<ControlMessage>,
)
    requires
        p0.control_messages().len() == 0,
        thread_registered(p0, p1, a),
        thread_registered(p1, p2, b),
        control_taken(p2, p3, first),
        control_taken(p3, p4, second),
    ensures
        first == Some(ControlMessage::NewThread(a)),
        second == Some(ControlMessage::NewThread(b)),
        p4.control_messages().len() == 0,
        p4 == (Profiler { ctrl_fifo: p4.ctrl_fifo, ..p0 }),
{
}

/// A message more is announced or taken with every call, and none where none
/// waits. One more can be announced while fewer wait than the queue holds.
pub proof fn law_control_messages_are_counted(
    before: Profiler,
    after: Profiler,
    thread_ctrl: ThreadControl,
    message: Option<ControlMessage>,
)
    ensures
        before.has_control_room() <==> before.control_messages().len() < queue_capacity(
            before.ctrl_fifo,
        ),
        thread_registered(before, after, thread_ctrl) ==> after.control_messages().len()
            == before.control_messages().len() + 1 && queue_capacity(after.ctrl_fifo)
            == queue_capacity(before.ctrl_fifo),
        control_taken(before, after, message) ==> queue_capacity(after.ctrl_fifo)
            == queue_capacity(before.ctrl_fifo),
        control_taken(before, after, message) && before.control_messages().len() > 0
            ==> after.control_messages().len() + 1 == before.control_messages().len(),
        control_taken(before, after, message) && before.control_messages().len() == 0
            ==> message is None && after.control_messages().len() == 0,
{
}

/// Taking the waiting messages out yields each of them, once and in order,
/// and leaves none.
pub proof fn law_waiting_messages_are_taken(
    before: Sender,
    after: Sender,
    taken: Seq<Envelope>,
    i: int,
)
    requires
        drained(before, after, taken),
    ensures
        taken.len() == before.outbox@.len(),
        0 <= i < taken.len() ==> {
            &&& taken[i].message@ == before.outbox@[i].message@
            &&& taken[i].use_barrier == before.outbox@[i].use_barrier
        },
        after.outbox@.len() == 0,
        after.channel == before.channel,
        after.capacity == before.capacity,
        after.batch == before.batch,
{
    assert(taken.len() == before@.len());
    assert(after@.len() == 0);
    if 0 <= i < taken.len() {
        assert(before@[i] == (taken[i].message@, taken[i].use_barrier));
    }
}

} // verus!
