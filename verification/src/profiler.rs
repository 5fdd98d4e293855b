//! The state of the profiler: shared, per thread, and per event.
use crate::config::{ClockReading, Config};
use crate::counters::CounterTable;
use crate::ctrl_fifo::{
    new_queue, pop_message, push_message, queue_capacity, queue_is_full, queued,
};
use crate::daemon::{ControlMessage, Message, MessageView, StepBatch, ThreadControl};
use crate::event::{
    times_since, Event, NcclOp, ProxyOpExtra, ProxyOpInfo, ProxyStep, StepTimes,
};
use crate::gap::{gap_attributes, minus, GapState, GapTracker};
use crate::nccl_metadata::{OpDescr, ProxyOpDescr};
use crate::sampler::{SampleRate, Sampler};
use crate::spsc::Sender;
use crate::step_tracker::{EventStep, StepTracker};
use crate::table::{Table, TableKey};
use crossbeam::queue::ArrayQueue;
use vstd::prelude::*;

verus! {

/// Version of the NCCL profiler API.
#[derive(Debug, Clone, Copy, PartialEq, Eq, Structural)]
pub enum Version {
    V1,
    V2,
    V3,
    V4,
}

/// How many messages a thread's channels hold.
pub const EVENT_QUEUE_SZ: usize = 8192;

const CTRL_FIFO_SZ: usize = 256;

/// What the profiler needs to know of its process.
#[derive(Debug)]
pub struct ProcessInfo {
    pub pid: i32,
    pub hostname: String,
    /// Wall clock time at start, in nanoseconds since the Unix epoch.
    pub init_time: i128,
    /// The instant of the monotonic clock at start, in nanoseconds.
    pub init_instant: u64,
}

/// The state that all threads share.
#[derive(Debug)]
pub struct Profiler {
    pub config: Config,
    pub version: Version,
    pub pid: i32,
    /// Wall clock time at start, in nanoseconds since the Unix epoch.
    pub init_time: i128,
    /// The instant of the monotonic clock at start, in nanoseconds.
    pub init_instant: u64,
    /// The handle of the loaded visualisation library.
    pub gpuviz_lib: Option<u64>,
    pub ctrl_fifo: ArrayQueue<ControlMessage>,
    /// The handle of the running daemon.
    pub daemon: Option<u64>,
    /// How many operations were announced.
    pub ncclop_cnt: u64,
    pub gap_tracker: Option<GapTracker>,
    /// The counter of bytes sent on behalf of other processes.
    pub remote_net_bytes: Option<usize>,
    /// How many steps are sent to the daemon together.
    pub step_batch_capacity: usize,
}

/// The profiler loads the visualisation library.
pub open spec fn uses_gpuviz(config: Config) -> bool {
    config.telemetry_mode > 0 && config.use_gpuviz
}

/// Whether the profiler loads the visualisation library.
pub fn wants_gpuviz(config: &Config) -> (r: bool)
    ensures
        r == uses_gpuviz(*config),
{
    config.telemetry_mode > 0 && config.use_gpuviz
}

/// A wall clock time in nanoseconds since the Unix epoch, or zero for a time
/// before it.
pub open spec fn unix_time(init_time: i128) -> u64 {
    if init_time < 0 {
        0
    } else {
        init_time as u64
    }
}

/// The start time that the visualisation library is loaded with: nanoseconds
/// since the Unix epoch, or zero for a time before it.
pub fn gpuviz_start_ns(init_time: i128) -> (r: u64)
    ensures
        r == unix_time(init_time),
{
    if init_time < 0 {
        0
    } else {
        #[verifier::truncate]
        (init_time as u64)
    }
}

/// The counter of bytes sent on behalf of other processes: a new one, at zero,
/// where progress is reported, and else none.
pub open spec fn counts_remote_bytes(
    config: Config,
    remote_net_bytes: Option<usize>,
    counters: Seq<usize>,
    counters_after: Seq<usize>,
) -> bool {
    if config.heartbeat_collective_progress {
        &&& remote_net_bytes matches Some(id)
        &&& id == counters.len()
        &&& counters_after == counters.push(0)
    } else {
        remote_net_bytes is None && counters_after == counters
    }
}

/// What noting a daemon does; the one that was noted before is handed back.
pub open spec fn daemon_noted(
    before: Profiler,
    after: Profiler,
    daemon: u64,
    previous: Option<u64>,
) -> bool {
    &&& after == (Profiler { daemon: Some(daemon), ..before })
    &&& previous == before.daemon
}

/// What giving up the daemon does.
pub open spec fn daemon_given_up(before: Profiler, after: Profiler, daemon: Option<u64>) -> bool {
    &&& after == (Profiler { daemon: None, ..before })
    &&& daemon == before.daemon
}

/// What announcing a thread to the daemon does.
pub open spec fn thread_registered(
    before: Profiler,
    after: Profiler,
    thread_ctrl: ThreadControl,
) -> bool {
    &&& after == (Profiler { ctrl_fifo: after.ctrl_fifo, ..before })
    &&& queue_capacity(after.ctrl_fifo) == queue_capacity(before.ctrl_fifo)
    &&& after.control_messages() == before.control_messages().push(
        ControlMessage::NewThread(thread_ctrl),
    )
}

/// What taking a control message out does: the oldest one goes, if there is
/// one.
pub open spec fn control_taken(
    before: Profiler,
    after: Profiler,
    message: Option<ControlMessage>,
) -> bool {
    &&& after == (Profiler { ctrl_fifo: after.ctrl_fifo, ..before })
    &&& queue_capacity(after.ctrl_fifo) == queue_capacity(before.ctrl_fifo)
    &&& message is None <==> before.control_messages().len() == 0
    &&& message is None ==> after.control_messages() == before.control_messages()
    &&& message matches Some(taken) ==> taken == before.control_messages()[0]
        && after.control_messages() == before.control_messages().skip(1)
}

impl Profiler {
    /// A batch of steps can hold a step.
    pub open spec fn wf(&self) -> bool {
        self.step_batch_capacity > 0
    }

    /// The control messages that wait for the daemon.
    pub open spec fn control_messages(&self) -> Seq<ControlMessage> {
        queued(self.ctrl_fifo)
    }

    /// There is room for one more control message.
    pub open spec fn has_control_room(&self) -> bool {
        queued(self.ctrl_fifo).len() < queue_capacity(self.ctrl_fifo)
    }

    /// The profiler at start, but for its byte counter.
    pub open spec fn is_created(
        &self,
        version: Version,
        config: Config,
        process: ProcessInfo,
        gpuviz: Option<u64>,
        step_batch_capacity: usize,
    ) -> bool {
        &&& self.config == config
        &&& self.version == version
        &&& self.pid == process.pid
        &&& self.init_time == process.init_time
        &&& self.init_instant == process.init_instant
        &&& self.gpuviz_lib == if uses_gpuviz(config) {
            gpuviz
        } else {
            None
        }
        &&& self.control_messages() == Seq::<ControlMessage>::empty()
        &&& queue_capacity(self.ctrl_fifo) == 256
        &&& self.daemon is None
        &&& self.ncclop_cnt == 0
        &&& self.step_batch_capacity == step_batch_capacity
        &&& self.gap_tracker is Some <==> config.otel_enable
        &&& self.gap_tracker matches Some(tracker) ==> {
            &&& tracker.counters() == GapState::initial()
            &&& tracker.instrument() is None
            &&& tracker.attrs() == gap_attributes(process.hostname@, process.pid)
        }
    }

    /// The profiler at start. `gpuviz` is what loading the visualisation
    /// library returned, where it is wanted.
    pub fn new(
        version: Version,
        config: &Config,
        process: ProcessInfo,
        gpuviz: Option<u64>,
        step_batch_capacity: usize,
        counters: &mut CounterTable,
    ) -> (r: Self)
        requires
            step_batch_capacity > 0,
        ensures
            r.wf(),
            r.is_created(version, *config, process, gpuviz, step_batch_capacity),
            counts_remote_bytes(*config, r.remote_net_bytes, old(counters)@, final(counters)@),
    {
        let gpuviz_lib = if wants_gpuviz(config) {
            gpuviz
        } else {
            None
        };
        let gap_tracker = if config.otel_enable {
            Some(GapTracker::new(process.hostname, process.pid))
        } else {
            None
        };
        let remote_net_bytes = if config.heartbeat_collective_progress {
            Some(counters.create())
        } else {
            None
        };
        Profiler {
            config: *config,
            version,
            pid: process.pid,
            init_time: process.init_time,
            init_instant: process.init_instant,
            gpuviz_lib,
            ctrl_fifo: new_queue(CTRL_FIFO_SZ),
            daemon: None,
            ncclop_cnt: 0,
            gap_tracker,
            remote_net_bytes,
            step_batch_capacity,
        }
    }

    /// The instant that the configured clock shows.
    pub open spec fn spec_recent_instant(self, clock: ClockReading) -> u64 {
        if self.config.use_cached_clock {
            clock.cached
        } else {
            clock.now
        }
    }

    /// The instant that the configured clock shows.
    pub fn recent_timer_instant(&self, clock: &ClockReading) -> (r: u64)
        ensures
            r == self.spec_recent_instant(*clock),
    {
        if self.config.use_cached_clock {
            clock.cached
        } else {
            clock.now
        }
    }

    /// The time since start that the configured clock shows.
    pub open spec fn spec_recent_ns(self, clock: ClockReading) -> u64 {
        if self.config.use_cached_clock {
            clock.cached_ns
        } else {
            minus(clock.now, self.init_instant)
        }
    }

    /// The time since start that the configured clock shows.
    pub fn recent_timer_ns(&self, clock: &ClockReading) -> (r: u64)
        ensures
            r == self.spec_recent_ns(*clock),
    {
        if self.config.use_cached_clock {
            clock.cached_ns
        } else {
            clock.now.saturating_sub(self.init_instant)
        }
    }

    /// An instant as time since the Unix epoch, or as time since start where
    /// the wall clock stood before the epoch. An instant before start counts
    /// as start.
    pub open spec fn timestamp(self, t: u64) -> int {
        minus(t, self.init_instant) + if self.init_time >= 0 {
            self.init_time as int
        } else {
            0
        }
    }

    /// An instant as time since the Unix epoch, in nanoseconds.
    pub fn instant_to_timestamp(&self, t: u64) -> (r: u128)
        ensures
            r == self.timestamp(t),
    {
        let dt: u128 = t.saturating_sub(self.init_instant) as u128;
        if self.init_time >= 0 {
            dt + self.init_time as u128
        } else {
            dt
        }
    }

    /// An instant as time since start, in nanoseconds. An instant before start
    /// counts as start.
    pub fn instant_to_ns(&self, t: u64) -> (r: u64)
        ensures
            r == minus(t, self.init_instant),
    {
        t.saturating_sub(self.init_instant)
    }

    /// The times of a step as time since start, in nanoseconds.
    pub fn step_times(&self, step: &ProxyStep) -> (r: StepTimes)
        ensures
            r == times_since(*step, self.init_instant),
    {
        let start_ns = match step.start_time {
            Some(t) => Some(self.instant_to_ns(t)),
            None => None,
        };
        let fifo_ready_ns = match step.fifo_ready_time {
            Some(t) => Some(self.instant_to_ns(t)),
            None => None,
        };
        let end_ns = match step.end_time {
            Some(t) => Some(self.instant_to_ns(t)),
            None => None,
        };
        StepTimes { start_ns, fifo_ready_ns, end_ns }
    }

    /// Notes the handle of a daemon that was started; one that was noted
    /// before is handed back, to be stopped.
    pub fn spawn_daemon(&mut self, daemon: u64) -> (r: Option<u64>)
        ensures
            daemon_noted(*old(self), *final(self), daemon, r),
    {
        let previous = self.daemon.take();
        self.daemon = Some(daemon);
        previous
    }

    /// Gives up the handle of the daemon, which has to be stopped.
    pub fn join_daemon(&mut self) -> (r: Option<u64>)
        ensures
            daemon_given_up(*old(self), *final(self), r),
    {
        self.daemon.take()
    }

    /// Whether one more thread can be announced to the daemon.
    pub fn can_register_thread(&self) -> (r: bool)
        ensures
            r == self.has_control_room(),
    {
        !queue_is_full(&self.ctrl_fifo)
    }

    /// Announces a thread to the daemon.
    pub fn register_thread(&mut self, thread_ctrl: ThreadControl)
        requires
            old(self).has_control_room(),
        ensures
            thread_registered(*old(self), *final(self), thread_ctrl),
    {
        let _ = push_message(&mut self.ctrl_fifo, ControlMessage::NewThread(thread_ctrl));
    }

    /// Takes the oldest control message out, on behalf of the daemon.
    pub fn next_control(&mut self) -> (r: Option<ControlMessage>)
        ensures
            control_taken(*old(self), *final(self), r),
    {
        pop_message(&mut self.ctrl_fifo)
    }

    /// The state of a thread that is announced to the daemon.
    pub fn init_thread_state(
        &mut self,
        ncclop_channel: u64,
        channel: u64,
        freelist_batch: usize,
    ) -> (r: ThreadLocalState)
        requires
            old(self).has_control_room(),
            freelist_batch * 4 <= usize::MAX,
        ensures
            thread_registered(
                *old(self),
                *final(self),
                ThreadControl { ncclop_channel, channel },
            ),
            r.is_initial(*old(self), ncclop_channel, channel, freelist_batch),
    {
        let (state, control) = thread_local_state(self, ncclop_channel, channel, freelist_batch);
        self.register_thread(control);
        state
    }
}

/// How many nodes a thread sets aside at start, by kind.
#[derive(Debug, Clone, Copy)]
pub struct FreeListSizes {
    pub ncclop: usize,
    pub proxyop: usize,
    pub proxystep: usize,
    pub steps: usize,
    pub kernelch: usize,
}

/// An operation of a process.
#[derive(Debug, Clone, Copy, PartialEq, Eq, Structural)]
pub struct OpRef {
    pub pid: i32,
    pub op: usize,
}

impl View for OpRef {
    type V = OpRef;

    open spec fn view(&self) -> OpRef {
        *self
    }
}

impl TableKey for OpRef {
    fn same(&self, other: &Self) -> (r: bool) {
        *self == *other
    }
}

/// The references to an operation.
#[derive(Debug, Clone, Copy)]
pub struct RefCount {
    pub count: usize,
    /// When the work of the operation started, as far as is known.
    pub start_time: u64,
    /// The start time was reported, not assumed.
    pub reported: bool,
}

/// The state of one thread.
///
/// NCCL calls the profiler from the workload thread, which issues groups and
/// operations, and from the proxy thread, which issues network work.
pub struct ThreadLocalState {
    pub ncclop_fifo: Sender,
    pub fifo: Sender,
    pub ncclop_refcnt: Table<OpRef, RefCount>,
    pub free_lists: FreeListSizes,
    pub proxyop_id: u32,
    pub sampler: Sampler,
}

/// How many messages become visible to the daemon together: at least one.
pub open spec fn effective_batch(config: Config) -> usize {
    if config.fifo_batch_size > 1 {
        config.fifo_batch_size
    } else {
        1
    }
}

/// How many messages become visible to the daemon together.
pub fn fifo_batch(config: &Config) -> (r: usize)
    ensures
        r == effective_batch(*config),
{
    if config.fifo_batch_size > 1 {
        config.fifo_batch_size
    } else {
        1
    }
}

impl ThreadLocalState {
    /// Every operation with references has at least one.
    pub open spec fn wf(&self) -> bool {
        &&& self.ncclop_refcnt.wf()
        &&& forall|i: int|
            0 <= i < self.ncclop_refcnt.entries@.len()
                ==> #[trigger] self.ncclop_refcnt.entries@[i].1.count > 0
    }

    /// The references by operation.
    pub open spec fn refs(&self) -> Map<OpRef, RefCount> {
        self.ncclop_refcnt@
    }

    /// The state of a thread at start.
    pub open spec fn is_initial(
        &self,
        profiler: Profiler,
        ncclop_channel: u64,
        channel: u64,
        freelist_batch: usize,
    ) -> bool {
        &&& self.wf()
        &&& self.ncclop_fifo.channel == ncclop_channel
        &&& self.fifo.channel == channel
        &&& self.ncclop_fifo.capacity == EVENT_QUEUE_SZ
        &&& self.fifo.capacity == EVENT_QUEUE_SZ
        &&& self.ncclop_fifo.batch == effective_batch(profiler.config)
        &&& self.fifo.batch == effective_batch(profiler.config)
        &&& self.ncclop_fifo@ == Seq::<(MessageView, bool)>::empty()
        &&& self.fifo@ == Seq::<(MessageView, bool)>::empty()
        &&& self.refs() == Map::<OpRef, RefCount>::empty()
        &&& self.free_lists == (FreeListSizes {
            ncclop: (freelist_batch * 4) as usize,
            proxyop: (freelist_batch * 4) as usize,
            proxystep: if profiler.version is V4 {
                freelist_batch
            } else {
                0
            },
            steps: (freelist_batch * 4) as usize,
            kernelch: freelist_batch,
        })
        &&& self.proxyop_id == 0
        &&& self.sampler.drawn() == Seq::<u32>::empty()
    }

    /// Sends a message to the daemon.
    pub fn send_to_daemon(&mut self, msg: Message, use_barrier: bool)
        ensures
            *final(self) == (ThreadLocalState { fifo: final(self).fifo, ..*old(self) }),
            final(self).fifo.same_channel(&old(self).fifo),
            final(self).fifo@ == old(self).fifo@.push((msg@, use_barrier)),
    {
        self.fifo.send(msg, use_barrier);
    }

    /// Sends a message about an operation to the daemon.
    pub fn send_ncclop_to_daemon(&mut self, msg: Message, use_barrier: bool)
        ensures
            *final(self) == (ThreadLocalState {
                ncclop_fifo: final(self).ncclop_fifo,
                ..*old(self)
            }),
            final(self).ncclop_fifo.same_channel(&old(self).ncclop_fifo),
            final(self).ncclop_fifo@ == old(self).ncclop_fifo@.push((msg@, use_barrier)),
    {
        self.ncclop_fifo.send(msg, use_barrier);
    }

    /// The next identifier of a proxy operation.
    pub fn next_proxyop_id(&mut self) -> (r: u32)
        ensures
            r == old(self).proxyop_id,
            *final(self) == (ThreadLocalState {
                proxyop_id: old(self).proxyop_id.wrapping_add(1),
                ..*old(self)
            }),
    {
        let id: u32 = self.proxyop_id;
        self.proxyop_id = self.proxyop_id.wrapping_add(1);
        id
    }

    /// Adds a reference to an operation, and returns how many there were.
    pub fn inc_ncclop_ref(&mut self, pid: i32, op: usize, now: u64) -> (r: usize)
        requires
            old(self).wf(),
            old(self).refs().contains_key(OpRef { pid, op }) ==> old(self).refs()[OpRef {
                pid,
                op,
            }].count < usize::MAX,
        ensures
            final(self).wf(),
            *final(self) == (ThreadLocalState {
                ncclop_refcnt: final(self).ncclop_refcnt,
                ..*old(self)
            }),
            r == refs_before(old(self).refs(), OpRef { pid, op }),
            final(self).refs() == refs_after_inc(old(self).refs(), OpRef { pid, op }, now),
    {
        let key = OpRef { pid, op };
        match self.ncclop_refcnt.find(&key) {
            Some(i) => {
                let entry: RefCount = self.ncclop_refcnt.entries[i].1;
                self.ncclop_refcnt.set(
                    i,
                    RefCount {
                        count: entry.count + 1,
                        start_time: entry.start_time,
                        reported: entry.reported,
                    },
                );
                entry.count
            },
            None => {
                self.ncclop_refcnt.push(
                    key,
                    RefCount { count: 1, start_time: now, reported: false },
                );
                0
            },
        }
    }

    /// Drops a reference to an operation. With the last one goes the entry,
    /// and the start time of the operation's work is returned.
    pub fn dec_ncclop_ref(&mut self, pid: i32, op: usize) -> (r: Option<u64>)
        requires
            old(self).wf(),
        ensures
            final(self).wf(),
            *final(self) == (ThreadLocalState {
                ncclop_refcnt: final(self).ncclop_refcnt,
                ..*old(self)
            }),
            r == released(old(self).refs(), OpRef { pid, op }),
            final(self).refs() == refs_after_dec(old(self).refs(), OpRef { pid, op }),
    {
        let key = OpRef { pid, op };
        match self.ncclop_refcnt.find(&key) {
            Some(i) => {
                let entry: RefCount = self.ncclop_refcnt.entries[i].1;
                assert(self.ncclop_refcnt.entries@[i as int].1.count > 0);
                if entry.count == 1 {
                    let ghost before = self.ncclop_refcnt.entries@;
                    self.ncclop_refcnt.remove(i);
                    proof {
                        assert forall|j: int| 0 <= j < self.ncclop_refcnt.entries@.len() implies
                            #[trigger] self.ncclop_refcnt.entries@[j].1.count > 0 by {
                            let k = if j < i {
                                j
                            } else {
                                j + 1
                            };
                            assert(self.ncclop_refcnt.entries@[j] == before[k]);
                        }
                    }
                    Some(entry.start_time)
                } else {
                    self.ncclop_refcnt.set(
                        i,
                        RefCount {
                            count: entry.count - 1,
                            start_time: entry.start_time,
                            reported: entry.reported,
                        },
                    );
                    None
                }
            },
            None => None,
        }
    }

    /// Notes that the work of an operation starts now, the first time that
    /// this is reported.
    pub fn update_ncclop_start_time(&mut self, pid: i32, op: usize, now: u64)
        requires
            old(self).wf(),
        ensures
            final(self).wf(),
            *final(self) == (ThreadLocalState {
                ncclop_refcnt: final(self).ncclop_refcnt,
                ..*old(self)
            }),
            final(self).refs() == refs_after_start(old(self).refs(), OpRef { pid, op }, now),
    {
        let key = OpRef { pid, op };
        if let Some(i) = self.ncclop_refcnt.find(&key) {
            let entry: RefCount = self.ncclop_refcnt.entries[i].1;
            assert(self.ncclop_refcnt.entries@[i as int].1.count > 0);
            if !entry.reported {
                self.ncclop_refcnt.set(
                    i,
                    RefCount { count: entry.count, start_time: now, reported: true },
                );
            }
        }
    }

    /// Announces an operation to the daemon. The operation gets the next
    /// identifier even where no node is available for it and nothing is sent.
    pub fn new_ncclop(
        &mut self,
        profiler: &mut Profiler,
        descr: OpDescr,
        time: u64,
        is_lite: bool,
        comm_hash_override: Option<u64>,
        node_available: bool,
    ) -> (r: Option<Event>)
        ensures
            *final(profiler) == (Profiler {
                ncclop_cnt: old(profiler).ncclop_cnt.wrapping_add(1),
                ..*old(profiler)
            }),
            node_available ==> {
                let id = old(profiler).ncclop_cnt as usize;
                let op = NcclOp::announced(descr, time, id, comm_hash_override);
                &&& r == Some(
                    if is_lite {
                        Event::NcclOpLite(id)
                    } else {
                        Event::NcclOp(id)
                    },
                )
                &&& *final(self) == (ThreadLocalState {
                    ncclop_fifo: final(self).ncclop_fifo,
                    ..*old(self)
                })
                &&& final(self).ncclop_fifo.same_channel(&old(self).ncclop_fifo)
                &&& final(self).ncclop_fifo@ == old(self).ncclop_fifo@.push(
                    (MessageView::NcclOp(op), true),
                )
            },
            !node_available ==> r is None && *final(self) == *old(self),
    {
        let count: u64 = profiler.ncclop_cnt;
        profiler.ncclop_cnt = count.wrapping_add(1);
        let id: usize = #[verifier::truncate]
        (count as usize);
        let op = NcclOp::from_descr(descr, time, id, comm_hash_override);
        if node_available {
            self.send_ncclop_to_daemon(Message::NcclOp(op), true);
            if is_lite {
                Some(Event::NcclOpLite(id))
            } else {
                Some(Event::NcclOp(id))
            }
        } else {
            None
        }
    }

    /// Decides at random whether to take a sample.
    pub fn rnd_decision(&mut self, rate: SampleRate) -> (r: bool)
        ensures
            *final(self) == (ThreadLocalState { sampler: final(self).sampler, ..*old(self) }),
            rate.is_certain() ==> *final(self) == *old(self) && r == (rate is Always),
            !rate.is_certain() ==> final(self).sampler.drawn() == old(self).sampler.drawn().push(
                final(self).sampler.drawn().last(),
            ) && r == rate.spec_admits(final(self).sampler.drawn().last()),
    {
        self.sampler.decide(rate)
    }
}

/// How many references an operation has.
pub open spec fn refs_before(refs: Map<OpRef, RefCount>, key: OpRef) -> usize {
    if refs.contains_key(key) {
        refs[key].count
    } else {
        0
    }
}

/// The references after one was added at `now`.
pub open spec fn refs_after_inc(refs: Map<OpRef, RefCount>, key: OpRef, now: u64) -> Map<
    OpRef,
    RefCount,
> {
    if refs.contains_key(key) {
        refs.insert(key, RefCount { count: (refs[key].count + 1) as usize, ..refs[key] })
    } else {
        refs.insert(key, RefCount { count: 1, start_time: now, reported: false })
    }
}

/// The start time that dropping a reference returns: that of an operation
/// whose last reference goes.
pub open spec fn released(refs: Map<OpRef, RefCount>, key: OpRef) -> Option<u64> {
    if refs.contains_key(key) && refs[key].count == 1 {
        Some(refs[key].start_time)
    } else {
        None
    }
}

/// The references after one was dropped.
pub open spec fn refs_after_dec(refs: Map<OpRef, RefCount>, key: OpRef) -> Map<OpRef, RefCount> {
    if !refs.contains_key(key) {
        refs
    } else if refs[key].count == 1 {
        refs.remove(key)
    } else {
        refs.insert(key, RefCount { count: (refs[key].count - 1) as usize, ..refs[key] })
    }
}

/// The references after the work of an operation was reported to start.
pub open spec fn refs_after_start(refs: Map<OpRef, RefCount>, key: OpRef, now: u64) -> Map<
    OpRef,
    RefCount,
> {
    if refs.contains_key(key) && !refs[key].reported {
        refs.insert(key, RefCount { start_time: now, reported: true, ..refs[key] })
    } else {
        refs
    }
}

/// The state of a thread at start, and the receiving ends of its channels.
pub fn thread_local_state(
    profiler: &Profiler,
    ncclop_channel: u64,
    channel: u64,
    freelist_batch: usize,
) -> (r: (ThreadLocalState, ThreadControl))
    requires
        freelist_batch * 4 <= usize::MAX,
    ensures
        r.0.is_initial(*profiler, ncclop_channel, channel, freelist_batch),
        r.1 == (ThreadControl { ncclop_channel, channel }),
{
    let mut ncclop_fifo = Sender::new(ncclop_channel, EVENT_QUEUE_SZ);
    let mut fifo = Sender::new(channel, EVENT_QUEUE_SZ);
    let batch: usize = fifo_batch(&profiler.config);
    ncclop_fifo.set_batch(batch);
    fifo.set_batch(batch);
    let proxystep: usize = if profiler.version == Version::V4 {
        freelist_batch
    } else {
        0
    };
    let state = ThreadLocalState {
        ncclop_fifo,
        fifo,
        ncclop_refcnt: Table::new(),
        free_lists: FreeListSizes {
            ncclop: freelist_batch * 4,
            proxyop: freelist_batch * 4,
            proxystep,
            steps: freelist_batch * 4,
            kernelch: freelist_batch,
        },
        proxyop_id: 0,
        sampler: Sampler::new(),
    };
    (state, ThreadControl { ncclop_channel, channel })
}

/// A communicator.
#[derive(Debug, Clone, Copy)]
pub struct Communicator {
    pub comm_hash: Option<u64>,
    /// The counter of bytes sent over the network.
    pub total_net_bytes: usize,
}

impl Communicator {
    /// A communicator with a byte counter of its own.
    pub fn new(counters: &mut CounterTable) -> (r: Self)
        ensures
            r.comm_hash is None,
            r.total_net_bytes == old(counters)@.len(),
            final(counters)@ == old(counters)@.push(0),
    {
        Communicator { comm_hash: None, total_net_bytes: counters.create() }
    }
}

/// A kernel channel of an operation.
#[derive(Debug, Clone, Copy)]
pub struct KernelCh {
    pub parent_op: Option<usize>,
}

/// A proxy operation while it runs.
#[derive(Debug)]
pub struct ProxyOpLocalData {
    pub info: ProxyOpInfo,
    pub extra: ProxyOpExtra,
    pub step_tracker: StepTracker,
    pub n_steps: usize,
    pub parent_op: Option<usize>,
    /// Completed steps that were not sent yet.
    pub steps: Option<StepBatch>,
    pub rng_seed: u32,
}

impl ProxyOpLocalData {
    /// A batch that waits holds a step and has room for another.
    pub open spec fn wf(&self) -> bool {
        self.steps matches Some(batch) ==> 0 < batch@.len() < batch.room()
    }

    /// The completed steps that were not sent yet, oldest first.
    pub open spec fn pending(&self) -> Seq<EventStep> {
        match self.steps {
            Some(batch) => batch@,
            None => Seq::empty(),
        }
    }

    /// How many steps the next batch holds.
    pub open spec fn batch_room(&self, capacity: usize) -> nat {
        match self.steps {
            Some(batch) => batch.room(),
            None => capacity as nat,
        }
    }

    /// A proxy operation at start.
    pub open spec fn started(
        id: u32,
        descr: ProxyOpDescr,
        is_v1: bool,
        track_fifo_wait: bool,
        comm: Option<Communicator>,
    ) -> ProxyOpLocalData {
        ProxyOpLocalData {
            info: ProxyOpInfo { id, pid: descr.pid, is_send: descr.is_send, comm },
            extra: ProxyOpExtra { descr },
            step_tracker: StepTracker { is_send: descr.is_send, is_v1, track_fifo_wait },
            n_steps: 0,
            parent_op: None,
            steps: None,
            rng_seed: 0,
        }
    }

    pub fn new(
        id: u32,
        descr: &ProxyOpDescr,
        is_v1: bool,
        track_fifo_wait: bool,
        comm: Option<Communicator>,
    ) -> (r: Self)
        ensures
            r == ProxyOpLocalData::started(id, *descr, is_v1, track_fifo_wait, comm),
            r.wf(),
    {
        let info = ProxyOpInfo::from_descr(descr, id, comm);
        ProxyOpLocalData {
            info,
            extra: ProxyOpExtra { descr: *descr },
            step_tracker: StepTracker::new(info.is_send, is_v1, track_fifo_wait),
            n_steps: 0,
            parent_op: None,
            steps: None,
            rng_seed: 0,
        }
    }

    /// Whether a batch that waits, if there is one, holds a step and has room
    /// for another.
    pub fn has_batch_room(&self) -> (r: bool)
        ensures
            r == self.wf(),
    {
        match &self.steps {
            Some(batch) => batch.steps().len() > 0 && !batch.is_full(),
            None => true,
        }
    }

    /// The batch that completed steps go to; a new one where none waits.
    pub fn get_steps_mut(&mut self, capacity: usize) -> (r: &mut StepBatch)
        ensures
            (*r)@ == old(self).pending(),
            (*r).room() == old(self).batch_room(capacity),
            *final(self) == (ProxyOpLocalData { steps: Some(*final(r)), ..*old(self) }),
    {
        if self.steps.is_none() {
            self.steps = Some(StepBatch::new(capacity));
        }
        self.steps.as_mut().unwrap()
    }
}

} // verus!
