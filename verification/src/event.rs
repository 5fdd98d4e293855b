//! The events that the profiler hands to NCCL.
use crate::gap::minus;
use crate::nccl_metadata::{OpDescr, ProxyOpDescr};
use crate::profiler::{Communicator, KernelCh, ProxyOpLocalData};
use vstd::prelude::*;

verus! {

/// The hash under which an operation is filed where NCCL reports none.
pub const UNKNOWN_COMM_HASH: u64 = 42;

/// A group of operations.
#[derive(Debug, Clone, Copy)]
pub struct Group {
    pub start_time: u64,
}

/// A tracked operation. Times are instants of the monotonic clock.
#[derive(Debug, Clone, Copy)]
pub struct NcclOp {
    pub id: usize,
    pub start_time: u64,
    pub comm_hash: u64,
    pub descr: OpDescr,
    /// When the first proxy operation or kernel channel started.
    pub child_start_time: Option<u64>,
    /// From the start of the first proxy operation or kernel channel to the
    /// end of the last one.
    pub child_duration_ns: Option<u128>,
    pub end_time: Option<u64>,
}

/// The hash that NCCL reported with an operation, if any.
pub open spec fn reported_comm_hash(descr: OpDescr) -> Option<u64> {
    match descr {
        OpDescr::Coll(coll) => coll.comm_hash,
        OpDescr::P2p(p2p) => p2p.comm_hash,
        OpDescr::Other => None,
    }
}

/// The communicator hash of an operation: that of its communicator, else the
/// one reported with it, else a fixed one.
pub open spec fn resolved_comm_hash(comm_hash: Option<u64>, reported: Option<u64>) -> u64 {
    match comm_hash {
        Some(hash) => hash,
        None => match reported {
            Some(hash) => hash,
            None => 42,
        },
    }
}

/// The communicator hash of an operation.
pub fn resolve_comm_hash(comm_hash: Option<u64>, reported: Option<u64>) -> (r: u64)
    ensures
        r == resolved_comm_hash(comm_hash, reported),
{
    match comm_hash {
        Some(hash) => hash,
        None => match reported {
            Some(hash) => hash,
            None => UNKNOWN_COMM_HASH,
        },
    }
}

impl NcclOp {
    /// An operation that was just announced.
    pub open spec fn announced(
        descr: OpDescr,
        time: u64,
        id: usize,
        comm_hash: Option<u64>,
    ) -> NcclOp {
        NcclOp {
            id,
            start_time: time,
            comm_hash: resolved_comm_hash(comm_hash, reported_comm_hash(descr)),
            descr,
            child_start_time: None,
            child_duration_ns: None,
            end_time: None,
        }
    }

    /// An operation that was just announced.
    pub fn from_descr(descr: OpDescr, time: u64, id: usize, comm_hash: Option<u64>) -> (r: NcclOp)
        ensures
            r == NcclOp::announced(descr, time, id, comm_hash),
    {
        let reported: Option<u64> = match descr {
            OpDescr::Coll(coll) => coll.comm_hash,
            OpDescr::P2p(p2p) => p2p.comm_hash,
            OpDescr::Other => None,
        };
        NcclOp {
            id,
            start_time: time,
            comm_hash: resolve_comm_hash(comm_hash, reported),
            descr,
            child_start_time: None,
            child_duration_ns: None,
            end_time: None,
        }
    }

    /// The rank of this process in the operation's communicator.
    pub open spec fn spec_rank(self) -> usize {
        match self.descr {
            OpDescr::Coll(coll) => coll.rank,
            OpDescr::P2p(p2p) => p2p.rank,
            OpDescr::Other => 0,
        }
    }

    /// The rank of this process in the operation's communicator.
    pub fn rank(&self) -> (r: usize)
        ensures
            r == self.spec_rank(),
    {
        match &self.descr {
            OpDescr::Coll(coll) => coll.rank,
            OpDescr::P2p(p2p) => p2p.rank,
            OpDescr::Other => 0,
        }
    }

    /// How many bytes the operation moves.
    pub open spec fn spec_byte_count(self) -> usize {
        match self.descr {
            OpDescr::Coll(coll) => coll.byte_count,
            OpDescr::P2p(p2p) => p2p.byte_count,
            OpDescr::Other => 0,
        }
    }

    /// How many bytes the operation moves.
    pub fn byte_count(&self) -> (r: usize)
        ensures
            r == self.spec_byte_count(),
    {
        match &self.descr {
            OpDescr::Coll(coll) => coll.byte_count,
            OpDescr::P2p(p2p) => p2p.byte_count,
            OpDescr::Other => 0,
        }
    }
}

/// What identifies a proxy operation to the daemon.
#[derive(Debug, Clone, Copy)]
pub struct ProxyOpInfo {
    pub id: u32,
    pub pid: i32,
    pub is_send: bool,
    pub comm: Option<Communicator>,
}

impl ProxyOpInfo {
    pub fn from_descr(descr: &ProxyOpDescr, id: u32, comm: Option<Communicator>) -> (r: Self)
        ensures
            r == (ProxyOpInfo { id, pid: descr.pid, is_send: descr.is_send, comm }),
    {
        ProxyOpInfo { id, pid: descr.pid, is_send: descr.is_send, comm }
    }
}

/// What else is known of a proxy operation.
#[derive(Debug, Clone, Copy)]
pub struct ProxyOpExtra {
    pub descr: ProxyOpDescr,
}

/// A step of a proxy operation while it runs. Times are instants of the
/// monotonic clock.
#[derive(Debug, Clone, Copy)]
pub struct ProxyStep {
    pub step: i32,
    /// The handle of the proxy operation that the step belongs to.
    pub parent: usize,
    pub size: usize,
    pub start_time: Option<u64>,
    pub fifo_ready_time: Option<u64>,
    pub end_time: Option<u64>,
}

impl ProxyStep {
    pub open spec fn started(step: i32, parent: usize) -> ProxyStep {
        ProxyStep {
            step,
            parent,
            size: 0,
            start_time: None,
            fifo_ready_time: None,
            end_time: None,
        }
    }

    pub fn new(step: i32, parent: usize) -> (r: Self)
        ensures
            r == ProxyStep::started(step, parent),
    {
        ProxyStep {
            step,
            parent,
            size: 0,
            start_time: None,
            fifo_ready_time: None,
            end_time: None,
        }
    }
}

/// The times of a step, in nanoseconds since the profiler was created.
#[derive(Debug, Clone, Copy)]
pub struct StepTimes {
    pub start_ns: Option<u64>,
    pub fifo_ready_ns: Option<u64>,
    pub end_ns: Option<u64>,
}

/// How long after `origin` an instant lies, if it is known.
pub open spec fn since(t: Option<u64>, origin: u64) -> Option<u64> {
    match t {
        Some(t) => Some(minus(t, origin)),
        None => None,
    }
}

/// The times of a step, counted from `origin`.
pub open spec fn times_since(step: ProxyStep, origin: u64) -> StepTimes {
    StepTimes {
        start_ns: since(step.start_time, origin),
        fifo_ready_ns: since(step.fifo_ready_time, origin),
        end_ns: since(step.end_time, origin),
    }
}

/// An event that NCCL starts and stops.
#[derive(Debug)]
pub enum Event {
    Group(Group),
    /// A tracked operation, by identifier.
    NcclOp(usize),
    /// A tracked operation whose steps are not tracked.
    NcclOpLite(usize),
    /// An operation below the size threshold, by communicator hash.
    SmallNcclOp(usize),
    /// An operation that only serves as a parent.
    Dummy(usize),
    ProxyOp(ProxyOpLocalData),
    /// A proxy operation whose steps are not tracked.
    ProxyOpLite(ProxyOpLocalData),
    ProxyStep(ProxyStep),
    KernelCh(KernelCh),
}

/// An event that represents NCCL activity: an operation being enqueued, or
/// its network or kernel work in progress.
pub open spec fn is_activity(event: Event) -> bool {
    match event {
        Event::NcclOp(_) => true,
        Event::NcclOpLite(_) => true,
        Event::SmallNcclOp(_) => true,
        Event::ProxyOp(_) => true,
        Event::ProxyOpLite(_) => true,
        Event::KernelCh(_) => true,
        Event::Group(_) => false,
        Event::Dummy(_) => false,
        Event::ProxyStep(_) => false,
    }
}

/// Whether an event represents NCCL activity. The windows of proxy operations
/// and kernel channels keep an operation in flight until its work completes,
/// well after NCCL stops the event of the operation itself.
pub fn is_nccl_activity(event: &Event) -> (r: bool)
    ensures
        r == is_activity(*event),
{
    match event {
        Event::NcclOp(_) => true,
        Event::NcclOpLite(_) => true,
        Event::SmallNcclOp(_) => true,
        Event::ProxyOp(_) => true,
        Event::ProxyOpLite(_) => true,
        Event::KernelCh(_) => true,
        Event::Group(_) => false,
        Event::Dummy(_) => false,
        Event::ProxyStep(_) => false,
    }
}

} // verus!
