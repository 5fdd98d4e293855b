//! What the profiler reads of NCCL's event descriptors.
use crate::table::{CommKey, TableKey};
use vstd::prelude::*;

verus! {

/// A status code that NCCL understands.
#[derive(Debug, Clone, Copy, PartialEq, Eq, Structural)]
pub struct NcclError(pub i32);

/// What a callback returns to NCCL.
pub type NcclResult<T> = Result<T, NcclError>;

/// NCCL operations.
#[derive(Debug, Clone, Copy, PartialEq, Eq, Structural)]
pub enum NcclOpType {
    Broadcast,
    Reduce,
    AllGather,
    ReduceScatter,
    AllReduce,
    Send,
    Recv,
    /// An operation that the profiler has no name for.
    Other,
}

/// Collective algorithms, as far as tracking depends on them.
#[derive(Debug, Clone, Copy, PartialEq, Eq, Structural)]
pub enum Algo {
    Nvls,
    NvlsTree,
    Other,
}

/// A network connection, or other work of a communicator, that latencies are
/// grouped by.
#[derive(Debug, Clone, Copy, PartialEq, Eq, Structural)]
pub enum NcclOpKey {
    /// Communicator hash, source rank, destination rank.
    NetSend(u64, usize, usize),
    /// Communicator hash, local rank, peer rank.
    NetRecv(u64, usize, usize),
    /// Work that is no network transfer: communicator hash, and what tells it
    /// from other such work of the communicator.
    Other(u64, u64),
}

impl View for NcclOpKey {
    type V = NcclOpKey;

    open spec fn view(&self) -> NcclOpKey {
        *self
    }
}

impl NcclOpKey {
    /// The hash of the communicator that the key belongs to.
    pub open spec fn spec_comm_hash(self) -> u64 {
        match self {
            NcclOpKey::NetSend(hash, _, _) => hash,
            NcclOpKey::NetRecv(hash, _, _) => hash,
            NcclOpKey::Other(hash, _) => hash,
        }
    }

    /// The hash of the communicator that the key belongs to.
    pub fn get_comm_hash(&self) -> (r: u64)
        ensures
            r == self.spec_comm_hash(),
    {
        match self {
            NcclOpKey::NetSend(hash, _, _) => *hash,
            NcclOpKey::NetRecv(hash, _, _) => *hash,
            NcclOpKey::Other(hash, _) => *hash,
        }
    }
}

impl TableKey for NcclOpKey {
    fn same(&self, other: &Self) -> (r: bool) {
        *self == *other
    }
}

impl CommKey for NcclOpKey {
    open spec fn comm_of(key: NcclOpKey) -> u64 {
        key.spec_comm_hash()
    }

    fn comm_hash(&self) -> (r: u64) {
        self.get_comm_hash()
    }
}

/// A collective.
#[derive(Debug, Clone, Copy)]
pub struct CollDescr {
    pub op_type: NcclOpType,
    pub algo: Algo,
    pub algo_name: &'static str,
    pub proto_name: &'static str,
    pub n_max_channel: u32,
    pub seq_num: u64,
    pub rank: usize,
    pub byte_count: usize,
    /// Absent where the profiler API does not report it per event.
    pub comm_hash: Option<u64>,
}

/// A point-to-point transfer.
#[derive(Debug, Clone, Copy)]
pub struct P2pDescr {
    pub is_send: bool,
    pub peer: i32,
    pub rank: usize,
    pub byte_count: usize,
    /// Absent where the profiler API does not report it per event.
    pub comm_hash: Option<u64>,
}

/// An operation as NCCL announced it.
#[derive(Debug, Clone, Copy)]
pub enum OpDescr {
    Coll(CollDescr),
    P2p(P2pDescr),
    Other,
}

/// The kinds of parent handle that tracking depends on.
#[derive(Debug, Clone, Copy, PartialEq, Eq, Structural)]
pub enum HandleKind {
    SmallNcclOp,
    NcclOpLite,
    Other,
}

/// The parent handle of an event.
#[derive(Debug, Clone, Copy)]
pub struct ParentHandle {
    pub is_null: bool,
    pub kind: HandleKind,
    /// The operation behind the handle, if the handle stands for one.
    pub ncclop: Option<usize>,
}

/// A proxy operation: the network side of an operation on one channel.
#[derive(Debug, Clone, Copy)]
pub struct ProxyOpDescr {
    pub parent: ParentHandle,
    pub pid: i32,
    pub is_send: bool,
    pub peer: i32,
    pub channel_id: u8,
    pub n_steps: i32,
    pub chunk_size: i32,
}

/// One step of a proxy operation.
#[derive(Debug, Clone, Copy)]
pub struct ProxyStepDescr {
    /// The handle of the proxy operation that the step belongs to, or `None`
    /// where the parent is null or is no fully tracked proxy operation.
    pub proxyop: Option<usize>,
    pub step: i32,
}

/// An event as NCCL announced it.
#[derive(Debug, Clone, Copy)]
pub enum EventDescr {
    Group,
    Coll(CollDescr),
    P2p(P2pDescr),
    ProxyOp(ProxyOpDescr),
    KernelCh(ParentHandle),
    ProxyStep(ProxyStepDescr),
}

/// The states of a proxy step that the profiler reacts to.
#[derive(Debug, Clone, Copy, PartialEq, Eq, Structural)]
pub enum ProxyStepState {
    SendPeerWait,
    SendWait,
    RecvWait,
    RecvFlushWait,
    Other,
}

/// The states of a proxy operation that the profiler reacts to.
#[derive(Debug, Clone, Copy, PartialEq, Eq, Structural)]
pub enum ProxyOpState {
    InProgress,
    Other,
}

} // verus!
