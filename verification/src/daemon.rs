//! What the profiler tells its daemon.
use crate::event::{Group, NcclOp, ProxyOpExtra, ProxyOpInfo};
use crate::profiler::Communicator;
use crate::step_tracker::EventStep;
use vstd::prelude::*;

verus! {

/// Completed steps that are sent together.
#[derive(Debug)]
pub struct StepBatch {
    steps: Vec<EventStep>,
    capacity: usize,
}

impl View for StepBatch {
    type V = Seq<EventStep>;

    closed spec fn view(&self) -> Seq<EventStep> {
        self.steps@
    }
}

impl StepBatch {
    /// How many steps fit.
    pub closed spec fn room(&self) -> nat {
        self.capacity as nat
    }

    /// An empty batch for `capacity` steps.
    pub fn new(capacity: usize) -> (r: Self)
        ensures
            r@ == Seq::<EventStep>::empty(),
            r.room() == capacity,
    {
        StepBatch { steps: Vec::new(), capacity }
    }

    /// Appends a step.
    pub fn push(&mut self, step: EventStep)
        requires
            old(self)@.len() < old(self).room(),
        ensures
            final(self)@ == old(self)@.push(step),
            final(self).room() == old(self).room(),
    {
        self.steps.push(step);
    }

    /// Whether no further step fits.
    pub fn is_full(&self) -> (r: bool)
        ensures
            r == (self@.len() >= self.room()),
    {
        self.steps.len() >= self.capacity
    }

    /// The steps, oldest first.
    pub fn steps(&self) -> (r: &Vec<EventStep>)
        ensures
            r@ == self@,
    {
        &self.steps
    }
}

/// A message to the daemon.
#[derive(Debug)]
pub enum Message {
    Group(Group),
    NcclOp(NcclOp),
    /// Start, duration in nanoseconds, proxy operation.
    ProxyOpLite(u64, u64, ProxyOpInfo),
    ProxyOpExtra(ProxyOpExtra),
    /// Proxy operation, its completed steps, and whether these are the last.
    StepBatch(ProxyOpInfo, StepBatch, bool),
    /// A proxy operation without steps ended.
    ProxyOp(u32),
    /// Start, duration in nanoseconds, operation.
    KernelCh(u64, u64, usize),
    CommOpen(Communicator),
    CommClose(u64),
}

/// What a [`Message`] holds.
pub enum MessageView {
    Group(Group),
    NcclOp(NcclOp),
    ProxyOpLite(u64, u64, ProxyOpInfo),
    ProxyOpExtra(ProxyOpExtra),
    StepBatch(ProxyOpInfo, Seq<EventStep>, bool),
    ProxyOp(u32),
    KernelCh(u64, u64, usize),
    CommOpen(Communicator),
    CommClose(u64),
}

impl View for Message {
    type V = MessageView;

    open spec fn view(&self) -> MessageView {
        match self {
            Message::Group(group) => MessageView::Group(*group),
            Message::NcclOp(op) => MessageView::NcclOp(*op),
            Message::ProxyOpLite(start, dur_ns, info) => MessageView::ProxyOpLite(
                *start,
                *dur_ns,
                *info,
            ),
            Message::ProxyOpExtra(extra) => MessageView::ProxyOpExtra(*extra),
            Message::StepBatch(info, batch, last) => MessageView::StepBatch(*info, batch@, *last),
            Message::ProxyOp(id) => MessageView::ProxyOp(*id),
            Message::KernelCh(start, dur_ns, op) => MessageView::KernelCh(*start, *dur_ns, *op),
            Message::CommOpen(comm) => MessageView::CommOpen(*comm),
            Message::CommClose(hash) => MessageView::CommClose(*hash),
        }
    }
}

/// The receiving ends of a thread's two channels.
#[derive(Debug, Clone, Copy)]
pub struct ThreadControl {
    pub ncclop_channel: u64,
    pub channel: u64,
}

/// A message that configures the daemon.
#[derive(Debug, Clone, Copy)]
pub enum ControlMessage {
    NewThread(ThreadControl),
}

} // verus!
