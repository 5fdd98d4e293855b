//! The sending end of a thread's channel to the daemon.
use crate::daemon::{Message, MessageView};
use vstd::prelude::*;

verus! {

/// A message on its way, and whether it has to be visible to the daemon at
/// once.
#[derive(Debug)]
pub struct Envelope {
    pub message: Message,
    pub use_barrier: bool,
}

/// The sending end of a channel. Messages wait here, in order, until the
/// channel takes them.
#[derive(Debug)]
pub struct Sender {
    pub channel: u64,
    pub capacity: usize,
    pub batch: usize,
    pub outbox: Vec<Envelope>,
}

/// What the envelopes hold, in order.
pub open spec fn contents(outbox: Seq<Envelope>) -> Seq<(MessageView, bool)> {
    Seq::new(outbox.len(), |i: int| (outbox[i].message@, outbox[i].use_barrier))
}

impl View for Sender {
    type V = Seq<(MessageView, bool)>;

    /// The waiting messages, oldest first, each with its barrier flag.
    open spec fn view(&self) -> Seq<(MessageView, bool)> {
        contents(self.outbox@)
    }
}

/// What taking the waiting messages out does.
pub open spec fn drained(before: Sender, after: Sender, taken: Seq<Envelope>) -> bool {
    &&& contents(taken) == before@
    &&& after.same_channel(&before)
    &&& after@ == Seq::<(MessageView, bool)>::empty()
}

impl Sender {
    /// Only the waiting messages differ.
    pub open spec fn same_channel(&self, other: &Sender) -> bool {
        &&& self.channel == other.channel
        &&& self.capacity == other.capacity
        &&& self.batch == other.batch
    }

    /// The sending end of `channel`.
    pub fn new(channel: u64, capacity: usize) -> (r: Self)
        ensures
            r.channel == channel,
            r.capacity == capacity,
            r.batch == 1,
            r@ == Seq::<(MessageView, bool)>::empty(),
    {
        let r = Sender { channel, capacity, batch: 1, outbox: Vec::new() };
        assert(r@ =~= Seq::<(MessageView, bool)>::empty());
        r
    }

    /// How many messages become visible to the daemon together.
    pub fn set_batch(&mut self, batch: usize)
        ensures
            *final(self) == (Sender { batch, ..*old(self) }),
    {
        self.batch = batch;
    }

    /// Queues a message behind those that wait.
    pub fn send(&mut self, message: Message, use_barrier: bool)
        ensures
            final(self).same_channel(old(self)),
            final(self)@ == old(self)@.push((message@, use_barrier)),
    {
        self.outbox.push(Envelope { message, use_barrier });
        assert(self@ =~= old(self)@.push((message@, use_barrier)));
    }

    /// Takes the waiting messages out, oldest first.
    pub fn drain(&mut self) -> (r: Vec<Envelope>)
        ensures
            drained(*old(self), *final(self), r@),
    {
        let mut taken: Vec<Envelope> = Vec::new();
        taken.append(&mut self.outbox);
        assert(contents(taken@) =~= old(self)@);
        assert(self@ =~= Seq::<(MessageView, bool)>::empty());
        taken
    }
}

} // verus!
