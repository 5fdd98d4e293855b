//! Byte counters that several parties refer to.
use vstd::prelude::*;

verus! {

/// Counters by identifier. A counter lives as long as the table.
#[derive(Debug)]
pub struct CounterTable {
    pub values: Vec<usize>,
}

impl View for CounterTable {
    type V = Seq<usize>;

    open spec fn view(&self) -> Seq<usize> {
        self.values@
    }
}

impl CounterTable {
    /// A table without counters.
    pub fn new() -> (r: Self)
        ensures
            r@ == Seq::<usize>::empty(),
    {
        CounterTable { values: Vec::new() }
    }

    /// Makes a counter that stands at zero.
    pub fn create(&mut self) -> (r: usize)
        ensures
            r == old(self)@.len(),
            final(self)@ == old(self)@.push(0),
    {
        let r: usize = self.values.len();
        self.values.push(0);
        r
    }

    /// Adds to a counter; it wraps around at the top.
    pub fn add_to(&mut self, id: usize, amount: usize)
        requires
            id < old(self)@.len(),
        ensures
            final(self)@ == old(self)@.update(id as int, old(self)@[id as int].wrapping_add(amount)),
    {
        let value: usize = self.values[id].wrapping_add(amount);
        self.values.set(id, value);
    }

    /// What a counter stands at.
    pub fn get(&self, id: usize) -> (r: usize)
        requires
            id < self@.len(),
        ensures
            r == self@[id as int],
    {
        self.values[id]
    }
}

} // verus!
