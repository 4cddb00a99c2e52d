use vstd::prelude::*;

verus! {

/// Crossing counters for one execution context (one parse run).
///
/// A value of this type belongs to exactly one parse: independent parses
/// each hold their own `TracableStorage`, so their sequence numbers never
/// interleave. The counters are reset at the first depth-0 entry of a run
/// and only ever grow afterwards.
#[derive(Debug, PartialEq, Eq, Structural)]
pub struct TracableStorage {
    pub forward_count: usize,
    pub backward_count: usize,
}

impl TracableStorage {
    /// A fresh context with both counters at zero.
    pub fn new() -> (r: Self)
        ensures
            r == (TracableStorage { forward_count: 0, backward_count: 0 }),
    {
        TracableStorage { forward_count: 0, backward_count: 0 }
    }

    /// Resets both counters to zero.
    pub fn init_count(&mut self)
        ensures
            *final(self) == (TracableStorage { forward_count: 0, backward_count: 0 }),
    {
        self.forward_count = 0;
        self.backward_count = 0;
    }

    /// Reads the number of forward crossings recorded since the last reset.
    pub fn get_forward_count(&self) -> (r: usize)
        ensures
            r == self.forward_count,
    {
        self.forward_count
    }

    /// Reads the number of backward crossings recorded since the last reset.
    pub fn get_backward_count(&self) -> (r: usize)
        ensures
            r == self.backward_count,
    {
        self.backward_count
    }

    /// Counts one more forward crossing.
    pub fn inc_forward_count(&mut self)
        requires
            old(self).forward_count < usize::MAX,
        ensures
            *final(self) == (TracableStorage {
                forward_count: (old(self).forward_count + 1) as usize,
                ..*old(self)
            }),
    {
        self.forward_count = self.forward_count + 1;
    }

    /// Counts one more backward crossing.
    pub fn inc_backward_count(&mut self)
        requires
            old(self).backward_count < usize::MAX,
        ensures
            *final(self) == (TracableStorage {
                backward_count: (old(self).backward_count + 1) as usize,
                ..*old(self)
            }),
    {
        self.backward_count = self.backward_count + 1;
    }
}

impl Default for TracableStorage {
    fn default() -> (r: Self)
        ensures
            r == (TracableStorage { forward_count: 0, backward_count: 0 }),
    {
        TracableStorage::new()
    }
}

} // verus!
