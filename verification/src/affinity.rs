use vstd::prelude::*;

verus! {

/// A bitset of CPU core indices.
///
/// The orchestrator holds a template value; each worker takes a private
/// copy with exactly its own core index added before applying it to
/// itself. Core `i` is in the set when bit `i` is within range and true.
#[derive(Debug, Clone, PartialEq)]
pub struct CpuAffinitySet {
    pub bits: Vec<bool>,
}

impl CpuAffinitySet {
    /// Whether core `i` is in the set.
    pub open spec fn has(&self, i: int) -> bool {
        0 <= i < self.bits@.len() && self.bits@[i]
    }

    /// The empty set: no core selected.
    pub fn new() -> (r: Self)
        ensures
            forall|i: int| !r.has(i),
    {
        CpuAffinitySet { bits: Vec::new() }
    }

    /// Whether core `i` is in the set.
    pub fn is_set(&self, i: usize) -> (r: bool)
        ensures
            r == self.has(i as int),
    {
        i < self.bits.len() && self.bits[i]
    }

    /// Add core `i` to the set, growing the bit vector as needed.
    pub fn set(&mut self, i: usize)
        ensures
            final(self).has(i as int),
            forall|k: int| k != i ==> final(self).has(k) == old(self).has(k),
    {
        while self.bits.len() <= i
            invariant
                old(self).bits@.len() <= self.bits@.len(),
                forall|k: int|
                    0 <= k < old(self).bits@.len() ==> self.bits@[k] == old(self).bits@[k],
                forall|k: int|
                    old(self).bits@.len() <= k < self.bits@.len() ==> self.bits@[k] == false,
            decreases i + 1 - self.bits.len(),
        {
            self.bits.push(false);
        }
        self.bits.set(i, true);
        proof {
            assert forall|k: int| k != i implies self.has(k) == old(self).has(k) by {
                if 0 <= k < self.bits@.len() {
                    if k < old(self).bits@.len() {
                        assert(self.bits@[k] == old(self).bits@[k]);
                    } else {
                        assert(self.bits@[k] == false);
                    }
                }
            }
        }
    }

    /// The private copy a worker applies to itself: this set with
    /// exactly core `nth` added.
    pub fn for_node(&self, nth: usize) -> (r: Self)
        ensures
            r.has(nth as int),
            forall|k: int| k != nth ==> r.has(k) == self.has(k),
    {
        let n: usize = self.bits.len();
        let mut bits: Vec<bool> = Vec::new();
        let mut i: usize = 0;
        while i < n
            invariant
                n == self.bits@.len(),
                0 <= i <= n,
                bits@ =~= self.bits@.take(i as int),
            decreases n - i,
        {
            bits.push(self.bits[i]);
            assert(self.bits@.take(i + 1) =~= self.bits@.take(i as int).push(self.bits@[i as int]));
            i = i + 1;
        }
        assert(self.bits@.take(n as int) =~= self.bits@);
        let mut copy = CpuAffinitySet { bits };
        copy.set(nth);
        copy
    }
}

} // verus!
