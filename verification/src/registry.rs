//! The process-group registry: an append-only list of the process groups
//! spawned during a run. Entries are appended right after spawn and never
//! removed; a global terminate snapshots the list, signals every group in
//! it, and ends the current process.

use vstd::prelude::*;

verus! {

/// The append-only list of spawned process-group identifiers. It lives for
/// the whole process; the caller guards it with its lock and performs the
/// signalling and the final exit.
pub struct ProcessGroupRegistry {
    pub groups: Vec<u32>,
}

impl ProcessGroupRegistry {
    /// An empty registry, created once at process start.
    pub fn new() -> (r: ProcessGroupRegistry)
        ensures
            r.groups@ == Seq::<u32>::empty(),
    {
        ProcessGroupRegistry { groups: Vec::new() }
    }

    /// Append one process group. Nothing is ever removed, so every group
    /// registered earlier is still present, in order.
    pub fn register(&mut self, pgid: u32)
        ensures
            final(self).groups@ == old(self).groups@.push(pgid),
    {
        self.groups.push(pgid);
    }

    /// A snapshot of every registered group, in registration order: what a
    /// global terminate signals.
    pub fn snapshot(&self) -> (r: Vec<u32>)
        ensures
            r@ == self.groups@,
    {
        let n = self.groups.len();
        let mut r: Vec<u32> = Vec::new();
        let mut i: usize = 0;
        while i < n
            invariant
                n == self.groups@.len(),
                0 <= i <= n,
                r@ == self.groups@.subrange(0, i as int),
            decreases n - i,
        {
            r.push(self.groups[i]);
            assert(r@ =~= self.groups@.subrange(0, i + 1));
            i = i + 1;
        }
        assert(r@ =~= self.groups@);
        r
    }
}

} // verus!
