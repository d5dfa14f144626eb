//! The identifier allocator: a durable counter that only goes up.

use crate::stable::{cell_get, cell_init, cell_new, cell_set, cell_value, IdCell, Region};
use vstd::prelude::*;

verus! {

/// Hands out identifiers 1, 2, 3, ... and keeps the last one in a durable
/// cell, so that none is handed out twice, also after a restart.
pub struct IdAllocator {
    cell: IdCell,
}

impl View for IdAllocator {
    type V = u64;

    /// The last identifier that was issued; 0 where none was.
    closed spec fn view(&self) -> u64 {
        cell_value(self.cell)
    }
}

impl IdAllocator {
    /// An allocator that starts over in `region`: it has issued nothing.
    pub(crate) fn new(region: Region) -> (fresh: IdAllocator)
        ensures
            fresh@ == 0,
    {
        IdAllocator { cell: cell_new(region, 0) }
    }

    /// The allocator that `region` holds, as it was left; one that has issued
    /// nothing where the region holds none.
    pub(crate) fn init(region: Region) -> IdAllocator {
        IdAllocator { cell: cell_init(region, 0) }
    }

    /// The last identifier that was issued; 0 where none was.
    pub fn last_id(&self) -> (id: u64)
        ensures
            id == self@,
    {
        cell_get(&self.cell)
    }

    /// Issues the next identifier: one more than the last. The counter is
    /// written through before the identifier is returned.
    pub fn next_id(&mut self) -> (id: u64)
        requires
            old(self)@ < u64::MAX,
        ensures
            id == old(self)@ + 1,
            final(self)@ == id,
    {
        let id: u64 = cell_get(&self.cell) + 1;
        let _ = cell_set(&mut self.cell, id);
        id
    }
}

} // verus!
