//! The word-addressed memory: 65,536 cells of 16 bits.
use vstd::prelude::*;

verus! {

/// Number of cells: one for each 16-bit address.
pub const MEMORY_SIZE: usize = 0x10000;

/// Flat memory of 16-bit words, addressed by a 16-bit index.
pub struct Memory {
    cells: Vec<u16>,
}

impl View for Memory {
    type V = Seq<u16>;

    closed spec fn view(&self) -> Seq<u16> {
        self.cells@
    }
}

impl Memory {
    /// Every address from 0x0000 to 0xFFFF has a cell.
    pub open spec fn wf(&self) -> bool {
        self@.len() == MEMORY_SIZE
    }

    /// A memory with every cell zero.
    pub fn new() -> (r: Memory)
        ensures
            r.wf(),
            r@ == Seq::new(MEMORY_SIZE as nat, |i: int| 0u16),
    {
        let cells = vec![0u16; MEMORY_SIZE];
        let r = Memory { cells };
        assert(r@ =~= Seq::new(MEMORY_SIZE as nat, |i: int| 0u16));
        r
    }

    /// The word at `address`.
    pub fn read(&self, address: u16) -> (r: u16)
        requires
            self.wf(),
        ensures
            r == self@[address as int],
    {
        self.cells[address as usize]
    }

    /// Store `data` at `address`.
    pub fn write(&mut self, address: u16, data: u16)
        requires
            old(self).wf(),
        ensures
            final(self)@ == old(self)@.update(address as int, data),
            final(self).wf(),
    {
        self.cells.set(address as usize, data);
    }
}

/// A write is seen by the next read of the same address, and by no other
/// address.
pub proof fn lemma_write_then_read(before: Seq<u16>, address: u16, data: u16)
    requires
        before.len() == MEMORY_SIZE,
    ensures
        before.update(address as int, data)[address as int] == data,
        forall|other: u16|
            other != address ==> #[trigger] before.update(address as int, data)[other as int]
                == before[other as int],
{
}

} // verus!
