//! The memory bus: a flat, byte-addressed view of the 16-bit address space
//! with little-endian 16-bit access. The bus does not interpret addresses;
//! mirroring and memory-mapped I/O are a host concern.

use vstd::prelude::*;

use crate::model;
use crate::model::MEMORY_SIZE;

verus! {

/// The full address space as one byte array.
pub struct Bus {
    ram: Vec<u8>,
}

impl View for Bus {
    type V = Seq<u8>;

    closed spec fn view(&self) -> Seq<u8> {
        self.ram@
    }
}

impl Bus {
    /// A bus is well formed when it covers the whole address space.
    pub open spec fn wf(&self) -> bool {
        self@.len() == MEMORY_SIZE
    }

    /// A bus with every byte cleared.
    pub fn new() -> (r: Bus)
        ensures
            r.wf(),
            r@ == Seq::new(MEMORY_SIZE as nat, |i: int| 0u8),
    {
        let mut ram: Vec<u8> = Vec::new();
        let mut i: usize = 0;
        while i < MEMORY_SIZE
            invariant
                i <= MEMORY_SIZE,
                ram@.len() == i,
                forall|k: int| 0 <= k < i ==> ram@[k] == 0u8,
            decreases MEMORY_SIZE - i,
        {
            ram.push(0u8);
            i = i + 1;
        }
        proof {
            assert(ram@ =~= Seq::new(MEMORY_SIZE as nat, |i: int| 0u8));
        }
        Bus { ram }
    }

    /// Pure read of one byte.
    pub fn read_u8(&self, address: u16) -> (r: u8)
        requires
            self.wf(),
        ensures
            r == model::read8(self@, address),
    {
        self.ram[address as usize]
    }

    /// Little-endian read of two consecutive bytes.
    pub fn read_u16(&self, address: u16) -> (r: u16)
        requires
            self.wf(),
        ensures
            r == model::read16(self@, address),
    {
        let lo: u8 = self.read_u8(address);
        let hi: u8 = self.read_u8(address.wrapping_add(1));
        (lo as u16) + (hi as u16) * 0x100
    }

    /// Store one byte.
    pub fn write_u8(&mut self, address: u16, value: u8)
        requires
            old(self).wf(),
        ensures
            final(self).wf(),
            final(self)@ == model::write8(old(self)@, address, value),
    {
        self.ram.set(address as usize, value);
    }

    /// Little-endian store of a 16-bit value: low byte at `address`, high
    /// byte right after it.
    pub fn write_u16(&mut self, address: u16, value: u16)
        requires
            old(self).wf(),
        ensures
            final(self).wf(),
            final(self)@ == model::write16(old(self)@, address, value),
    {
        self.write_u8(address, (value % 0x100) as u8);
        self.write_u8(address.wrapping_add(1), (value / 0x100) as u8);
    }
}

} // verus!
