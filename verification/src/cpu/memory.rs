//! The flat 64 KiB address space.

use vstd::prelude::*;

verus! {

/// 65536 bytes, one for every 16-bit address.
pub struct Memory {
    mem: [u8; 0x10000],
}

impl View for Memory {
    type V = Seq<u8>;

    closed spec fn view(&self) -> Seq<u8> {
        self.mem@
    }
}

impl Memory {
    /// Every memory holds exactly one byte per 16-bit address.
    pub proof fn lemma_len(&self)
        ensures
            self@.len() == 0x10000,
    {
    }

    /// A memory that holds zero at every address.
    pub fn new() -> (memory: Self)
        ensures
            memory@ == Seq::new(0x10000, |address: int| 0u8),
    {
        let memory = Self { mem: [0; 0x10000] };
        assert(memory@ =~= Seq::new(0x10000, |address: int| 0u8));
        memory
    }

    /// The byte stored at `address`.
    pub fn read(&self, address: u16) -> (value: u8)
        ensures
            value == self@[address as int],
    {
        self.mem[address as usize]
    }

    /// Stores `value` at `address` and leaves every other byte as it was.
    pub fn write(&mut self, address: u16, value: u8)
        ensures
            final(self)@ == old(self)@.update(address as int, value),
    {
        self.mem[address as usize] = value;
    }
}

impl core::ops::Index<usize> for Memory {
    type Output = u8;

    /// The byte stored at address `index`.
    fn index(&self, index: usize) -> (value: &u8)
        ensures
            *value == self@[index as int],
    {
        &self.mem[index]
    }
}

impl vstd::std_specs::core::IndexSpecImpl<usize> for Memory {
    open spec fn index_req(&self, index: &usize) -> bool {
        *index < 0x10000
    }
}

} // verus!
