//! Flat byte-addressable memory: 65536 mutable bytes, read and written at
//! 16-bit addresses. The driver loads an assembled program at address 0 and
//! the execution engine reads instructions and keeps its stack here.

use vstd::prelude::*;

verus! {

/// Number of addressable bytes: every 16-bit address is in range.
pub const MEM_SIZE: usize = 65536;

/// A flat store of [`MEM_SIZE`] bytes.
pub struct Memory {
    bytes: Vec<u8>,
}

impl View for Memory {
    type V = Seq<u8>;

    closed spec fn view(&self) -> Seq<u8> {
        self.bytes@
    }
}

impl Memory {
    /// Well-formedness: the store holds exactly [`MEM_SIZE`] bytes, so every
    /// 16-bit address is a valid index. [`Memory::new`] establishes this and
    /// every method preserves it.
    pub open spec fn wf(&self) -> bool {
        self@.len() == MEM_SIZE
    }

    /// A fresh memory, all bytes zero.
    pub fn new() -> (m: Memory)
        ensures
            m.wf(),
            m@ =~= Seq::new(MEM_SIZE as nat, |i: int| 0u8),
    {
        let mut bytes: Vec<u8> = Vec::new();
        while bytes.len() < MEM_SIZE
            invariant
                bytes@.len() <= MEM_SIZE,
                forall|i: int| 0 <= i < bytes@.len() ==> bytes@[i] == 0u8,
            decreases MEM_SIZE - bytes@.len(),
        {
            bytes.push(0u8);
        }
        Memory { bytes }
    }

    /// How many bytes the store holds.
    pub fn size(&self) -> (n: usize)
        ensures
            n == self@.len(),
    {
        self.bytes.len()
    }

    /// The byte at `addr`.
    pub fn read(&self, addr: u16) -> (b: u8)
        requires
            self.wf(),
        ensures
            b == self@[addr as int],
    {
        self.bytes[addr as usize]
    }

    /// Stores `val` at `addr`, leaving every other byte unchanged.
    pub fn write(&mut self, addr: u16, val: u8)
        requires
            old(self).wf(),
        ensures
            final(self).wf(),
            final(self)@ =~= old(self)@.update(addr as int, val),
    {
        self.bytes[addr as usize] = val;
    }

    /// Copies `program` into memory starting at address 0, as the driver does
    /// with assembler output before the first step.
    pub fn load(&mut self, program: &Vec<u8>)
        requires
            old(self).wf(),
            program@.len() <= MEM_SIZE,
        ensures
            final(self).wf(),
            forall|i: int|
                0 <= i < program@.len() ==> final(self)@[i] == program@[i],
            forall|i: int|
                program@.len() <= i < MEM_SIZE ==> final(self)@[i] == old(self)@[i],
    {
        let mut i: usize = 0;
        while i < program.len()
            invariant
                old(self).wf(),
                self.wf(),
                program@.len() <= MEM_SIZE,
                i <= program@.len(),
                forall|j: int| 0 <= j < i ==> self@[j] == program@[j],
                forall|j: int| i <= j < MEM_SIZE ==> self@[j] == old(self)@[j],
            decreases program@.len() - i,
        {
            self.bytes[i] = program[i];
            i = i + 1;
        }
    }
}

} // verus!
