//! The flat 64KB byte-addressable memory component.
use crate::{MEM_SIZE, RESET_EXEC_ADDRESS, RESET_VECTOR_ADDR};
use vstd::prelude::*;

verus! {

/// A fixed 65536-byte address space. Every access is bounds-checked:
/// an address at or beyond `MEM_SIZE` is a contract violation.
pub struct Mem {
    bytes: Vec<u8>,
}

impl View for Mem {
    type V = Seq<u8>;

    closed spec fn view(&self) -> Seq<u8> {
        self.bytes@
    }
}

/// The memory contents installed by `Mem::reset`: all bytes zero except the
/// cold-reset vector, which holds the execution address high byte first.
pub open spec fn reset_mem() -> Seq<u8> {
    Seq::new(MEM_SIZE as nat, |i: int| 0u8)
        .update(RESET_VECTOR_ADDR as int, (RESET_EXEC_ADDRESS >> 8) as u8)
        .update(RESET_VECTOR_ADDR as int + 1, (RESET_EXEC_ADDRESS & 0xFF) as u8)
}

impl Default for Mem {
    /// The same fresh all-zero memory that `Mem::new` gives.
    fn default() -> (r: Mem)
        ensures
            r.wf(),
            forall|i: int| 0 <= i < MEM_SIZE ==> r@[i] == 0u8,
    {
        Mem::new()
    }
}

impl Mem {
    /// Whether the memory covers exactly the 64KB address space.
    pub open spec fn wf(&self) -> bool {
        self@.len() == MEM_SIZE
    }

    /// A fresh memory with every byte zero.
    pub fn new() -> (r: Mem)
        ensures
            r.wf(),
            forall|i: int| 0 <= i < MEM_SIZE ==> r@[i] == 0u8,
    {
        let mut bytes: Vec<u8> = Vec::new();
        while bytes.len() < MEM_SIZE
            invariant
                bytes@.len() <= MEM_SIZE,
                forall|i: int| 0 <= i < bytes@.len() ==> bytes@[i] == 0u8,
            decreases MEM_SIZE - bytes@.len(),
        {
            bytes.push(0);
        }
        Mem { bytes }
    }

    /// Reads the byte stored at `address`.
    pub fn read8(&self, address: usize) -> (r: u8)
        requires
            self.wf(),
            address < MEM_SIZE,
        ensures
            r == self@[address as int],
    {
        self.bytes[address]
    }

    /// Stores `value` at `address`.
    pub fn write8(&mut self, address: usize, value: u8)
        requires
            old(self).wf(),
            address < MEM_SIZE,
        ensures
            final(self).wf(),
            final(self)@ == old(self)@.update(address as int, value),
    {
        self.bytes[address] = value;
    }

    /// Stores a 16-bit value little-endian: low byte at `address`, high byte
    /// at `address + 1`.
    pub fn write16(&mut self, address: usize, value: u16)
        requires
            old(self).wf(),
            address + 1 < MEM_SIZE,
        ensures
            final(self).wf(),
            final(self)@ == old(self)@.update(address as int, (value & 0xFF) as u8).update(
                address as int + 1,
                (value >> 8) as u8,
            ),
    {
        self.bytes[address] = (value & 0xFF) as u8;
        self.bytes[address + 1] = (value >> 8) as u8;
    }

    /// Copies `programm` into memory starting at the default execution
    /// address.
    pub fn load_programm(&mut self, programm: &[u8])
        requires
            old(self).wf(),
            RESET_EXEC_ADDRESS + programm@.len() <= MEM_SIZE,
        ensures
            final(self).wf(),
            forall|i: int|
                0 <= i < programm@.len() ==> final(self)@[RESET_EXEC_ADDRESS + i] == programm@[i],
            forall|j: int|
                0 <= j < MEM_SIZE && !(RESET_EXEC_ADDRESS <= j < RESET_EXEC_ADDRESS
                    + programm@.len()) ==> final(self)@[j] == old(self)@[j],
    {
        self.load_programm_at(RESET_EXEC_ADDRESS, programm);
    }

    /// Copies `programm` into memory starting at `addr`.
    pub fn load_programm_at(&mut self, addr: u16, programm: &[u8])
        requires
            old(self).wf(),
            addr + programm@.len() <= MEM_SIZE,
        ensures
            final(self).wf(),
            forall|i: int| 0 <= i < programm@.len() ==> final(self)@[addr + i] == programm@[i],
            forall|j: int|
                0 <= j < MEM_SIZE && !(addr <= j < addr + programm@.len()) ==> final(self)@[j]
                    == old(self)@[j],
    {
        let mut i: usize = 0;
        while i < programm.len()
            invariant
                self.wf(),
                i <= programm@.len(),
                addr + programm@.len() <= MEM_SIZE,
                forall|k: int| 0 <= k < i ==> self@[addr + k] == programm@[k],
                forall|j: int|
                    0 <= j < MEM_SIZE && !(addr <= j < addr + programm@.len()) ==> self@[j] == old(
                        self,
                    )@[j],
            decreases programm@.len() - i,
        {
            self.bytes[addr as usize + i] = programm[i];
            i = i + 1;
        }
    }

    /// Zeroes every byte, then installs the cold-reset execution address in
    /// the reset vector, high byte first.
    pub fn reset(&mut self)
        ensures
            final(self).wf(),
            final(self)@ == reset_mem(),
    {
        let mut bytes: Vec<u8> = Vec::new();
        while bytes.len() < MEM_SIZE
            invariant
                bytes@.len() <= MEM_SIZE,
                forall|i: int| 0 <= i < bytes@.len() ==> bytes@[i] == 0u8,
            decreases MEM_SIZE - bytes@.len(),
        {
            bytes.push(0);
        }
        bytes[RESET_VECTOR_ADDR] = (RESET_EXEC_ADDRESS >> 8) as u8;
        bytes[RESET_VECTOR_ADDR + 1] = (RESET_EXEC_ADDRESS & 0xFF) as u8;
        self.bytes = bytes;
        proof {
            assert(self@ =~= reset_mem());
        }
    }
}

} // verus!
