//! The 64 KiB address space of the minimal machine: byte read/write and
//! bulk program load.

use crate::machine::{all_zero_mem, slice_written, MEMORY_SIZE};
use vstd::pervasive::VecAdditionalExecFns;
use vstd::prelude::*;

verus! {

/// Fixed program-origin address where programs are loaded, mirroring a
/// cartridge PRG-ROM convention.
pub const PROGRAM_ROM_START: u16 = 0x8000;

/// Byte-level access to a flat address space.
pub trait MemoryAccess {
    /// The byte stored at each address.
    spec fn contents(&self) -> Seq<u8>;

    /// Whether the value models the whole 64 KiB address space.
    spec fn wf(&self) -> bool;

    /// The byte stored at `address`.
    fn read(&self, address: u16) -> (data: u8)
        requires
            self.wf(),
        ensures
            data == self.contents()[address as int],
    ;

    /// Store `data` at `address`.
    fn write(&mut self, address: u16, data: u8)
        requires
            old(self).wf(),
        ensures
            final(self).wf(),
            final(self).contents() == old(self).contents().update(address as int, data),
    ;

    /// Copy `data` into the address space starting at `start_address`.
    fn write_slice(&mut self, start_address: u16, data: &[u8])
        requires
            old(self).wf(),
            start_address as int + data@.len() <= MEMORY_SIZE,
        ensures
            final(self).wf(),
            final(self).contents() == slice_written(old(self).contents(), start_address, data@),
    ;
}

/// Exclusive owner of the 64 KiB byte array.  No region semantics are
/// enforced; every 16-bit address is valid.
pub struct Memory {
    bytes: Vec<u8>,
}

impl View for Memory {
    type V = Seq<u8>;

    closed spec fn view(&self) -> Seq<u8> {
        self.bytes@
    }
}

impl MemoryAccess for Memory {
    open spec fn contents(&self) -> Seq<u8> {
        self@
    }

    open spec fn wf(&self) -> bool {
        self@.len() == MEMORY_SIZE
    }

    fn read(&self, address: u16) -> (data: u8)
    {
        self.bytes[address as usize]
    }

    fn write(&mut self, address: u16, data: u8)
    {
        self.bytes.set(address as usize, data);
    }

    fn write_slice(&mut self, start_address: u16, data: &[u8])
    {
        let ghost orig = self@;
        let mut i: usize = 0;
        while i < data.len()
            invariant
                i <= data@.len(),
                start_address as int + data@.len() <= MEMORY_SIZE,
                self@.len() == MEMORY_SIZE,
                forall|j: int|
                    0 <= j < i ==> self@[start_address as int + j] == data@[j],
                forall|j: int|
                    0 <= j < MEMORY_SIZE && !(start_address as int <= j < start_address as int
                        + i) ==> self@[j] == orig[j],
            decreases data@.len() - i,
        {
            let b = data[i];
            self.bytes.set(start_address as usize + i, b);
            i = i + 1;
        }
        proof {
            assert(self@ =~= slice_written(orig, start_address, data@));
        }
    }
}

impl Default for Memory {
    /// A memory image with every byte zero, as on a freshly initialized
    /// machine.
    fn default() -> (r: Self)
        ensures
            r.wf(),
            r@ == all_zero_mem(),
    {
        let bytes: Vec<u8> = vec![0u8; MEMORY_SIZE];
        proof {
            assert(bytes@ =~= all_zero_mem());
        }
        Memory { bytes }
    }
}

} // verus!
