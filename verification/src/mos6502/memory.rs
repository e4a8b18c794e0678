//! The 64 KiB address space of the full machine: byte and little-endian
//! word read/write, and bulk program load.

use crate::machine::{all_zero_mem, slice_written, word_at, word_written};
use vstd::pervasive::VecAdditionalExecFns;
use vstd::prelude::*;

verus! {

/// Number of addressable bytes: every 16-bit address value is valid.
pub const MEMORY_SIZE: usize = 0x10000;

/// Fixed program-origin address where programs are loaded, mirroring a
/// cartridge PRG-ROM convention.
pub const PROGRAM_ROM_START: u16 = 0x8000;

/// Byte- and word-level access to a flat address space.
pub trait MemoryAccess {
    /// The byte stored at each address.
    spec fn contents(&self) -> Seq<u8>;

    /// Whether the value models the whole 64 KiB address space.
    spec fn wf(&self) -> bool;

    /// The byte stored at `address`.
    fn read(&self, address: u16) -> (data: u8)
        requires
            self.wf(),
        ensures
            data == self.contents()[address as int],
    ;

    /// Store `data` at `address`.
    fn write(&mut self, address: u16, data: u8)
        requires
            old(self).wf(),
        ensures
            final(self).wf(),
            final(self).contents() == old(self).contents().update(address as int, data),
    ;

    /// Copy `data` into the address space starting at `start_address`.
    fn write_slice(&mut self, start_address: u16, data: &[u8])
        requires
            old(self).wf(),
            start_address as int + data@.len() <= MEMORY_SIZE,
        ensures
            final(self).wf(),
            final(self).contents() == slice_written(old(self).contents(), start_address, data@),
    ;

    /// The little-endian 16-bit word at `address`; the high byte is read at
    /// `address + 1` wrapping at the 16-bit boundary.
    fn read_u16(&self, address: u16) -> (data: u16)
        requires
            self.wf(),
        ensures
            data == word_at(self.contents(), address),
    ;

    /// Store `data` as a little-endian 16-bit word at `address`; the high
    /// byte lands at `address + 1` wrapping at the 16-bit boundary.
    fn write_u16(&mut self, address: u16, data: u16)
        requires
            old(self).wf(),
        ensures
            final(self).wf(),
            final(self).contents() == word_written(old(self).contents(), address, data),
    ;
}

/// Exclusive owner of the 64 KiB byte array.  No region semantics are
/// enforced; every 16-bit address is valid and no fault path exists.
pub struct Memory {
    bytes: Vec<u8>,
}

/// The memory image obtained by applying each `(address, byte)` write in
/// order, later writes overriding earlier ones at the same address.
pub open spec fn patched(mem: Seq<u8>, writes: Seq<(usize, u8)>) -> Seq<u8>
    decreases writes.len(),
{
    if writes.len() == 0 {
        mem
    } else {
        patched(mem, writes.drop_last()).update(
            writes.last().0 as int,
            writes.last().1,
        )
    }
}

impl View for Memory {
    type V = Seq<u8>;

    closed spec fn view(&self) -> Seq<u8> {
        self.bytes@
    }
}

impl Memory {
    /// A memory image holding exactly the given bytes.
    pub fn new(bytes: Vec<u8>) -> (r: Self)
        requires
            bytes@.len() == MEMORY_SIZE,
        ensures
            r.wf(),
            r@ == bytes@,
    {
        Memory { bytes }
    }

    /// A memory image that is zero everywhere except for the given
    /// `(address, byte)` writes, applied in order.
    #[verifier::loop_isolation(false)]
    pub fn new_with_bytes(address_datas: Vec<(usize, u8)>) -> (r: Self)
        requires
            forall|i: int|
                0 <= i < address_datas@.len() ==> (#[trigger] address_datas@[i]).0
                    < MEMORY_SIZE,
        ensures
            r.wf(),
            r@ == patched(all_zero_mem(), address_datas@),
    {
        let mut bytes: Vec<u8> = vec![0u8; MEMORY_SIZE];
        proof {
            assert(bytes@ =~= all_zero_mem());
        }
        let mut i: usize = 0;
        while i < address_datas.len()
            invariant
                i <= address_datas@.len(),
                bytes@.len() == MEMORY_SIZE,
                bytes@ == patched(all_zero_mem(), address_datas@.take(i as int)),
            decreases address_datas@.len() - i,
        {
            let (address, data) = address_datas[i];
            bytes.set(address, data);
            proof {
                let prefix = address_datas@.take(i as int + 1);
                assert(prefix.drop_last() =~= address_datas@.take(i as int));
                assert(prefix.last() == address_datas@[i as int]);
            }
            i = i + 1;
        }
        proof {
            assert(address_datas@.take(address_datas@.len() as int) =~= address_datas@);
        }
        Memory { bytes }
    }
}

impl MemoryAccess for Memory {
    open spec fn contents(&self) -> Seq<u8> {
        self@
    }

    open spec fn wf(&self) -> bool {
        self@.len() == MEMORY_SIZE
    }

    fn read(&self, address: u16) -> (data: u8)
    {
        self.bytes[address as usize]
    }

    fn write(&mut self, address: u16, data: u8)
    {
        self.bytes.set(address as usize, data);
    }

    fn write_slice(&mut self, start_address: u16, data: &[u8])
    {
        let ghost orig = self@;
        let mut i: usize = 0;
        while i < data.len()
            invariant
                i <= data@.len(),
                start_address as int + data@.len() <= MEMORY_SIZE,
                self@.len() == MEMORY_SIZE,
                forall|j: int|
                    0 <= j < i ==> self@[start_address as int + j] == data@[j],
                forall|j: int|
                    0 <= j < MEMORY_SIZE && !(start_address as int <= j < start_address as int
                        + i) ==> self@[j] == orig[j],
            decreases data@.len() - i,
        {
            let b = data[i];
            self.bytes.set(start_address as usize + i, b);
            i = i + 1;
        }
        proof {
            assert(self@ =~= slice_written(orig, start_address, data@));
        }
    }

    fn read_u16(&self, address: u16) -> (data: u16)
    {
        let lo_byte = self.read(address) as u16;
        let hi_byte = self.read(address.wrapping_add(1)) as u16;
        (hi_byte << 8) | lo_byte
    }

    fn write_u16(&mut self, address: u16, data: u16)
    {
        let hi_byte = (data >> 8) as u8;
        let lo_byte = (data & 0xFF) as u8;
        self.write(address, lo_byte);
        self.write(address.wrapping_add(1), hi_byte);
    }
}

impl Default for Memory {
    /// A memory image with every byte zero, as on a freshly initialized
    /// machine.
    fn default() -> (r: Self)
        ensures
            r.wf(),
            r@ == all_zero_mem(),
    {
        let bytes: Vec<u8> = vec![0u8; MEMORY_SIZE];
        proof {
            assert(bytes@ =~= all_zero_mem());
        }
        Memory { bytes }
    }
}

} // verus!
