//! The system bus: physical memory as the MMU and the executor see it.
//!
//! The bus owns RAM and resolves physical reads and writes of naturally
//! sized little-endian values. Addresses from 0x0000_0000 through
//! 0x3FFF_FFFF are RAM space; higher ranges are device-mapped and out of
//! scope here, so a read beyond the installed RAM yields zero and a write
//! there is dropped.

use vstd::prelude::*;

use crate::stream::le32;

verus! {

/// A device attached to the bus. Device semantics are outside the core; the
/// trait names the attachment point.
pub trait VAXBusDevice {

}

/// The system bus. The view is the contents of RAM, byte by byte.
pub struct VAXBus {
    ram: Vec<u8>,
}

impl View for VAXBus {
    type V = Seq<u8>;

    closed spec fn view(&self) -> Seq<u8> {
        self.ram@
    }
}

/// The longword that a physical read of `addr` returns: the four bytes at
/// `addr` combined little-endian, or zero when they do not all lie in RAM.
pub open spec fn spec_read_longword(mem: Seq<u8>, addr: int) -> int {
    if 0 <= addr && addr + 4 <= mem.len() {
        le32(mem.skip(addr))
    } else {
        0
    }
}

/// The memory that a physical write of `val` to `addr` leaves: the four
/// bytes at `addr` replaced by `val` little-endian, or the memory unchanged
/// when they do not all lie in RAM.
pub open spec fn spec_write_longword(mem: Seq<u8>, addr: int, val: u32) -> Seq<u8> {
    if 0 <= addr && addr + 4 <= mem.len() {
        mem.update(addr, (val % 0x100) as u8).update(addr + 1, ((val / 0x100) % 0x100) as u8)
            .update(addr + 2, ((val / 0x1_0000) % 0x100) as u8).update(
            addr + 3,
            ((val / 0x100_0000) % 0x100) as u8,
        )
    } else {
        mem
    }
}

impl VAXBus {
    /// A bus with `ram_size` bytes of zeroed RAM and no devices attached.
    pub fn new(ram_size: usize) -> (bus: VAXBus)
        ensures
            bus@.len() == ram_size,
            forall|i: int| 0 <= i < ram_size ==> bus@[i] == 0u8,
    {
        let mut ram: Vec<u8> = Vec::new();
        let mut i: usize = 0;
        while i < ram_size
            invariant
                i <= ram_size,
                ram@.len() == i,
                forall|j: int| 0 <= j < i ==> ram@[j] == 0u8,
            decreases ram_size - i,
        {
            ram.push(0);
            i = i + 1;
        }
        VAXBus { ram }
    }

    /// Read the longword at physical address `addr`, little-endian. A read
    /// outside the installed RAM yields zero.
    pub fn read_physical_longword(&self, addr: u32) -> (r: u32)
        ensures
            r == spec_read_longword(self@, addr as int),
    {
        let a = addr as usize;
        if a < self.ram.len() && self.ram.len() - a >= 4 {
            let b0 = self.ram[a];
            let b1 = self.ram[a + 1];
            let b2 = self.ram[a + 2];
            let b3 = self.ram[a + 3];
            (((b3 as u32) * 0x100 + (b2 as u32)) * 0x100 + (b1 as u32)) * 0x100 + (b0 as u32)
        } else {
            0
        }
    }

    /// Write the longword `val` to physical address `addr`, little-endian. A
    /// write outside the installed RAM is dropped.
    pub fn write_physical_longword(&mut self, addr: u32, val: u32)
        ensures
            final(self)@ == spec_write_longword(old(self)@, addr as int, val),
    {
        let a = addr as usize;
        if a < self.ram.len() && self.ram.len() - a >= 4 {
            self.ram.set(a, (val % 0x100) as u8);
            self.ram.set(a + 1, ((val / 0x100) % 0x100) as u8);
            self.ram.set(a + 2, ((val / 0x1_0000) % 0x100) as u8);
            self.ram.set(a + 3, ((val / 0x100_0000) % 0x100) as u8);
        }
    }
}

} // verus!
