//! The host computer's memory as the ULA sees it.

use vstd::prelude::*;

verus! {

/// Start of the screen memory in the base model.
pub const SCREEN_BASE: u16 = 0x4000;

/// Bytes of one screen: 6144 pixel bytes and 768 attribute bytes.
pub const SCREEN_SIZE: usize = 6912;

/// A flat 64k memory.
#[derive(PartialEq, Eq, Debug)]
pub struct Memory64k {
    pub mem: Vec<u8>,
}

impl Memory64k {
    /// The memory holds exactly 65536 bytes.
    pub open spec fn wf(self) -> bool {
        self.mem@.len() == 0x10000
    }

    /// All zeroes.
    pub fn new() -> (r: Self)
        ensures
            r.wf(),
            forall|i: int| 0 <= i < 0x10000 ==> r.mem@[i] == 0u8,
    {
        let mut mem: Vec<u8> = Vec::new();
        let mut i: usize = 0;
        while i < 0x10000
            invariant
                i <= 0x10000,
                mem@.len() == i,
                forall|j: int| 0 <= j < i ==> mem@[j] == 0u8,
            decreases 0x10000 - i,
        {
            mem.push(0);
            i = i + 1;
        }
        Memory64k { mem }
    }

    /// Reads the byte at `addr`.
    pub fn read(&self, addr: u16) -> (r: u8)
        requires
            self.wf(),
        ensures
            r == self.mem@[addr as int],
    {
        self.mem[addr as usize]
    }

    /// Writes the byte at `addr`.
    pub fn write(&mut self, addr: u16, val: u8)
        requires
            old(self).wf(),
        ensures
            final(self).wf(),
            final(self).mem@ == old(self).mem@.update(addr as int, val),
    {
        self.mem[addr as usize] = val;
    }

    /// A copy of the screen bytes at `0x4000..0x5B00`.
    pub fn screen_copy(&self) -> (r: Vec<u8>)
        requires
            self.wf(),
        ensures
            r@.len() == SCREEN_SIZE,
            forall|i: int| 0 <= i < SCREEN_SIZE ==> r@[i] == self.mem@[SCREEN_BASE + i],
    {
        let mut r: Vec<u8> = Vec::new();
        let mut i: usize = 0;
        while i < SCREEN_SIZE
            invariant
                self.wf(),
                i <= SCREEN_SIZE,
                r@.len() == i,
                forall|j: int| 0 <= j < i ==> r@[j] == self.mem@[SCREEN_BASE + j],
            decreases SCREEN_SIZE - i,
        {
            r.push(self.mem[0x4000 + i]);
            i = i + 1;
        }
        r
    }
}

impl Default for Memory64k {
    fn default() -> (r: Self)
        ensures
            r.wf(),
    {
        Memory64k::new()
    }
}

} // verus!
