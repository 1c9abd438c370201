//! The no-controller cartridge: direct indexed access into the flat image.

use vstd::prelude::*;
use crate::mapper::Mapper;

verus! {

pub struct NoMbc {
    /// The flat cartridge image; ROM and any static RAM share it.
    pub ram: Vec<u8>,
}

impl NoMbc {
    pub fn new(ram: Vec<u8>) -> (r: NoMbc)
        ensures
            r.ram@ == ram@,
            r.wf(),
    {
        NoMbc { ram }
    }
}

impl Mapper for NoMbc {
    open spec fn wf(&self) -> bool {
        true
    }

    /// A read returns the image byte at the address itself, or the
    /// sentinel 0 past the end of the image.
    open spec fn read_spec(&self, addr: u16) -> u8 {
        if addr < self.ram@.len() {
            self.ram@[addr as int]
        } else {
            0u8
        }
    }

    /// Writes are ignored: the state is unchanged.
    open spec fn write_rel(pre: Self, post: Self, addr: u16, dat: u8) -> bool {
        post.ram@ == pre.ram@
    }

    fn read(&self, addr: u16) -> (r: u8) {
        if (addr as usize) < self.ram.len() {
            self.ram[addr as usize]
        } else {
            0
        }
    }

    fn write(&mut self, addr: u16, dat: u8) {
    }
}

} // verus!
