//! Cartridge bank-switching controllers.
//!
//! Each controller translates bus addresses in the cartridge ranges
//! (ROM at 0x0000..=0x7FFF, external RAM at 0xA000..=0xBFFF) into offsets
//! into the raw image, and interprets control writes into those ranges.
//! An address with no backing storage reads as the sentinel 0 and ignores
//! writes, mirroring open-bus behaviour.

use vstd::prelude::*;
use crate::mapper::nombc::NoMbc;
use crate::mapper::mbc1::Mbc1;

pub mod nombc;

pub mod mbc1;

verus! {

/// The capability set every bank-switching controller offers.
pub trait Mapper: Sized {
    /// The byte a read of `addr` returns, as a function of the state.
    spec fn read_spec(&self, addr: u16) -> u8;

    /// How a write of `dat` to `addr` relates the state before to the
    /// state after.
    spec fn write_rel(pre: Self, post: Self, addr: u16, dat: u8) -> bool;

    /// Controller state under which reads and writes are well defined.
    spec fn wf(&self) -> bool;

    fn read(&self, addr: u16) -> (r: u8)
        requires
            self.wf(),
        ensures
            r == self.read_spec(addr),
    ;

    fn write(&mut self, addr: u16, dat: u8)
        requires
            old(self).wf(),
        ensures
            Self::write_rel(*old(self), *final(self), addr, dat),
            final(self).wf(),
    ;
}

/// The closed set of controller variants a cartridge header can select.
pub enum MapperKind {
    NoController(NoMbc),
    Banked(Mbc1),
}

impl MapperKind {
    pub open spec fn wf(&self) -> bool {
        match self {
            MapperKind::NoController(m) => m.wf(),
            MapperKind::Banked(m) => m.wf(),
        }
    }

    pub open spec fn read_spec(&self, addr: u16) -> u8 {
        match self {
            MapperKind::NoController(m) => m.read_spec(addr),
            MapperKind::Banked(m) => m.read_spec(addr),
        }
    }

    pub open spec fn write_rel(pre: Self, post: Self, addr: u16, dat: u8) -> bool {
        match pre {
            MapperKind::NoController(m) => match post {
                MapperKind::NoController(m2) => NoMbc::write_rel(m, m2, addr, dat),
                _ => false,
            },
            MapperKind::Banked(m) => match post {
                MapperKind::Banked(m2) => Mbc1::write_rel(m, m2, addr, dat),
                _ => false,
            },
        }
    }

    pub fn read(&self, addr: u16) -> (r: u8)
        requires
            self.wf(),
        ensures
            r == self.read_spec(addr),
    {
        match self {
            MapperKind::NoController(m) => m.read(addr),
            MapperKind::Banked(m) => m.read(addr),
        }
    }

    pub fn write(&mut self, addr: u16, dat: u8)
        requires
            old(self).wf(),
        ensures
            Self::write_rel(*old(self), *final(self), addr, dat),
            final(self).wf(),
    {
        match self {
            MapperKind::NoController(m) => m.write(addr, dat),
            MapperKind::Banked(m) => m.write(addr, dat),
        }
    }
}

} // verus!
