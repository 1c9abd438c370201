//! The cartridge: raw image, header fields, and the bank-switching
//! controller the header selects.

use vstd::prelude::*;
use crate::mapper::{Mapper, MapperKind};
use crate::mapper::nombc::NoMbc;
use crate::mapper::mbc1::Mbc1;
use crate::util::zero_vec;

verus! {

/// Why a cartridge image was rejected at load time.
#[derive(Clone, Copy, PartialEq, Eq, Structural, Debug)]
pub enum CartridgeError {
    /// The image is shorter than the 0x150-byte header area.
    ImageTooSmall,
    /// The header's mapper-type byte selects a controller this core does
    /// not implement; running with the wrong mapper would silently corrupt
    /// state, so loading fails fast instead.
    UnsupportedMapper(u8),
}

/// The external-RAM size the header's RAM-size byte selects.
pub open spec fn ram_size_of(t: u8) -> u32 {
    if t == 0 {
        0x200u32
    } else if t == 1 {
        0u32
    } else if t == 3 {
        0x8000u32
    } else {
        0u32
    }
}

pub struct Rom {
    pub mbc_type: u8,
    pub rom_size_type: u8,
    pub ram_size_type: u8,
    pub ram_size: u32,
    pub mapper: MapperKind,
    /// Latch at 0xFF50; nonzero once the boot sequence has handed over.
    pub disable_boot_rom: u8,
}

impl Rom {
    pub open spec fn wf(&self) -> bool {
        self.mapper.wf()
    }

    /// Builds the cartridge from an already-loaded image.  The header
    /// byte at 0x147 selects the controller variant, 0x148 the ROM size
    /// class and 0x149 the RAM size class.  Returns an error, and builds
    /// nothing, exactly when the image is shorter than the header area or
    /// the mapper type is unsupported.
    pub fn new(data: Vec<u8>) -> (r: Result<Rom, CartridgeError>)
        ensures
            r matches Ok(_) <==> data@.len() >= 0x150 && (data@[0x147] == 0 || data@[0x147] == 1),
            data@.len() < 0x150 ==> r == Err::<Rom, CartridgeError>(CartridgeError::ImageTooSmall),
            data@.len() >= 0x150 && !(data@[0x147] == 0 || data@[0x147] == 1) ==> r == Err::<
                Rom,
                CartridgeError,
            >(CartridgeError::UnsupportedMapper(data@[0x147])),
            r matches Ok(g) ==> {
                &&& g.mbc_type == data@[0x147]
                &&& g.rom_size_type == data@[0x148]
                &&& g.ram_size_type == data@[0x149]
                &&& g.ram_size == ram_size_of(data@[0x149])
                &&& g.disable_boot_rom == 0u8
                &&& g.wf()
                &&& data@[0x147] == 0 ==> (g.mapper matches MapperKind::NoController(m)
                    && m.ram@ == data@)
                &&& data@[0x147] == 1 ==> (g.mapper matches MapperKind::Banked(m) && m.rom@
                    == data@ && m.ram@ == Seq::new(ram_size_of(data@[0x149]) as nat, |i: int| 0u8)
                    && m.ram_enable == false && m.rom_bank == 1 && m.ram_bank == 0)
            },
    {
        if data.len() < 0x150 {
            return Err(CartridgeError::ImageTooSmall);
        }
        let mbc_type = data[0x147];
        let rom_size_type = data[0x148];
        let ram_size_type = data[0x149];
        let ram_size: u32 = if ram_size_type == 0 {
            0x200
        } else if ram_size_type == 1 {
            0
        } else if ram_size_type == 3 {
            0x8000
        } else {
            0
        };
        let mapper = if mbc_type == 0 {
            MapperKind::NoController(NoMbc::new(data))
        } else if mbc_type == 1 {
            let ram = zero_vec(ram_size as usize);
            MapperKind::Banked(Mbc1::new(data, ram))
        } else {
            return Err(CartridgeError::UnsupportedMapper(mbc_type));
        };
        Ok(
            Rom {
                mbc_type,
                rom_size_type,
                ram_size_type,
                ram_size,
                mapper,
                disable_boot_rom: 0,
            },
        )
    }

    pub open spec fn read_spec(&self, addr: u16) -> u8 {
        self.mapper.read_spec(addr)
    }

    /// How a write into the cartridge ranges relates old to new state:
    /// only the controller changes, and it changes per its own rules.
    pub open spec fn write_rel(pre: Self, post: Self, addr: u16, dat: u8) -> bool {
        &&& MapperKind::write_rel(pre.mapper, post.mapper, addr, dat)
        &&& post.mbc_type == pre.mbc_type
        &&& post.rom_size_type == pre.rom_size_type
        &&& post.ram_size_type == pre.ram_size_type
        &&& post.ram_size == pre.ram_size
        &&& post.disable_boot_rom == pre.disable_boot_rom
    }

    pub fn read(&self, addr: u16) -> (r: u8)
        requires
            self.wf(),
        ensures
            r == self.read_spec(addr),
    {
        self.mapper.read(addr)
    }

    pub fn write(&mut self, addr: u16, dat: u8)
        requires
            old(self).wf(),
        ensures
            Self::write_rel(*old(self), *final(self), addr, dat),
            final(self).wf(),
    {
        self.mapper.write(addr, dat);
    }
}

} // verus!
