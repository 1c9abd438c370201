//! The type-1 banking controller: a 5-bit ROM bank register, a 2-bit
//! secondary register whose meaning depends on the banking mode, and a
//! RAM-enable latch set by writing the nibble pattern 0xA to the low
//! address range.

use vstd::prelude::*;
use crate::defs::BankMode;
use crate::mapper::Mapper;

verus! {

pub struct Mbc1 {
    pub rom: Vec<u8>,
    pub ram: Vec<u8>,
    pub ram_enable: bool,
    pub rom_bank: u8,
    pub ram_bank: u8,
    pub bank_mode: BankMode,
}

/// The effective ROM bank a write to the bank-select range picks: the
/// values 0x20, 0x40 and 0x60 select banks 0x21, 0x41 and 0x61, and a
/// five-bit value of zero aliases to bank 1.
pub open spec fn rom_bank_select(dat: u8) -> u8 {
    if dat == 0x20 {
        0x21u8
    } else if dat == 0x40 {
        0x41u8
    } else if dat == 0x60 {
        0x61u8
    } else if dat % 32 == 0 {
        1u8
    } else {
        (dat % 32) as u8
    }
}

impl Mbc1 {
    pub fn new(rom: Vec<u8>, ram: Vec<u8>) -> (r: Mbc1)
        ensures
            r.rom@ == rom@,
            r.ram@ == ram@,
            r.ram_enable == false,
            r.rom_bank == 1u8,
            r.ram_bank == 0u8,
            r.bank_mode == BankMode::Rom,
            r.wf(),
    {
        Mbc1 { rom, ram, ram_enable: false, rom_bank: 0x01, ram_bank: 0, bank_mode: BankMode::Rom }
    }

    /// The scalar controller registers, for stating what a write leaves
    /// untouched.
    pub open spec fn regs(&self) -> (bool, u8, u8, BankMode) {
        (self.ram_enable, self.rom_bank, self.ram_bank, self.bank_mode)
    }

    /// The image offset a read of the fixed ROM range resolves to.
    pub open spec fn low_rom_index(&self, addr: u16) -> int {
        match self.bank_mode {
            BankMode::Rom => addr as int,
            BankMode::Ram => (self.ram_bank * 32 + self.rom_bank) * 0x4000 + addr,
        }
    }

    /// The image offset a read of the switchable ROM range resolves to.
    pub open spec fn high_rom_index(&self, addr: u16) -> int {
        addr - 0x4000 + self.rom_bank * 0x4000
    }

    /// The RAM offset a read or write of the external-RAM range resolves
    /// to.
    pub open spec fn ram_index(&self, addr: u16) -> int {
        addr - 0xA000 + self.ram_bank * 0x2000
    }
}

impl Mapper for Mbc1 {
    open spec fn wf(&self) -> bool {
        self.rom_bank <= 0x61 && self.ram_bank < 4
    }

    /// ROM reads index through the selected bank; external-RAM reads
    /// return the sentinel 0 while the RAM-enable latch is off, and any
    /// offset past the end of the backing storage reads as the sentinel.
    open spec fn read_spec(&self, addr: u16) -> u8 {
        if addr <= 0x3FFF {
            let idx = self.low_rom_index(addr);
            if idx < self.rom@.len() {
                self.rom@[idx]
            } else {
                0u8
            }
        } else if addr <= 0x7FFF {
            let idx = self.high_rom_index(addr);
            if idx < self.rom@.len() {
                self.rom@[idx]
            } else {
                0u8
            }
        } else if 0xA000 <= addr && addr <= 0xBFFF {
            if self.ram_enable {
                let idx = self.ram_index(addr);
                if idx < self.ram@.len() {
                    self.ram@[idx]
                } else {
                    0u8
                }
            } else {
                0u8
            }
        } else {
            0u8
        }
    }

    open spec fn write_rel(pre: Self, post: Self, addr: u16, dat: u8) -> bool {
        &&& post.rom@ == pre.rom@
        &&& if addr <= 0x1FFF {
            &&& post.ram@ == pre.ram@
            &&& post.regs() == ((if dat % 16 == 0 {
                false
            } else if dat % 16 == 0x0A {
                true
            } else {
                pre.ram_enable
            }), pre.rom_bank, pre.ram_bank, pre.bank_mode)
        } else if addr <= 0x3FFF {
            &&& post.ram@ == pre.ram@
            &&& post.regs() == (pre.ram_enable, rom_bank_select(dat), pre.ram_bank, pre.bank_mode)
        } else if addr <= 0x5FFF {
            &&& post.ram@ == pre.ram@
            &&& post.regs() == (pre.ram_enable, pre.rom_bank, (dat % 4) as u8, pre.bank_mode)
        } else if addr <= 0x7FFF {
            &&& post.ram@ == pre.ram@
            &&& post.regs() == (pre.ram_enable, pre.rom_bank, pre.ram_bank, (if dat == 0 {
                BankMode::Rom
            } else if dat == 1 {
                BankMode::Ram
            } else {
                pre.bank_mode
            }))
        } else if 0xA000 <= addr && addr <= 0xBFFF {
            &&& post.regs() == pre.regs()
            &&& post.ram@ == (if pre.ram_enable && pre.ram_index(addr) < pre.ram@.len() {
                pre.ram@.update(pre.ram_index(addr), dat)
            } else {
                pre.ram@
            })
        } else {
            &&& post.ram@ == pre.ram@
            &&& post.regs() == pre.regs()
        }
    }

    fn read(&self, addr: u16) -> (r: u8) {
        if addr <= 0x3FFF {
            let idx: usize = match self.bank_mode {
                BankMode::Rom => addr as usize,
                BankMode::Ram => (self.ram_bank as usize * 32 + self.rom_bank as usize) * 0x4000
                    + addr as usize,
            };
            if idx < self.rom.len() {
                self.rom[idx]
            } else {
                0
            }
        } else if addr <= 0x7FFF {
            let idx: usize = addr as usize - 0x4000 + self.rom_bank as usize * 0x4000;
            if idx < self.rom.len() {
                self.rom[idx]
            } else {
                0
            }
        } else if 0xA000 <= addr && addr <= 0xBFFF {
            if self.ram_enable {
                let idx: usize = addr as usize - 0xA000 + self.ram_bank as usize * 0x2000;
                if idx < self.ram.len() {
                    self.ram[idx]
                } else {
                    0
                }
            } else {
                0
            }
        } else {
            0
        }
    }

    fn write(&mut self, addr: u16, dat: u8) {
        if addr <= 0x1FFF {
            if dat % 16 == 0x00 {
                self.ram_enable = false;
            } else if dat % 16 == 0x0A {
                self.ram_enable = true;
            }
        } else if addr <= 0x3FFF {
            self.rom_bank = if dat == 0x20 {
                0x21
            } else if dat == 0x40 {
                0x41
            } else if dat == 0x60 {
                0x61
            } else if dat % 32 == 0 {
                1
            } else {
                dat % 32
            };
        } else if addr <= 0x5FFF {
            self.ram_bank = dat % 4;
        } else if addr <= 0x7FFF {
            if dat == 0 {
                self.bank_mode = BankMode::Rom;
            } else if dat == 1 {
                self.bank_mode = BankMode::Ram;
            }
        } else if 0xA000 <= addr && addr <= 0xBFFF {
            if self.ram_enable {
                let idx: usize = addr as usize - 0xA000 + self.ram_bank as usize * 0x2000;
                if idx < self.ram.len() {
                    self.ram.set(idx, dat);
                }
            }
        }
    }
}

/// Writing 0x00, 0x20, 0x40 or 0x60 to the ROM-bank-select range yields
/// the effective banks 1, 0x21, 0x41 and 0x61 respectively.
pub proof fn lemma_rom_bank_aliases()
    ensures
        rom_bank_select(0x00) == 1,
        rom_bank_select(0x20) == 0x21,
        rom_bank_select(0x40) == 0x41,
        rom_bank_select(0x60) == 0x61,
{
}

} // verus!
