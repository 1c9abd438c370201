//! Memory bus: the single address decoder routing reads and writes to
//! the cartridge, video memory, work RAM, I/O registers and high RAM,
//! and the owner of the shared interrupt-flag register that the CPU,
//! pixel pipeline, timer and joypad all observe.

use vstd::prelude::*;
use crate::rom::Rom;
use crate::ppu::{PPU, PpuView, view_wf, ppu_run_spec};
use crate::joypad::{Joypad, Button};
use crate::timer::{Timer, timer_run_spec};
use crate::util::zero_vec;

verus! {

pub struct MMC {
    pub rom: Rom,
    pub ppu: PPU,
    pub joypad: Joypad,
    pub timer: Timer,
    /// Fixed 4 KiB bank plus the switchable upper banks.
    pub wram: Vec<u8>,
    /// Selected upper work-RAM bank; this model keeps it at 1.
    pub bank: usize,
    pub hram: Vec<u8>,
    pub int_enable: u8,
    pub int_flag: u8,
}

impl MMC {
    pub open spec fn wf(&self) -> bool {
        &&& self.rom.wf()
        &&& view_wf(self.ppu@)
        &&& self.timer.wf()
        &&& self.wram@.len() == 0x8000
        &&& self.hram@.len() == 0x7F
        &&& self.bank == 1
    }

    /// Builds the bus around a loaded cartridge, with every component in
    /// its power-on state: the LCD enabled with the standard control
    /// value, the background palette at 0xFC and both object palettes at
    /// 0xFF.
    pub fn new(rom: Rom) -> (r: MMC)
        requires
            rom.wf(),
        ensures
            r.wf(),
            r.rom == rom,
            r.joypad == (Joypad {
                select_switch: 0u8,
                right: false,
                left: false,
                up: false,
                down: false,
                a: false,
                b: false,
                select: false,
                start: false,
            }),
            r.timer == (Timer {
                div: 0u8,
                tima: 0u8,
                tma: 0u8,
                tac: 0u8,
                div_clock: crate::timer::Clock { period: 256u32, n: 0u32 },
                tma_clock: crate::timer::Clock { period: 1024u32, n: 0u32 },
            }),
            r.wram@ == Seq::new(0x8000, |i: int| 0u8),
            r.hram@ == Seq::new(0x7F, |i: int| 0u8),
            r.bank == 1,
            r.int_enable == 0u8,
            r.int_flag == 0u8,
            r.ppu@ == (PpuView {
                lcdc: 0x91u8,
                bgp: 0xFCu8,
                obp0: 0xFFu8,
                obp1: 0xFFu8,
                frame: Seq::new(160 * 144, |i: int| 0u8),
                vram: Seq::new(0x2000, |i: int| 0u8),
                oam: Seq::new(0xA0, |i: int| 0u8),
                stat: 0u8,
                scroll_x: 0u8,
                scroll_y: 0u8,
                line: 0u8,
                lyc: 0u8,
                wx: 0u8,
                wy: 0u8,
                mode: crate::defs::VideoMode::ACCESS_OAM,
                v_blank: false,
                cycles: 0u32,
            }),
    {
        let mut ppu = PPU::new();
        ppu.lcd_control = 0x91;
        ppu.bg_palette = 0xFC;
        ppu.sprite_palette0 = 0xFF;
        ppu.sprite_palette1 = 0xFF;
        MMC {
            rom,
            ppu,
            joypad: Joypad::new(),
            timer: Timer::new(),
            wram: zero_vec(0x8000),
            bank: 0x01,
            hram: zero_vec(0x7F),
            int_enable: 0,
            int_flag: 0,
        }
    }

    /// The byte a read of `addr` returns: the single address decode.
    /// Echo RAM mirrors work RAM, and an address with no backing
    /// hardware reads as the sentinel 0.
    pub open spec fn read_spec(&self, addr: u16) -> u8 {
        if addr <= 0x7FFF {
            self.rom.read_spec(addr)
        } else if addr <= 0x9FFF {
            PPU::spec_read(self.ppu@, addr)
        } else if addr <= 0xBFFF {
            self.rom.read_spec(addr)
        } else if addr <= 0xCFFF {
            self.wram@[addr - 0xC000]
        } else if addr <= 0xDFFF {
            self.wram@[addr - 0xD000 + 0x1000 * self.bank]
        } else if addr <= 0xEFFF {
            self.wram@[addr - 0xE000]
        } else if addr <= 0xFDFF {
            self.wram@[addr - 0xF000 + 0x1000 * self.bank]
        } else if addr <= 0xFE9F {
            PPU::spec_read(self.ppu@, addr)
        } else if addr == 0xFF00 {
            self.joypad.spec_read()
        } else if 0xFF04 <= addr <= 0xFF07 {
            self.timer.spec_read(addr)
        } else if addr == 0xFF0F {
            self.int_flag
        } else if (0xFF40 <= addr <= 0xFF45) || (0xFF47 <= addr <= 0xFF4B) {
            PPU::spec_read(self.ppu@, addr)
        } else if addr == 0xFF50 {
            self.rom.disable_boot_rom
        } else if 0xFF80 <= addr <= 0xFFFE {
            self.hram@[addr - 0xFF80]
        } else if addr == 0xFFFF {
            self.int_enable
        } else {
            0u8
        }
    }

    pub fn read(&self, addr: u16) -> (r: u8)
        requires
            self.wf(),
        ensures
            r == self.read_spec(addr),
    {
        if addr <= 0x7FFF {
            self.rom.read(addr)
        } else if addr <= 0x9FFF {
            self.ppu.read(addr)
        } else if addr <= 0xBFFF {
            self.rom.read(addr)
        } else if addr <= 0xCFFF {
            self.wram[(addr - 0xC000) as usize]
        } else if addr <= 0xDFFF {
            self.wram[(addr - 0xD000) as usize + 0x1000 * self.bank]
        } else if addr <= 0xEFFF {
            self.wram[(addr - 0xE000) as usize]
        } else if addr <= 0xFDFF {
            self.wram[(addr - 0xF000) as usize + 0x1000 * self.bank]
        } else if addr <= 0xFE9F {
            self.ppu.read(addr)
        } else if addr == 0xFF00 {
            self.joypad.read(addr)
        } else if 0xFF04 <= addr && addr <= 0xFF07 {
            self.timer.read(addr)
        } else if addr == 0xFF0F {
            self.int_flag
        } else if (0xFF40 <= addr && addr <= 0xFF45) || (0xFF47 <= addr && addr <= 0xFF4B) {
            self.ppu.read(addr)
        } else if addr == 0xFF50 {
            self.rom.disable_boot_rom
        } else if 0xFF80 <= addr && addr <= 0xFFFE {
            self.hram[(addr - 0xFF80) as usize]
        } else if addr == 0xFFFF {
            self.int_enable
        } else {
            0
        }
    }

    /// Everything but the cartridge is unchanged.
    pub open spec fn eq_except_rom(pre: &MMC, post: &MMC) -> bool {
        &&& post.ppu == pre.ppu
        &&& post.joypad == pre.joypad
        &&& post.timer == pre.timer
        &&& post.wram@ == pre.wram@
        &&& post.bank == pre.bank
        &&& post.hram@ == pre.hram@
        &&& post.int_enable == pre.int_enable
        &&& post.int_flag == pre.int_flag
    }

    /// Everything but the pixel pipeline is unchanged.
    pub open spec fn eq_except_ppu(pre: &MMC, post: &MMC) -> bool {
        &&& post.rom == pre.rom
        &&& post.joypad == pre.joypad
        &&& post.timer == pre.timer
        &&& post.wram@ == pre.wram@
        &&& post.bank == pre.bank
        &&& post.hram@ == pre.hram@
        &&& post.int_enable == pre.int_enable
        &&& post.int_flag == pre.int_flag
    }

    /// Everything but work RAM is unchanged.
    pub open spec fn eq_except_wram(pre: &MMC, post: &MMC) -> bool {
        &&& post.rom == pre.rom
        &&& post.ppu == pre.ppu
        &&& post.joypad == pre.joypad
        &&& post.timer == pre.timer
        &&& post.bank == pre.bank
        &&& post.hram@ == pre.hram@
        &&& post.int_enable == pre.int_enable
        &&& post.int_flag == pre.int_flag
    }

    /// The OAM contents after the 160-byte DMA copy from page `dat`.
    pub open spec fn dma_oam(pre: &MMC, dat: u8) -> Seq<u8> {
        Seq::new(0xA0, |i: int| pre.read_spec((0x100 * dat + i) as u16))
    }

    /// How a write of `dat` to `addr` relates the bus state before to
    /// the state after: each address region changes its own component
    /// per that component's rules, a write to the DMA trigger copies a
    /// 160-byte page into the sprite table, and a write with no backing
    /// hardware changes nothing.
    pub open spec fn write_rel(pre: MMC, post: MMC, addr: u16, dat: u8) -> bool {
        if addr <= 0x7FFF || (0xA000 <= addr <= 0xBFFF) {
            &&& Rom::write_rel(pre.rom, post.rom, addr, dat)
            &&& Self::eq_except_rom(&pre, &post)
        } else if (0x8000 <= addr <= 0x9FFF) || (0xFE00 <= addr <= 0xFE9F) || (0xFF40 <= addr
            <= 0xFF45) || (0xFF47 <= addr <= 0xFF4B) {
            &&& post.ppu@ == PPU::spec_write(pre.ppu@, addr, dat)
            &&& post.ppu.debug == pre.ppu.debug
            &&& Self::eq_except_ppu(&pre, &post)
        } else if 0xC000 <= addr <= 0xCFFF {
            &&& post.wram@ == pre.wram@.update(addr - 0xC000, dat)
            &&& Self::eq_except_wram(&pre, &post)
        } else if 0xD000 <= addr <= 0xDFFF {
            &&& post.wram@ == pre.wram@.update(addr - 0xD000 + 0x1000 * pre.bank, dat)
            &&& Self::eq_except_wram(&pre, &post)
        } else if 0xE000 <= addr <= 0xEFFF {
            &&& post.wram@ == pre.wram@.update(addr - 0xE000, dat)
            &&& Self::eq_except_wram(&pre, &post)
        } else if 0xF000 <= addr <= 0xFDFF {
            &&& post.wram@ == pre.wram@.update(addr - 0xF000 + 0x1000 * pre.bank, dat)
            &&& Self::eq_except_wram(&pre, &post)
        } else if addr == 0xFF00 {
            post == (MMC { joypad: Joypad { select_switch: dat, ..pre.joypad }, ..pre })
        } else if 0xFF04 <= addr <= 0xFF07 {
            post == (MMC { timer: pre.timer.spec_write(addr, dat), ..pre })
        } else if addr == 0xFF0F {
            post == (MMC { int_flag: dat, ..pre })
        } else if addr == 0xFF46 {
            &&& post.ppu@ == (PpuView { oam: Self::dma_oam(&pre, dat), ..pre.ppu@ })
            &&& post.ppu.debug == pre.ppu.debug
            &&& Self::eq_except_ppu(&pre, &post)
        } else if addr == 0xFF50 {
            post == (MMC { rom: Rom { disable_boot_rom: dat, ..pre.rom }, ..pre })
        } else if 0xFF80 <= addr <= 0xFFFE {
            &&& post.hram@ == pre.hram@.update(addr - 0xFF80, dat)
            &&& post.rom == pre.rom
            &&& post.ppu == pre.ppu
            &&& post.joypad == pre.joypad
            &&& post.timer == pre.timer
            &&& post.wram@ == pre.wram@
            &&& post.bank == pre.bank
            &&& post.int_enable == pre.int_enable
            &&& post.int_flag == pre.int_flag
        } else if addr == 0xFFFF {
            post == (MMC { int_enable: dat, ..pre })
        } else {
            post == pre
        }
    }

    pub fn write(&mut self, addr: u16, dat: u8)
        requires
            old(self).wf(),
        ensures
            Self::write_rel(*old(self), *final(self), addr, dat),
            final(self).wf(),
    {
        if addr <= 0x7FFF {
            self.rom.write(addr, dat);
        } else if addr <= 0x9FFF {
            self.ppu.write(addr, dat);
        } else if addr <= 0xBFFF {
            self.rom.write(addr, dat);
        } else if addr <= 0xCFFF {
            self.wram.set((addr - 0xC000) as usize, dat);
        } else if addr <= 0xDFFF {
            self.wram.set((addr - 0xD000) as usize + 0x1000 * self.bank, dat);
        } else if addr <= 0xEFFF {
            self.wram.set((addr - 0xE000) as usize, dat);
        } else if addr <= 0xFDFF {
            self.wram.set((addr - 0xF000) as usize + 0x1000 * self.bank, dat);
        } else if 0xFE00 <= addr && addr <= 0xFE9F {
            self.ppu.write(addr, dat);
        } else if addr == 0xFF00 {
            self.joypad.write(addr, dat);
        } else if 0xFF04 <= addr && addr <= 0xFF07 {
            self.timer.write(addr, dat);
        } else if addr == 0xFF0F {
            self.int_flag = dat;
        } else if (0xFF40 <= addr && addr <= 0xFF45) || (0xFF47 <= addr && addr <= 0xFF4B) {
            self.ppu.write(addr, dat);
        } else if addr == 0xFF46 {
            self.oam_dma_transfer(dat);
        } else if addr == 0xFF50 {
            self.rom.disable_boot_rom = dat;
        } else if 0xFF80 <= addr && addr <= 0xFFFE {
            self.hram.set((addr - 0xFF80) as usize, dat);
        } else if addr == 0xFFFF {
            self.int_enable = dat;
        }
    }

    /// Copies the 160-byte page starting at `0x100 * dat` into the
    /// sprite attribute table, reading through the bus's own decode.
    pub fn oam_dma_transfer(&mut self, dat: u8)
        requires
            old(self).wf(),
        ensures
            final(self).ppu@ == (PpuView { oam: Self::dma_oam(old(self), dat), ..old(self).ppu@ }),
            final(self).ppu.debug == old(self).ppu.debug,
            Self::eq_except_ppu(old(self), final(self)),
            final(self).wf(),
    {
        let ghost m0 = *self;
        let start_addr: u16 = 0x100 * dat as u16;
        proof {
            assert(Seq::new(0xA0, |j: int| if j < 0 {
                m0.read_spec((start_addr + j) as u16)
            } else {
                m0.ppu@.oam[j]
            }) =~= m0.ppu@.oam);
        }
        let mut i: u16 = 0;
        while i < 0xA0
            invariant
                self.wf(),
                m0.wf(),
                i <= 0xA0,
                start_addr == 0x100 * dat,
                Self::eq_except_ppu(&m0, self),
                self.ppu.debug == m0.ppu.debug,
                self.ppu@ == (PpuView {
                    oam: Seq::new(0xA0, |j: int| if j < i {
                        m0.read_spec((start_addr + j) as u16)
                    } else {
                        m0.ppu@.oam[j]
                    }),
                    ..m0.ppu@
                }),
            decreases 0xA0 - i,
        {
            let oam_addr = 0xFE00 + i;
            let oam_dat = self.read(start_addr + i);
            proof {
                if 0xFE00 <= start_addr + i <= 0xFE9F {
                    assert(start_addr == 0xFE00);
                    assert(self.read_spec((start_addr + i) as u16) == self.ppu@.oam[i as int]);
                    assert(self.ppu@.oam[i as int] == m0.ppu@.oam[i as int]);
                    assert(m0.read_spec((start_addr + i) as u16) == m0.ppu@.oam[i as int]);
                } else {
                    assert(self.read_spec((start_addr + i) as u16) == m0.read_spec(
                        (start_addr + i) as u16,
                    ));
                }
            }
            self.ppu.write(oam_addr, oam_dat);
            proof {
                assert(self.ppu@.oam =~= Seq::new(0xA0, |j: int| if j < i + 1 {
                    m0.read_spec((start_addr + j) as u16)
                } else {
                    m0.ppu@.oam[j]
                }));
            }
            i += 1;
        }
        proof {
            assert(self.ppu@.oam =~= Self::dma_oam(&m0, dat));
        }
    }

    /// Advances the timer and then the pixel pipeline by `cycles` clock
    /// cycles, each observing and raising bits in the single shared
    /// interrupt-flag register, in that order.
    pub fn run(&mut self, cycles: u32)
        requires
            old(self).wf(),
            cycles <= 0x0FFF_FFFF,
        ensures
            final(self).wf(),
            ({
                let (t1, f1) = timer_run_spec(old(self).timer, cycles, old(self).int_flag);
                let (p1, f2) = ppu_run_spec(old(self).ppu@, cycles, f1);
                &&& final(self).timer == t1
                &&& final(self).ppu@ == p1
                &&& final(self).int_flag == f2
                &&& final(self).rom == old(self).rom
                &&& final(self).joypad == old(self).joypad
                &&& final(self).wram@ == old(self).wram@
                &&& final(self).hram@ == old(self).hram@
                &&& final(self).bank == old(self).bank
                &&& final(self).int_enable == old(self).int_enable
                &&& final(self).ppu.debug == old(self).ppu.debug
            }),
    {
        let mut f = self.int_flag;
        self.timer.run(cycles, &mut f);
        self.ppu.run(cycles, &mut f);
        self.int_flag = f;
    }

    /// Routes a pressed key to the joypad; the joypad interrupt bit of
    /// the shared flag register is raised.
    pub fn key_down(&mut self, key: Button)
        ensures
            *final(self) == (MMC {
                joypad: old(self).joypad.spec_with_key(key, true),
                int_flag: old(self).int_flag | 0x10,
                ..*old(self)
            }),
    {
        let mut f = self.int_flag;
        self.joypad.key_down(key, &mut f);
        self.int_flag = f;
    }

    /// Routes a released key to the joypad.
    pub fn key_up(&mut self, key: Button)
        ensures
            *final(self) == (MMC { joypad: old(self).joypad.spec_with_key(key, false), ..*old(
                self,
            ) }),
    {
        self.joypad.key_up(key);
    }
}

/// A sequence of bus writes, applied in order: `post` is reached from
/// `pre` by writing each (address, byte) pair in turn.
pub open spec fn writes_rel(pre: MMC, post: MMC, ws: Seq<(u16, u8)>) -> bool
    decreases ws.len(),
{
    if ws.len() == 0 {
        post == pre
    } else {
        exists|mid: MMC|
            #[trigger] MMC::write_rel(pre, mid, ws[0].0, ws[0].1) && writes_rel(
                mid,
                post,
                ws.skip(1),
            )
    }
}

pub proof fn lemma_writes_rel_empty(m: MMC)
    ensures
        writes_rel(m, m, Seq::<(u16, u8)>::empty()),
{
}

pub proof fn lemma_writes_rel_cons(m0: MMC, m1: MMC, m2: MMC, a: u16, d: u8, ws: Seq<(u16, u8)>)
    requires
        MMC::write_rel(m0, m1, a, d),
        writes_rel(m1, m2, ws),
    ensures
        writes_rel(m0, m2, seq![(a, d)] + ws),
{
    let all = seq![(a, d)] + ws;
    assert(all[0] == (a, d));
    assert(all.skip(1) =~= ws);
    assert(MMC::write_rel(m0, m1, all[0].0, all[0].1));
    assert(writes_rel(m1, m2, all.skip(1)));
    assert(all.len() > 0);
}

pub proof fn lemma_writes_rel_concat(m0: MMC, m1: MMC, m2: MMC, ws1: Seq<(u16, u8)>, ws2: Seq<
    (u16, u8),
>)
    requires
        writes_rel(m0, m1, ws1),
        writes_rel(m1, m2, ws2),
    ensures
        writes_rel(m0, m2, ws1 + ws2),
    decreases ws1.len(),
{
    if ws1.len() == 0 {
        assert(m1 == m0);
        assert(ws1 + ws2 =~= ws2);
    } else {
        let mid = choose|mid: MMC|
            #[trigger] MMC::write_rel(m0, mid, ws1[0].0, ws1[0].1) && writes_rel(
                mid,
                m1,
                ws1.skip(1),
            );
        lemma_writes_rel_concat(mid, m1, m2, ws1.skip(1), ws2);
        let all = ws1 + ws2;
        assert(all[0] == ws1[0]);
        assert(all.skip(1) =~= ws1.skip(1) + ws2);
        assert(MMC::write_rel(m0, mid, all[0].0, all[0].1));
        assert(writes_rel(mid, m2, all.skip(1)));
        assert(all.len() > 0);
    }
}

} // verus!