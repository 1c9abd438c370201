//! The whole machine: the CPU (owning the bus and every component
//! behind it) together with the pacing counter, advanced in lock-step.
//! Each driving-loop iteration executes exactly one CPU step, then
//! advances the timer and then the pixel pipeline by the same cycles,
//! in that order, so interrupts they raise are visible to the very next
//! step's interrupt check.

use vstd::prelude::*;
use crate::cpu::{CPU, step_desc};
use crate::mmc::MMC;
use crate::rom::{Rom, CartridgeError};
use crate::rtc::RTC;
use crate::timer::timer_run_spec;
use crate::ppu::ppu_run_spec;
use crate::joypad::Button;
use crate::defs::STEP_CYCLES;

verus! {

pub open spec fn wrap32(x: int) -> u32 {
    (((x % 0x1_0000_0000) + 0x1_0000_0000) % 0x1_0000_0000) as u32
}

pub struct Gameboy {
    pub cpu: RTC,
    pub elapsed_cycles: u32,
}

impl Gameboy {
    pub open spec fn wf(&self) -> bool {
        self.cpu.wf()
    }

    /// Builds the whole machine around an already-loaded cartridge
    /// image; fails exactly when the image is rejected at load time.
    pub fn new(data: Vec<u8>) -> (r: Result<Gameboy, CartridgeError>)
        ensures
            r matches Ok(_) <==> data@.len() >= 0x150 && (data@[0x147] == 0 || data@[0x147] == 1),
            data@.len() < 0x150 ==> r == Err::<Gameboy, CartridgeError>(
                CartridgeError::ImageTooSmall,
            ),
            data@.len() >= 0x150 && !(data@[0x147] == 0 || data@[0x147] == 1) ==> r == Err::<
                Gameboy,
                CartridgeError,
            >(CartridgeError::UnsupportedMapper(data@[0x147])),
            r matches Ok(g) ==> g.wf() && g.elapsed_cycles == 0u32 && g.cpu.step_cycles == 0u32
                && g.cpu.cpu.ime == true && g.cpu.cpu.halt == false && g.cpu.cpu.regs.pc == 0u16,
    {
        let rom = match Rom::new(data) {
            Ok(rom) => rom,
            Err(e) => {
                return Err(e);
            },
        };
        let mmc = MMC::new(rom);
        let cpu = RTC::new(mmc);
        Ok(Gameboy { cpu, elapsed_cycles: 0 })
    }

    /// One driving-loop iteration: one CPU step, whose clock-cycle count
    /// (four clock cycles per machine cycle) is then fed to the timer
    /// and the pixel pipeline.  Returns the clock cycles consumed.
    #[verifier::rlimit(100)]
    #[verifier::spinoff_prover]
    pub fn exec_frame(&mut self) -> (r: u32)
        requires
            old(self).wf(),
        ensures
            final(self).wf(),
            r <= 24,
            final(self).elapsed_cycles == wrap32(old(self).elapsed_cycles + r),
            ({
                exists|mid: CPU, c: u32|
                    {
                        &&& #[trigger] step_desc(old(self).cpu.cpu, mid, c)
                        &&& r == 4 * c
                        &&& ({
                            let (t1, f1) = timer_run_spec(mid.mmc.timer, r, mid.mmc.int_flag);
                            let (p1, f2) = ppu_run_spec(mid.mmc.ppu@, r, f1);
                            &&& final(self).cpu.cpu.regs == mid.regs
                            &&& final(self).cpu.cpu.mmc.timer == t1
                            &&& final(self).cpu.cpu.mmc.ppu@ == p1
                            &&& final(self).cpu.cpu.mmc.int_flag == f2
                            &&& final(self).cpu.cpu.mmc.rom == mid.mmc.rom
                            &&& final(self).cpu.cpu.mmc.joypad == mid.mmc.joypad
                            &&& final(self).cpu.cpu.mmc.wram@ == mid.mmc.wram@
                            &&& final(self).cpu.cpu.mmc.hram@ == mid.mmc.hram@
                            &&& final(self).cpu.cpu.mmc.int_enable == mid.mmc.int_enable
                            &&& final(self).cpu.cpu.ime == mid.ime
                            &&& final(self).cpu.cpu.ei_delay == mid.ei_delay
                            &&& final(self).cpu.cpu.halt == mid.halt
                            &&& final(self).cpu.cpu.opcode == mid.opcode
                            &&& final(self).cpu.cpu.cb_opcode == mid.cb_opcode
                        })
                    }
            }),
    {
        let ghost pre_cpu = self.cpu.cpu;
        let c = self.cpu.run();
        let ghost mid = self.cpu.cpu;
        let cycles = c * 4;
        self.elapsed_cycles = self.elapsed_cycles.wrapping_add(cycles);
        self.cpu.cpu.mmc.run(cycles);
        proof {
            assert(step_desc(pre_cpu, mid, c));
        }
        cycles
    }

    /// Whether a frame has completed since the last call; clears the
    /// signal so each frame is reported once.
    pub fn frame_ready(&mut self) -> (r: bool)
        ensures
            r == old(self).cpu.cpu.mmc.ppu.v_blank,
            *final(self) == (Gameboy {
                cpu: RTC {
                    cpu: CPU {
                        mmc: MMC {
                            ppu: crate::ppu::PPU { v_blank: false, ..old(self).cpu.cpu.mmc.ppu },
                            ..old(self).cpu.cpu.mmc
                        },
                        ..old(self).cpu.cpu
                    },
                    ..old(self).cpu
                },
                ..*old(self)
            }),
    {
        let ready = self.cpu.cpu.mmc.ppu.v_blank;
        self.cpu.cpu.mmc.ppu.v_blank = false;
        ready
    }

    /// Routes a pressed button into the machine, raising the joypad
    /// interrupt bit.
    pub fn key_down(&mut self, key: Button)
        ensures
            final(self).cpu.cpu.mmc.joypad == old(self).cpu.cpu.mmc.joypad.spec_with_key(
                key,
                true,
            ),
            final(self).cpu.cpu.mmc.int_flag == (old(self).cpu.cpu.mmc.int_flag | 0x10),
    {
        self.cpu.cpu.mmc.key_down(key);
    }

    /// Routes a released button into the machine.
    pub fn key_up(&mut self, key: Button)
        ensures
            final(self).cpu.cpu.mmc.joypad == old(self).cpu.cpu.mmc.joypad.spec_with_key(
                key,
                false,
            ),
            final(self).cpu.cpu.mmc.int_flag == old(self).cpu.cpu.mmc.int_flag,
    {
        self.cpu.cpu.mmc.key_up(key);
    }

    /// Whether a pacing quantum has completed; clears the latch.
    pub fn take_step_flip(&mut self) -> (r: bool)
        ensures
            r == old(self).cpu.step_flip,
            *final(self) == (Gameboy {
                cpu: RTC { step_flip: false, ..old(self).cpu },
                ..*old(self)
            }),
    {
        let flip = self.cpu.step_flip;
        self.cpu.step_flip = false;
        flip
    }
}

} // verus!
