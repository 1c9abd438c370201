//! Pacing bookkeeping around the CPU: counts the machine cycles executed
//! and latches a flag each time one wall-clock quantum's worth has run.
//! Actually waiting out the quantum is the frontend's concern; the core
//! itself never blocks.

use vstd::prelude::*;
use crate::cpu::{CPU, step_desc};
use crate::mmc::MMC;
use crate::defs::STEP_CYCLES;

verus! {

pub struct RTC {
    pub cpu: CPU,
    /// Machine cycles executed since the last quantum boundary.
    pub step_cycles: u32,
    /// Latched when a full quantum of cycles has been executed; the
    /// frontend clears it after pacing.
    pub step_flip: bool,
}

impl RTC {
    pub open spec fn wf(&self) -> bool {
        &&& self.cpu.wf()
        &&& self.step_cycles <= STEP_CYCLES + 6
    }

    pub fn new(mmc: MMC) -> (r: RTC)
        requires
            mmc.wf(),
        ensures
            r.wf(),
            r.cpu.mmc == mmc,
            r.cpu.ime == true,
            r.cpu.halt == false,
            r.cpu.ei_delay == false,
            r.cpu.regs == (crate::register::Register {
                a: 0u8,
                b: 0u8,
                c: 0u8,
                d: 0u8,
                e: 0u8,
                h: 0u8,
                l: 0u8,
                sp: 0u16,
                pc: 0u16,
                zf: false,
                nf: false,
                hf: false,
                cf: false,
            }),
            r.step_cycles == 0u32,
            r.step_flip == false,
    {
        let cpu = CPU::new(mmc);
        RTC { cpu, step_cycles: 0, step_flip: false }
    }

    pub fn set_debug(&mut self)
        ensures
            *final(self) == (RTC { cpu: CPU { debug: true, ..old(self).cpu }, ..*old(self) }),
    {
        self.cpu.set_debug();
    }

    /// Runs one CPU step and accounts its cycles against the pacing
    /// quantum: once more than a quantum has accumulated, the flag is
    /// latched and the budget rolls over.
    pub fn run(&mut self) -> (r: u32)
        requires
            old(self).wf(),
        ensures
            final(self).wf(),
            step_desc(old(self).cpu, final(self).cpu, r),
            r <= 6,
            old(self).step_cycles > STEP_CYCLES ==> final(self).step_flip == true
                && final(self).step_cycles == old(self).step_cycles - STEP_CYCLES + r,

            old(self).step_cycles <= STEP_CYCLES ==> final(self).step_flip == old(self).step_flip
                && final(self).step_cycles == old(self).step_cycles + r,
    {
        if self.step_cycles > STEP_CYCLES {
            self.step_flip = true;
            self.step_cycles -= STEP_CYCLES;
        }
        let cycles = self.cpu.run();
        self.step_cycles += cycles;
        cycles
    }
}

} // verus!
