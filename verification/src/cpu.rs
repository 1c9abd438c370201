//! Instruction-execution engine: fetch, decode and execute over the
//! full primary and CB-prefixed instruction tables, flag computation,
//! interrupt dispatch, and per-instruction machine-cycle accounting.

use vstd::prelude::*;
use crate::mmc::{MMC, writes_rel, lemma_writes_rel_empty, lemma_writes_rel_cons, lemma_writes_rel_concat};
use crate::register::Register;
use crate::util::{p2, pow2_u8};

verus! {

/// A 16-bit value reduced modulo 0x10000.
pub open spec fn wrap16(x: int) -> u16 {
    (((x % 0x10000) + 0x10000) % 0x10000) as u16
}

/// A byte value reduced modulo 0x100.
pub open spec fn wrap8(x: int) -> u8 {
    (((x % 0x100) + 0x100) % 0x100) as u8
}

pub open spec fn lo8(x: u16) -> u8 {
    (x % 256) as u8
}

pub open spec fn hi8(x: u16) -> u8 {
    (x / 256) as u8
}

/// A relative-jump offset sign-extended to 16 bits.
pub open spec fn sign_ext8(x: u8) -> u16 {
    if x < 128 {
        x as u16
    } else {
        (x + 0xFF00) as u16
    }
}

/// Base machine-cycle cost of each primary opcode (an unused opcode
/// costs 0).
pub open spec fn cycles_spec(op: u8) -> u32 {
    if op == 0xCB || op == 0xD3 || op == 0xDB || op == 0xDD || op == 0xE3 || op == 0xE4 || op == 0xEB || op == 0xEC || op == 0xED || op == 0xF4 || op == 0xFC || op == 0xFD {
        0u32
    } else if op == 0x08 {
        5u32
    } else if op == 0xCD {
        6u32
    } else if op == 0xC3 || op == 0xC5 || op == 0xC7 || op == 0xC9 || op == 0xCF || op == 0xD5 || op == 0xD7 || op == 0xD9 || op == 0xDF || op == 0xE5 || op == 0xE7 || op == 0xE8 || op == 0xEA || op == 0xEF || op == 0xF5 || op == 0xF7 || op == 0xFA || op == 0xFF {
        4u32
    } else if op == 0x01 || op == 0x11 || op == 0x18 || op == 0x21 || op == 0x31 || op == 0x34 || op == 0x35 || op == 0x36 || op == 0xC1 || op == 0xC2 || op == 0xC4 || op == 0xCA || op == 0xCC || op == 0xD1 || op == 0xD2 || op == 0xD4 || op == 0xDA || op == 0xDC || op == 0xE0 || op == 0xE1 || op == 0xF0 || op == 0xF1 || op == 0xF8 {
        3u32
    } else if op == 0x02 || op == 0x03 || op == 0x06 || op == 0x09 || op == 0x0A || op == 0x0B || op == 0x0E || op == 0x12 || op == 0x13 || op == 0x16 || op == 0x19 || op == 0x1A || op == 0x1B || op == 0x1E || op == 0x20 || op == 0x22 || op == 0x23 || op == 0x26 || op == 0x28 || op == 0x29 || op == 0x2A || op == 0x2B || op == 0x2E || op == 0x30 || op == 0x32 || op == 0x33 || op == 0x38 || op == 0x39 || op == 0x3A || op == 0x3B || op == 0x3E || op == 0x46 || op == 0x4E || op == 0x56 || op == 0x5E || op == 0x66 || op == 0x6E || op == 0x70 || op == 0x71 || op == 0x72 || op == 0x73 || op == 0x74 || op == 0x75 || op == 0x77 || op == 0x7E || op == 0x86 || op == 0x8E || op == 0x96 || op == 0x9E || op == 0xA6 || op == 0xAE || op == 0xB6 || op == 0xBE || op == 0xC0 || op == 0xC6 || op == 0xC8 || op == 0xCE || op == 0xD0 || op == 0xD6 || op == 0xD8 || op == 0xDE || op == 0xE2 || op == 0xE6 || op == 0xEE || op == 0xF2 || op == 0xF6 || op == 0xF9 || op == 0xFE {
        2u32
    } else {
        1u32
    }
}

/// Machine-cycle cost of a conditional jump, call or return whose
/// condition held; every other opcode costs its base amount.
pub open spec fn cycles_branched_spec(op: u8) -> u32 {
    if op == 0x20 || op == 0x28 || op == 0x30 || op == 0x38 {
        3u32
    } else if op == 0xC0 || op == 0xC8 || op == 0xD0 || op == 0xD8 {
        5u32
    } else if op == 0xC2 || op == 0xCA || op == 0xD2 || op == 0xDA {
        4u32
    } else if op == 0xC4 || op == 0xCC || op == 0xD4 || op == 0xDC {
        6u32
    } else {
        cycles_spec(op)
    }
}

/// Machine-cycle cost of each CB-prefixed opcode.
pub open spec fn cb_cycles_spec(op: u8) -> u32 {
    if op % 8 == 6 {
        if 0x40 <= op <= 0x7F {
            3u32
        } else {
            4u32
        }
    } else {
        2u32
    }
}

/// The machine cycles one fetched instruction costs, given the CB
/// opcode (for prefix 0xCB) and the flags its condition reads.
pub open spec fn step_cycles(op: u8, cb: u8, zf: bool, cf: bool) -> u32 {
    if op == 0xCB {
        cb_cycles_spec(cb)
    } else if op == 0x20 || op == 0xC2 || op == 0xC0 || op == 0xC4 {
        if !zf {
            cycles_branched_spec(op)
        } else {
            cycles_spec(op)
        }
    } else if op == 0x28 || op == 0xCA || op == 0xC8 || op == 0xCC {
        if zf {
            cycles_branched_spec(op)
        } else {
            cycles_spec(op)
        }
    } else if op == 0x30 || op == 0xD2 || op == 0xD0 || op == 0xD4 {
        if !cf {
            cycles_branched_spec(op)
        } else {
            cycles_spec(op)
        }
    } else if op == 0x38 || op == 0xDA || op == 0xD8 || op == 0xDC {
        if cf {
            cycles_branched_spec(op)
        } else {
            cycles_spec(op)
        }
    } else {
        cycles_spec(op)
    }
}

/// The fixed service vector of the highest-priority pending interrupt
/// (VBlank before STAT before Timer before Serial before Joypad).
pub open spec fn int_vector(fired: u8) -> u16 {
    if fired % 2 == 1 {
        0x40u16
    } else if (fired / 2) % 2 == 1 {
        0x48u16
    } else if (fired / 4) % 2 == 1 {
        0x50u16
    } else if (fired / 8) % 2 == 1 {
        0x58u16
    } else {
        0x60u16
    }
}

/// The flag bit of the highest-priority pending interrupt.
pub open spec fn int_mask_of(fired: u8) -> u8 {
    if fired % 2 == 1 {
        0x01u8
    } else if (fired / 2) % 2 == 1 {
        0x02u8
    } else if (fired / 4) % 2 == 1 {
        0x04u8
    } else if (fired / 8) % 2 == 1 {
        0x08u8
    } else {
        0x10u8
    }
}

/// How one executed instruction changes the master-enable state: EI
/// requests enabling after the following instruction, DI disables at
/// once and cancels a pending EI, RETI enables at once, and any other
/// instruction commits a pending EI.
pub open spec fn ime_step(ime: bool, pending_ei: bool, op: u8) -> (bool, bool) {
    if op == 0xFB {
        (ime, true)
    } else if op == 0xF3 {
        (false, false)
    } else if op == 0xD9 {
        (true, false)
    } else if pending_ei {
        (true, false)
    } else {
        (ime, false)
    }
}

/// The accumulator after BCD correction, from the prior subtract,
/// half-carry and carry flags.
pub open spec fn daa_value(a: u8, n: bool, h: bool, c: bool) -> u8 {
    if !n {
        let a1 = if c || a > 0x99 {
            ((a + 0x60) % 0x100) as u8
        } else {
            a
        };
        if h || a1 % 16 > 9 {
            ((a1 + 0x06) % 0x100) as u8
        } else {
            a1
        }
    } else {
        let a1 = if c {
            ((a + 0x100 - 0x60) % 0x100) as u8
        } else {
            a
        };
        if h {
            ((a1 + 0x100 - 0x06) % 0x100) as u8
        } else {
            a1
        }
    }
}

/// The carry flag after BCD correction: in add mode it reports a
/// decimal carry; in subtract mode it is kept.
pub open spec fn daa_carry(a: u8, n: bool, c: bool) -> bool {
    if !n {
        c || a > 0x99
    } else {
        c
    }
}

/// The packed BCD byte encoding the two-digit decimal value `x`.
pub open spec fn bcd8(x: u8) -> u8 {
    ((x / 10) * 16 + x % 10) as u8
}

pub struct CPU {
    pub mmc: MMC,
    pub regs: Register,
    pub opcode: u8,
    pub cb_opcode: u8,
    pub halt: bool,
    /// Interrupt master enable.
    pub ime: bool,
    /// An EI was executed and takes effect after the next instruction.
    pub ei_delay: bool,
    pub debug: bool,
}

/// The control fields no memory or register helper touches.
pub open spec fn ctrl_eq(a: &CPU, b: &CPU) -> bool {
    &&& b.opcode == a.opcode
    &&& b.cb_opcode == a.cb_opcode
    &&& b.halt == a.halt
    &&& b.ime == a.ime
    &&& b.ei_delay == a.ei_delay
    &&& b.debug == a.debug
}

impl CPU {
    pub open spec fn wf(&self) -> bool {
        self.mmc.wf()
    }

    pub fn new(mmc: MMC) -> (r: CPU)
        requires
            mmc.wf(),
        ensures
            r == (CPU {
                mmc,
                regs: Register {
                    a: 0u8,
                    b: 0u8,
                    c: 0u8,
                    d: 0u8,
                    e: 0u8,
                    h: 0u8,
                    l: 0u8,
                    sp: 0u16,
                    pc: 0u16,
                    zf: false,
                    nf: false,
                    hf: false,
                    cf: false,
                },
                opcode: 0u8,
                cb_opcode: 0u8,
                halt: false,
                ime: true,
                ei_delay: false,
                debug: false,
            }),
            r.wf(),
    {
        CPU {
            mmc,
            regs: Register::new(),
            opcode: 0,
            cb_opcode: 0,
            halt: false,
            ime: true,
            ei_delay: false,
            debug: false,
        }
    }

    pub fn set_debug(&mut self)
        ensures
            *final(self) == (CPU { debug: true, ..*old(self) }),
    {
        self.debug = true;
    }

    pub fn read8(&self, addr: u16) -> (r: u8)
        requires
            self.wf(),
        ensures
            r == self.mmc.read_spec(addr),
    {
        self.mmc.read(addr)
    }

    pub fn read16(&self, addr: u16) -> (r: u16)
        requires
            self.wf(),
        ensures
            r == self.mmc.read_spec(addr) + 256 * self.mmc.read_spec(wrap16(addr + 1)),
    {
        let lo = self.read8(addr) as u16;
        let hi = self.read8(addr.wrapping_add(1)) as u16;
        lo + 256 * hi
    }

    /// Fetches the byte at PC and advances PC by one.
    pub fn imm8(&mut self) -> (r: u8)
        requires
            old(self).wf(),
        ensures
            final(self).wf(),
            r == old(self).mmc.read_spec(old(self).regs.pc),
            final(self).regs == (Register { pc: wrap16(old(self).regs.pc + 1), ..old(self).regs }),
            final(self).mmc == old(self).mmc,
            ctrl_eq(old(self), final(self)),
    {
        let ret = self.read8(self.regs.pc);
        self.regs.pc = self.regs.pc.wrapping_add(1);
        ret
    }

    /// Fetches the 16-bit little-endian word at PC and advances PC by
    /// two.
    pub fn imm16(&mut self) -> (r: u16)
        requires
            old(self).wf(),
        ensures
            final(self).wf(),
            r == old(self).mmc.read_spec(old(self).regs.pc) + 256 * old(self).mmc.read_spec(
                wrap16(old(self).regs.pc + 1),
            ),
            final(self).regs == (Register { pc: wrap16(old(self).regs.pc + 2), ..old(self).regs }),
            final(self).mmc == old(self).mmc,
            ctrl_eq(old(self), final(self)),
    {
        let ret = self.read16(self.regs.pc);
        self.regs.pc = self.regs.pc.wrapping_add(2);
        ret
    }

    pub fn write8(&mut self, addr: u16, dat: u8)
        requires
            old(self).wf(),
        ensures
            final(self).wf(),
            MMC::write_rel(old(self).mmc, final(self).mmc, addr, dat),
            final(self).regs == old(self).regs,
            ctrl_eq(old(self), final(self)),
    {
        self.mmc.write(addr, dat);
    }

    /// Writes a 16-bit word little-endian: the high byte at `addr + 1`
    /// first, then the low byte at `addr`.
    pub fn write16(&mut self, addr: u16, dat: u16)
        requires
            old(self).wf(),
        ensures
            final(self).wf(),
            writes_rel(
                old(self).mmc,
                final(self).mmc,
                seq![(wrap16(addr + 1), hi8(dat)), (addr, lo8(dat))],
            ),
            final(self).regs == old(self).regs,
            ctrl_eq(old(self), final(self)),
    {
        let ghost m0 = self.mmc;
        self.write8(addr.wrapping_add(1), (dat / 256) as u8);
        let ghost m1 = self.mmc;
        self.write8(addr, (dat % 256) as u8);
        proof {
            lemma_writes_rel_empty(self.mmc);
            lemma_writes_rel_cons(
                m1,
                self.mmc,
                self.mmc,
                addr,
                lo8(dat),
                Seq::<(u16, u8)>::empty(),
            );
            assert(seq![(addr, lo8(dat))] + Seq::<(u16, u8)>::empty() =~= seq![(addr, lo8(dat))]);
            lemma_writes_rel_cons(
                m0,
                m1,
                self.mmc,
                wrap16(addr + 1),
                hi8(dat),
                seq![(addr, lo8(dat))],
            );
            assert(seq![(wrap16(addr + 1), hi8(dat))] + seq![(addr, lo8(dat))] =~= seq![
                (wrap16(addr + 1), hi8(dat)),
                (addr, lo8(dat)),
            ]);
        }
    }

    /// Pushes a word: SP drops by two and the word is stored at the new
    /// SP, high byte above low byte.
    pub fn push(&mut self, dat: u16)
        requires
            old(self).wf(),
        ensures
            final(self).wf(),
            writes_rel(
                old(self).mmc,
                final(self).mmc,
                seq![
                    (wrap16(old(self).regs.sp - 1), hi8(dat)),
                    (wrap16(old(self).regs.sp - 2), lo8(dat)),
                ],
            ),
            final(self).regs == (Register {
                sp: wrap16(old(self).regs.sp - 2),
                ..old(self).regs
            }),
            ctrl_eq(old(self), final(self)),
    {
        self.regs.sp = self.regs.sp.wrapping_sub(2);
        let sp = self.regs.sp;
        proof {
            assert(wrap16(sp + 1) == wrap16(old(self).regs.sp - 1));
        }
        self.write16(sp, dat);
    }

    /// Pops a word: reads the word at SP and raises SP by two.
    pub fn pop(&mut self) -> (r: u16)
        requires
            old(self).wf(),
        ensures
            final(self).wf(),
            r == old(self).mmc.read_spec(old(self).regs.sp) + 256 * old(self).mmc.read_spec(
                wrap16(old(self).regs.sp + 1),
            ),
            final(self).regs == (Register { sp: wrap16(old(self).regs.sp + 2), ..old(self).regs }),
            final(self).mmc == old(self).mmc,
            ctrl_eq(old(self), final(self)),
    {
        let ret = self.read16(self.regs.sp);
        self.regs.sp = self.regs.sp.wrapping_add(2);
        ret
    }

    /// Relative jump: PC moves by the sign-extended offset.
    pub fn jr(&mut self, offset: u8)
        ensures
            *final(self) == (CPU {
                regs: Register {
                    pc: wrap16(old(self).regs.pc + sign_ext8(offset)),
                    ..old(self).regs
                },
                ..*old(self)
            }),
    {
        let se: u16 = if offset < 128 {
            offset as u16
        } else {
            offset as u16 + 0xFF00
        };
        self.regs.pc = self.regs.pc.wrapping_add(se);
    }
}

impl CPU {
    /// INC: increments a byte; Z, N and H are set, C is untouched.
    pub fn inc(&mut self, r: u8) -> (ret: u8)
        ensures
            ret == wrap8(r + 1),
            *final(self) == (CPU {
                regs: Register {
                    zf: wrap8(r + 1) == 0,
                    nf: false,
                    hf: r % 16 == 15,
                    ..old(self).regs
                },
                ..*old(self)
            }),
    {
        let ret = r.wrapping_add(1);
        self.regs.set_z(ret == 0);
        self.regs.set_n(false);
        self.regs.set_h(r % 16 == 15);
        ret
    }

    /// DEC: decrements a byte; Z, N and H are set, C is untouched.
    pub fn dec(&mut self, r: u8) -> (ret: u8)
        ensures
            ret == wrap8(r - 1),
            *final(self) == (CPU {
                regs: Register {
                    zf: wrap8(r - 1) == 0,
                    nf: true,
                    hf: r % 16 == 0,
                    ..old(self).regs
                },
                ..*old(self)
            }),
    {
        let ret = r.wrapping_sub(1);
        self.regs.set_z(ret == 0);
        self.regs.set_n(true);
        self.regs.set_h(r % 16 < 1);
        ret
    }

    /// ADD: A plus the operand.  Half-carry reports overflow out of bit
    /// 3, carry reports overflow out of bit 7.
    pub fn add(&mut self, r: u8) -> (ret: u8)
        ensures
            ret == wrap8(old(self).regs.a + r),
            *final(self) == (CPU {
                regs: Register {
                    zf: wrap8(old(self).regs.a + r) == 0,
                    nf: false,
                    hf: old(self).regs.a % 16 + r % 16 > 15,
                    cf: old(self).regs.a + r > 255,
                    ..old(self).regs
                },
                ..*old(self)
            }),
    {
        let a = self.regs.a;
        let ret = a.wrapping_add(r);
        self.regs.set_z(ret == 0);
        self.regs.set_n(false);
        self.regs.set_h(a % 16 + r % 16 > 15);
        self.regs.set_c(a as u16 + r as u16 > 0xFF);
        ret
    }

    /// ADD HL: HL plus a 16-bit operand.  Half-carry reports overflow
    /// out of bit 11, carry out of bit 15; Z is untouched.
    #[verifier::rlimit(100)]
    #[verifier::spinoff_prover]
    pub fn add_hl(&mut self, r: u16)
        ensures
            *final(self) == (CPU {
                regs: Register {
                    h: hi8(wrap16(old(self).regs.spec_hl() + r)),
                    l: lo8(wrap16(old(self).regs.spec_hl() + r)),
                    nf: false,
                    hf: old(self).regs.spec_hl() % 0x1000 + r % 0x1000 > 0xFFF,
                    cf: old(self).regs.spec_hl() + r > 0xFFFF,
                    ..old(self).regs
                },
                ..*old(self)
            }),
    {
        let hl = self.regs.get_hl();
        let ret = hl.wrapping_add(r);
        self.regs.set_n(false);
        self.regs.set_h(hl % 0x1000 + r % 0x1000 > 0xFFF);
        self.regs.set_c(hl as u32 + r as u32 > 0xFFFF);
        self.regs.set_hl(ret);
    }

    /// ADC: A plus the operand plus the carry flag.
    pub fn adc(&mut self, r: u8) -> (ret: u8)
        ensures
            ({
                let c: int = if old(self).regs.cf {
                    1
                } else {
                    0
                };
                &&& ret == wrap8(old(self).regs.a + r + c)
                &&& *final(self) == (CPU {
                    regs: Register {
                        zf: wrap8(old(self).regs.a + r + c) == 0,
                        nf: false,
                        hf: old(self).regs.a % 16 + r % 16 + c > 15,
                        cf: old(self).regs.a + r + c > 255,
                        ..old(self).regs
                    },
                    ..*old(self)
                })
            }),
    {
        let c: u8 = if self.regs.get_c() {
            1
        } else {
            0
        };
        let a = self.regs.a;
        let ret = a.wrapping_add(r).wrapping_add(c);
        self.regs.set_z(ret == 0);
        self.regs.set_n(false);
        self.regs.set_h(a % 16 + r % 16 + c > 15);
        self.regs.set_c(a as u16 + r as u16 + c as u16 > 0xFF);
        ret
    }

    /// SUB: A minus the operand.  Half-carry reports a borrow into bit
    /// 3, carry a borrow into bit 7.
    pub fn sub(&mut self, r: u8) -> (ret: u8)
        ensures
            ret == wrap8(old(self).regs.a - r),
            *final(self) == (CPU {
                regs: Register {
                    zf: old(self).regs.a == r,
                    nf: true,
                    hf: old(self).regs.a % 16 < r % 16,
                    cf: old(self).regs.a < r,
                    ..old(self).regs
                },
                ..*old(self)
            }),
    {
        let a = self.regs.a;
        let ret = a.wrapping_sub(r);
        self.regs.set_z(ret == 0);
        self.regs.set_n(true);
        self.regs.set_h(a % 16 < r % 16);
        self.regs.set_c(a < r);
        ret
    }

    /// SBC: A minus the operand minus the carry flag.
    pub fn sbc(&mut self, r: u8) -> (ret: u8)
        ensures
            ({
                let c: int = if old(self).regs.cf {
                    1
                } else {
                    0
                };
                &&& ret == wrap8(old(self).regs.a - r - c)
                &&& *final(self) == (CPU {
                    regs: Register {
                        zf: wrap8(old(self).regs.a - r - c) == 0,
                        nf: true,
                        hf: old(self).regs.a % 16 < r % 16 + c,
                        cf: old(self).regs.a < r + c,
                        ..old(self).regs
                    },
                    ..*old(self)
                })
            }),
    {
        let c: u8 = if self.regs.get_c() {
            1
        } else {
            0
        };
        let a = self.regs.a;
        let ret = a.wrapping_sub(r).wrapping_sub(c);
        self.regs.set_z(ret == 0);
        self.regs.set_n(true);
        self.regs.set_h(a % 16 < r % 16 + c);
        self.regs.set_c((a as u16) < r as u16 + c as u16);
        ret
    }

    /// AND: bitwise and with A; H is set, N and C cleared.
    pub fn and(&mut self, r: u8) -> (ret: u8)
        ensures
            ret == (old(self).regs.a & r),
            *final(self) == (CPU {
                regs: Register {
                    zf: (old(self).regs.a & r) == 0,
                    nf: false,
                    hf: true,
                    cf: false,
                    ..old(self).regs
                },
                ..*old(self)
            }),
    {
        let ret = self.regs.a & r;
        self.regs.set_z(ret == 0);
        self.regs.set_n(false);
        self.regs.set_h(true);
        self.regs.set_c(false);
        ret
    }

    /// XOR: bitwise exclusive or with A; N, H and C are cleared.
    pub fn xor(&mut self, r: u8) -> (ret: u8)
        ensures
            ret == (old(self).regs.a ^ r),
            *final(self) == (CPU {
                regs: Register {
                    zf: (old(self).regs.a ^ r) == 0,
                    nf: false,
                    hf: false,
                    cf: false,
                    ..old(self).regs
                },
                ..*old(self)
            }),
    {
        let ret = self.regs.a ^ r;
        self.regs.set_z(ret == 0);
        self.regs.set_n(false);
        self.regs.set_h(false);
        self.regs.set_c(false);
        ret
    }

    /// OR: bitwise or with A; N, H and C are cleared.
    pub fn or(&mut self, r: u8) -> (ret: u8)
        ensures
            ret == (old(self).regs.a | r),
            *final(self) == (CPU {
                regs: Register {
                    zf: (old(self).regs.a | r) == 0,
                    nf: false,
                    hf: false,
                    cf: false,
                    ..old(self).regs
                },
                ..*old(self)
            }),
    {
        let ret = self.regs.a | r;
        self.regs.set_z(ret == 0);
        self.regs.set_n(false);
        self.regs.set_h(false);
        self.regs.set_c(false);
        ret
    }

    /// CP: compares A with the operand, setting the flags of a SUB and
    /// discarding the difference.
    pub fn cp(&mut self, r: u8)
        ensures
            *final(self) == (CPU {
                regs: Register {
                    zf: old(self).regs.a == r,
                    nf: true,
                    hf: old(self).regs.a % 16 < r % 16,
                    cf: old(self).regs.a < r,
                    ..old(self).regs
                },
                ..*old(self)
            }),
    {
        let a = self.regs.a;
        self.regs.set_z(a == r);
        self.regs.set_n(true);
        self.regs.set_h(a % 16 < r % 16);
        self.regs.set_c(a < r);
    }

    /// RL: rotate left through carry.
    pub fn rl(&mut self, r: u8) -> (ret: u8)
        ensures
            ({
                let c: int = if old(self).regs.cf {
                    1
                } else {
                    0
                };
                &&& ret == (r % 128) * 2 + c
                &&& *final(self) == (CPU {
                    regs: Register {
                        zf: (r % 128) * 2 + c == 0,
                        nf: false,
                        hf: false,
                        cf: r >= 128,
                        ..old(self).regs
                    },
                    ..*old(self)
                })
            }),
    {
        let carry = r >= 128;
        let mut ret = (r % 128) * 2;
        if self.regs.get_c() {
            ret = ret + 1;
        }
        self.regs.set_z(ret == 0);
        self.regs.set_n(false);
        self.regs.set_h(false);
        self.regs.set_c(carry);
        ret
    }

    /// RLC: rotate left, bit 7 into both carry and bit 0.
    pub fn rlc(&mut self, r: u8) -> (ret: u8)
        ensures
            ret == (r % 128) * 2 + r / 128,
            *final(self) == (CPU {
                regs: Register {
                    zf: (r % 128) * 2 + r / 128 == 0,
                    nf: false,
                    hf: false,
                    cf: r >= 128,
                    ..old(self).regs
                },
                ..*old(self)
            }),
    {
        let carry = r >= 128;
        let ret = (r % 128) * 2 + r / 128;
        self.regs.set_z(ret == 0);
        self.regs.set_n(false);
        self.regs.set_h(false);
        self.regs.set_c(carry);
        ret
    }

    /// RR: rotate right through carry.
    pub fn rr(&mut self, r: u8) -> (ret: u8)
        ensures
            ({
                let c: int = if old(self).regs.cf {
                    128
                } else {
                    0
                };
                &&& ret == r / 2 + c
                &&& *final(self) == (CPU {
                    regs: Register {
                        zf: r / 2 + c == 0,
                        nf: false,
                        hf: false,
                        cf: r % 2 == 1,
                        ..old(self).regs
                    },
                    ..*old(self)
                })
            }),
    {
        let carry = r % 2 == 1;
        let mut ret = r / 2;
        if self.regs.get_c() {
            ret = ret + 128;
        }
        self.regs.set_z(ret == 0);
        self.regs.set_n(false);
        self.regs.set_h(false);
        self.regs.set_c(carry);
        ret
    }

    /// RRC: rotate right, bit 0 into both carry and bit 7.
    pub fn rrc(&mut self, r: u8) -> (ret: u8)
        ensures
            ret == r / 2 + (r % 2) * 128,
            *final(self) == (CPU {
                regs: Register {
                    zf: r / 2 + (r % 2) * 128 == 0,
                    nf: false,
                    hf: false,
                    cf: r % 2 == 1,
                    ..old(self).regs
                },
                ..*old(self)
            }),
    {
        let carry = r % 2 == 1;
        let ret = r / 2 + (r % 2) * 128;
        self.regs.set_z(ret == 0);
        self.regs.set_n(false);
        self.regs.set_h(false);
        self.regs.set_c(carry);
        ret
    }

    /// SLA: arithmetic shift left, bit 7 into carry.
    pub fn sla(&mut self, r: u8) -> (ret: u8)
        ensures
            ret == (r % 128) * 2,
            *final(self) == (CPU {
                regs: Register {
                    zf: (r % 128) * 2 == 0,
                    nf: false,
                    hf: false,
                    cf: r >= 128,
                    ..old(self).regs
                },
                ..*old(self)
            }),
    {
        let carry = r >= 128;
        let ret = (r % 128) * 2;
        self.regs.set_z(ret == 0);
        self.regs.set_n(false);
        self.regs.set_h(false);
        self.regs.set_c(carry);
        ret
    }

    /// SRA: arithmetic shift right, bit 7 kept, bit 0 into carry.
    pub fn sra(&mut self, r: u8) -> (ret: u8)
        ensures
            ret == r / 2 + (r / 128) * 128,
            *final(self) == (CPU {
                regs: Register {
                    zf: r / 2 + (r / 128) * 128 == 0,
                    nf: false,
                    hf: false,
                    cf: r % 2 == 1,
                    ..old(self).regs
                },
                ..*old(self)
            }),
    {
        let carry = r % 2 == 1;
        let ret = r / 2 + (r / 128) * 128;
        self.regs.set_z(ret == 0);
        self.regs.set_n(false);
        self.regs.set_h(false);
        self.regs.set_c(carry);
        ret
    }

    /// SWAP: exchanges the two nibbles; N, H and C are cleared.
    pub fn swap(&mut self, r: u8) -> (ret: u8)
        ensures
            ret == (r % 16) * 16 + r / 16,
            *final(self) == (CPU {
                regs: Register {
                    zf: r == 0,
                    nf: false,
                    hf: false,
                    cf: false,
                    ..old(self).regs
                },
                ..*old(self)
            }),
    {
        let ret = (r % 16) * 16 + r / 16;
        self.regs.set_z(ret == 0);
        self.regs.set_n(false);
        self.regs.set_h(false);
        self.regs.set_c(false);
        ret
    }

    /// SRL: logical shift right, bit 0 into carry.
    pub fn srl(&mut self, r: u8) -> (ret: u8)
        ensures
            ret == r / 2,
            *final(self) == (CPU {
                regs: Register {
                    zf: r / 2 == 0,
                    nf: false,
                    hf: false,
                    cf: r % 2 == 1,
                    ..old(self).regs
                },
                ..*old(self)
            }),
    {
        let carry = r % 2 == 1;
        let ret = r / 2;
        self.regs.set_z(ret == 0);
        self.regs.set_n(false);
        self.regs.set_h(false);
        self.regs.set_c(carry);
        ret
    }

    /// BIT: tests bit `n` of the operand; Z holds its complement, H is
    /// set, N cleared, C untouched.
    pub fn bit(&mut self, r: u8, n: u8)
        requires
            n < 8,
        ensures
            *final(self) == (CPU {
                regs: Register {
                    zf: (r / p2(n as int)) % 2 == 0,
                    nf: false,
                    hf: true,
                    ..old(self).regs
                },
                ..*old(self)
            }),
    {
        let pw = pow2_u8(n as u16);
        self.regs.set_z((r / pw) % 2 == 0);
        self.regs.set_n(false);
        self.regs.set_h(true);
    }

    /// DAA: BCD-corrects the accumulator using the prior N, H and C
    /// flags, producing the packed-decimal result and decimal carry.
    #[verifier::rlimit(50)]
    pub fn daa(&mut self)
        ensures
            *final(self) == (CPU {
                regs: Register {
                    a: daa_value(old(self).regs.a, old(self).regs.nf, old(self).regs.hf, old(
                        self,
                    ).regs.cf),
                    zf: daa_value(old(self).regs.a, old(self).regs.nf, old(self).regs.hf, old(
                        self,
                    ).regs.cf) == 0,
                    hf: false,
                    cf: daa_carry(old(self).regs.a, old(self).regs.nf, old(self).regs.cf),
                    ..old(self).regs
                },
                ..*old(self)
            }),
    {
        let a0 = self.regs.a;
        let n = self.regs.get_n();
        let h = self.regs.get_h();
        let c = self.regs.get_c();
        let a1: u8 = if !n {
            if c || a0 > 0x99 {
                ((a0 as u16 + 0x60) % 0x100) as u8
            } else {
                a0
            }
        } else {
            if c {
                ((a0 as u16 + 0x100 - 0x60) % 0x100) as u8
            } else {
                a0
            }
        };
        let a2: u8 = if !n {
            if h || a1 % 16 > 9 {
                ((a1 as u16 + 0x06) % 0x100) as u8
            } else {
                a1
            }
        } else {
            if h {
                ((a1 as u16 + 0x100 - 0x06) % 0x100) as u8
            } else {
                a1
            }
        };
        if !n && (c || a0 > 0x99) {
            self.regs.set_c(true);
        }
        self.regs.set_z(a2 == 0);
        self.regs.set_h(false);
        self.regs.a = a2;
    }

    /// The masked set of pending, enabled interrupt bits.
    pub open spec fn fired(&self) -> u8 {
        self.mmc.int_enable & self.mmc.int_flag & 0x1F
    }

    /// Interrupt dispatch, checked at the start of every step.  With the
    /// master enable off and the CPU running, nothing happens.  A pending
    /// enabled interrupt always wakes a halted CPU; servicing it
    /// additionally requires the master enable, and then pushes PC, jumps
    /// to the fixed vector of the highest-priority pending source, clears
    /// that source's flag bit alone, clears the master enable, and costs
    /// five machine cycles.
    pub fn handle_interrupt(&mut self) -> (r: u32)
        requires
            old(self).wf(),
        ensures
            final(self).wf(),
            !old(self).ime && !old(self).halt ==> r == 0 && *final(self) == *old(self),
            (old(self).ime || old(self).halt) && old(self).fired() == 0 ==> r == 0 && *final(self)
                == *old(self),
            !old(self).ime && old(self).halt && old(self).fired() != 0 ==> r == 0 && *final(self)
                == (CPU { halt: false, ..*old(self) }),
            old(self).ime && old(self).fired() != 0 ==> {
                &&& r == 5
                &&& final(self).regs == (Register {
                    pc: int_vector(old(self).fired()),
                    sp: wrap16(old(self).regs.sp - 2),
                    ..old(self).regs
                })
                &&& writes_rel(
                    old(self).mmc,
                    final(self).mmc,
                    seq![
                        (wrap16(old(self).regs.sp - 1), hi8(old(self).regs.pc)),
                        (wrap16(old(self).regs.sp - 2), lo8(old(self).regs.pc)),
                        (0xFF0Fu16, old(self).mmc.int_flag & !int_mask_of(old(self).fired())),
                    ],
                )
                &&& final(self).ime == false
                &&& final(self).halt == false
                &&& final(self).ei_delay == old(self).ei_delay
                &&& final(self).opcode == old(self).opcode
                &&& final(self).cb_opcode == old(self).cb_opcode
                &&& final(self).debug == old(self).debug
            },
    {
        if !self.ime && !self.halt {
            return 0;
        }
        let int_enable: u8 = self.read8(0xFFFF);
        let mut int_flag: u8 = self.read8(0xFF0F);
        let fired: u8 = int_enable & int_flag & 0x1F;
        if fired == 0 {
            return 0;
        }
        self.halt = false;
        if !self.ime {
            return 0;
        }
        self.ime = false;
        let ghost m0 = self.mmc;
        let ghost pc0sp = self.regs.sp;
        let pc = self.regs.pc;
        self.push(pc);
        let ghost m1 = self.mmc;
        if fired % 2 == 1 {
            self.regs.pc = 0x40;
            int_flag = int_flag & !0x01u8;
        } else if (fired / 2) % 2 == 1 {
            self.regs.pc = 0x48;
            int_flag = int_flag & !0x02u8;
        } else if (fired / 4) % 2 == 1 {
            self.regs.pc = 0x50;
            int_flag = int_flag & !0x04u8;
        } else if (fired / 8) % 2 == 1 {
            self.regs.pc = 0x58;
            int_flag = int_flag & !0x08u8;
        } else {
            self.regs.pc = 0x60;
            int_flag = int_flag & !0x10u8;
        }
        self.write8(0xFF0F, int_flag);
        proof {
            lemma_writes_rel_empty(self.mmc);
            lemma_writes_rel_cons(
                m1,
                self.mmc,
                self.mmc,
                0xFF0Fu16,
                int_flag,
                Seq::<(u16, u8)>::empty(),
            );
            assert(seq![(0xFF0Fu16, int_flag)] + Seq::<(u16, u8)>::empty() =~= seq![
                (0xFF0Fu16, int_flag),
            ]);
            assert(writes_rel(m1, self.mmc, seq![(0xFF0Fu16, int_flag)]));
            let w1 = (wrap16(pc0sp - 1), hi8(pc));
            let w2 = (wrap16(pc0sp - 2), lo8(pc));
            lemma_writes_rel_concat(m0, m1, self.mmc, seq![w1, w2], seq![(0xFF0Fu16, int_flag)]);
            assert(seq![w1, w2] + seq![(0xFF0Fu16, int_flag)] =~= seq![
                w1,
                w2,
                (0xFF0Fu16, int_flag),
            ]);
        }
        5
    }
}


/// The 8-bit register slot an opcode's three-bit field names; slot 6 is
/// the (HL) memory operand and is handled separately.
pub open spec fn get_reg8(r: Register, idx: int) -> u8 {
    if idx == 0 {
        r.b
    } else if idx == 1 {
        r.c
    } else if idx == 2 {
        r.d
    } else if idx == 3 {
        r.e
    } else if idx == 4 {
        r.h
    } else if idx == 5 {
        r.l
    } else {
        r.a
    }
}

pub open spec fn set_reg8(r: Register, idx: int, v: u8) -> Register {
    if idx == 0 {
        Register { b: v, ..r }
    } else if idx == 1 {
        Register { c: v, ..r }
    } else if idx == 2 {
        Register { d: v, ..r }
    } else if idx == 3 {
        Register { e: v, ..r }
    } else if idx == 4 {
        Register { h: v, ..r }
    } else if idx == 5 {
        Register { l: v, ..r }
    } else {
        Register { a: v, ..r }
    }
}

/// The register file after one 8-bit arithmetic/logic operation of the
/// given kind (ADD, ADC, SUB, SBC, AND, XOR, OR, CP in table order) on
/// A and `v`.
pub open spec fn alu_apply(regs: Register, kind: int, v: u8) -> Register {
    if kind == 0 {
        Register {
            a: wrap8(regs.a + v),
            zf: wrap8(regs.a + v) == 0,
            nf: false,
            hf: regs.a % 16 + v % 16 > 15,
            cf: regs.a + v > 255,
            ..regs
        }
    } else if kind == 1 {
        let c: int = if regs.cf {
            1
        } else {
            0
        };
        Register {
            a: wrap8(regs.a + v + c),
            zf: wrap8(regs.a + v + c) == 0,
            nf: false,
            hf: regs.a % 16 + v % 16 + c > 15,
            cf: regs.a + v + c > 255,
            ..regs
        }
    } else if kind == 2 {
        Register {
            a: wrap8(regs.a - v),
            zf: regs.a == v,
            nf: true,
            hf: regs.a % 16 < v % 16,
            cf: regs.a < v,
            ..regs
        }
    } else if kind == 3 {
        let c: int = if regs.cf {
            1
        } else {
            0
        };
        Register {
            a: wrap8(regs.a - v - c),
            zf: wrap8(regs.a - v - c) == 0,
            nf: true,
            hf: regs.a % 16 < v % 16 + c,
            cf: regs.a < v + c,
            ..regs
        }
    } else if kind == 4 {
        Register { a: regs.a & v, zf: (regs.a & v) == 0, nf: false, hf: true, cf: false, ..regs }
    } else if kind == 5 {
        Register { a: regs.a ^ v, zf: (regs.a ^ v) == 0, nf: false, hf: false, cf: false, ..regs }
    } else if kind == 6 {
        Register { a: regs.a | v, zf: (regs.a | v) == 0, nf: false, hf: false, cf: false, ..regs }
    } else {
        Register { zf: regs.a == v, nf: true, hf: regs.a % 16 < v % 16, cf: regs.a < v, ..regs }
    }
}

/// The result byte of one rotate/shift/swap operation of the given kind
/// (RLC, RRC, RL, RR, SLA, SRA, SWAP, SRL in table order).
pub open spec fn shift_result(cf: bool, kind: int, v: u8) -> u8 {
    if kind == 0 {
        ((v % 128) * 2 + v / 128) as u8
    } else if kind == 1 {
        (v / 2 + (v % 2) * 128) as u8
    } else if kind == 2 {
        ((v % 128) * 2 + (if cf {
            1int
        } else {
            0int
        })) as u8
    } else if kind == 3 {
        (v / 2 + (if cf {
            128int
        } else {
            0int
        })) as u8
    } else if kind == 4 {
        ((v % 128) * 2) as u8
    } else if kind == 5 {
        (v / 2 + (v / 128) * 128) as u8
    } else if kind == 6 {
        ((v % 16) * 16 + v / 16) as u8
    } else {
        (v / 2) as u8
    }
}

/// The carry produced by one rotate/shift/swap operation: the bit
/// shifted out, and never for SWAP.
pub open spec fn shift_carry(kind: int, v: u8) -> bool {
    if kind == 0 || kind == 2 || kind == 4 {
        v >= 128
    } else if kind == 6 {
        false
    } else {
        v % 2 == 1
    }
}

/// The byte with bit `n` cleared, as a mask table.
pub open spec fn res_mask(n: int) -> u8 {
    if n == 0 {
        0xFEu8
    } else if n == 1 {
        0xFDu8
    } else if n == 2 {
        0xFBu8
    } else if n == 3 {
        0xF7u8
    } else if n == 4 {
        0xEFu8
    } else if n == 5 {
        0xDFu8
    } else if n == 6 {
        0xBFu8
    } else {
        0x7Fu8
    }
}

/// What one CB-prefixed instruction does, given its opcode byte `cb`:
/// rotates/shifts write their result and flags; BIT tests into Z; RES
/// and SET clear or set one bit of their target; a memory target goes
/// through one bus write of the result.
pub open spec fn cb_desc(s: CPU, e: CPU, cb: u8) -> bool {
    let src = (cb % 8) as int;
    let hl = s.regs.spec_hl();
    let v = if src == 6 {
        s.mmc.read_spec(hl)
    } else {
        get_reg8(s.regs, src)
    };
    if cb < 0x40 {
        let kind = cb as int / 8;
        let res = shift_result(s.regs.cf, kind, v);
        let flags = Register {
            zf: res == 0,
            nf: false,
            hf: false,
            cf: shift_carry(kind, v),
            ..s.regs
        };
        if src == 6 {
            &&& e.regs == flags
            &&& MMC::write_rel(s.mmc, e.mmc, hl, res)
        } else {
            &&& e == (CPU { regs: set_reg8(flags, src, res), ..s })
        }
    } else if cb < 0x80 {
        let n = (cb - 0x40) as int / 8;
        e == (CPU {
            regs: Register {
                zf: (v / p2(n)) % 2 == 0,
                nf: false,
                hf: true,
                ..s.regs
            },
            ..s
        })
    } else {
        let n = ((cb as int - 0x80) / 8) % 8;
        let res = if cb >= 0xC0 {
            v | p2(n)
        } else {
            v & res_mask(n)
        };
        if src == 6 {
            &&& e.regs == s.regs
            &&& MMC::write_rel(s.mmc, e.mmc, hl, res)
        } else {
            &&& e == (CPU { regs: set_reg8(s.regs, src, res), ..s })
        }
    }
}

/// The register file after INC of `v` (carry untouched).
pub open spec fn inc_flags(regs: Register, v: u8) -> Register {
    Register { zf: wrap8(v + 1) == 0, nf: false, hf: v % 16 == 15, ..regs }
}

/// The register file after DEC of `v` (carry untouched).
pub open spec fn dec_flags(regs: Register, v: u8) -> Register {
    Register { zf: wrap8(v - 1) == 0, nf: true, hf: v % 16 == 0, ..regs }
}

/// The register file after ADD HL with `v`.
pub open spec fn add_hl_apply(regs: Register, v: u16) -> Register {
    Register {
        h: hi8(wrap16(regs.spec_hl() + v)),
        l: lo8(wrap16(regs.spec_hl() + v)),
        nf: false,
        hf: regs.spec_hl() % 0x1000 + v % 0x1000 > 0xFFF,
        cf: regs.spec_hl() + v > 0xFFFF,
        ..regs
    }
}

/// The flags of ADD SP,r8 and LD HL,SP+r8: half-carry and carry from
/// the low byte of the sign-extended addition, Z and N cleared.
pub open spec fn sp_offset_flags(regs: Register, sp: u16, d: u8) -> Register {
    Register {
        zf: false,
        nf: false,
        hf: sp % 16 + sign_ext8(d) % 16 > 15,
        cf: sp % 256 + sign_ext8(d) % 256 > 255,
        ..regs
    }
}

/// The register file after POP AF: A from the high byte, the four
/// flags from bits 7..4 of the low byte, the low nibble discarded.
pub open spec fn pop_af_apply(regs: Register, w: int) -> Register {
    Register {
        a: (w / 256) as u8,
        zf: (w / 128) % 2 == 1,
        nf: (w / 64) % 2 == 1,
        hf: (w / 32) % 2 == 1,
        cf: (w / 16) % 2 == 1,
        ..regs
    }
}

/// What one instruction of the 0x00..0x3F block does, given the state
/// `s` at dispatch (PC already past the opcode byte).
/// One half-band of the per-opcode description.
pub open spec fn misc_desc_0a(s: CPU, e: CPU, op: u8) -> bool {


    let pc = s.regs.pc;
    let d8 = s.mmc.read_spec(pc);
    let d16 = s.mmc.read_spec(pc) + 256 * s.mmc.read_spec(wrap16(pc + 1));
    let hl = s.regs.spec_hl();
    {
    &&& op == 0x00 ==> (e == s)
    &&& op == 0x01 ==> (e == (CPU { regs: (Register { b: hi8((d16 as int) as u16), c: lo8((d16 as int) as u16), pc: wrap16(pc + 2), ..s.regs }), ..s }))
    &&& op == 0x02 ==> (e.regs == s.regs && MMC::write_rel(s.mmc, e.mmc, s.regs.spec_bc(), s.regs.a))
    &&& op == 0x03 ==> (e == (CPU { regs: (Register { b: hi8(wrap16(s.regs.spec_bc() + 1)), c: lo8(wrap16(s.regs.spec_bc() + 1)), ..s.regs }), ..s }))
    &&& op == 0x04 ==> (e == (CPU { regs: (set_reg8(inc_flags(s.regs, get_reg8(s.regs, 0)), 0, wrap8(get_reg8(s.regs, 0) + 1))), ..s }))
    &&& op == 0x05 ==> (e == (CPU { regs: (set_reg8(dec_flags(s.regs, get_reg8(s.regs, 0)), 0, wrap8(get_reg8(s.regs, 0) - 1))), ..s }))
    &&& op == 0x06 ==> (e == (CPU { regs: (set_reg8(Register { pc: wrap16(pc + 1), ..s.regs }, 0, d8)), ..s }))
    &&& op == 0x07 ==> (e == (CPU { regs: (set_reg8(Register { zf: false, nf: false, hf: false, cf: shift_carry(0, s.regs.a), ..s.regs }, 7, shift_result(s.regs.cf, 0, s.regs.a))), ..s }))
    }
}

/// One quarter-band of the per-opcode description.
pub open spec fn misc_desc_0b_p(s: CPU, e: CPU, op: u8) -> bool {



    let pc = s.regs.pc;
    let d8 = s.mmc.read_spec(pc);
    let d16 = s.mmc.read_spec(pc) + 256 * s.mmc.read_spec(wrap16(pc + 1));
    let hl = s.regs.spec_hl();
    {
    &&& op == 0x08 ==> (e.regs == (Register { pc: wrap16(pc + 2), ..s.regs }) && writes_rel(s.mmc, e.mmc, seq![(wrap16(d16 + 1), hi8(s.regs.sp)), ((d16 as int) as u16, lo8(s.regs.sp))]))
    &&& op == 0x09 ==> (e == (CPU { regs: (add_hl_apply(s.regs, s.regs.spec_bc())), ..s }))
    &&& op == 0x0A ==> (e == (CPU { regs: (set_reg8(s.regs, 7, s.mmc.read_spec(s.regs.spec_bc()))), ..s }))
    &&& op == 0x0B ==> (e == (CPU { regs: (Register { b: hi8(wrap16(s.regs.spec_bc() - 1)), c: lo8(wrap16(s.regs.spec_bc() - 1)), ..s.regs }), ..s }))
    }
}

/// One quarter-band of the per-opcode description.
pub open spec fn misc_desc_0b_q(s: CPU, e: CPU, op: u8) -> bool {



    let pc = s.regs.pc;
    let d8 = s.mmc.read_spec(pc);
    let d16 = s.mmc.read_spec(pc) + 256 * s.mmc.read_spec(wrap16(pc + 1));
    let hl = s.regs.spec_hl();
    {
    &&& op == 0x0C ==> (e == (CPU { regs: (set_reg8(inc_flags(s.regs, get_reg8(s.regs, 1)), 1, wrap8(get_reg8(s.regs, 1) + 1))), ..s }))
    &&& op == 0x0D ==> (e == (CPU { regs: (set_reg8(dec_flags(s.regs, get_reg8(s.regs, 1)), 1, wrap8(get_reg8(s.regs, 1) - 1))), ..s }))
    &&& op == 0x0E ==> (e == (CPU { regs: (set_reg8(Register { pc: wrap16(pc + 1), ..s.regs }, 1, d8)), ..s }))
    &&& op == 0x0F ==> (e == (CPU { regs: (set_reg8(Register { zf: false, nf: false, hf: false, cf: shift_carry(1, s.regs.a), ..s.regs }, 7, shift_result(s.regs.cf, 1, s.regs.a))), ..s }))
    }
}

/// One half-band of the per-opcode description.
pub open spec fn misc_desc_0b(s: CPU, e: CPU, op: u8) -> bool {
    if op < 0x0C {
        misc_desc_0b_p(s, e, op)
    } else {
        misc_desc_0b_q(s, e, op)
    }
}

/// One band of the per-opcode description.
pub open spec fn misc_desc_0(s: CPU, e: CPU, op: u8) -> bool {
    if op < 0x08 {
        misc_desc_0a(s, e, op)
    } else {
        misc_desc_0b(s, e, op)
    }
}

/// One half-band of the per-opcode description.
pub open spec fn misc_desc_1a(s: CPU, e: CPU, op: u8) -> bool {


    let pc = s.regs.pc;
    let d8 = s.mmc.read_spec(pc);
    let d16 = s.mmc.read_spec(pc) + 256 * s.mmc.read_spec(wrap16(pc + 1));
    let hl = s.regs.spec_hl();
    {
    &&& op == 0x10 ==> (e == s)
    &&& op == 0x11 ==> (e == (CPU { regs: (Register { d: hi8((d16 as int) as u16), e: lo8((d16 as int) as u16), pc: wrap16(pc + 2), ..s.regs }), ..s }))
    &&& op == 0x12 ==> (e.regs == s.regs && MMC::write_rel(s.mmc, e.mmc, s.regs.spec_de(), s.regs.a))
    &&& op == 0x13 ==> (e == (CPU { regs: (Register { d: hi8(wrap16(s.regs.spec_de() + 1)), e: lo8(wrap16(s.regs.spec_de() + 1)), ..s.regs }), ..s }))
    &&& op == 0x14 ==> (e == (CPU { regs: (set_reg8(inc_flags(s.regs, get_reg8(s.regs, 2)), 2, wrap8(get_reg8(s.regs, 2) + 1))), ..s }))
    &&& op == 0x15 ==> (e == (CPU { regs: (set_reg8(dec_flags(s.regs, get_reg8(s.regs, 2)), 2, wrap8(get_reg8(s.regs, 2) - 1))), ..s }))
    &&& op == 0x16 ==> (e == (CPU { regs: (set_reg8(Register { pc: wrap16(pc + 1), ..s.regs }, 2, d8)), ..s }))
    &&& op == 0x17 ==> (e == (CPU { regs: (set_reg8(Register { zf: false, nf: false, hf: false, cf: shift_carry(2, s.regs.a), ..s.regs }, 7, shift_result(s.regs.cf, 2, s.regs.a))), ..s }))
    }
}

/// One quarter-band of the per-opcode description.
pub open spec fn misc_desc_1b_p(s: CPU, e: CPU, op: u8) -> bool {



    let pc = s.regs.pc;
    let d8 = s.mmc.read_spec(pc);
    let d16 = s.mmc.read_spec(pc) + 256 * s.mmc.read_spec(wrap16(pc + 1));
    let hl = s.regs.spec_hl();
    {
    &&& op == 0x18 ==> (e == (CPU { regs: (Register { pc: wrap16(wrap16(pc + 1) + sign_ext8(d8)), ..s.regs }), ..s }))
    &&& op == 0x19 ==> (e == (CPU { regs: (add_hl_apply(s.regs, s.regs.spec_de())), ..s }))
    &&& op == 0x1A ==> (e == (CPU { regs: (set_reg8(s.regs, 7, s.mmc.read_spec(s.regs.spec_de()))), ..s }))
    &&& op == 0x1B ==> (e == (CPU { regs: (Register { d: hi8(wrap16(s.regs.spec_de() - 1)), e: lo8(wrap16(s.regs.spec_de() - 1)), ..s.regs }), ..s }))
    }
}

/// One quarter-band of the per-opcode description.
pub open spec fn misc_desc_1b_q(s: CPU, e: CPU, op: u8) -> bool {



    let pc = s.regs.pc;
    let d8 = s.mmc.read_spec(pc);
    let d16 = s.mmc.read_spec(pc) + 256 * s.mmc.read_spec(wrap16(pc + 1));
    let hl = s.regs.spec_hl();
    {
    &&& op == 0x1C ==> (e == (CPU { regs: (set_reg8(inc_flags(s.regs, get_reg8(s.regs, 3)), 3, wrap8(get_reg8(s.regs, 3) + 1))), ..s }))
    &&& op == 0x1D ==> (e == (CPU { regs: (set_reg8(dec_flags(s.regs, get_reg8(s.regs, 3)), 3, wrap8(get_reg8(s.regs, 3) - 1))), ..s }))
    &&& op == 0x1E ==> (e == (CPU { regs: (set_reg8(Register { pc: wrap16(pc + 1), ..s.regs }, 3, d8)), ..s }))
    &&& op == 0x1F ==> (e == (CPU { regs: (set_reg8(Register { zf: false, nf: false, hf: false, cf: shift_carry(3, s.regs.a), ..s.regs }, 7, shift_result(s.regs.cf, 3, s.regs.a))), ..s }))
    }
}

/// One half-band of the per-opcode description.
pub open spec fn misc_desc_1b(s: CPU, e: CPU, op: u8) -> bool {
    if op < 0x1C {
        misc_desc_1b_p(s, e, op)
    } else {
        misc_desc_1b_q(s, e, op)
    }
}

/// One band of the per-opcode description.
pub open spec fn misc_desc_1(s: CPU, e: CPU, op: u8) -> bool {
    if op < 0x18 {
        misc_desc_1a(s, e, op)
    } else {
        misc_desc_1b(s, e, op)
    }
}

/// One half-band of the per-opcode description.
pub open spec fn misc_desc_2a(s: CPU, e: CPU, op: u8) -> bool {


    let pc = s.regs.pc;
    let d8 = s.mmc.read_spec(pc);
    let d16 = s.mmc.read_spec(pc) + 256 * s.mmc.read_spec(wrap16(pc + 1));
    let hl = s.regs.spec_hl();
    {
    &&& op == 0x20 ==> (e == (CPU { regs: (Register { pc: if !s.regs.zf { wrap16(wrap16(pc + 1) + sign_ext8(d8)) } else { wrap16(pc + 1) }, ..s.regs }), ..s }))
    &&& op == 0x21 ==> (e == (CPU { regs: (Register { h: hi8((d16 as int) as u16), l: lo8((d16 as int) as u16), pc: wrap16(pc + 2), ..s.regs }), ..s }))
    &&& op == 0x22 ==> (e.regs == (Register { h: hi8(wrap16(hl + 1)), l: lo8(wrap16(hl + 1)), ..s.regs }) && MMC::write_rel(s.mmc, e.mmc, hl, s.regs.a))
    &&& op == 0x23 ==> (e == (CPU { regs: (Register { h: hi8(wrap16(s.regs.spec_hl() + 1)), l: lo8(wrap16(s.regs.spec_hl() + 1)), ..s.regs }), ..s }))
    &&& op == 0x24 ==> (e == (CPU { regs: (set_reg8(inc_flags(s.regs, get_reg8(s.regs, 4)), 4, wrap8(get_reg8(s.regs, 4) + 1))), ..s }))
    &&& op == 0x25 ==> (e == (CPU { regs: (set_reg8(dec_flags(s.regs, get_reg8(s.regs, 4)), 4, wrap8(get_reg8(s.regs, 4) - 1))), ..s }))
    &&& op == 0x26 ==> (e == (CPU { regs: (set_reg8(Register { pc: wrap16(pc + 1), ..s.regs }, 4, d8)), ..s }))
    &&& op == 0x27 ==> (e == (CPU { regs: (Register { a: daa_value(s.regs.a, s.regs.nf, s.regs.hf, s.regs.cf), zf: daa_value(s.regs.a, s.regs.nf, s.regs.hf, s.regs.cf) == 0, hf: false, cf: daa_carry(s.regs.a, s.regs.nf, s.regs.cf), ..s.regs }), ..s }))
    }
}

/// One half-band of the per-opcode description.
pub open spec fn misc_desc_2b(s: CPU, e: CPU, op: u8) -> bool {


    let pc = s.regs.pc;
    let d8 = s.mmc.read_spec(pc);
    let d16 = s.mmc.read_spec(pc) + 256 * s.mmc.read_spec(wrap16(pc + 1));
    let hl = s.regs.spec_hl();
    {
    &&& op == 0x28 ==> (e == (CPU { regs: (Register { pc: if s.regs.zf { wrap16(wrap16(pc + 1) + sign_ext8(d8)) } else { wrap16(pc + 1) }, ..s.regs }), ..s }))
    &&& op == 0x29 ==> (e == (CPU { regs: (add_hl_apply(s.regs, s.regs.spec_hl())), ..s }))
    &&& op == 0x2A ==> (e == (CPU { regs: (Register { a: s.mmc.read_spec(hl), h: hi8(wrap16(hl + 1)), l: lo8(wrap16(hl + 1)), ..s.regs }), ..s }))
    &&& op == 0x2B ==> (e == (CPU { regs: (Register { h: hi8(wrap16(s.regs.spec_hl() - 1)), l: lo8(wrap16(s.regs.spec_hl() - 1)), ..s.regs }), ..s }))
    &&& op == 0x2C ==> (e == (CPU { regs: (set_reg8(inc_flags(s.regs, get_reg8(s.regs, 5)), 5, wrap8(get_reg8(s.regs, 5) + 1))), ..s }))
    &&& op == 0x2D ==> (e == (CPU { regs: (set_reg8(dec_flags(s.regs, get_reg8(s.regs, 5)), 5, wrap8(get_reg8(s.regs, 5) - 1))), ..s }))
    &&& op == 0x2E ==> (e == (CPU { regs: (set_reg8(Register { pc: wrap16(pc + 1), ..s.regs }, 5, d8)), ..s }))
    &&& op == 0x2F ==> (e == (CPU { regs: (Register { a: !s.regs.a, nf: true, hf: true, ..s.regs }), ..s }))
    }
}

/// One band of the per-opcode description.
pub open spec fn misc_desc_2(s: CPU, e: CPU, op: u8) -> bool {
    if op < 0x28 {
        misc_desc_2a(s, e, op)
    } else {
        misc_desc_2b(s, e, op)
    }
}

/// One band of the per-opcode description.
pub open spec fn misc_desc_3(s: CPU, e: CPU, op: u8) -> bool {

    let pc = s.regs.pc;
    let d8 = s.mmc.read_spec(pc);
    let d16 = s.mmc.read_spec(pc) + 256 * s.mmc.read_spec(wrap16(pc + 1));
    let hl = s.regs.spec_hl();
    {
    &&& op == 0x30 ==> (e == (CPU { regs: (Register { pc: if !s.regs.cf { wrap16(wrap16(pc + 1) + sign_ext8(d8)) } else { wrap16(pc + 1) }, ..s.regs }), ..s }))
    &&& op == 0x31 ==> (e == (CPU { regs: (Register { sp: (d16 as int) as u16, pc: wrap16(pc + 2), ..s.regs }), ..s }))
    &&& op == 0x32 ==> (e.regs == (Register { h: hi8(wrap16(hl - 1)), l: lo8(wrap16(hl - 1)), ..s.regs }) && MMC::write_rel(s.mmc, e.mmc, hl, s.regs.a))
    &&& op == 0x33 ==> (e == (CPU { regs: (Register { sp: wrap16(s.regs.sp + 1), ..s.regs }), ..s }))
    &&& op == 0x34 ==> (e.regs == inc_flags(s.regs, s.mmc.read_spec(hl)) && MMC::write_rel(s.mmc, e.mmc, hl, wrap8(s.mmc.read_spec(hl) + 1)))
    &&& op == 0x35 ==> (e.regs == dec_flags(s.regs, s.mmc.read_spec(hl)) && MMC::write_rel(s.mmc, e.mmc, hl, wrap8(s.mmc.read_spec(hl) - 1)))
    &&& op == 0x36 ==> (e.regs == (Register { pc: wrap16(pc + 1), ..s.regs }) && MMC::write_rel(s.mmc, e.mmc, hl, d8))
    &&& op == 0x37 ==> (e == (CPU { regs: (Register { nf: false, hf: false, cf: true, ..s.regs }), ..s }))
    &&& op == 0x38 ==> (e == (CPU { regs: (Register { pc: if s.regs.cf { wrap16(wrap16(pc + 1) + sign_ext8(d8)) } else { wrap16(pc + 1) }, ..s.regs }), ..s }))
    &&& op == 0x39 ==> (e == (CPU { regs: (add_hl_apply(s.regs, s.regs.sp)), ..s }))
    &&& op == 0x3A ==> (e == (CPU { regs: (Register { a: s.mmc.read_spec(hl), h: hi8(wrap16(hl - 1)), l: lo8(wrap16(hl - 1)), ..s.regs }), ..s }))
    &&& op == 0x3B ==> (e == (CPU { regs: (Register { sp: wrap16(s.regs.sp - 1), ..s.regs }), ..s }))
    &&& op == 0x3C ==> (e == (CPU { regs: (set_reg8(inc_flags(s.regs, get_reg8(s.regs, 7)), 7, wrap8(get_reg8(s.regs, 7) + 1))), ..s }))
    &&& op == 0x3D ==> (e == (CPU { regs: (set_reg8(dec_flags(s.regs, get_reg8(s.regs, 7)), 7, wrap8(get_reg8(s.regs, 7) - 1))), ..s }))
    &&& op == 0x3E ==> (e == (CPU { regs: (set_reg8(Register { pc: wrap16(pc + 1), ..s.regs }, 7, d8)), ..s }))
    &&& op == 0x3F ==> (e == (CPU { regs: (Register { nf: false, hf: false, cf: !s.regs.cf, ..s.regs }), ..s }))
    }
}

pub open spec fn misc_desc(s: CPU, e: CPU, op: u8) -> bool {
    if op < 0x10 {
        misc_desc_0(s, e, op)
    } else if op < 0x20 {
        misc_desc_1(s, e, op)
    } else if op < 0x30 {
        misc_desc_2(s, e, op)
    } else {
        misc_desc_3(s, e, op)
    }
}

/// What one instruction of the 0xC0..0xFF block does, given the state
/// `s` at dispatch (PC already past the opcode byte).
/// One half-band of the per-opcode description.
pub open spec fn ctrl_desc_0a(s: CPU, e: CPU, op: u8) -> bool {


    let pc = s.regs.pc;
    let sp = s.regs.sp;
    let d8 = s.mmc.read_spec(pc);
    let d16 = s.mmc.read_spec(pc) + 256 * s.mmc.read_spec(wrap16(pc + 1));
    let stack_word = s.mmc.read_spec(sp) + 256 * s.mmc.read_spec(wrap16(sp + 1));
    {
    &&& op == 0xC0 ==> (e == (CPU { regs: (Register { pc: if !s.regs.zf { (stack_word as int) as u16 } else { pc }, sp: if !s.regs.zf { wrap16(sp + 2) } else { sp }, ..s.regs }), ..s }))
    &&& op == 0xC1 ==> (e == (CPU { regs: (Register { b: ((stack_word as int) / 256) as u8, c: ((stack_word as int) % 256) as u8, sp: wrap16(sp + 2), ..s.regs }), ..s }))
    &&& op == 0xC2 ==> (e == (CPU { regs: (Register { pc: if !s.regs.zf { (d16 as int) as u16 } else { wrap16(pc + 2) }, ..s.regs }), ..s }))
    &&& op == 0xC3 ==> (e == (CPU { regs: (Register { pc: (d16 as int) as u16, ..s.regs }), ..s }))
    &&& op == 0xC4 ==> (if !s.regs.zf { e.regs == (Register { pc: (d16 as int) as u16, sp: wrap16(sp - 2), ..s.regs }) && writes_rel(s.mmc, e.mmc, seq![(wrap16(sp - 1), hi8(wrap16(pc + 2))), (wrap16(sp - 2), lo8(wrap16(pc + 2)))]) } else { e == (CPU { regs: (Register { pc: wrap16(pc + 2), ..s.regs }), ..s }) })
    &&& op == 0xC5 ==> (e.regs == (Register { sp: wrap16(sp - 2), ..s.regs }) && writes_rel(s.mmc, e.mmc, seq![(wrap16(sp - 1), hi8(s.regs.spec_bc())), (wrap16(sp - 2), lo8(s.regs.spec_bc()))]))
    &&& op == 0xC6 ==> (e == (CPU { regs: (Register { pc: wrap16(pc + 1), ..alu_apply(s.regs, 0, d8) }), ..s }))
    &&& op == 0xC7 ==> (e.regs == (Register { pc: 0u16, sp: wrap16(sp - 2), ..s.regs }) && writes_rel(s.mmc, e.mmc, seq![(wrap16(sp - 1), hi8(pc)), (wrap16(sp - 2), lo8(pc))]))
    }
}

/// One half-band of the per-opcode description.
pub open spec fn ctrl_desc_0b(s: CPU, e: CPU, op: u8) -> bool {


    let pc = s.regs.pc;
    let sp = s.regs.sp;
    let d8 = s.mmc.read_spec(pc);
    let d16 = s.mmc.read_spec(pc) + 256 * s.mmc.read_spec(wrap16(pc + 1));
    let stack_word = s.mmc.read_spec(sp) + 256 * s.mmc.read_spec(wrap16(sp + 1));
    {
    &&& op == 0xC8 ==> (e == (CPU { regs: (Register { pc: if s.regs.zf { (stack_word as int) as u16 } else { pc }, sp: if s.regs.zf { wrap16(sp + 2) } else { sp }, ..s.regs }), ..s }))
    &&& op == 0xC9 ==> (e == (CPU { regs: (Register { pc: (stack_word as int) as u16, sp: wrap16(sp + 2), ..s.regs }), ..s }))
    &&& op == 0xCA ==> (e == (CPU { regs: (Register { pc: if s.regs.zf { (d16 as int) as u16 } else { wrap16(pc + 2) }, ..s.regs }), ..s }))
    &&& op == 0xCB ==> (cb_desc(
        CPU { regs: Register { pc: wrap16(pc + 1), ..s.regs }, cb_opcode: d8, ..s },
        e,
        d8,
    ))
    &&& op == 0xCC ==> (if s.regs.zf { e.regs == (Register { pc: (d16 as int) as u16, sp: wrap16(sp - 2), ..s.regs }) && writes_rel(s.mmc, e.mmc, seq![(wrap16(sp - 1), hi8(wrap16(pc + 2))), (wrap16(sp - 2), lo8(wrap16(pc + 2)))]) } else { e == (CPU { regs: (Register { pc: wrap16(pc + 2), ..s.regs }), ..s }) })
    &&& op == 0xCD ==> (e.regs == (Register { pc: (d16 as int) as u16, sp: wrap16(sp - 2), ..s.regs }) && writes_rel(s.mmc, e.mmc, seq![(wrap16(sp - 1), hi8(wrap16(pc + 2))), (wrap16(sp - 2), lo8(wrap16(pc + 2)))]))
    &&& op == 0xCE ==> (e == (CPU { regs: (Register { pc: wrap16(pc + 1), ..alu_apply(s.regs, 1, d8) }), ..s }))
    &&& op == 0xCF ==> (e.regs == (Register { pc: 8u16, sp: wrap16(sp - 2), ..s.regs }) && writes_rel(s.mmc, e.mmc, seq![(wrap16(sp - 1), hi8(pc)), (wrap16(sp - 2), lo8(pc))]))
    }
}

/// One band of the per-opcode description.
pub open spec fn ctrl_desc_0(s: CPU, e: CPU, op: u8) -> bool {
    if op < 0xC8 {
        ctrl_desc_0a(s, e, op)
    } else {
        ctrl_desc_0b(s, e, op)
    }
}

/// One band of the per-opcode description.
pub open spec fn ctrl_desc_1(s: CPU, e: CPU, op: u8) -> bool {

    let pc = s.regs.pc;
    let sp = s.regs.sp;
    let d8 = s.mmc.read_spec(pc);
    let d16 = s.mmc.read_spec(pc) + 256 * s.mmc.read_spec(wrap16(pc + 1));
    let stack_word = s.mmc.read_spec(sp) + 256 * s.mmc.read_spec(wrap16(sp + 1));
    {
    &&& op == 0xD0 ==> (e == (CPU { regs: (Register { pc: if !s.regs.cf { (stack_word as int) as u16 } else { pc }, sp: if !s.regs.cf { wrap16(sp + 2) } else { sp }, ..s.regs }), ..s }))
    &&& op == 0xD1 ==> (e == (CPU { regs: (Register { d: ((stack_word as int) / 256) as u8, e: ((stack_word as int) % 256) as u8, sp: wrap16(sp + 2), ..s.regs }), ..s }))
    &&& op == 0xD2 ==> (e == (CPU { regs: (Register { pc: if !s.regs.cf { (d16 as int) as u16 } else { wrap16(pc + 2) }, ..s.regs }), ..s }))
    &&& op == 0xD3 ==> (e == s)
    &&& op == 0xD4 ==> (if !s.regs.cf { e.regs == (Register { pc: (d16 as int) as u16, sp: wrap16(sp - 2), ..s.regs }) && writes_rel(s.mmc, e.mmc, seq![(wrap16(sp - 1), hi8(wrap16(pc + 2))), (wrap16(sp - 2), lo8(wrap16(pc + 2)))]) } else { e == (CPU { regs: (Register { pc: wrap16(pc + 2), ..s.regs }), ..s }) })
    &&& op == 0xD5 ==> (e.regs == (Register { sp: wrap16(sp - 2), ..s.regs }) && writes_rel(s.mmc, e.mmc, seq![(wrap16(sp - 1), hi8(s.regs.spec_de())), (wrap16(sp - 2), lo8(s.regs.spec_de()))]))
    &&& op == 0xD6 ==> (e == (CPU { regs: (Register { pc: wrap16(pc + 1), ..alu_apply(s.regs, 2, d8) }), ..s }))
    &&& op == 0xD7 ==> (e.regs == (Register { pc: 16u16, sp: wrap16(sp - 2), ..s.regs }) && writes_rel(s.mmc, e.mmc, seq![(wrap16(sp - 1), hi8(pc)), (wrap16(sp - 2), lo8(pc))]))
    &&& op == 0xD8 ==> (e == (CPU { regs: (Register { pc: if s.regs.cf { (stack_word as int) as u16 } else { pc }, sp: if s.regs.cf { wrap16(sp + 2) } else { sp }, ..s.regs }), ..s }))
    &&& op == 0xD9 ==> (e == (CPU { regs: Register { pc: (stack_word as int) as u16, sp: wrap16(sp + 2), ..s.regs }, ime: true, ..s }))
    &&& op == 0xDA ==> (e == (CPU { regs: (Register { pc: if s.regs.cf { (d16 as int) as u16 } else { wrap16(pc + 2) }, ..s.regs }), ..s }))
    &&& op == 0xDB ==> (e == s)
    &&& op == 0xDC ==> (if s.regs.cf { e.regs == (Register { pc: (d16 as int) as u16, sp: wrap16(sp - 2), ..s.regs }) && writes_rel(s.mmc, e.mmc, seq![(wrap16(sp - 1), hi8(wrap16(pc + 2))), (wrap16(sp - 2), lo8(wrap16(pc + 2)))]) } else { e == (CPU { regs: (Register { pc: wrap16(pc + 2), ..s.regs }), ..s }) })
    &&& op == 0xDD ==> (e == s)
    &&& op == 0xDE ==> (e == (CPU { regs: (Register { pc: wrap16(pc + 1), ..alu_apply(s.regs, 3, d8) }), ..s }))
    &&& op == 0xDF ==> (e.regs == (Register { pc: 24u16, sp: wrap16(sp - 2), ..s.regs }) && writes_rel(s.mmc, e.mmc, seq![(wrap16(sp - 1), hi8(pc)), (wrap16(sp - 2), lo8(pc))]))
    }
}

/// One half-band of the per-opcode description.
pub open spec fn ctrl_desc_2a(s: CPU, e: CPU, op: u8) -> bool {


    let pc = s.regs.pc;
    let sp = s.regs.sp;
    let d8 = s.mmc.read_spec(pc);
    let d16 = s.mmc.read_spec(pc) + 256 * s.mmc.read_spec(wrap16(pc + 1));
    let stack_word = s.mmc.read_spec(sp) + 256 * s.mmc.read_spec(wrap16(sp + 1));
    {
    &&& op == 0xE0 ==> (e.regs == (Register { pc: wrap16(pc + 1), ..s.regs }) && MMC::write_rel(s.mmc, e.mmc, (0xFF00 + d8) as u16, s.regs.a))
    &&& op == 0xE1 ==> (e == (CPU { regs: (Register { h: ((stack_word as int) / 256) as u8, l: ((stack_word as int) % 256) as u8, sp: wrap16(sp + 2), ..s.regs }), ..s }))
    &&& op == 0xE2 ==> (e.regs == s.regs && MMC::write_rel(s.mmc, e.mmc, (0xFF00 + s.regs.c) as u16, s.regs.a))
    &&& op == 0xE3 ==> (e == s)
    &&& op == 0xE4 ==> (e == s)
    &&& op == 0xE5 ==> (e.regs == (Register { sp: wrap16(sp - 2), ..s.regs }) && writes_rel(s.mmc, e.mmc, seq![(wrap16(sp - 1), hi8(s.regs.spec_hl())), (wrap16(sp - 2), lo8(s.regs.spec_hl()))]))
    &&& op == 0xE6 ==> (e == (CPU { regs: (Register { pc: wrap16(pc + 1), ..alu_apply(s.regs, 4, d8) }), ..s }))
    &&& op == 0xE7 ==> (e.regs == (Register { pc: 32u16, sp: wrap16(sp - 2), ..s.regs }) && writes_rel(s.mmc, e.mmc, seq![(wrap16(sp - 1), hi8(pc)), (wrap16(sp - 2), lo8(pc))]))
    }
}

/// One half-band of the per-opcode description.
pub open spec fn ctrl_desc_2b(s: CPU, e: CPU, op: u8) -> bool {


    let pc = s.regs.pc;
    let sp = s.regs.sp;
    let d8 = s.mmc.read_spec(pc);
    let d16 = s.mmc.read_spec(pc) + 256 * s.mmc.read_spec(wrap16(pc + 1));
    let stack_word = s.mmc.read_spec(sp) + 256 * s.mmc.read_spec(wrap16(sp + 1));
    {
    &&& op == 0xE8 ==> (e == (CPU { regs: (Register { sp: wrap16(s.regs.sp + sign_ext8(d8)), ..sp_offset_flags(Register { pc: wrap16(pc + 1), ..s.regs }, s.regs.sp, d8) }), ..s }))
    &&& op == 0xE9 ==> (e == (CPU { regs: (Register { pc: s.regs.spec_hl(), ..s.regs }), ..s }))
    &&& op == 0xEA ==> (e.regs == (Register { pc: wrap16(pc + 2), ..s.regs }) && MMC::write_rel(s.mmc, e.mmc, (d16 as int) as u16, s.regs.a))
    &&& op == 0xEB ==> (e == s)
    &&& op == 0xEC ==> (e == s)
    &&& op == 0xED ==> (e == s)
    &&& op == 0xEE ==> (e == (CPU { regs: (Register { pc: wrap16(pc + 1), ..alu_apply(s.regs, 5, d8) }), ..s }))
    &&& op == 0xEF ==> (e.regs == (Register { pc: 40u16, sp: wrap16(sp - 2), ..s.regs }) && writes_rel(s.mmc, e.mmc, seq![(wrap16(sp - 1), hi8(pc)), (wrap16(sp - 2), lo8(pc))]))
    }
}

/// One band of the per-opcode description.
pub open spec fn ctrl_desc_2(s: CPU, e: CPU, op: u8) -> bool {
    if op < 0xE8 {
        ctrl_desc_2a(s, e, op)
    } else {
        ctrl_desc_2b(s, e, op)
    }
}

/// One half-band of the per-opcode description.
pub open spec fn ctrl_desc_3a(s: CPU, e: CPU, op: u8) -> bool {


    let pc = s.regs.pc;
    let sp = s.regs.sp;
    let d8 = s.mmc.read_spec(pc);
    let d16 = s.mmc.read_spec(pc) + 256 * s.mmc.read_spec(wrap16(pc + 1));
    let stack_word = s.mmc.read_spec(sp) + 256 * s.mmc.read_spec(wrap16(sp + 1));
    {
    &&& op == 0xF0 ==> (e == (CPU { regs: (set_reg8(Register { pc: wrap16(pc + 1), ..s.regs }, 7, s.mmc.read_spec((0xFF00 + d8) as u16))), ..s }))
    &&& op == 0xF1 ==> (e == (CPU { regs: (pop_af_apply(Register { sp: wrap16(sp + 2), ..s.regs }, stack_word as int)), ..s }))
    &&& op == 0xF2 ==> (e == (CPU { regs: (set_reg8(s.regs, 7, s.mmc.read_spec((0xFF00 + s.regs.c) as u16))), ..s }))
    &&& op == 0xF3 ==> (e == s)
    &&& op == 0xF4 ==> (e == s)
    &&& op == 0xF5 ==> (e.regs == (Register { sp: wrap16(sp - 2), ..s.regs }) && writes_rel(s.mmc, e.mmc, seq![(wrap16(sp - 1), hi8(s.regs.spec_af())), (wrap16(sp - 2), lo8(s.regs.spec_af()))]))
    &&& op == 0xF6 ==> (e == (CPU { regs: (Register { pc: wrap16(pc + 1), ..alu_apply(s.regs, 6, d8) }), ..s }))
    &&& op == 0xF7 ==> (e.regs == (Register { pc: 48u16, sp: wrap16(sp - 2), ..s.regs }) && writes_rel(s.mmc, e.mmc, seq![(wrap16(sp - 1), hi8(pc)), (wrap16(sp - 2), lo8(pc))]))
    }
}

/// One half-band of the per-opcode description.
pub open spec fn ctrl_desc_3b(s: CPU, e: CPU, op: u8) -> bool {


    let pc = s.regs.pc;
    let sp = s.regs.sp;
    let d8 = s.mmc.read_spec(pc);
    let d16 = s.mmc.read_spec(pc) + 256 * s.mmc.read_spec(wrap16(pc + 1));
    let stack_word = s.mmc.read_spec(sp) + 256 * s.mmc.read_spec(wrap16(sp + 1));
    {
    &&& op == 0xF8 ==> (e == (CPU { regs: (Register { h: hi8(wrap16(s.regs.sp + sign_ext8(d8))), l: lo8(wrap16(s.regs.sp + sign_ext8(d8))), ..sp_offset_flags(Register { pc: wrap16(pc + 1), ..s.regs }, s.regs.sp, d8) }), ..s }))
    &&& op == 0xF9 ==> (e == (CPU { regs: (Register { sp: s.regs.spec_hl(), ..s.regs }), ..s }))
    &&& op == 0xFA ==> (e == (CPU { regs: (set_reg8(Register { pc: wrap16(pc + 2), ..s.regs }, 7, s.mmc.read_spec((d16 as int) as u16))), ..s }))
    &&& op == 0xFB ==> (e == s)
    &&& op == 0xFC ==> (e == s)
    &&& op == 0xFD ==> (e == s)
    &&& op == 0xFE ==> (e == (CPU { regs: (Register { pc: wrap16(pc + 1), ..alu_apply(s.regs, 7, d8) }), ..s }))
    &&& op == 0xFF ==> (e.regs == (Register { pc: 56u16, sp: wrap16(sp - 2), ..s.regs }) && writes_rel(s.mmc, e.mmc, seq![(wrap16(sp - 1), hi8(pc)), (wrap16(sp - 2), lo8(pc))]))
    }
}

/// One band of the per-opcode description.
pub open spec fn ctrl_desc_3(s: CPU, e: CPU, op: u8) -> bool {
    if op < 0xF8 {
        ctrl_desc_3a(s, e, op)
    } else {
        ctrl_desc_3b(s, e, op)
    }
}

pub open spec fn ctrl_desc(s: CPU, e: CPU, op: u8) -> bool {
    if op < 0xD0 {
        ctrl_desc_0(s, e, op)
    } else if op < 0xE0 {
        ctrl_desc_1(s, e, op)
    } else if op < 0xF0 {
        ctrl_desc_2(s, e, op)
    } else {
        ctrl_desc_3(s, e, op)
    }
}

/// What one instruction of the 8-bit load block (0x40..0x7F) does:
/// a register-to-register move, a load from (HL), a store to (HL), or
/// HALT; nothing else changes.
pub open spec fn ld_desc(s: CPU, e: CPU, op: u8) -> bool {
    let dst = (op - 0x40) as int / 8;
    let src = (op % 8) as int;
    let hl = s.regs.spec_hl();
    &&& (op != 0x76 && dst != 6 && src != 6) ==> e == (CPU {
        regs: set_reg8(s.regs, dst, get_reg8(s.regs, src)),
        ..s
    })
    &&& (op != 0x76 && dst == 6) ==> e.regs == s.regs && MMC::write_rel(
        s.mmc,
        e.mmc,
        hl,
        get_reg8(s.regs, src),
    )
    &&& (dst != 6 && src == 6) ==> e == (CPU {
        regs: set_reg8(s.regs, dst, s.mmc.read_spec(hl)),
        ..s
    })
    &&& op == 0x76 ==> e == (CPU { halt: true, ..s })
}

/// What one instruction of the 8-bit arithmetic/logic block
/// (0x80..0xBF) does: the table operation of its row applied to A and
/// the operand its column names; nothing else changes.
pub open spec fn alu_desc(s: CPU, e: CPU, op: u8) -> bool {
    let kind = (op - 0x80) as int / 8;
    let src = (op % 8) as int;
    let v = if src == 6 {
        s.mmc.read_spec(s.regs.spec_hl())
    } else {
        get_reg8(s.regs, src)
    };
    e == (CPU { regs: alu_apply(s.regs, kind, v), ..s })
}

/// What one dispatched instruction does to the control state: HALT
/// stops the CPU, RETI re-enables the master enable at once, a CB
/// prefix records its second opcode byte, and nothing else here touches
/// those fields (EI and DI are committed by `run` after the
/// instruction, to honor EI's one-instruction delay).
pub open spec fn exec_ctrl_ok(s: CPU, e: CPU, op: u8) -> bool {
    &&& e.opcode == s.opcode
    &&& e.debug == s.debug
    &&& e.ei_delay == s.ei_delay
    &&& e.ime == (if op == 0xD9 {
        true
    } else {
        s.ime
    })
    &&& e.halt == (op == 0x76 || s.halt)
    &&& e.cb_opcode == (if op == 0xCB {
        s.mmc.read_spec(s.regs.pc)
    } else {
        s.cb_opcode
    })
}

impl CPU {

    #[verifier::rlimit(100)]
    #[verifier::spinoff_prover]
    fn exec_ld_lo(&mut self, opcode: u8)
        requires
            old(self).wf(),
            0x40 <= opcode < 0x60,
        ensures
            final(self).wf(),
            exec_ctrl_ok(*old(self), *final(self), opcode),
            ld_desc(*old(self), *final(self), opcode),
    {
        match opcode {
            0x40 => {
            },
            0x41 => {
                self.regs.b = self.regs.c;
            },
            0x42 => {
                self.regs.b = self.regs.d;
            },
            0x43 => {
                self.regs.b = self.regs.e;
            },
            0x44 => {
                self.regs.b = self.regs.h;
            },
            0x45 => {
                self.regs.b = self.regs.l;
            },
            0x46 => {
                let addr = self.regs.get_hl();
                self.regs.b = self.read8(addr);
            },
            0x47 => {
                self.regs.b = self.regs.a;
            },
            0x48 => {
                self.regs.c = self.regs.b;
            },
            0x49 => {
            },
            0x4A => {
                self.regs.c = self.regs.d;
            },
            0x4B => {
                self.regs.c = self.regs.e;
            },
            0x4C => {
                self.regs.c = self.regs.h;
            },
            0x4D => {
                self.regs.c = self.regs.l;
            },
            0x4E => {
                let addr = self.regs.get_hl();
                self.regs.c = self.read8(addr);
            },
            0x4F => {
                self.regs.c = self.regs.a;
            },
            0x50 => {
                self.regs.d = self.regs.b;
            },
            0x51 => {
                self.regs.d = self.regs.c;
            },
            0x52 => {
            },
            0x53 => {
                self.regs.d = self.regs.e;
            },
            0x54 => {
                self.regs.d = self.regs.h;
            },
            0x55 => {
                self.regs.d = self.regs.l;
            },
            0x56 => {
                let addr = self.regs.get_hl();
                self.regs.d = self.read8(addr);
            },
            0x57 => {
                self.regs.d = self.regs.a;
            },
            0x58 => {
                self.regs.e = self.regs.b;
            },
            0x59 => {
                self.regs.e = self.regs.c;
            },
            0x5A => {
                self.regs.e = self.regs.d;
            },
            0x5B => {
            },
            0x5C => {
                self.regs.e = self.regs.h;
            },
            0x5D => {
                self.regs.e = self.regs.l;
            },
            0x5E => {
                let addr = self.regs.get_hl();
                self.regs.e = self.read8(addr);
            },
            0x5F => {
                self.regs.e = self.regs.a;
            },
            _ => {
            },
        }
    }

    #[verifier::rlimit(100)]
    #[verifier::spinoff_prover]
    fn exec_ld_hl_row(&mut self, opcode: u8)
        requires
            old(self).wf(),
            0x60 <= opcode < 0x70,
        ensures
            final(self).wf(),
            exec_ctrl_ok(*old(self), *final(self), opcode),
            ld_desc(*old(self), *final(self), opcode),
    {
        match opcode {
            0x60 => {
                self.regs.h = self.regs.b;
            },
            0x61 => {
                self.regs.h = self.regs.c;
            },
            0x62 => {
                self.regs.h = self.regs.d;
            },
            0x63 => {
                self.regs.h = self.regs.e;
            },
            0x64 => {
            },
            0x65 => {
                self.regs.h = self.regs.l;
            },
            0x66 => {
                let addr = self.regs.get_hl();
                self.regs.h = self.read8(addr);
            },
            0x67 => {
                self.regs.h = self.regs.a;
            },
            0x68 => {
                self.regs.l = self.regs.b;
            },
            0x69 => {
                self.regs.l = self.regs.c;
            },
            0x6A => {
                self.regs.l = self.regs.d;
            },
            0x6B => {
                self.regs.l = self.regs.e;
            },
            0x6C => {
                self.regs.l = self.regs.h;
            },
            0x6D => {
            },
            0x6E => {
                let addr = self.regs.get_hl();
                self.regs.l = self.read8(addr);
            },
            0x6F => {
                self.regs.l = self.regs.a;
            },
            _ => {
            },
        }
    }

    #[verifier::rlimit(100)]
    #[verifier::spinoff_prover]
    fn exec_ld_a_row(&mut self, opcode: u8)
        requires
            old(self).wf(),
            0x70 <= opcode < 0x80,
        ensures
            final(self).wf(),
            exec_ctrl_ok(*old(self), *final(self), opcode),
            ld_desc(*old(self), *final(self), opcode),
    {
        match opcode {
            0x70 => {
                let addr = self.regs.get_hl();
                let dat = self.regs.b;
                self.write8(addr, dat);
            },
            0x71 => {
                let addr = self.regs.get_hl();
                let dat = self.regs.c;
                self.write8(addr, dat);
            },
            0x72 => {
                let addr = self.regs.get_hl();
                let dat = self.regs.d;
                self.write8(addr, dat);
            },
            0x73 => {
                let addr = self.regs.get_hl();
                let dat = self.regs.e;
                self.write8(addr, dat);
            },
            0x74 => {
                let addr = self.regs.get_hl();
                let dat = self.regs.h;
                self.write8(addr, dat);
            },
            0x75 => {
                let addr = self.regs.get_hl();
                let dat = self.regs.l;
                self.write8(addr, dat);
            },
            0x76 => {
                self.halt = true;
            },
            0x77 => {
                let addr = self.regs.get_hl();
                let dat = self.regs.a;
                self.write8(addr, dat);
            },
            0x78 => {
                self.regs.a = self.regs.b;
            },
            0x79 => {
                self.regs.a = self.regs.c;
            },
            0x7A => {
                self.regs.a = self.regs.d;
            },
            0x7B => {
                self.regs.a = self.regs.e;
            },
            0x7C => {
                self.regs.a = self.regs.h;
            },
            0x7D => {
                self.regs.a = self.regs.l;
            },
            0x7E => {
                let addr = self.regs.get_hl();
                self.regs.a = self.read8(addr);
            },
            0x7F => {
            },
            _ => {
            },
        }
    }

    fn exec_ld_hi(&mut self, opcode: u8)
        requires
            old(self).wf(),
            0x60 <= opcode < 0x80,
        ensures
            final(self).wf(),
            exec_ctrl_ok(*old(self), *final(self), opcode),
            ld_desc(*old(self), *final(self), opcode),
    {
        if opcode < 0x70 {
            self.exec_ld_hl_row(opcode);
        } else {
            self.exec_ld_a_row(opcode);
        }
    }

    fn exec_ld(&mut self, opcode: u8)
        requires
            old(self).wf(),
            0x40 <= opcode < 0x80,
        ensures
            final(self).wf(),
            exec_ctrl_ok(*old(self), *final(self), opcode),
            ld_desc(*old(self), *final(self), opcode),
    {
        if opcode < 0x60 {
            self.exec_ld_lo(opcode);
        } else {
            self.exec_ld_hi(opcode);
        }
    }

    #[verifier::rlimit(100)]
    #[verifier::spinoff_prover]
    fn exec_alu_add8(&mut self, opcode: u8)
        requires
            old(self).wf(),
            0x80 <= opcode < 0x88,
        ensures
            final(self).wf(),
            exec_ctrl_ok(*old(self), *final(self), opcode),
            alu_desc(*old(self), *final(self), opcode),
    {
        match opcode {
            0x80 => {
                let dat = self.regs.b;
                self.regs.a = self.add(dat);
            },
            0x81 => {
                let dat = self.regs.c;
                self.regs.a = self.add(dat);
            },
            0x82 => {
                let dat = self.regs.d;
                self.regs.a = self.add(dat);
            },
            0x83 => {
                let dat = self.regs.e;
                self.regs.a = self.add(dat);
            },
            0x84 => {
                let dat = self.regs.h;
                self.regs.a = self.add(dat);
            },
            0x85 => {
                let dat = self.regs.l;
                self.regs.a = self.add(dat);
            },
            0x86 => {
                let addr = self.regs.get_hl();
                let dat = self.read8(addr);
                self.regs.a = self.add(dat);
            },
            0x87 => {
                let dat = self.regs.a;
                self.regs.a = self.add(dat);
            },
            _ => {
            },
        }
    }

    #[verifier::rlimit(100)]
    #[verifier::spinoff_prover]
    fn exec_alu_adc8(&mut self, opcode: u8)
        requires
            old(self).wf(),
            0x88 <= opcode < 0x90,
        ensures
            final(self).wf(),
            exec_ctrl_ok(*old(self), *final(self), opcode),
            alu_desc(*old(self), *final(self), opcode),
    {
        match opcode {
            0x88 => {
                let dat = self.regs.b;
                self.regs.a = self.adc(dat);
            },
            0x89 => {
                let dat = self.regs.c;
                self.regs.a = self.adc(dat);
            },
            0x8A => {
                let dat = self.regs.d;
                self.regs.a = self.adc(dat);
            },
            0x8B => {
                let dat = self.regs.e;
                self.regs.a = self.adc(dat);
            },
            0x8C => {
                let dat = self.regs.h;
                self.regs.a = self.adc(dat);
            },
            0x8D => {
                let dat = self.regs.l;
                self.regs.a = self.adc(dat);
            },
            0x8E => {
                let addr = self.regs.get_hl();
                let dat = self.read8(addr);
                self.regs.a = self.adc(dat);
            },
            0x8F => {
                let dat = self.regs.a;
                self.regs.a = self.adc(dat);
            },
            _ => {
            },
        }
    }

    fn exec_alu_add(&mut self, opcode: u8)
        requires
            old(self).wf(),
            0x80 <= opcode < 0x90,
        ensures
            final(self).wf(),
            exec_ctrl_ok(*old(self), *final(self), opcode),
            alu_desc(*old(self), *final(self), opcode),
    {
        if opcode < 0x88 {
            self.exec_alu_add8(opcode);
        } else {
            self.exec_alu_adc8(opcode);
        }
    }

    #[verifier::rlimit(100)]
    #[verifier::spinoff_prover]
    fn exec_alu_sub8(&mut self, opcode: u8)
        requires
            old(self).wf(),
            0x90 <= opcode < 0x98,
        ensures
            final(self).wf(),
            exec_ctrl_ok(*old(self), *final(self), opcode),
            alu_desc(*old(self), *final(self), opcode),
    {
        match opcode {
            0x90 => {
                let dat = self.regs.b;
                self.regs.a = self.sub(dat);
            },
            0x91 => {
                let dat = self.regs.c;
                self.regs.a = self.sub(dat);
            },
            0x92 => {
                let dat = self.regs.d;
                self.regs.a = self.sub(dat);
            },
            0x93 => {
                let dat = self.regs.e;
                self.regs.a = self.sub(dat);
            },
            0x94 => {
                let dat = self.regs.h;
                self.regs.a = self.sub(dat);
            },
            0x95 => {
                let dat = self.regs.l;
                self.regs.a = self.sub(dat);
            },
            0x96 => {
                let addr = self.regs.get_hl();
                let dat = self.read8(addr);
                self.regs.a = self.sub(dat);
            },
            0x97 => {
                let dat = self.regs.a;
                self.regs.a = self.sub(dat);
            },
            _ => {
            },
        }
    }

    #[verifier::rlimit(100)]
    #[verifier::spinoff_prover]
    fn exec_alu_sbc8(&mut self, opcode: u8)
        requires
            old(self).wf(),
            0x98 <= opcode < 0xA0,
        ensures
            final(self).wf(),
            exec_ctrl_ok(*old(self), *final(self), opcode),
            alu_desc(*old(self), *final(self), opcode),
    {
        match opcode {
            0x98 => {
                let dat = self.regs.b;
                self.regs.a = self.sbc(dat);
            },
            0x99 => {
                let dat = self.regs.c;
                self.regs.a = self.sbc(dat);
            },
            0x9A => {
                let dat = self.regs.d;
                self.regs.a = self.sbc(dat);
            },
            0x9B => {
                let dat = self.regs.e;
                self.regs.a = self.sbc(dat);
            },
            0x9C => {
                let dat = self.regs.h;
                self.regs.a = self.sbc(dat);
            },
            0x9D => {
                let dat = self.regs.l;
                self.regs.a = self.sbc(dat);
            },
            0x9E => {
                let addr = self.regs.get_hl();
                let dat = self.read8(addr);
                self.regs.a = self.sbc(dat);
            },
            0x9F => {
                let dat = self.regs.a;
                self.regs.a = self.sbc(dat);
            },
            _ => {
            },
        }
    }

    fn exec_alu_sub(&mut self, opcode: u8)
        requires
            old(self).wf(),
            0x90 <= opcode < 0xA0,
        ensures
            final(self).wf(),
            exec_ctrl_ok(*old(self), *final(self), opcode),
            alu_desc(*old(self), *final(self), opcode),
    {
        if opcode < 0x98 {
            self.exec_alu_sub8(opcode);
        } else {
            self.exec_alu_sbc8(opcode);
        }
    }

    fn exec_alu_lo(&mut self, opcode: u8)
        requires
            old(self).wf(),
            0x80 <= opcode < 0xA0,
        ensures
            final(self).wf(),
            exec_ctrl_ok(*old(self), *final(self), opcode),
            alu_desc(*old(self), *final(self), opcode),
    {
        if opcode < 0x90 {
            self.exec_alu_add(opcode);
        } else {
            self.exec_alu_sub(opcode);
        }
    }

    #[verifier::rlimit(100)]
    #[verifier::spinoff_prover]
    fn exec_alu_hi(&mut self, opcode: u8)
        requires
            old(self).wf(),
            0xA0 <= opcode < 0xC0,
        ensures
            final(self).wf(),
            exec_ctrl_ok(*old(self), *final(self), opcode),
            alu_desc(*old(self), *final(self), opcode),
    {
        match opcode {
            0xA0 => {
                let dat = self.regs.b;
                self.regs.a = self.and(dat);
            },
            0xA1 => {
                let dat = self.regs.c;
                self.regs.a = self.and(dat);
            },
            0xA2 => {
                let dat = self.regs.d;
                self.regs.a = self.and(dat);
            },
            0xA3 => {
                let dat = self.regs.e;
                self.regs.a = self.and(dat);
            },
            0xA4 => {
                let dat = self.regs.h;
                self.regs.a = self.and(dat);
            },
            0xA5 => {
                let dat = self.regs.l;
                self.regs.a = self.and(dat);
            },
            0xA6 => {
                let addr = self.regs.get_hl();
                let dat = self.read8(addr);
                self.regs.a = self.and(dat);
            },
            0xA7 => {
                let dat = self.regs.a;
                self.regs.a = self.and(dat);
            },
            0xA8 => {
                let dat = self.regs.b;
                self.regs.a = self.xor(dat);
            },
            0xA9 => {
                let dat = self.regs.c;
                self.regs.a = self.xor(dat);
            },
            0xAA => {
                let dat = self.regs.d;
                self.regs.a = self.xor(dat);
            },
            0xAB => {
                let dat = self.regs.e;
                self.regs.a = self.xor(dat);
            },
            0xAC => {
                let dat = self.regs.h;
                self.regs.a = self.xor(dat);
            },
            0xAD => {
                let dat = self.regs.l;
                self.regs.a = self.xor(dat);
            },
            0xAE => {
                let addr = self.regs.get_hl();
                let dat = self.read8(addr);
                self.regs.a = self.xor(dat);
            },
            0xAF => {
                let dat = self.regs.a;
                self.regs.a = self.xor(dat);
            },
            0xB0 => {
                let dat = self.regs.b;
                self.regs.a = self.or(dat);
            },
            0xB1 => {
                let dat = self.regs.c;
                self.regs.a = self.or(dat);
            },
            0xB2 => {
                let dat = self.regs.d;
                self.regs.a = self.or(dat);
            },
            0xB3 => {
                let dat = self.regs.e;
                self.regs.a = self.or(dat);
            },
            0xB4 => {
                let dat = self.regs.h;
                self.regs.a = self.or(dat);
            },
            0xB5 => {
                let dat = self.regs.l;
                self.regs.a = self.or(dat);
            },
            0xB6 => {
                let addr = self.regs.get_hl();
                let dat = self.read8(addr);
                self.regs.a = self.or(dat);
            },
            0xB7 => {
                let dat = self.regs.a;
                self.regs.a = self.or(dat);
            },
            0xB8 => {
                let dat = self.regs.b;
                self.cp(dat);
            },
            0xB9 => {
                let dat = self.regs.c;
                self.cp(dat);
            },
            0xBA => {
                let dat = self.regs.d;
                self.cp(dat);
            },
            0xBB => {
                let dat = self.regs.e;
                self.cp(dat);
            },
            0xBC => {
                let dat = self.regs.h;
                self.cp(dat);
            },
            0xBD => {
                let dat = self.regs.l;
                self.cp(dat);
            },
            0xBE => {
                let addr = self.regs.get_hl();
                let dat = self.read8(addr);
                self.cp(dat);
            },
            0xBF => {
                let dat = self.regs.a;
                self.cp(dat);
            },
            _ => {
            },
        }
    }

    fn exec_alu(&mut self, opcode: u8)
        requires
            old(self).wf(),
            0x80 <= opcode < 0xC0,
        ensures
            final(self).wf(),
            exec_ctrl_ok(*old(self), *final(self), opcode),
            alu_desc(*old(self), *final(self), opcode),
    {
        if opcode < 0xA0 {
            self.exec_alu_lo(opcode);
        } else {
            self.exec_alu_hi(opcode);
        }
    }

    #[verifier::rlimit(100)]
    #[verifier::spinoff_prover]
    fn exec_cb_rot(&mut self, cb: u8)
        requires
            old(self).wf(),
            0x00 <= cb < 0x40,
        ensures
            final(self).wf(),
            final(self).opcode == old(self).opcode,
            final(self).cb_opcode == old(self).cb_opcode,
            final(self).debug == old(self).debug,
            final(self).ei_delay == old(self).ei_delay,
            final(self).ime == old(self).ime,
            final(self).halt == old(self).halt,
            cb_desc(*old(self), *final(self), cb),
    {
        match cb {
            0x00 => {
                let dat = self.regs.b;
                self.regs.b = self.rlc(dat);
            },
            0x01 => {
                let dat = self.regs.c;
                self.regs.c = self.rlc(dat);
            },
            0x02 => {
                let dat = self.regs.d;
                self.regs.d = self.rlc(dat);
            },
            0x03 => {
                let dat = self.regs.e;
                self.regs.e = self.rlc(dat);
            },
            0x04 => {
                let dat = self.regs.h;
                self.regs.h = self.rlc(dat);
            },
            0x05 => {
                let dat = self.regs.l;
                self.regs.l = self.rlc(dat);
            },
            0x06 => {
                let addr = self.regs.get_hl();
                let dat = self.read8(addr);
                let ret = self.rlc(dat);
                self.write8(addr, ret);
            },
            0x07 => {
                let dat = self.regs.a;
                self.regs.a = self.rlc(dat);
            },
            0x08 => {
                let dat = self.regs.b;
                self.regs.b = self.rrc(dat);
            },
            0x09 => {
                let dat = self.regs.c;
                self.regs.c = self.rrc(dat);
            },
            0x0A => {
                let dat = self.regs.d;
                self.regs.d = self.rrc(dat);
            },
            0x0B => {
                let dat = self.regs.e;
                self.regs.e = self.rrc(dat);
            },
            0x0C => {
                let dat = self.regs.h;
                self.regs.h = self.rrc(dat);
            },
            0x0D => {
                let dat = self.regs.l;
                self.regs.l = self.rrc(dat);
            },
            0x0E => {
                let addr = self.regs.get_hl();
                let dat = self.read8(addr);
                let ret = self.rrc(dat);
                self.write8(addr, ret);
            },
            0x0F => {
                let dat = self.regs.a;
                self.regs.a = self.rrc(dat);
            },
            0x10 => {
                let dat = self.regs.b;
                self.regs.b = self.rl(dat);
            },
            0x11 => {
                let dat = self.regs.c;
                self.regs.c = self.rl(dat);
            },
            0x12 => {
                let dat = self.regs.d;
                self.regs.d = self.rl(dat);
            },
            0x13 => {
                let dat = self.regs.e;
                self.regs.e = self.rl(dat);
            },
            0x14 => {
                let dat = self.regs.h;
                self.regs.h = self.rl(dat);
            },
            0x15 => {
                let dat = self.regs.l;
                self.regs.l = self.rl(dat);
            },
            0x16 => {
                let addr = self.regs.get_hl();
                let dat = self.read8(addr);
                let ret = self.rl(dat);
                self.write8(addr, ret);
            },
            0x17 => {
                let dat = self.regs.a;
                self.regs.a = self.rl(dat);
            },
            0x18 => {
                let dat = self.regs.b;
                self.regs.b = self.rr(dat);
            },
            0x19 => {
                let dat = self.regs.c;
                self.regs.c = self.rr(dat);
            },
            0x1A => {
                let dat = self.regs.d;
                self.regs.d = self.rr(dat);
            },
            0x1B => {
                let dat = self.regs.e;
                self.regs.e = self.rr(dat);
            },
            0x1C => {
                let dat = self.regs.h;
                self.regs.h = self.rr(dat);
            },
            0x1D => {
                let dat = self.regs.l;
                self.regs.l = self.rr(dat);
            },
            0x1E => {
                let addr = self.regs.get_hl();
                let dat = self.read8(addr);
                let ret = self.rr(dat);
                self.write8(addr, ret);
            },
            0x1F => {
                let dat = self.regs.a;
                self.regs.a = self.rr(dat);
            },
            0x20 => {
                let dat = self.regs.b;
                self.regs.b = self.sla(dat);
            },
            0x21 => {
                let dat = self.regs.c;
                self.regs.c = self.sla(dat);
            },
            0x22 => {
                let dat = self.regs.d;
                self.regs.d = self.sla(dat);
            },
            0x23 => {
                let dat = self.regs.e;
                self.regs.e = self.sla(dat);
            },
            0x24 => {
                let dat = self.regs.h;
                self.regs.h = self.sla(dat);
            },
            0x25 => {
                let dat = self.regs.l;
                self.regs.l = self.sla(dat);
            },
            0x26 => {
                let addr = self.regs.get_hl();
                let dat = self.read8(addr);
                let ret = self.sla(dat);
                self.write8(addr, ret);
            },
            0x27 => {
                let dat = self.regs.a;
                self.regs.a = self.sla(dat);
            },
            0x28 => {
                let dat = self.regs.b;
                self.regs.b = self.sra(dat);
            },
            0x29 => {
                let dat = self.regs.c;
                self.regs.c = self.sra(dat);
            },
            0x2A => {
                let dat = self.regs.d;
                self.regs.d = self.sra(dat);
            },
            0x2B => {
                let dat = self.regs.e;
                self.regs.e = self.sra(dat);
            },
            0x2C => {
                let dat = self.regs.h;
                self.regs.h = self.sra(dat);
            },
            0x2D => {
                let dat = self.regs.l;
                self.regs.l = self.sra(dat);
            },
            0x2E => {
                let addr = self.regs.get_hl();
                let dat = self.read8(addr);
                let ret = self.sra(dat);
                self.write8(addr, ret);
            },
            0x2F => {
                let dat = self.regs.a;
                self.regs.a = self.sra(dat);
            },
            0x30 => {
                let dat = self.regs.b;
                self.regs.b = self.swap(dat);
            },
            0x31 => {
                let dat = self.regs.c;
                self.regs.c = self.swap(dat);
            },
            0x32 => {
                let dat = self.regs.d;
                self.regs.d = self.swap(dat);
            },
            0x33 => {
                let dat = self.regs.e;
                self.regs.e = self.swap(dat);
            },
            0x34 => {
                let dat = self.regs.h;
                self.regs.h = self.swap(dat);
            },
            0x35 => {
                let dat = self.regs.l;
                self.regs.l = self.swap(dat);
            },
            0x36 => {
                let addr = self.regs.get_hl();
                let dat = self.read8(addr);
                let ret = self.swap(dat);
                self.write8(addr, ret);
            },
            0x37 => {
                let dat = self.regs.a;
                self.regs.a = self.swap(dat);
            },
            0x38 => {
                let dat = self.regs.b;
                self.regs.b = self.srl(dat);
            },
            0x39 => {
                let dat = self.regs.c;
                self.regs.c = self.srl(dat);
            },
            0x3A => {
                let dat = self.regs.d;
                self.regs.d = self.srl(dat);
            },
            0x3B => {
                let dat = self.regs.e;
                self.regs.e = self.srl(dat);
            },
            0x3C => {
                let dat = self.regs.h;
                self.regs.h = self.srl(dat);
            },
            0x3D => {
                let dat = self.regs.l;
                self.regs.l = self.srl(dat);
            },
            0x3E => {
                let addr = self.regs.get_hl();
                let dat = self.read8(addr);
                let ret = self.srl(dat);
                self.write8(addr, ret);
            },
            0x3F => {
                let dat = self.regs.a;
                self.regs.a = self.srl(dat);
            },
            _ => {
            },
        }
    }

    #[verifier::rlimit(100)]
    #[verifier::spinoff_prover]
    fn exec_cb_bit_lo(&mut self, cb: u8)
        requires
            old(self).wf(),
            0x40 <= cb < 0x60,
        ensures
            final(self).wf(),
            final(self).opcode == old(self).opcode,
            final(self).cb_opcode == old(self).cb_opcode,
            final(self).debug == old(self).debug,
            final(self).ei_delay == old(self).ei_delay,
            final(self).ime == old(self).ime,
            final(self).halt == old(self).halt,
            cb_desc(*old(self), *final(self), cb),
    {
        match cb {
            0x40 => {
                let dat = self.regs.b;
                self.bit(dat, 0);
            },
            0x41 => {
                let dat = self.regs.c;
                self.bit(dat, 0);
            },
            0x42 => {
                let dat = self.regs.d;
                self.bit(dat, 0);
            },
            0x43 => {
                let dat = self.regs.e;
                self.bit(dat, 0);
            },
            0x44 => {
                let dat = self.regs.h;
                self.bit(dat, 0);
            },
            0x45 => {
                let dat = self.regs.l;
                self.bit(dat, 0);
            },
            0x46 => {
                let addr = self.regs.get_hl();
                let dat = self.read8(addr);
                self.bit(dat, 0);
            },
            0x47 => {
                let dat = self.regs.a;
                self.bit(dat, 0);
            },
            0x48 => {
                let dat = self.regs.b;
                self.bit(dat, 1);
            },
            0x49 => {
                let dat = self.regs.c;
                self.bit(dat, 1);
            },
            0x4A => {
                let dat = self.regs.d;
                self.bit(dat, 1);
            },
            0x4B => {
                let dat = self.regs.e;
                self.bit(dat, 1);
            },
            0x4C => {
                let dat = self.regs.h;
                self.bit(dat, 1);
            },
            0x4D => {
                let dat = self.regs.l;
                self.bit(dat, 1);
            },
            0x4E => {
                let addr = self.regs.get_hl();
                let dat = self.read8(addr);
                self.bit(dat, 1);
            },
            0x4F => {
                let dat = self.regs.a;
                self.bit(dat, 1);
            },
            0x50 => {
                let dat = self.regs.b;
                self.bit(dat, 2);
            },
            0x51 => {
                let dat = self.regs.c;
                self.bit(dat, 2);
            },
            0x52 => {
                let dat = self.regs.d;
                self.bit(dat, 2);
            },
            0x53 => {
                let dat = self.regs.e;
                self.bit(dat, 2);
            },
            0x54 => {
                let dat = self.regs.h;
                self.bit(dat, 2);
            },
            0x55 => {
                let dat = self.regs.l;
                self.bit(dat, 2);
            },
            0x56 => {
                let addr = self.regs.get_hl();
                let dat = self.read8(addr);
                self.bit(dat, 2);
            },
            0x57 => {
                let dat = self.regs.a;
                self.bit(dat, 2);
            },
            0x58 => {
                let dat = self.regs.b;
                self.bit(dat, 3);
            },
            0x59 => {
                let dat = self.regs.c;
                self.bit(dat, 3);
            },
            0x5A => {
                let dat = self.regs.d;
                self.bit(dat, 3);
            },
            0x5B => {
                let dat = self.regs.e;
                self.bit(dat, 3);
            },
            0x5C => {
                let dat = self.regs.h;
                self.bit(dat, 3);
            },
            0x5D => {
                let dat = self.regs.l;
                self.bit(dat, 3);
            },
            0x5E => {
                let addr = self.regs.get_hl();
                let dat = self.read8(addr);
                self.bit(dat, 3);
            },
            0x5F => {
                let dat = self.regs.a;
                self.bit(dat, 3);
            },
            _ => {
            },
        }
    }

    #[verifier::rlimit(100)]
    #[verifier::spinoff_prover]
    fn exec_cb_bit_hi(&mut self, cb: u8)
        requires
            old(self).wf(),
            0x60 <= cb < 0x80,
        ensures
            final(self).wf(),
            final(self).opcode == old(self).opcode,
            final(self).cb_opcode == old(self).cb_opcode,
            final(self).debug == old(self).debug,
            final(self).ei_delay == old(self).ei_delay,
            final(self).ime == old(self).ime,
            final(self).halt == old(self).halt,
            cb_desc(*old(self), *final(self), cb),
    {
        match cb {
            0x60 => {
                let dat = self.regs.b;
                self.bit(dat, 4);
            },
            0x61 => {
                let dat = self.regs.c;
                self.bit(dat, 4);
            },
            0x62 => {
                let dat = self.regs.d;
                self.bit(dat, 4);
            },
            0x63 => {
                let dat = self.regs.e;
                self.bit(dat, 4);
            },
            0x64 => {
                let dat = self.regs.h;
                self.bit(dat, 4);
            },
            0x65 => {
                let dat = self.regs.l;
                self.bit(dat, 4);
            },
            0x66 => {
                let addr = self.regs.get_hl();
                let dat = self.read8(addr);
                self.bit(dat, 4);
            },
            0x67 => {
                let dat = self.regs.a;
                self.bit(dat, 4);
            },
            0x68 => {
                let dat = self.regs.b;
                self.bit(dat, 5);
            },
            0x69 => {
                let dat = self.regs.c;
                self.bit(dat, 5);
            },
            0x6A => {
                let dat = self.regs.d;
                self.bit(dat, 5);
            },
            0x6B => {
                let dat = self.regs.e;
                self.bit(dat, 5);
            },
            0x6C => {
                let dat = self.regs.h;
                self.bit(dat, 5);
            },
            0x6D => {
                let dat = self.regs.l;
                self.bit(dat, 5);
            },
            0x6E => {
                let addr = self.regs.get_hl();
                let dat = self.read8(addr);
                self.bit(dat, 5);
            },
            0x6F => {
                let dat = self.regs.a;
                self.bit(dat, 5);
            },
            0x70 => {
                let dat = self.regs.b;
                self.bit(dat, 6);
            },
            0x71 => {
                let dat = self.regs.c;
                self.bit(dat, 6);
            },
            0x72 => {
                let dat = self.regs.d;
                self.bit(dat, 6);
            },
            0x73 => {
                let dat = self.regs.e;
                self.bit(dat, 6);
            },
            0x74 => {
                let dat = self.regs.h;
                self.bit(dat, 6);
            },
            0x75 => {
                let dat = self.regs.l;
                self.bit(dat, 6);
            },
            0x76 => {
                let addr = self.regs.get_hl();
                let dat = self.read8(addr);
                self.bit(dat, 6);
            },
            0x77 => {
                let dat = self.regs.a;
                self.bit(dat, 6);
            },
            0x78 => {
                let dat = self.regs.b;
                self.bit(dat, 7);
            },
            0x79 => {
                let dat = self.regs.c;
                self.bit(dat, 7);
            },
            0x7A => {
                let dat = self.regs.d;
                self.bit(dat, 7);
            },
            0x7B => {
                let dat = self.regs.e;
                self.bit(dat, 7);
            },
            0x7C => {
                let dat = self.regs.h;
                self.bit(dat, 7);
            },
            0x7D => {
                let dat = self.regs.l;
                self.bit(dat, 7);
            },
            0x7E => {
                let addr = self.regs.get_hl();
                let dat = self.read8(addr);
                self.bit(dat, 7);
            },
            0x7F => {
                let dat = self.regs.a;
                self.bit(dat, 7);
            },
            _ => {
            },
        }
    }

    fn exec_cb_bit(&mut self, cb: u8)
        requires
            old(self).wf(),
            0x40 <= cb < 0x80,
        ensures
            final(self).wf(),
            final(self).opcode == old(self).opcode,
            final(self).cb_opcode == old(self).cb_opcode,
            final(self).debug == old(self).debug,
            final(self).ei_delay == old(self).ei_delay,
            final(self).ime == old(self).ime,
            final(self).halt == old(self).halt,
            cb_desc(*old(self), *final(self), cb),
    {
        if cb < 0x60 {
            self.exec_cb_bit_lo(cb);
        } else {
            self.exec_cb_bit_hi(cb);
        }
    }

    #[verifier::rlimit(100)]
    #[verifier::spinoff_prover]
    fn exec_cb_res(&mut self, cb: u8)
        requires
            old(self).wf(),
            0x80 <= cb < 0xC0,
        ensures
            final(self).wf(),
            final(self).opcode == old(self).opcode,
            final(self).cb_opcode == old(self).cb_opcode,
            final(self).debug == old(self).debug,
            final(self).ei_delay == old(self).ei_delay,
            final(self).ime == old(self).ime,
            final(self).halt == old(self).halt,
            cb_desc(*old(self), *final(self), cb),
    {
        match cb {
            0x80 => {
                self.regs.b = self.regs.b & 0xFEu8;
            },
            0x81 => {
                self.regs.c = self.regs.c & 0xFEu8;
            },
            0x82 => {
                self.regs.d = self.regs.d & 0xFEu8;
            },
            0x83 => {
                self.regs.e = self.regs.e & 0xFEu8;
            },
            0x84 => {
                self.regs.h = self.regs.h & 0xFEu8;
            },
            0x85 => {
                self.regs.l = self.regs.l & 0xFEu8;
            },
            0x86 => {
                let addr = self.regs.get_hl();
                let dat = self.read8(addr);
                self.write8(addr, dat & 0xFEu8);
            },
            0x87 => {
                self.regs.a = self.regs.a & 0xFEu8;
            },
            0x88 => {
                self.regs.b = self.regs.b & 0xFDu8;
            },
            0x89 => {
                self.regs.c = self.regs.c & 0xFDu8;
            },
            0x8A => {
                self.regs.d = self.regs.d & 0xFDu8;
            },
            0x8B => {
                self.regs.e = self.regs.e & 0xFDu8;
            },
            0x8C => {
                self.regs.h = self.regs.h & 0xFDu8;
            },
            0x8D => {
                self.regs.l = self.regs.l & 0xFDu8;
            },
            0x8E => {
                let addr = self.regs.get_hl();
                let dat = self.read8(addr);
                self.write8(addr, dat & 0xFDu8);
            },
            0x8F => {
                self.regs.a = self.regs.a & 0xFDu8;
            },
            0x90 => {
                self.regs.b = self.regs.b & 0xFBu8;
            },
            0x91 => {
                self.regs.c = self.regs.c & 0xFBu8;
            },
            0x92 => {
                self.regs.d = self.regs.d & 0xFBu8;
            },
            0x93 => {
                self.regs.e = self.regs.e & 0xFBu8;
            },
            0x94 => {
                self.regs.h = self.regs.h & 0xFBu8;
            },
            0x95 => {
                self.regs.l = self.regs.l & 0xFBu8;
            },
            0x96 => {
                let addr = self.regs.get_hl();
                let dat = self.read8(addr);
                self.write8(addr, dat & 0xFBu8);
            },
            0x97 => {
                self.regs.a = self.regs.a & 0xFBu8;
            },
            0x98 => {
                self.regs.b = self.regs.b & 0xF7u8;
            },
            0x99 => {
                self.regs.c = self.regs.c & 0xF7u8;
            },
            0x9A => {
                self.regs.d = self.regs.d & 0xF7u8;
            },
            0x9B => {
                self.regs.e = self.regs.e & 0xF7u8;
            },
            0x9C => {
                self.regs.h = self.regs.h & 0xF7u8;
            },
            0x9D => {
                self.regs.l = self.regs.l & 0xF7u8;
            },
            0x9E => {
                let addr = self.regs.get_hl();
                let dat = self.read8(addr);
                self.write8(addr, dat & 0xF7u8);
            },
            0x9F => {
                self.regs.a = self.regs.a & 0xF7u8;
            },
            0xA0 => {
                self.regs.b = self.regs.b & 0xEFu8;
            },
            0xA1 => {
                self.regs.c = self.regs.c & 0xEFu8;
            },
            0xA2 => {
                self.regs.d = self.regs.d & 0xEFu8;
            },
            0xA3 => {
                self.regs.e = self.regs.e & 0xEFu8;
            },
            0xA4 => {
                self.regs.h = self.regs.h & 0xEFu8;
            },
            0xA5 => {
                self.regs.l = self.regs.l & 0xEFu8;
            },
            0xA6 => {
                let addr = self.regs.get_hl();
                let dat = self.read8(addr);
                self.write8(addr, dat & 0xEFu8);
            },
            0xA7 => {
                self.regs.a = self.regs.a & 0xEFu8;
            },
            0xA8 => {
                self.regs.b = self.regs.b & 0xDFu8;
            },
            0xA9 => {
                self.regs.c = self.regs.c & 0xDFu8;
            },
            0xAA => {
                self.regs.d = self.regs.d & 0xDFu8;
            },
            0xAB => {
                self.regs.e = self.regs.e & 0xDFu8;
            },
            0xAC => {
                self.regs.h = self.regs.h & 0xDFu8;
            },
            0xAD => {
                self.regs.l = self.regs.l & 0xDFu8;
            },
            0xAE => {
                let addr = self.regs.get_hl();
                let dat = self.read8(addr);
                self.write8(addr, dat & 0xDFu8);
            },
            0xAF => {
                self.regs.a = self.regs.a & 0xDFu8;
            },
            0xB0 => {
                self.regs.b = self.regs.b & 0xBFu8;
            },
            0xB1 => {
                self.regs.c = self.regs.c & 0xBFu8;
            },
            0xB2 => {
                self.regs.d = self.regs.d & 0xBFu8;
            },
            0xB3 => {
                self.regs.e = self.regs.e & 0xBFu8;
            },
            0xB4 => {
                self.regs.h = self.regs.h & 0xBFu8;
            },
            0xB5 => {
                self.regs.l = self.regs.l & 0xBFu8;
            },
            0xB6 => {
                let addr = self.regs.get_hl();
                let dat = self.read8(addr);
                self.write8(addr, dat & 0xBFu8);
            },
            0xB7 => {
                self.regs.a = self.regs.a & 0xBFu8;
            },
            0xB8 => {
                self.regs.b = self.regs.b & 0x7Fu8;
            },
            0xB9 => {
                self.regs.c = self.regs.c & 0x7Fu8;
            },
            0xBA => {
                self.regs.d = self.regs.d & 0x7Fu8;
            },
            0xBB => {
                self.regs.e = self.regs.e & 0x7Fu8;
            },
            0xBC => {
                self.regs.h = self.regs.h & 0x7Fu8;
            },
            0xBD => {
                self.regs.l = self.regs.l & 0x7Fu8;
            },
            0xBE => {
                let addr = self.regs.get_hl();
                let dat = self.read8(addr);
                self.write8(addr, dat & 0x7Fu8);
            },
            0xBF => {
                self.regs.a = self.regs.a & 0x7Fu8;
            },
            _ => {
            },
        }
    }

    #[verifier::rlimit(100)]
    #[verifier::spinoff_prover]
    fn exec_cb_set0(&mut self, cb: u8)
        requires
            old(self).wf(),
            0xC0 <= cb < 0xD0,
        ensures
            final(self).wf(),
            final(self).opcode == old(self).opcode,
            final(self).cb_opcode == old(self).cb_opcode,
            final(self).debug == old(self).debug,
            final(self).ei_delay == old(self).ei_delay,
            final(self).ime == old(self).ime,
            final(self).halt == old(self).halt,
            cb_desc(*old(self), *final(self), cb),
    {
        match cb {
            0xC0 => {
                self.regs.b = self.regs.b | 0x01u8;
            },
            0xC1 => {
                self.regs.c = self.regs.c | 0x01u8;
            },
            0xC2 => {
                self.regs.d = self.regs.d | 0x01u8;
            },
            0xC3 => {
                self.regs.e = self.regs.e | 0x01u8;
            },
            0xC4 => {
                self.regs.h = self.regs.h | 0x01u8;
            },
            0xC5 => {
                self.regs.l = self.regs.l | 0x01u8;
            },
            0xC6 => {
                let addr = self.regs.get_hl();
                let dat = self.read8(addr);
                self.write8(addr, dat | 0x01u8);
            },
            0xC7 => {
                self.regs.a = self.regs.a | 0x01u8;
            },
            0xC8 => {
                self.regs.b = self.regs.b | 0x02u8;
            },
            0xC9 => {
                self.regs.c = self.regs.c | 0x02u8;
            },
            0xCA => {
                self.regs.d = self.regs.d | 0x02u8;
            },
            0xCB => {
                self.regs.e = self.regs.e | 0x02u8;
            },
            0xCC => {
                self.regs.h = self.regs.h | 0x02u8;
            },
            0xCD => {
                self.regs.l = self.regs.l | 0x02u8;
            },
            0xCE => {
                let addr = self.regs.get_hl();
                let dat = self.read8(addr);
                self.write8(addr, dat | 0x02u8);
            },
            0xCF => {
                self.regs.a = self.regs.a | 0x02u8;
            },
            _ => {
            },
        }
    }

    #[verifier::rlimit(100)]
    #[verifier::spinoff_prover]
    fn exec_cb_set1(&mut self, cb: u8)
        requires
            old(self).wf(),
            0xD0 <= cb < 0xE0,
        ensures
            final(self).wf(),
            final(self).opcode == old(self).opcode,
            final(self).cb_opcode == old(self).cb_opcode,
            final(self).debug == old(self).debug,
            final(self).ei_delay == old(self).ei_delay,
            final(self).ime == old(self).ime,
            final(self).halt == old(self).halt,
            cb_desc(*old(self), *final(self), cb),
    {
        match cb {
            0xD0 => {
                self.regs.b = self.regs.b | 0x04u8;
            },
            0xD1 => {
                self.regs.c = self.regs.c | 0x04u8;
            },
            0xD2 => {
                self.regs.d = self.regs.d | 0x04u8;
            },
            0xD3 => {
                self.regs.e = self.regs.e | 0x04u8;
            },
            0xD4 => {
                self.regs.h = self.regs.h | 0x04u8;
            },
            0xD5 => {
                self.regs.l = self.regs.l | 0x04u8;
            },
            0xD6 => {
                let addr = self.regs.get_hl();
                let dat = self.read8(addr);
                self.write8(addr, dat | 0x04u8);
            },
            0xD7 => {
                self.regs.a = self.regs.a | 0x04u8;
            },
            0xD8 => {
                self.regs.b = self.regs.b | 0x08u8;
            },
            0xD9 => {
                self.regs.c = self.regs.c | 0x08u8;
            },
            0xDA => {
                self.regs.d = self.regs.d | 0x08u8;
            },
            0xDB => {
                self.regs.e = self.regs.e | 0x08u8;
            },
            0xDC => {
                self.regs.h = self.regs.h | 0x08u8;
            },
            0xDD => {
                self.regs.l = self.regs.l | 0x08u8;
            },
            0xDE => {
                let addr = self.regs.get_hl();
                let dat = self.read8(addr);
                self.write8(addr, dat | 0x08u8);
            },
            0xDF => {
                self.regs.a = self.regs.a | 0x08u8;
            },
            _ => {
            },
        }
    }

    fn exec_cb_set_lo(&mut self, cb: u8)
        requires
            old(self).wf(),
            0xC0 <= cb < 0xE0,
        ensures
            final(self).wf(),
            final(self).opcode == old(self).opcode,
            final(self).cb_opcode == old(self).cb_opcode,
            final(self).debug == old(self).debug,
            final(self).ei_delay == old(self).ei_delay,
            final(self).ime == old(self).ime,
            final(self).halt == old(self).halt,
            cb_desc(*old(self), *final(self), cb),
    {
        if cb < 0xD0 {
            self.exec_cb_set0(cb);
        } else {
            self.exec_cb_set1(cb);
        }
    }

    #[verifier::rlimit(100)]
    #[verifier::spinoff_prover]
    fn exec_cb_set_hi(&mut self, cb: u8)
        requires
            old(self).wf(),
            0xE0 <= cb,
        ensures
            final(self).wf(),
            final(self).opcode == old(self).opcode,
            final(self).cb_opcode == old(self).cb_opcode,
            final(self).debug == old(self).debug,
            final(self).ei_delay == old(self).ei_delay,
            final(self).ime == old(self).ime,
            final(self).halt == old(self).halt,
            cb_desc(*old(self), *final(self), cb),
    {
        match cb {
            0xE0 => {
                self.regs.b = self.regs.b | 0x10u8;
            },
            0xE1 => {
                self.regs.c = self.regs.c | 0x10u8;
            },
            0xE2 => {
                self.regs.d = self.regs.d | 0x10u8;
            },
            0xE3 => {
                self.regs.e = self.regs.e | 0x10u8;
            },
            0xE4 => {
                self.regs.h = self.regs.h | 0x10u8;
            },
            0xE5 => {
                self.regs.l = self.regs.l | 0x10u8;
            },
            0xE6 => {
                let addr = self.regs.get_hl();
                let dat = self.read8(addr);
                self.write8(addr, dat | 0x10u8);
            },
            0xE7 => {
                self.regs.a = self.regs.a | 0x10u8;
            },
            0xE8 => {
                self.regs.b = self.regs.b | 0x20u8;
            },
            0xE9 => {
                self.regs.c = self.regs.c | 0x20u8;
            },
            0xEA => {
                self.regs.d = self.regs.d | 0x20u8;
            },
            0xEB => {
                self.regs.e = self.regs.e | 0x20u8;
            },
            0xEC => {
                self.regs.h = self.regs.h | 0x20u8;
            },
            0xED => {
                self.regs.l = self.regs.l | 0x20u8;
            },
            0xEE => {
                let addr = self.regs.get_hl();
                let dat = self.read8(addr);
                self.write8(addr, dat | 0x20u8);
            },
            0xEF => {
                self.regs.a = self.regs.a | 0x20u8;
            },
            0xF0 => {
                self.regs.b = self.regs.b | 0x40u8;
            },
            0xF1 => {
                self.regs.c = self.regs.c | 0x40u8;
            },
            0xF2 => {
                self.regs.d = self.regs.d | 0x40u8;
            },
            0xF3 => {
                self.regs.e = self.regs.e | 0x40u8;
            },
            0xF4 => {
                self.regs.h = self.regs.h | 0x40u8;
            },
            0xF5 => {
                self.regs.l = self.regs.l | 0x40u8;
            },
            0xF6 => {
                let addr = self.regs.get_hl();
                let dat = self.read8(addr);
                self.write8(addr, dat | 0x40u8);
            },
            0xF7 => {
                self.regs.a = self.regs.a | 0x40u8;
            },
            0xF8 => {
                self.regs.b = self.regs.b | 0x80u8;
            },
            0xF9 => {
                self.regs.c = self.regs.c | 0x80u8;
            },
            0xFA => {
                self.regs.d = self.regs.d | 0x80u8;
            },
            0xFB => {
                self.regs.e = self.regs.e | 0x80u8;
            },
            0xFC => {
                self.regs.h = self.regs.h | 0x80u8;
            },
            0xFD => {
                self.regs.l = self.regs.l | 0x80u8;
            },
            0xFE => {
                let addr = self.regs.get_hl();
                let dat = self.read8(addr);
                self.write8(addr, dat | 0x80u8);
            },
            0xFF => {
                self.regs.a = self.regs.a | 0x80u8;
            },
            _ => {
            },
        }
    }

    fn exec_cb_set(&mut self, cb: u8)
        requires
            old(self).wf(),
            0xC0 <= cb,
        ensures
            final(self).wf(),
            final(self).opcode == old(self).opcode,
            final(self).cb_opcode == old(self).cb_opcode,
            final(self).debug == old(self).debug,
            final(self).ei_delay == old(self).ei_delay,
            final(self).ime == old(self).ime,
            final(self).halt == old(self).halt,
            cb_desc(*old(self), *final(self), cb),
    {
        if cb < 0xE0 {
            self.exec_cb_set_lo(cb);
        } else {
            self.exec_cb_set_hi(cb);
        }
    }

    /// Fetches the second opcode byte and dispatches through the
    /// CB-prefixed table of rotate, shift, swap, bit-test, reset and
    /// set instructions.
    #[verifier::rlimit(100)]
    #[verifier::spinoff_prover]
    pub fn prefix_cb(&mut self)
        requires
            old(self).wf(),
        ensures
            final(self).wf(),
            final(self).opcode == old(self).opcode,
            final(self).cb_opcode == old(self).mmc.read_spec(old(self).regs.pc),
            final(self).debug == old(self).debug,
            final(self).ei_delay == old(self).ei_delay,
            final(self).ime == old(self).ime,
            final(self).halt == old(self).halt,
            ({
                let cb = old(self).mmc.read_spec(old(self).regs.pc);
                let s = CPU {
                    regs: Register { pc: wrap16(old(self).regs.pc + 1), ..old(self).regs },
                    cb_opcode: cb,
                    ..*old(self)
                };
                cb_desc(s, *final(self), cb)
            }),
    {
        let cb = self.read8(self.regs.pc);
        self.cb_opcode = cb;
        self.regs.pc = self.regs.pc.wrapping_add(1);
        if cb < 0x40 {
            self.exec_cb_rot(cb);
        } else if cb < 0x80 {
            self.exec_cb_bit(cb);
        } else if cb < 0xC0 {
            self.exec_cb_res(cb);
        } else {
            self.exec_cb_set(cb);
        }
    }
}

impl CPU {
    #[verifier::rlimit(100)]
    #[verifier::spinoff_prover]
    fn exec_misc_0_a(&mut self, opcode: u8)
        requires
            old(self).wf(),
            0x00 <= opcode < 0x08,
        ensures
            final(self).wf(),
            exec_ctrl_ok(*old(self), *final(self), opcode),
            misc_desc_0a(*old(self), *final(self), opcode),
    {
        match opcode {
            0x00 => {
            },
            0x01 => {
                let dat = self.imm16();
                self.regs.set_bc(dat);
            },
            0x02 => {
                let addr = self.regs.get_bc();
                let dat = self.regs.a;
                self.write8(addr, dat);
            },
            0x03 => {
                let v = self.regs.get_bc().wrapping_add(1);
                self.regs.set_bc(v);
            },
            0x04 => {
                let v = self.regs.b;
                self.regs.b = self.inc(v);
            },
            0x05 => {
                let v = self.regs.b;
                self.regs.b = self.dec(v);
            },
            0x06 => {
                self.regs.b = self.imm8();
            },
            0x07 => {
                let v = self.regs.a;
                self.regs.a = self.rlc(v);
                self.regs.set_z(false);
            },
            _ => {
            },
        }
    }

    #[verifier::rlimit(100)]
    #[verifier::spinoff_prover]
    fn exec_misc_0_b_lo(&mut self, opcode: u8)
        requires
            old(self).wf(),
            0x08 <= opcode < 0x0C,
        ensures
            final(self).wf(),
            exec_ctrl_ok(*old(self), *final(self), opcode),
            misc_desc_0b_p(*old(self), *final(self), opcode),
    {
        match opcode {
            0x08 => {
                let addr = self.imm16();
                let sp = self.regs.sp;
                self.write16(addr, sp);
            },
            0x09 => {
                let v = self.regs.get_bc();
                self.add_hl(v);
            },
            0x0A => {
                let addr = self.regs.get_bc();
                self.regs.a = self.read8(addr);
            },
            0x0B => {
                let v = self.regs.get_bc().wrapping_sub(1);
                self.regs.set_bc(v);
            },
            _ => {
            },
        }
    }

    #[verifier::rlimit(100)]
    #[verifier::spinoff_prover]
    fn exec_misc_0_b_hi(&mut self, opcode: u8)
        requires
            old(self).wf(),
            0x0C <= opcode < 0x10,
        ensures
            final(self).wf(),
            exec_ctrl_ok(*old(self), *final(self), opcode),
            misc_desc_0b(*old(self), *final(self), opcode),
    {
        match opcode {
            0x0C => {
                let v = self.regs.c;
                self.regs.c = self.inc(v);
            },
            0x0D => {
                let v = self.regs.c;
                self.regs.c = self.dec(v);
            },
            0x0E => {
                self.regs.c = self.imm8();
            },
            0x0F => {
                let v = self.regs.a;
                self.regs.a = self.rrc(v);
                self.regs.set_z(false);
            },
            _ => {
            },
        }
    }

    fn exec_misc_0_b(&mut self, opcode: u8)
        requires
            old(self).wf(),
            0x08 <= opcode < 0x10,
        ensures
            final(self).wf(),
            exec_ctrl_ok(*old(self), *final(self), opcode),
            misc_desc_0b(*old(self), *final(self), opcode),
    {
        if opcode < 0x0C {
            self.exec_misc_0_b_lo(opcode);
        } else {
            self.exec_misc_0_b_hi(opcode);
        }
    }

    fn exec_misc_0(&mut self, opcode: u8)
        requires
            old(self).wf(),
            0x00 <= opcode < 0x10,
        ensures
            final(self).wf(),
            exec_ctrl_ok(*old(self), *final(self), opcode),
            misc_desc_0(*old(self), *final(self), opcode),
    {
        if opcode < 0x08 {
            self.exec_misc_0_a(opcode);
        } else {
            self.exec_misc_0_b(opcode);
        }
    }

    #[verifier::rlimit(100)]
    #[verifier::spinoff_prover]
    fn exec_misc_1_a(&mut self, opcode: u8)
        requires
            old(self).wf(),
            0x10 <= opcode < 0x18,
        ensures
            final(self).wf(),
            exec_ctrl_ok(*old(self), *final(self), opcode),
            misc_desc_1a(*old(self), *final(self), opcode),
    {
        match opcode {
            0x10 => {
            },
            0x11 => {
                let dat = self.imm16();
                self.regs.set_de(dat);
            },
            0x12 => {
                let addr = self.regs.get_de();
                let dat = self.regs.a;
                self.write8(addr, dat);
            },
            0x13 => {
                let v = self.regs.get_de().wrapping_add(1);
                self.regs.set_de(v);
            },
            0x14 => {
                let v = self.regs.d;
                self.regs.d = self.inc(v);
            },
            0x15 => {
                let v = self.regs.d;
                self.regs.d = self.dec(v);
            },
            0x16 => {
                self.regs.d = self.imm8();
            },
            0x17 => {
                let v = self.regs.a;
                self.regs.a = self.rl(v);
                self.regs.set_z(false);
            },
            _ => {
            },
        }
    }

    #[verifier::rlimit(100)]
    #[verifier::spinoff_prover]
    fn exec_misc_1_b_lo(&mut self, opcode: u8)
        requires
            old(self).wf(),
            0x18 <= opcode < 0x1C,
        ensures
            final(self).wf(),
            exec_ctrl_ok(*old(self), *final(self), opcode),
            misc_desc_1b_p(*old(self), *final(self), opcode),
    {
        match opcode {
            0x18 => {
                let offset = self.imm8();
                self.jr(offset);
            },
            0x19 => {
                let v = self.regs.get_de();
                self.add_hl(v);
            },
            0x1A => {
                let addr = self.regs.get_de();
                self.regs.a = self.read8(addr);
            },
            0x1B => {
                let v = self.regs.get_de().wrapping_sub(1);
                self.regs.set_de(v);
            },
            _ => {
            },
        }
    }

    #[verifier::rlimit(100)]
    #[verifier::spinoff_prover]
    fn exec_misc_1_b_hi(&mut self, opcode: u8)
        requires
            old(self).wf(),
            0x1C <= opcode < 0x20,
        ensures
            final(self).wf(),
            exec_ctrl_ok(*old(self), *final(self), opcode),
            misc_desc_1b(*old(self), *final(self), opcode),
    {
        match opcode {
            0x1C => {
                let v = self.regs.e;
                self.regs.e = self.inc(v);
            },
            0x1D => {
                let v = self.regs.e;
                self.regs.e = self.dec(v);
            },
            0x1E => {
                self.regs.e = self.imm8();
            },
            0x1F => {
                let v = self.regs.a;
                self.regs.a = self.rr(v);
                self.regs.set_z(false);
            },
            _ => {
            },
        }
    }

    fn exec_misc_1_b(&mut self, opcode: u8)
        requires
            old(self).wf(),
            0x18 <= opcode < 0x20,
        ensures
            final(self).wf(),
            exec_ctrl_ok(*old(self), *final(self), opcode),
            misc_desc_1b(*old(self), *final(self), opcode),
    {
        if opcode < 0x1C {
            self.exec_misc_1_b_lo(opcode);
        } else {
            self.exec_misc_1_b_hi(opcode);
        }
    }

    fn exec_misc_1(&mut self, opcode: u8)
        requires
            old(self).wf(),
            0x10 <= opcode < 0x20,
        ensures
            final(self).wf(),
            exec_ctrl_ok(*old(self), *final(self), opcode),
            misc_desc_1(*old(self), *final(self), opcode),
    {
        if opcode < 0x18 {
            self.exec_misc_1_a(opcode);
        } else {
            self.exec_misc_1_b(opcode);
        }
    }

    #[verifier::rlimit(100)]
    #[verifier::spinoff_prover]
    fn exec_misc_2_a(&mut self, opcode: u8)
        requires
            old(self).wf(),
            0x20 <= opcode < 0x28,
        ensures
            final(self).wf(),
            exec_ctrl_ok(*old(self), *final(self), opcode),
            misc_desc_2a(*old(self), *final(self), opcode),
    {
        match opcode {
            0x20 => {
                let offset = self.imm8();
                if !self.regs.get_z() {
                    self.jr(offset);
                }
            },
            0x21 => {
                let dat = self.imm16();
                self.regs.set_hl(dat);
            },
            0x22 => {
                let addr = self.regs.get_hl();
                let dat = self.regs.a;
                self.write8(addr, dat);
                self.regs.set_hl(addr.wrapping_add(1));
            },
            0x23 => {
                let v = self.regs.get_hl().wrapping_add(1);
                self.regs.set_hl(v);
            },
            0x24 => {
                let v = self.regs.h;
                self.regs.h = self.inc(v);
            },
            0x25 => {
                let v = self.regs.h;
                self.regs.h = self.dec(v);
            },
            0x26 => {
                self.regs.h = self.imm8();
            },
            0x27 => {
                self.daa();
            },
            _ => {
            },
        }
    }

    #[verifier::rlimit(100)]
    #[verifier::spinoff_prover]
    fn exec_misc_2_b_lo(&mut self, opcode: u8)
        requires
            old(self).wf(),
            0x28 <= opcode < 0x2C,
        ensures
            final(self).wf(),
            exec_ctrl_ok(*old(self), *final(self), opcode),
            misc_desc_2b(*old(self), *final(self), opcode),
    {
        match opcode {
            0x28 => {
                let offset = self.imm8();
                if self.regs.get_z() {
                    self.jr(offset);
                }
            },
            0x29 => {
                let v = self.regs.get_hl();
                self.add_hl(v);
            },
            0x2A => {
                let addr = self.regs.get_hl();
                self.regs.a = self.read8(addr);
                self.regs.set_hl(addr.wrapping_add(1));
            },
            0x2B => {
                let v = self.regs.get_hl().wrapping_sub(1);
                self.regs.set_hl(v);
            },
            _ => {
            },
        }
    }

    #[verifier::rlimit(100)]
    #[verifier::spinoff_prover]
    fn exec_misc_2_b_hi(&mut self, opcode: u8)
        requires
            old(self).wf(),
            0x2C <= opcode < 0x30,
        ensures
            final(self).wf(),
            exec_ctrl_ok(*old(self), *final(self), opcode),
            misc_desc_2b(*old(self), *final(self), opcode),
    {
        match opcode {
            0x2C => {
                let v = self.regs.l;
                self.regs.l = self.inc(v);
            },
            0x2D => {
                let v = self.regs.l;
                self.regs.l = self.dec(v);
            },
            0x2E => {
                self.regs.l = self.imm8();
            },
            0x2F => {
                self.regs.a = !self.regs.a;
                self.regs.set_n(true);
                self.regs.set_h(true);
            },
            _ => {
            },
        }
    }

    fn exec_misc_2_b(&mut self, opcode: u8)
        requires
            old(self).wf(),
            0x28 <= opcode < 0x30,
        ensures
            final(self).wf(),
            exec_ctrl_ok(*old(self), *final(self), opcode),
            misc_desc_2b(*old(self), *final(self), opcode),
    {
        if opcode < 0x2C {
            self.exec_misc_2_b_lo(opcode);
        } else {
            self.exec_misc_2_b_hi(opcode);
        }
    }

    fn exec_misc_2(&mut self, opcode: u8)
        requires
            old(self).wf(),
            0x20 <= opcode < 0x30,
        ensures
            final(self).wf(),
            exec_ctrl_ok(*old(self), *final(self), opcode),
            misc_desc_2(*old(self), *final(self), opcode),
    {
        if opcode < 0x28 {
            self.exec_misc_2_a(opcode);
        } else {
            self.exec_misc_2_b(opcode);
        }
    }

    #[verifier::rlimit(100)]
    #[verifier::spinoff_prover]
    fn exec_misc_3(&mut self, opcode: u8)
        requires
            old(self).wf(),
            0x30 <= opcode < 0x40,
        ensures
            final(self).wf(),
            exec_ctrl_ok(*old(self), *final(self), opcode),
            misc_desc_3(*old(self), *final(self), opcode),
    {
        match opcode {
            0x30 => {
                let offset = self.imm8();
                if !self.regs.get_c() {
                    self.jr(offset);
                }
            },
            0x31 => {
                let dat = self.imm16();
                self.regs.sp = dat;
            },
            0x32 => {
                let addr = self.regs.get_hl();
                let dat = self.regs.a;
                self.write8(addr, dat);
                self.regs.set_hl(addr.wrapping_sub(1));
            },
            0x33 => {
                self.regs.sp = self.regs.sp.wrapping_add(1);
            },
            0x34 => {
                let addr = self.regs.get_hl();
                let dat = self.read8(addr);
                let inc_dat = self.inc(dat);
                self.write8(addr, inc_dat);
            },
            0x35 => {
                let addr = self.regs.get_hl();
                let dat = self.read8(addr);
                let dec_dat = self.dec(dat);
                self.write8(addr, dec_dat);
            },
            0x36 => {
                let addr = self.regs.get_hl();
                let dat = self.imm8();
                self.write8(addr, dat);
            },
            0x37 => {
                self.regs.set_n(false);
                self.regs.set_h(false);
                self.regs.set_c(true);
            },
            0x38 => {
                let offset = self.imm8();
                if self.regs.get_c() {
                    self.jr(offset);
                }
            },
            0x39 => {
                let v = self.regs.sp;
                self.add_hl(v);
            },
            0x3A => {
                let addr = self.regs.get_hl();
                self.regs.a = self.read8(addr);
                self.regs.set_hl(addr.wrapping_sub(1));
            },
            0x3B => {
                self.regs.sp = self.regs.sp.wrapping_sub(1);
            },
            0x3C => {
                let v = self.regs.a;
                self.regs.a = self.inc(v);
            },
            0x3D => {
                let v = self.regs.a;
                self.regs.a = self.dec(v);
            },
            0x3E => {
                self.regs.a = self.imm8();
            },
            0x3F => {
                self.regs.set_n(false);
                self.regs.set_h(false);
                let c = self.regs.get_c();
                self.regs.set_c(!c);
            },
            _ => {
            },
        }
    }

    fn exec_misc(&mut self, opcode: u8)
        requires
            old(self).wf(),
            opcode < 0x40,
        ensures
            final(self).wf(),
            exec_ctrl_ok(*old(self), *final(self), opcode),
            misc_desc(*old(self), *final(self), opcode),
    {
        if opcode < 0x10 {
            self.exec_misc_0(opcode);
        } else if opcode < 0x20 {
            self.exec_misc_1(opcode);
        } else if opcode < 0x30 {
            self.exec_misc_2(opcode);
        } else {
            self.exec_misc_3(opcode);
        }
    }

    #[verifier::rlimit(100)]
    #[verifier::spinoff_prover]
    fn exec_ctrl_0_a(&mut self, opcode: u8)
        requires
            old(self).wf(),
            0xC0 <= opcode < 0xC8,
        ensures
            final(self).wf(),
            exec_ctrl_ok(*old(self), *final(self), opcode),
            ctrl_desc_0a(*old(self), *final(self), opcode),
    {
        match opcode {
            0xC0 => {
                if !self.regs.get_z() {
                    self.regs.pc = self.pop();
                }
            },
            0xC1 => {
                let dat = self.pop();
                self.regs.set_bc(dat);
            },
            0xC2 => {
                if !self.regs.get_z() {
                    self.regs.pc = self.imm16();
                } else {
                    self.regs.pc = self.regs.pc.wrapping_add(2);
                }
            },
            0xC3 => {
                self.regs.pc = self.imm16();
            },
            0xC4 => {
                if !self.regs.get_z() {
                    let dat = self.imm16();
                    let pc = self.regs.pc;
                    self.push(pc);
                    self.regs.pc = dat;
                } else {
                    self.regs.pc = self.regs.pc.wrapping_add(2);
                }
            },
            0xC5 => {
                let v = self.regs.get_bc();
                self.push(v);
            },
            0xC6 => {
                let dat = self.imm8();
                self.regs.a = self.add(dat);
            },
            0xC7 => {
                let pc = self.regs.pc;
                self.push(pc);
                self.regs.pc = 0u16;
            },
            _ => {
            },
        }
    }

    #[verifier::rlimit(100)]
    #[verifier::spinoff_prover]
    fn exec_ctrl_0_b(&mut self, opcode: u8)
        requires
            old(self).wf(),
            0xC8 <= opcode < 0xD0,
        ensures
            final(self).wf(),
            exec_ctrl_ok(*old(self), *final(self), opcode),
            ctrl_desc_0b(*old(self), *final(self), opcode),
    {
        match opcode {
            0xC8 => {
                if self.regs.get_z() {
                    self.regs.pc = self.pop();
                }
            },
            0xC9 => {
                self.regs.pc = self.pop();
            },
            0xCA => {
                if self.regs.get_z() {
                    self.regs.pc = self.imm16();
                } else {
                    self.regs.pc = self.regs.pc.wrapping_add(2);
                }
            },
            0xCB => {
                self.prefix_cb();
            },
            0xCC => {
                if self.regs.get_z() {
                    let dat = self.imm16();
                    let pc = self.regs.pc;
                    self.push(pc);
                    self.regs.pc = dat;
                } else {
                    self.regs.pc = self.regs.pc.wrapping_add(2);
                }
            },
            0xCD => {
                let dat = self.imm16();
                let pc = self.regs.pc;
                self.push(pc);
                self.regs.pc = dat;
            },
            0xCE => {
                let dat = self.imm8();
                self.regs.a = self.adc(dat);
            },
            0xCF => {
                let pc = self.regs.pc;
                self.push(pc);
                self.regs.pc = 8u16;
            },
            _ => {
            },
        }
    }

    fn exec_ctrl_0(&mut self, opcode: u8)
        requires
            old(self).wf(),
            0xC0 <= opcode < 0xD0,
        ensures
            final(self).wf(),
            exec_ctrl_ok(*old(self), *final(self), opcode),
            ctrl_desc_0(*old(self), *final(self), opcode),
    {
        if opcode < 0xC8 {
            self.exec_ctrl_0_a(opcode);
        } else {
            self.exec_ctrl_0_b(opcode);
        }
    }

    #[verifier::rlimit(100)]
    #[verifier::spinoff_prover]
    fn exec_ctrl_1(&mut self, opcode: u8)
        requires
            old(self).wf(),
            0xD0 <= opcode < 0xE0,
        ensures
            final(self).wf(),
            exec_ctrl_ok(*old(self), *final(self), opcode),
            ctrl_desc_1(*old(self), *final(self), opcode),
    {
        match opcode {
            0xD0 => {
                if !self.regs.get_c() {
                    self.regs.pc = self.pop();
                }
            },
            0xD1 => {
                let dat = self.pop();
                self.regs.set_de(dat);
            },
            0xD2 => {
                if !self.regs.get_c() {
                    self.regs.pc = self.imm16();
                } else {
                    self.regs.pc = self.regs.pc.wrapping_add(2);
                }
            },
            0xD3 => {
            },
            0xD4 => {
                if !self.regs.get_c() {
                    let dat = self.imm16();
                    let pc = self.regs.pc;
                    self.push(pc);
                    self.regs.pc = dat;
                } else {
                    self.regs.pc = self.regs.pc.wrapping_add(2);
                }
            },
            0xD5 => {
                let v = self.regs.get_de();
                self.push(v);
            },
            0xD6 => {
                let dat = self.imm8();
                self.regs.a = self.sub(dat);
            },
            0xD7 => {
                let pc = self.regs.pc;
                self.push(pc);
                self.regs.pc = 16u16;
            },
            0xD8 => {
                if self.regs.get_c() {
                    self.regs.pc = self.pop();
                }
            },
            0xD9 => {
                self.regs.pc = self.pop();
                self.ime = true;
            },
            0xDA => {
                if self.regs.get_c() {
                    self.regs.pc = self.imm16();
                } else {
                    self.regs.pc = self.regs.pc.wrapping_add(2);
                }
            },
            0xDB => {
            },
            0xDC => {
                if self.regs.get_c() {
                    let dat = self.imm16();
                    let pc = self.regs.pc;
                    self.push(pc);
                    self.regs.pc = dat;
                } else {
                    self.regs.pc = self.regs.pc.wrapping_add(2);
                }
            },
            0xDD => {
            },
            0xDE => {
                let dat = self.imm8();
                self.regs.a = self.sbc(dat);
            },
            0xDF => {
                let pc = self.regs.pc;
                self.push(pc);
                self.regs.pc = 24u16;
            },
            _ => {
            },
        }
    }

    #[verifier::rlimit(100)]
    #[verifier::spinoff_prover]
    fn exec_ctrl_2_a(&mut self, opcode: u8)
        requires
            old(self).wf(),
            0xE0 <= opcode < 0xE8,
        ensures
            final(self).wf(),
            exec_ctrl_ok(*old(self), *final(self), opcode),
            ctrl_desc_2a(*old(self), *final(self), opcode),
    {
        match opcode {
            0xE0 => {
                let dat = self.imm8();
                let addr = 0xFF00u16 + dat as u16;
                let a = self.regs.a;
                self.write8(addr, a);
            },
            0xE1 => {
                let dat = self.pop();
                self.regs.set_hl(dat);
            },
            0xE2 => {
                let addr = 0xFF00u16 + self.regs.c as u16;
                let a = self.regs.a;
                self.write8(addr, a);
            },
            0xE3 => {
            },
            0xE4 => {
            },
            0xE5 => {
                let v = self.regs.get_hl();
                self.push(v);
            },
            0xE6 => {
                let dat = self.imm8();
                self.regs.a = self.and(dat);
            },
            0xE7 => {
                let pc = self.regs.pc;
                self.push(pc);
                self.regs.pc = 32u16;
            },
            _ => {
            },
        }
    }

    #[verifier::rlimit(100)]
    #[verifier::spinoff_prover]
    fn exec_ctrl_2_b(&mut self, opcode: u8)
        requires
            old(self).wf(),
            0xE8 <= opcode < 0xF0,
        ensures
            final(self).wf(),
            exec_ctrl_ok(*old(self), *final(self), opcode),
            ctrl_desc_2b(*old(self), *final(self), opcode),
    {
        match opcode {
            0xE8 => {
                let d = self.imm8();
                let dat: u16 = if d < 128 {
                    d as u16
                } else {
                    d as u16 + 0xFF00
                };
                let sp = self.regs.sp;
                self.regs.set_z(false);
                self.regs.set_n(false);
                self.regs.set_h(sp % 16 + dat % 16 > 15);
                self.regs.set_c(sp % 256 + dat % 256 > 255);
                self.regs.sp = sp.wrapping_add(dat);
            },
            0xE9 => {
                self.regs.pc = self.regs.get_hl();
            },
            0xEA => {
                let addr = self.imm16();
                let a = self.regs.a;
                self.write8(addr, a);
            },
            0xEB => {
            },
            0xEC => {
            },
            0xED => {
            },
            0xEE => {
                let dat = self.imm8();
                self.regs.a = self.xor(dat);
            },
            0xEF => {
                let pc = self.regs.pc;
                self.push(pc);
                self.regs.pc = 40u16;
            },
            _ => {
            },
        }
    }

    fn exec_ctrl_2(&mut self, opcode: u8)
        requires
            old(self).wf(),
            0xE0 <= opcode < 0xF0,
        ensures
            final(self).wf(),
            exec_ctrl_ok(*old(self), *final(self), opcode),
            ctrl_desc_2(*old(self), *final(self), opcode),
    {
        if opcode < 0xE8 {
            self.exec_ctrl_2_a(opcode);
        } else {
            self.exec_ctrl_2_b(opcode);
        }
    }

    #[verifier::rlimit(100)]
    #[verifier::spinoff_prover]
    fn exec_ctrl_3_a(&mut self, opcode: u8)
        requires
            old(self).wf(),
            0xF0 <= opcode < 0xF8,
        ensures
            final(self).wf(),
            exec_ctrl_ok(*old(self), *final(self), opcode),
            ctrl_desc_3a(*old(self), *final(self), opcode),
    {
        match opcode {
            0xF0 => {
                let dat = self.imm8();
                let addr = 0xFF00u16 + dat as u16;
                self.regs.a = self.read8(addr);
            },
            0xF1 => {
                let dat = self.pop();
                self.regs.set_af(dat);
            },
            0xF2 => {
                let addr = 0xFF00u16 + self.regs.c as u16;
                self.regs.a = self.read8(addr);
            },
            0xF3 => {
            },
            0xF4 => {
            },
            0xF5 => {
                let v = self.regs.get_af();
                self.push(v);
            },
            0xF6 => {
                let dat = self.imm8();
                self.regs.a = self.or(dat);
            },
            0xF7 => {
                let pc = self.regs.pc;
                self.push(pc);
                self.regs.pc = 48u16;
            },
            _ => {
            },
        }
    }

    #[verifier::rlimit(100)]
    #[verifier::spinoff_prover]
    fn exec_ctrl_3_b_lo(&mut self, opcode: u8)
        requires
            old(self).wf(),
            0xF8 <= opcode < 0xFC,
        ensures
            final(self).wf(),
            exec_ctrl_ok(*old(self), *final(self), opcode),
            ctrl_desc_3b(*old(self), *final(self), opcode),
    {
        match opcode {
            0xF8 => {
                let d = self.imm8();
                let dat: u16 = if d < 128 {
                    d as u16
                } else {
                    d as u16 + 0xFF00
                };
                let sp = self.regs.sp;
                self.regs.set_z(false);
                self.regs.set_n(false);
                self.regs.set_h(sp % 16 + dat % 16 > 15);
                self.regs.set_c(sp % 256 + dat % 256 > 255);
                self.regs.set_hl(sp.wrapping_add(dat));
            },
            0xF9 => {
                self.regs.sp = self.regs.get_hl();
            },
            0xFA => {
                let addr = self.imm16();
                self.regs.a = self.read8(addr);
            },
            0xFB => {
            },
            _ => {
            },
        }
    }

    #[verifier::rlimit(100)]
    #[verifier::spinoff_prover]
    fn exec_ctrl_3_b_hi(&mut self, opcode: u8)
        requires
            old(self).wf(),
            0xFC <= opcode,
        ensures
            final(self).wf(),
            exec_ctrl_ok(*old(self), *final(self), opcode),
            ctrl_desc_3b(*old(self), *final(self), opcode),
    {
        match opcode {
            0xFC => {
            },
            0xFD => {
            },
            0xFE => {
                let dat = self.imm8();
                self.cp(dat);
            },
            0xFF => {
                let pc = self.regs.pc;
                self.push(pc);
                self.regs.pc = 56u16;
            },
            _ => {
            },
        }
    }

    fn exec_ctrl_3_b(&mut self, opcode: u8)
        requires
            old(self).wf(),
            0xF8 <= opcode,
        ensures
            final(self).wf(),
            exec_ctrl_ok(*old(self), *final(self), opcode),
            ctrl_desc_3b(*old(self), *final(self), opcode),
    {
        if opcode < 0xFC {
            self.exec_ctrl_3_b_lo(opcode);
        } else {
            self.exec_ctrl_3_b_hi(opcode);
        }
    }

    fn exec_ctrl_3(&mut self, opcode: u8)
        requires
            old(self).wf(),
            0xF0 <= opcode,
        ensures
            final(self).wf(),
            exec_ctrl_ok(*old(self), *final(self), opcode),
            ctrl_desc_3(*old(self), *final(self), opcode),
    {
        if opcode < 0xF8 {
            self.exec_ctrl_3_a(opcode);
        } else {
            self.exec_ctrl_3_b(opcode);
        }
    }

    fn exec_ctrl(&mut self, opcode: u8)
        requires
            old(self).wf(),
            opcode >= 0xC0,
        ensures
            final(self).wf(),
            exec_ctrl_ok(*old(self), *final(self), opcode),
            ctrl_desc(*old(self), *final(self), opcode),
    {
        if opcode < 0xD0 {
            self.exec_ctrl_0(opcode);
        } else if opcode < 0xE0 {
            self.exec_ctrl_1(opcode);
        } else if opcode < 0xF0 {
            self.exec_ctrl_2(opcode);
        } else {
            self.exec_ctrl_3(opcode);
        }
    }
}


impl CPU {
    fn cycles_of(op: u8) -> (r: u32)
        ensures
            r == cycles_spec(op),
            r <= 6,
    {
    if op == 0xCB || op == 0xD3 || op == 0xDB || op == 0xDD || op == 0xE3 || op == 0xE4 || op == 0xEB || op == 0xEC || op == 0xED || op == 0xF4 || op == 0xFC || op == 0xFD {
        0u32
    } else if op == 0x08 {
        5u32
    } else if op == 0xCD {
        6u32
    } else if op == 0xC3 || op == 0xC5 || op == 0xC7 || op == 0xC9 || op == 0xCF || op == 0xD5 || op == 0xD7 || op == 0xD9 || op == 0xDF || op == 0xE5 || op == 0xE7 || op == 0xE8 || op == 0xEA || op == 0xEF || op == 0xF5 || op == 0xF7 || op == 0xFA || op == 0xFF {
        4u32
    } else if op == 0x01 || op == 0x11 || op == 0x18 || op == 0x21 || op == 0x31 || op == 0x34 || op == 0x35 || op == 0x36 || op == 0xC1 || op == 0xC2 || op == 0xC4 || op == 0xCA || op == 0xCC || op == 0xD1 || op == 0xD2 || op == 0xD4 || op == 0xDA || op == 0xDC || op == 0xE0 || op == 0xE1 || op == 0xF0 || op == 0xF1 || op == 0xF8 {
        3u32
    } else if op == 0x02 || op == 0x03 || op == 0x06 || op == 0x09 || op == 0x0A || op == 0x0B || op == 0x0E || op == 0x12 || op == 0x13 || op == 0x16 || op == 0x19 || op == 0x1A || op == 0x1B || op == 0x1E || op == 0x20 || op == 0x22 || op == 0x23 || op == 0x26 || op == 0x28 || op == 0x29 || op == 0x2A || op == 0x2B || op == 0x2E || op == 0x30 || op == 0x32 || op == 0x33 || op == 0x38 || op == 0x39 || op == 0x3A || op == 0x3B || op == 0x3E || op == 0x46 || op == 0x4E || op == 0x56 || op == 0x5E || op == 0x66 || op == 0x6E || op == 0x70 || op == 0x71 || op == 0x72 || op == 0x73 || op == 0x74 || op == 0x75 || op == 0x77 || op == 0x7E || op == 0x86 || op == 0x8E || op == 0x96 || op == 0x9E || op == 0xA6 || op == 0xAE || op == 0xB6 || op == 0xBE || op == 0xC0 || op == 0xC6 || op == 0xC8 || op == 0xCE || op == 0xD0 || op == 0xD6 || op == 0xD8 || op == 0xDE || op == 0xE2 || op == 0xE6 || op == 0xEE || op == 0xF2 || op == 0xF6 || op == 0xF9 || op == 0xFE {
        2u32
    } else {
        1u32
    }
    }

    fn cycles_branched_of(op: u8) -> (r: u32)
        ensures
            r == cycles_branched_spec(op),
            r <= 6,
    {
        if op == 0x20 || op == 0x28 || op == 0x30 || op == 0x38 {
            3
        } else if op == 0xC0 || op == 0xC8 || op == 0xD0 || op == 0xD8 {
            5
        } else if op == 0xC2 || op == 0xCA || op == 0xD2 || op == 0xDA {
            4
        } else if op == 0xC4 || op == 0xCC || op == 0xD4 || op == 0xDC {
            6
        } else {
            Self::cycles_of(op)
        }
    }

    fn cb_cycles_of(op: u8) -> (r: u32)
        ensures
            r == cb_cycles_spec(op),
            r <= 6,
    {
        if op % 8 == 6 {
            if 0x40 <= op && op <= 0x7F {
                3
            } else {
                4
            }
        } else {
            2
        }
    }

    /// The machine-cycle cost of the just-dispatched opcode, picking the
    /// taken or not-taken column of the table by the evaluated condition.
    pub fn branched_cycles(&self, cond: bool) -> (r: u32)
        ensures
            r == (if cond {
                cycles_branched_spec(self.opcode)
            } else {
                cycles_spec(self.opcode)
            }),
            r <= 6,
    {
        if cond {
            Self::cycles_branched_of(self.opcode)
        } else {
            Self::cycles_of(self.opcode)
        }
    }
}

/// What one non-interrupt step does to the fetch-visible state: the
/// opcode is fetched at PC; HALT stops the CPU; the master-enable pair
/// follows `ime_step` (EI delayed one instruction, DI immediate); a CB
/// prefix records its second byte; and the returned cycle count is the
/// table cost of the fetched instruction under the resulting flags.
#[verifier::opaque]
pub open spec fn fetch_exec_desc(s: CPU, e: CPU, r: u32) -> bool {
    let op = s.mmc.read_spec(s.regs.pc);
    &&& e.opcode == op
    &&& (e.ime, e.ei_delay) == ime_step(s.ime, s.ei_delay, op)
    &&& e.halt == (op == 0x76)
    &&& e.debug == s.debug
    &&& e.cb_opcode == (if op == 0xCB {
        s.mmc.read_spec(wrap16(s.regs.pc + 1))
    } else {
        s.cb_opcode
    })
    &&& r == step_cycles(op, e.cb_opcode, e.regs.zf, e.regs.cf)
    &&& ({
        // The registers and memory after the step follow the fetched
        // instruction's own description, taken from the state just past
        // the opcode byte; only the EI-delay commit (and RETI) touch
        // the master-enable pair afterwards.
        let s1 = CPU { regs: Register { pc: wrap16(s.regs.pc + 1), ..s.regs }, opcode: op, ..s };
        let e1 = CPU {
            ime: if op == 0xD9 {
                true
            } else {
                s.ime
            },
            ei_delay: s.ei_delay,
            ..e
        };
        &&& op < 0x40 ==> misc_desc(s1, e1, op)
        &&& 0x40 <= op < 0x80 ==> ld_desc(s1, e1, op)
        &&& 0x80 <= op < 0xC0 ==> alu_desc(s1, e1, op)
        &&& 0xC0 <= op ==> ctrl_desc(s1, e1, op)
    })
}

/// What one whole step does: interrupt dispatch when the master enable
/// is set and an enabled source is pending; a one-cycle idle when
/// halted with nothing pending; waking (then fetching) when halted with
/// something pending; otherwise an ordinary fetch and dispatch.
pub open spec fn step_desc(s: CPU, e: CPU, r: u32) -> bool {
    &&& e.debug == s.debug
    &&& s.ime && s.fired() != 0 ==> {
        &&& r == 5
        &&& e.regs == (Register {
            pc: int_vector(s.fired()),
            sp: wrap16(s.regs.sp - 2),
            ..s.regs
        })
        &&& writes_rel(
            s.mmc,
            e.mmc,
            seq![
                (wrap16(s.regs.sp - 1), hi8(s.regs.pc)),
                (wrap16(s.regs.sp - 2), lo8(s.regs.pc)),
                (0xFF0Fu16, s.mmc.int_flag & !int_mask_of(s.fired())),
            ],
        )
        &&& e.ime == false
        &&& e.halt == false
        &&& e.ei_delay == s.ei_delay
    }
    &&& !(s.ime && s.fired() != 0) && s.halt && s.fired() == 0 ==> r == 1 && e == s
    &&& !(s.ime && s.fired() != 0) && s.halt && s.fired() != 0 ==> fetch_exec_desc(
        CPU { halt: false, ..s },
        e,
        r,
    )
    &&& !(s.ime && s.fired() != 0) && !s.halt ==> fetch_exec_desc(s, e, r)
}

impl CPU {
    /// One step of the execution engine, returning the machine cycles it
    /// consumed.  A pending enabled interrupt with the master enable set
    /// is serviced instead of a fetch: PC is pushed, execution jumps to
    /// the highest-priority source's vector, that source's flag bit is
    /// cleared, the master enable drops, and the step costs five cycles.
    /// A halted CPU with nothing pending idles for one cycle; a pending
    /// interrupt wakes it even with the master enable off.  Otherwise one
    /// instruction is fetched, dispatched and charged its table cost.
    #[verifier::rlimit(100)]
    #[verifier::spinoff_prover]
    pub fn run(&mut self) -> (r: u32)
        requires
            old(self).wf(),
        ensures
            final(self).wf(),
            step_desc(*old(self), *final(self), r),
            r <= 6,
    {
        let hi = self.handle_interrupt();
        if hi > 0 {
            return hi;
        }
        if self.halt {
            return 1;
        }
        let op = self.imm8();
        self.opcode = op;
        let ghost s1 = *self;
        let ei_pending = self.ei_delay;
        if op < 0x40 {
            self.exec_misc(op);
        } else if op < 0x80 {
            self.exec_ld(op);
        } else if op < 0xC0 {
            self.exec_alu(op);
        } else {
            self.exec_ctrl(op);
        }
        let ghost mid = *self;
        if op == 0xFB {
            self.ei_delay = true;
        } else if op == 0xF3 {
            self.ime = false;
            self.ei_delay = false;
        } else if ei_pending {
            self.ime = true;
            self.ei_delay = false;
        }
        proof {
            reveal(fetch_exec_desc);
            let s_fetch = if old(self).halt {
                CPU { halt: false, ..*old(self) }
            } else {
                *old(self)
            };
            assert(s1 == (CPU {
                regs: Register { pc: wrap16(s_fetch.regs.pc + 1), ..s_fetch.regs },
                opcode: op,
                ..s_fetch
            }));
            assert(mid == (CPU {
                ime: if op == 0xD9 {
                    true
                } else {
                    s_fetch.ime
                },
                ei_delay: s_fetch.ei_delay,
                ..*self
            }));
        }
        let cycles: u32 = if op == 0xCB {
            Self::cb_cycles_of(self.cb_opcode)
        } else if op == 0x20 || op == 0xC2 || op == 0xC0 || op == 0xC4 {
            self.branched_cycles(!self.regs.get_z())
        } else if op == 0x28 || op == 0xCA || op == 0xC8 || op == 0xCC {
            self.branched_cycles(self.regs.get_z())
        } else if op == 0x30 || op == 0xD2 || op == 0xD0 || op == 0xD4 {
            self.branched_cycles(!self.regs.get_c())
        } else if op == 0x38 || op == 0xDA || op == 0xD8 || op == 0xDC {
            self.branched_cycles(self.regs.get_c())
        } else {
            Self::cycles_of(op)
        };
        cycles
    }
}

/// After EI immediately followed by DI, the master enable is off and no
/// delayed enable is pending, whatever the starting state: DI cancels
/// the one-instruction-delayed EI, so an interrupt raised afterwards is
/// never serviced (`run` dispatches only with the master enable set).
pub proof fn lemma_ei_then_di_blocks(ime: bool, pending: bool)
    ensures
        ({
            let s1 = ime_step(ime, pending, 0xFB);
            let s2 = ime_step(s1.0, s1.1, 0xF3);
            s2.0 == false && s2.1 == false
        }),
{
}

/// With several interrupt sources pending at once, the one that is
/// serviced is exactly the highest-priority pending one: its bit is in
/// the fired set with no lower-index bit pending, and clearing it in the
/// flag register leaves every other flag bit exactly as it was.
pub proof fn lemma_interrupt_priority(ie: u8, iff: u8)
    requires
        ie & iff & 0x1F != 0,
    ensures
        ({
            let fired = ie & iff & 0x1F;
            let m = int_mask_of(fired);
            &&& m == 1 || m == 2 || m == 4 || m == 8 || m == 16
            &&& fired & m == m
            &&& (m > 1 ==> fired % 2 == 0)
            &&& (m > 2 ==> fired % 4 == 0)
            &&& (m > 4 ==> fired % 8 == 0)
            &&& (m > 8 ==> fired % 16 == 0)
            &&& (iff & !m) & m == 0
            &&& forall|k: u8|
                k < 8 && (1u8 << k) != m ==> #[trigger] (((iff & !m) >> k) & 1) == ((iff >> k)
                    & 1)
        }),
{
    let fired = ie & iff & 0x1F;
    let m = int_mask_of(fired);
    assert(fired != 0 ==> {
        let mm = int_mask_of(fired);
        &&& mm == 1 || mm == 2 || mm == 4 || mm == 8 || mm == 16
        &&& fired & mm == mm
        &&& (mm > 1 ==> fired % 2 == 0)
        &&& (mm > 2 ==> fired % 4 == 0)
        &&& (mm > 4 ==> fired % 8 == 0)
        &&& (mm > 8 ==> fired % 16 == 0)
        &&& (iff & !mm) & mm == 0
    }) by (bit_vector)
        requires
            fired == ie & iff & 0x1F,
    ;
    assert forall|k: u8| k < 8 && (1u8 << k) != m implies #[trigger] (((iff & !m) >> k) & 1) == ((
    iff >> k) & 1) by {
        assert((m == 1 || m == 2 || m == 4 || m == 8 || m == 16) && k < 8 && (1u8 << k) != m ==> ((
        (iff & !m) >> k) & 1) == ((iff >> k) & 1)) by (bit_vector);
    }
}

/// After an interrupt dispatch whose stack writes landed in the fixed
/// work-RAM bank, reading the stacked word back yields the PC from
/// before the dispatch, and the flag register holds the value the
/// dispatch wrote.
pub proof fn lemma_pushed_return_address(m0: MMC, m3: MMC, sp: u16, pc: u16, f2: u8)
    requires
        m0.wf(),
        0xC002 <= sp,
        sp <= 0xCFFF,
        writes_rel(
            m0,
            m3,
            seq![(wrap16(sp - 1), hi8(pc)), (wrap16(sp - 2), lo8(pc)), (0xFF0Fu16, f2)],
        ),
    ensures
        m3.read_spec((sp - 2) as u16) == lo8(pc),
        m3.read_spec((sp - 1) as u16) == hi8(pc),
        m3.read_spec((sp - 2) as u16) + 256 * m3.read_spec((sp - 1) as u16) == pc,
        m3.int_flag == f2,
{
    let ws = seq![(wrap16(sp - 1), hi8(pc)), (wrap16(sp - 2), lo8(pc)), (0xFF0Fu16, f2)];
    assert(wrap16(sp - 1) == sp - 1);
    assert(wrap16(sp - 2) == sp - 2);
    let m1 = choose|mid: MMC|
        #[trigger] MMC::write_rel(m0, mid, ws[0].0, ws[0].1) && writes_rel(mid, m3, ws.skip(1));
    let ws1 = ws.skip(1);
    assert(ws1[0] == (wrap16(sp - 2), lo8(pc)));
    let m2 = choose|mid: MMC|
        #[trigger] MMC::write_rel(m1, mid, ws1[0].0, ws1[0].1) && writes_rel(mid, m3, ws1.skip(1));
    let ws2 = ws1.skip(1);
    assert(ws2[0] == (0xFF0Fu16, f2));
    let m2b = choose|mid: MMC|
        #[trigger] MMC::write_rel(m2, mid, ws2[0].0, ws2[0].1) && writes_rel(mid, m3, ws2.skip(1));
    assert(ws2.skip(1).len() == 0);
    assert(m3 == m2b);
    assert(m1.wram@ == m0.wram@.update(sp - 1 - 0xC000, hi8(pc)));
    assert(m2.wram@ == m1.wram@.update(sp - 2 - 0xC000, lo8(pc)));
    assert(m3.wram@ == m2.wram@);
    assert(m3.read_spec((sp - 2) as u16) == lo8(pc));
    assert(m3.read_spec((sp - 1) as u16) == hi8(pc));
    assert(lo8(pc) + 256 * hi8(pc) == pc);
}


/// DAA after an addition of two packed-BCD operands yields the
/// BCD-correct accumulator: the packed encoding of the decimal sum
/// modulo 100, a carry flag reporting a decimal carry, and a zero flag
/// exactly when the decimal result is zero.
pub proof fn lemma_daa_after_add(x: u8, y: u8)
    requires
        x < 100,
        y < 100,
    ensures
        ({
            let a = wrap8(bcd8(x) + bcd8(y));
            let h = bcd8(x) % 16 + bcd8(y) % 16 > 15;
            let c = bcd8(x) + bcd8(y) > 255;
            &&& daa_value(a, false, h, c) == bcd8(((x + y) % 100) as u8)
            &&& daa_carry(a, false, c) == (x + y > 99)
            &&& (daa_value(a, false, h, c) == 0 <==> (x + y) % 100 == 0)
        }),
{
    let xb = bcd8(x);
    let yb = bcd8(y);
    let s = xb + yb;
    let a = wrap8(s);
    assert(a as u16 == (xb as u16 + yb as u16) % 256);
    let h = xb % 16 + yb % 16 > 15;
    let c = s > 255;
    let t = ((x + y) % 100) as u8;
    // the DAA adjustment, spelled in machine arithmetic
    let a1: u8 = if c || a > 0x99 {
        ((a as u16 + 0x60) % 0x100) as u8
    } else {
        a
    };
    let a2: u8 = if h || a1 % 16 > 9 {
        ((a1 as u16 + 0x06) % 0x100) as u8
    } else {
        a1
    };
    assert(daa_value(a, false, h, c) == a2);
    assert({
        &&& a2 as u16 == ((t as u16) / 10) * 16 + (t as u16) % 10
        &&& (c || a > 0x99) == (x as u16 + y as u16 > 99)
        &&& (a2 == 0 <==> t == 0)
    }) by (bit_vector)
        requires
            x < 100 && y < 100 && xb as u16 == ((x as u16) / 10) * 16 + (x as u16) % 10 && yb
                as u16 == ((y as u16) / 10) * 16 + (y as u16) % 10 && a as u16 == (xb as u16 + yb
                as u16) % 256 && h == ((xb as u16) % 16 + (yb as u16) % 16 > 15) && c == (xb as u16
                + yb as u16 > 255) && t as u16 == (x as u16 + y as u16) % 100 && a1 == (if c || a
                > 0x99 {
                ((a as u16 + 0x60) % 0x100) as u8
            } else {
                a
            }) && a2 == (if h || a1 % 16 > 9 {
                ((a1 as u16 + 0x06) % 0x100) as u8
            } else {
                a1
            }),
    ;
    assert(bcd8(t) as u16 == ((t as u16) / 10) * 16 + (t as u16) % 10);
}

/// DAA after a subtraction of two packed-BCD operands yields the
/// BCD-correct accumulator: the packed encoding of the decimal
/// difference modulo 100, with the borrow flag kept and a zero flag
/// exactly when the decimal result is zero.
#[verifier::rlimit(100)]
#[verifier::spinoff_prover]
pub proof fn lemma_daa_after_sub(x: u8, y: u8)
    requires
        x < 100,
        y < 100,
    ensures
        ({
            let a = wrap8(bcd8(x) - bcd8(y));
            let h = bcd8(x) % 16 < bcd8(y) % 16;
            let c = bcd8(x) < bcd8(y);
            &&& daa_value(a, true, h, c) == bcd8(((x + 100 - y) % 100) as u8)
            &&& daa_carry(a, true, c) == (x < y)
            &&& (daa_value(a, true, h, c) == 0 <==> x == y)
        }),
{
    let xb = bcd8(x);
    let yb = bcd8(y);
    let a = wrap8(xb - yb);
    assert(a as u16 == (xb as u16 + 256 - yb as u16) % 256);
    let h = xb % 16 < yb % 16;
    let c = xb < yb;
    let t = ((x + 100 - y) % 100) as u8;
    let a1: u8 = if c {
        ((a as u16 + 0x100 - 0x60) % 0x100) as u8
    } else {
        a
    };
    let a2: u8 = if h {
        ((a1 as u16 + 0x100 - 0x06) % 0x100) as u8
    } else {
        a1
    };
    assert(daa_value(a, true, h, c) == a2);
    assert({
        &&& a2 as u16 == ((t as u16) / 10) * 16 + (t as u16) % 10
        &&& (a2 == 0 <==> x == y)
        &&& c == (x < y)
    }) by (bit_vector)
        requires
            x < 100 && y < 100 && xb as u16 == ((x as u16) / 10) * 16 + (x as u16) % 10 && yb
                as u16 == ((y as u16) / 10) * 16 + (y as u16) % 10 && a as u16 == (xb as u16 + 256
                - yb as u16) % 256 && h == ((xb as u16) % 16 < (yb as u16) % 16) && c == ((xb
                as u16) < yb as u16) && t as u16 == (x as u16 + 100 - y as u16) % 100 && a1 == (if c {
                ((a as u16 + 0x100 - 0x60) % 0x100) as u8
            } else {
                a
            }) && a2 == (if h {
                ((a1 as u16 + 0x100 - 0x06) % 0x100) as u8
            } else {
                a1
            }),
    ;
    assert(bcd8(t) as u16 == ((t as u16) / 10) * 16 + (t as u16) % 10);
}

} // verus!