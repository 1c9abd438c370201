//! CPU register file: eight 8-bit registers viewed as four 16-bit pairs,
//! the four arithmetic flags, and the 16-bit stack pointer and program
//! counter.
//!
//! The flags are stored as four independent booleans; the packed F byte
//! (flags in bits 7..4, low nibble always zero) is composed on demand, so
//! the register-file invariant "low nibble of F is zero" holds by
//! construction and touching one flag can never disturb another.

use vstd::prelude::*;

verus! {

pub struct Register {
    pub a: u8,
    pub b: u8,
    pub c: u8,
    pub d: u8,
    pub e: u8,
    pub h: u8,
    pub l: u8,
    pub sp: u16,
    pub pc: u16,
    /// Zero flag (bit 7 of F).
    pub zf: bool,
    /// Subtract flag (bit 6 of F).
    pub nf: bool,
    /// Half-carry flag (bit 5 of F).
    pub hf: bool,
    /// Carry flag (bit 4 of F).
    pub cf: bool,
}

impl Register {
    /// The packed F byte: Z, N, H, C in bits 7, 6, 5, 4; low nibble zero.
    pub open spec fn spec_f(&self) -> u8 {
        ((if self.zf {
            0x80int
        } else {
            0int
        }) + (if self.nf {
            0x40int
        } else {
            0int
        }) + (if self.hf {
            0x20int
        } else {
            0int
        }) + (if self.cf {
            0x10int
        } else {
            0int
        })) as u8
    }

    pub open spec fn spec_af(&self) -> u16 {
        (self.a * 256 + self.spec_f()) as u16
    }

    pub open spec fn spec_bc(&self) -> u16 {
        (self.b * 256 + self.c) as u16
    }

    pub open spec fn spec_de(&self) -> u16 {
        (self.d * 256 + self.e) as u16
    }

    pub open spec fn spec_hl(&self) -> u16 {
        (self.h * 256 + self.l) as u16
    }

    pub fn new() -> (r: Register)
        ensures
            r == (Register {
                a: 0u8,
                b: 0u8,
                c: 0u8,
                d: 0u8,
                e: 0u8,
                h: 0u8,
                l: 0u8,
                sp: 0u16,
                pc: 0u16,
                zf: false,
                nf: false,
                hf: false,
                cf: false,
            }),
    {
        Register {
            a: 0,
            b: 0,
            c: 0,
            d: 0,
            e: 0,
            h: 0,
            l: 0,
            sp: 0,
            pc: 0,
            zf: false,
            nf: false,
            hf: false,
            cf: false,
        }
    }

    /// The packed F byte as it appears on the stack after PUSH AF.
    pub fn get_f(&self) -> (r: u8)
        ensures
            r == self.spec_f(),
    {
        let mut f: u8 = 0;
        if self.zf {
            f += 0x80;
        }
        if self.nf {
            f += 0x40;
        }
        if self.hf {
            f += 0x20;
        }
        if self.cf {
            f += 0x10;
        }
        f
    }

    pub fn get_af(&self) -> (r: u16)
        ensures
            r == self.spec_af(),
    {
        (self.a as u16) * 256 + (self.get_f() as u16)
    }

    pub fn get_bc(&self) -> (r: u16)
        ensures
            r == self.spec_bc(),
    {
        (self.b as u16) * 256 + (self.c as u16)
    }

    pub fn get_de(&self) -> (r: u16)
        ensures
            r == self.spec_de(),
    {
        (self.d as u16) * 256 + (self.e as u16)
    }

    pub fn get_hl(&self) -> (r: u16)
        ensures
            r == self.spec_hl(),
    {
        (self.h as u16) * 256 + (self.l as u16)
    }

    /// Loads A and the flags; the low nibble of the value is discarded.
    pub fn set_af(&mut self, dat: u16)
        ensures
            *final(self) == (Register {
                a: (dat / 256) as u8,
                zf: (dat / 128) % 2 == 1,
                nf: (dat / 64) % 2 == 1,
                hf: (dat / 32) % 2 == 1,
                cf: (dat / 16) % 2 == 1,
                ..*old(self)
            }),
    {
        self.a = (dat / 256) as u8;
        self.zf = (dat / 128) % 2 == 1;
        self.nf = (dat / 64) % 2 == 1;
        self.hf = (dat / 32) % 2 == 1;
        self.cf = (dat / 16) % 2 == 1;
    }

    pub fn set_bc(&mut self, dat: u16)
        ensures
            *final(self) == (Register { b: (dat / 256) as u8, c: (dat % 256) as u8, ..*old(self) }),
    {
        self.b = (dat / 256) as u8;
        self.c = (dat % 256) as u8;
    }

    pub fn set_de(&mut self, dat: u16)
        ensures
            *final(self) == (Register { d: (dat / 256) as u8, e: (dat % 256) as u8, ..*old(self) }),
    {
        self.d = (dat / 256) as u8;
        self.e = (dat % 256) as u8;
    }

    pub fn set_hl(&mut self, dat: u16)
        ensures
            *final(self) == (Register { h: (dat / 256) as u8, l: (dat % 256) as u8, ..*old(self) }),
    {
        self.h = (dat / 256) as u8;
        self.l = (dat % 256) as u8;
    }

    pub fn get_z(&self) -> (r: bool)
        ensures
            r == self.zf,
    {
        self.zf
    }

    pub fn get_n(&self) -> (r: bool)
        ensures
            r == self.nf,
    {
        self.nf
    }

    pub fn get_h(&self) -> (r: bool)
        ensures
            r == self.hf,
    {
        self.hf
    }

    pub fn get_c(&self) -> (r: bool)
        ensures
            r == self.cf,
    {
        self.cf
    }

    /// Sets the zero flag alone; N, H and C are left untouched.
    pub fn set_z(&mut self, b: bool)
        ensures
            *final(self) == (Register { zf: b, ..*old(self) }),
    {
        self.zf = b;
    }

    /// Sets the subtract flag alone; Z, H and C are left untouched.
    pub fn set_n(&mut self, b: bool)
        ensures
            *final(self) == (Register { nf: b, ..*old(self) }),
    {
        self.nf = b;
    }

    /// Sets the half-carry flag alone; Z, N and C are left untouched.
    pub fn set_h(&mut self, b: bool)
        ensures
            *final(self) == (Register { hf: b, ..*old(self) }),
    {
        self.hf = b;
    }

    /// Sets the carry flag alone; Z, N and H are left untouched.
    pub fn set_c(&mut self, b: bool)
        ensures
            *final(self) == (Register { cf: b, ..*old(self) }),
    {
        self.cf = b;
    }
}

/// Flag setters are independent: writing one flag leaves the other three,
/// and their bits inside the packed F byte, exactly as they were.
pub proof fn lemma_flag_setter_independent(r: Register, b: bool)
    ensures
        ({
            let rz = Register { zf: b, ..r };
            &&& rz.nf == r.nf
            &&& rz.hf == r.hf
            &&& rz.cf == r.cf
            &&& rz.spec_f() % 0x80 == r.spec_f() % 0x80
        }),
        ({
            let rn = Register { nf: b, ..r };
            &&& rn.zf == r.zf
            &&& rn.hf == r.hf
            &&& rn.cf == r.cf
        }),
        ({
            let rh = Register { hf: b, ..r };
            &&& rh.zf == r.zf
            &&& rh.nf == r.nf
            &&& rh.cf == r.cf
        }),
        ({
            let rc = Register { cf: b, ..r };
            &&& rc.zf == r.zf
            &&& rc.nf == r.nf
            &&& rc.hf == r.hf
        }),
{
}

/// The low nibble of the packed F byte is always zero.
pub proof fn lemma_f_low_nibble_zero(r: Register)
    ensures
        r.spec_f() % 16 == 0,
{
}

/// Memory-mapped hardware registers, each at its architecturally fixed
/// 16-bit address.
#[allow(non_camel_case_types)]
#[derive(Clone, Copy, PartialEq, Eq, Structural, Debug)]
pub enum IoRegs {
    IE,
    IF,
    JOYP,
    DIV,
    TIMA,
    TMA,
    TAC,
    LCDC,
    TAT,
    RSCY,
    SCX,
    LY,
    LYC,
    WY,
    WX,
    DMA,
    BGP,
    OBP0,
    OBP1,
}

impl IoRegs {
    pub open spec fn spec_addr(&self) -> u16 {
        match self {
            IoRegs::IE => 0xFFFF,
            IoRegs::IF => 0xFF0F,
            IoRegs::JOYP => 0xFF00,
            IoRegs::DIV => 0xFF04,
            IoRegs::TIMA => 0xFF05,
            IoRegs::TMA => 0xFF06,
            IoRegs::TAC => 0xFF07,
            IoRegs::LCDC => 0xFF40,
            IoRegs::TAT => 0xFF41,
            IoRegs::RSCY => 0xFF42,
            IoRegs::SCX => 0xFF43,
            IoRegs::LY => 0xFF44,
            IoRegs::LYC => 0xFF45,
            IoRegs::WY => 0xFF4A,
            IoRegs::WX => 0xFF4B,
            IoRegs::DMA => 0xFF46,
            IoRegs::BGP => 0xFF47,
            IoRegs::OBP0 => 0xFF48,
            IoRegs::OBP1 => 0xFF49,
        }
    }

    /// The bus address this hardware register answers at.
    pub fn addr(&self) -> (r: u16)
        ensures
            r == self.spec_addr(),
    {
        match self {
            IoRegs::IE => 0xFFFF,
            IoRegs::IF => 0xFF0F,
            IoRegs::JOYP => 0xFF00,
            IoRegs::DIV => 0xFF04,
            IoRegs::TIMA => 0xFF05,
            IoRegs::TMA => 0xFF06,
            IoRegs::TAC => 0xFF07,
            IoRegs::LCDC => 0xFF40,
            IoRegs::TAT => 0xFF41,
            IoRegs::RSCY => 0xFF42,
            IoRegs::SCX => 0xFF43,
            IoRegs::LY => 0xFF44,
            IoRegs::LYC => 0xFF45,
            IoRegs::WY => 0xFF4A,
            IoRegs::WX => 0xFF4B,
            IoRegs::DMA => 0xFF46,
            IoRegs::BGP => 0xFF47,
            IoRegs::OBP0 => 0xFF48,
            IoRegs::OBP1 => 0xFF49,
        }
    }
}

/// The five interrupt sources, in fixed priority order (VBlank highest).
#[allow(non_camel_case_types)]
#[derive(Clone, Copy, PartialEq, Eq, Structural, Debug)]
pub enum IntFlag {
    VBLANK,
    STAT,
    TIMER,
    SERIAL,
    JOYPAD,
}

impl IntFlag {
    pub open spec fn spec_mask(&self) -> u8 {
        match self {
            IntFlag::VBLANK => 0x01,
            IntFlag::STAT => 0x02,
            IntFlag::TIMER => 0x04,
            IntFlag::SERIAL => 0x08,
            IntFlag::JOYPAD => 0x10,
        }
    }

    /// This source's bit inside the IE and IF registers.
    pub fn mask(&self) -> (r: u8)
        ensures
            r == self.spec_mask(),
    {
        match self {
            IntFlag::VBLANK => 0x01,
            IntFlag::STAT => 0x02,
            IntFlag::TIMER => 0x04,
            IntFlag::SERIAL => 0x08,
            IntFlag::JOYPAD => 0x10,
        }
    }
}

} // verus!
