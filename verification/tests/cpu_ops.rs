//! Arithmetic, flag and BCD behaviour of the execution engine.

use deepboy::cpu::CPU;
use deepboy::mmc::MMC;
use deepboy::register::Register;
use deepboy::rom::Rom;

fn blank_image() -> Vec<u8> {
    vec![0u8; 0x8000]
}

fn make_cpu(image: Vec<u8>) -> CPU {
    let rom = Rom::new(image).expect("header accepted");
    CPU::new(MMC::new(rom))
}

#[test]
fn add_sets_half_carry_and_carry_per_truth_table() {
    let mut cpu = make_cpu(blank_image());
    // 0x3A + 0xC6 = 0x100: zero result, carry out of bit 7, half-carry
    // out of bit 3.
    cpu.regs.a = 0x3A;
    let r = cpu.add(0xC6);
    assert_eq!(r, 0x00);
    assert!(cpu.regs.zf);
    assert!(!cpu.regs.nf);
    assert!(cpu.regs.hf);
    assert!(cpu.regs.cf);
    // 0x08 + 0x08 = 0x10: half-carry only.
    cpu.regs.a = 0x08;
    let r = cpu.add(0x08);
    assert_eq!(r, 0x10);
    assert!(!cpu.regs.zf && cpu.regs.hf && !cpu.regs.cf);
    // 0x80 + 0x80 = 0x100: carry only.
    cpu.regs.a = 0x80;
    let r = cpu.add(0x80);
    assert_eq!(r, 0x00);
    assert!(cpu.regs.zf && !cpu.regs.hf && cpu.regs.cf);
}

#[test]
fn sub_sets_borrow_flags() {
    let mut cpu = make_cpu(blank_image());
    // 0x10 - 0x01 borrows from bit 4.
    cpu.regs.a = 0x10;
    let r = cpu.sub(0x01);
    assert_eq!(r, 0x0F);
    assert!(!cpu.regs.zf && cpu.regs.nf && cpu.regs.hf && !cpu.regs.cf);
    // 0x00 - 0x01 borrows everywhere.
    cpu.regs.a = 0x00;
    let r = cpu.sub(0x01);
    assert_eq!(r, 0xFF);
    assert!(!cpu.regs.zf && cpu.regs.hf && cpu.regs.cf);
    // Equal operands give a zero result with no borrow.
    cpu.regs.a = 0x42;
    let r = cpu.sub(0x42);
    assert_eq!(r, 0x00);
    assert!(cpu.regs.zf && !cpu.regs.hf && !cpu.regs.cf);
}

#[test]
fn adc_and_sbc_include_the_carry() {
    let mut cpu = make_cpu(blank_image());
    cpu.regs.a = 0x0F;
    cpu.regs.cf = true;
    let r = cpu.adc(0x00);
    assert_eq!(r, 0x10);
    assert!(cpu.regs.hf && !cpu.regs.cf);
    cpu.regs.a = 0x10;
    cpu.regs.cf = true;
    let r = cpu.sbc(0x0F);
    assert_eq!(r, 0x00);
    assert!(cpu.regs.zf && cpu.regs.nf && cpu.regs.hf && !cpu.regs.cf);
}

#[test]
fn exhaustive_add_flags_match_reference() {
    // The documented truth table over all 256 x 256 operand pairs.
    let mut cpu = make_cpu(blank_image());
    for a in 0..=255u16 {
        for b in 0..=255u16 {
            cpu.regs.a = a as u8;
            let r = cpu.add(b as u8);
            let sum = a + b;
            assert_eq!(r as u16, sum % 256);
            assert_eq!(cpu.regs.zf, sum % 256 == 0);
            assert_eq!(cpu.regs.cf, sum > 0xFF);
            assert_eq!(cpu.regs.hf, (a % 16) + (b % 16) > 0xF);
            assert!(!cpu.regs.nf);
        }
    }
}

#[test]
fn exhaustive_sub_flags_match_reference() {
    let mut cpu = make_cpu(blank_image());
    for a in 0..=255u16 {
        for b in 0..=255u16 {
            cpu.regs.a = a as u8;
            let r = cpu.sub(b as u8);
            assert_eq!(r as u16, (a + 256 - b) % 256);
            assert_eq!(cpu.regs.zf, a == b);
            assert_eq!(cpu.regs.cf, a < b);
            assert_eq!(cpu.regs.hf, (a % 16) < (b % 16));
            assert!(cpu.regs.nf);
        }
    }
}

#[test]
fn daa_corrects_bcd_addition() {
    let mut cpu = make_cpu(blank_image());
    // 15 + 27 = 42 in decimal.
    cpu.regs.a = 0x15;
    cpu.regs.a = cpu.add(0x27);
    cpu.daa();
    assert_eq!(cpu.regs.a, 0x42);
    assert!(!cpu.regs.cf && !cpu.regs.zf && !cpu.regs.hf);
    // 99 + 01 = 100: zero accumulator with a decimal carry.
    cpu.regs.a = 0x99;
    cpu.regs.a = cpu.add(0x01);
    cpu.daa();
    assert_eq!(cpu.regs.a, 0x00);
    assert!(cpu.regs.cf && cpu.regs.zf);
}

#[test]
fn daa_corrects_bcd_subtraction() {
    let mut cpu = make_cpu(blank_image());
    // 20 - 13 = 07 in decimal.
    cpu.regs.a = 0x20;
    cpu.regs.a = cpu.sub(0x13);
    cpu.daa();
    assert_eq!(cpu.regs.a, 0x07);
    assert!(!cpu.regs.cf);
    // 10 - 20 = 90 with a borrow.
    cpu.regs.a = 0x10;
    cpu.regs.a = cpu.sub(0x20);
    cpu.daa();
    assert_eq!(cpu.regs.a, 0x90);
    assert!(cpu.regs.cf);
}

#[test]
fn daa_exhaustive_over_all_bcd_pairs() {
    let mut cpu = make_cpu(blank_image());
    for x in 0..100u16 {
        for y in 0..100u16 {
            let xb = ((x / 10) * 16 + x % 10) as u8;
            let yb = ((y / 10) * 16 + y % 10) as u8;
            cpu.regs.a = xb;
            cpu.regs.a = cpu.add(yb);
            cpu.daa();
            let s = x + y;
            let expect = (((s % 100) / 10) * 16 + (s % 100) % 10) as u8;
            assert_eq!(cpu.regs.a, expect);
            assert_eq!(cpu.regs.cf, s > 99);
            assert_eq!(cpu.regs.zf, s % 100 == 0);
        }
    }
}

#[test]
fn flag_setters_leave_other_flags_alone() {
    let mut cpu = make_cpu(blank_image());
    // Every one of the 16 flag-nibble states.
    for bits in 0..16u8 {
        let z = bits & 8 != 0;
        let n = bits & 4 != 0;
        let h = bits & 2 != 0;
        let c = bits & 1 != 0;
        cpu.regs.zf = z;
        cpu.regs.nf = n;
        cpu.regs.hf = h;
        cpu.regs.cf = c;
        cpu.regs.set_z(false);
        assert_eq!(cpu.regs.nf, n);
        assert_eq!(cpu.regs.hf, h);
        assert_eq!(cpu.regs.cf, c);
        cpu.regs.zf = z;
        cpu.regs.set_n(!n);
        assert_eq!(cpu.regs.zf, z);
        assert_eq!(cpu.regs.hf, h);
        assert_eq!(cpu.regs.cf, c);
        cpu.regs.set_h(!h);
        cpu.regs.set_c(!c);
        assert_eq!(cpu.regs.zf, z);
        assert_eq!(cpu.regs.nf, !n);
    }
}

#[test]
fn register_pairs_compose_and_split() {
    let mut regs = Register::new();
    regs.set_bc(0x1234);
    assert_eq!(regs.b, 0x12);
    assert_eq!(regs.c, 0x34);
    assert_eq!(regs.get_bc(), 0x1234);
    regs.set_de(0xABCD);
    assert_eq!(regs.get_de(), 0xABCD);
    regs.set_hl(0xFFFF);
    assert_eq!(regs.get_hl(), 0xFFFF);
    // The low nibble of F is discarded on load and reads back as zero.
    regs.set_af(0x12FF);
    assert_eq!(regs.a, 0x12);
    assert_eq!(regs.get_af(), 0x12F0);
    assert!(regs.zf && regs.nf && regs.hf && regs.cf);
    regs.set_af(0x0000);
    assert_eq!(regs.get_af(), 0x0000);
}

#[test]
fn rotates_and_shifts_match_reference() {
    let mut cpu = make_cpu(blank_image());
    cpu.regs.cf = false;
    assert_eq!(cpu.rlc(0x85), 0x0B);
    assert!(cpu.regs.cf);
    cpu.regs.cf = true;
    assert_eq!(cpu.rl(0x01), 0x03);
    assert!(!cpu.regs.cf);
    cpu.regs.cf = false;
    assert_eq!(cpu.rrc(0x01), 0x80);
    assert!(cpu.regs.cf);
    cpu.regs.cf = true;
    assert_eq!(cpu.rr(0x02), 0x81);
    assert!(!cpu.regs.cf);
    assert_eq!(cpu.sla(0x81), 0x02);
    assert!(cpu.regs.cf);
    assert_eq!(cpu.sra(0x81), 0xC0);
    assert!(cpu.regs.cf);
    assert_eq!(cpu.srl(0x81), 0x40);
    assert!(cpu.regs.cf);
    assert_eq!(cpu.swap(0xA5), 0x5A);
    assert!(!cpu.regs.cf);
    cpu.bit(0b0000_0100, 2);
    assert!(!cpu.regs.zf);
    cpu.bit(0b0000_0100, 3);
    assert!(cpu.regs.zf);
}

#[test]
fn inc_dec_do_not_touch_carry() {
    let mut cpu = make_cpu(blank_image());
    cpu.regs.cf = true;
    let r = cpu.inc(0x0F);
    assert_eq!(r, 0x10);
    assert!(cpu.regs.hf && cpu.regs.cf);
    let r = cpu.dec(0x10);
    assert_eq!(r, 0x0F);
    assert!(cpu.regs.hf && cpu.regs.nf && cpu.regs.cf);
    let r = cpu.inc(0xFF);
    assert_eq!(r, 0x00);
    assert!(cpu.regs.zf);
}
