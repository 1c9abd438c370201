//! Whole-machine behaviour: interrupts, bus routing, bank switching and
//! cartridge loading.

use deepboy::cpu::CPU;
use deepboy::gameboy::Gameboy;
use deepboy::joypad::Button;
use deepboy::mapper::Mapper;
use deepboy::mapper::mbc1::Mbc1;
use deepboy::mapper::nombc::NoMbc;
use deepboy::mmc::MMC;
use deepboy::rom::{CartridgeError, Rom};

fn image_with(program: &[u8]) -> Vec<u8> {
    let mut image = vec![0u8; 0x8000];
    image[..program.len()].copy_from_slice(program);
    image
}

fn make_cpu(image: Vec<u8>) -> CPU {
    let rom = Rom::new(image).expect("header accepted");
    CPU::new(MMC::new(rom))
}

#[test]
fn cartridge_load_rejects_short_images() {
    assert_eq!(
        Rom::new(vec![0u8; 0x100]).err(),
        Some(CartridgeError::ImageTooSmall)
    );
}

#[test]
fn cartridge_load_rejects_unknown_mappers() {
    let mut image = vec![0u8; 0x8000];
    image[0x147] = 5;
    assert_eq!(
        Rom::new(image).err(),
        Some(CartridgeError::UnsupportedMapper(5))
    );
}

#[test]
fn cartridge_load_accepts_plain_and_banked_headers() {
    assert!(Rom::new(vec![0u8; 0x8000]).is_ok());
    let mut image = vec![0u8; 0x8000];
    image[0x147] = 1;
    assert!(Rom::new(image).is_ok());
}

#[test]
fn interrupt_priority_and_return_address() {
    // VBlank (bit 0) and Timer (bit 2) pending at once with IME set:
    // only VBlank is serviced; its flag clears, Timer's stays; the old
    // PC is on the stack.
    let mut cpu = make_cpu(image_with(&[]));
    cpu.regs.pc = 0x1234;
    cpu.regs.sp = 0xC100;
    cpu.ime = true;
    cpu.mmc.int_enable = 0x05;
    cpu.mmc.int_flag = 0x05;
    let cycles = cpu.run();
    assert_eq!(cycles, 5);
    assert_eq!(cpu.regs.pc, 0x0040);
    assert_eq!(cpu.regs.sp, 0xC0FE);
    assert!(!cpu.ime);
    assert_eq!(cpu.mmc.int_flag, 0x04);
    assert_eq!(cpu.mmc.read(0xC0FE), 0x34);
    assert_eq!(cpu.mmc.read(0xC0FF), 0x12);
}

#[test]
fn interrupt_vectors_follow_priority_order() {
    let cases: [(u8, u16); 5] = [
        (0x01, 0x40),
        (0x02, 0x48),
        (0x04, 0x50),
        (0x08, 0x58),
        (0x10, 0x60),
    ];
    for &(bit, vector) in cases.iter() {
        let mut cpu = make_cpu(image_with(&[]));
        cpu.regs.sp = 0xC100;
        cpu.ime = true;
        cpu.mmc.int_enable = 0x1F;
        cpu.mmc.int_flag = bit;
        assert_eq!(cpu.run(), 5);
        assert_eq!(cpu.regs.pc, vector);
        assert_eq!(cpu.mmc.int_flag, 0x00);
    }
}

#[test]
fn halted_cpu_idles_then_wakes_on_pending_interrupt() {
    let mut cpu = make_cpu(image_with(&[0x00]));
    cpu.halt = true;
    cpu.ime = false;
    assert_eq!(cpu.run(), 1);
    assert!(cpu.halt);
    // A pending enabled interrupt wakes it even with IME off; the next
    // instruction executes instead of a dispatch.
    cpu.mmc.int_enable = 0x01;
    cpu.mmc.int_flag = 0x01;
    let cycles = cpu.run();
    assert!(!cpu.halt);
    assert_eq!(cycles, 1); // the NOP at PC 0
    assert_eq!(cpu.regs.pc, 1);
    assert_eq!(cpu.mmc.int_flag, 0x01); // nothing was serviced
}

#[test]
fn ei_then_di_never_services_the_interrupt() {
    // Program: EI; DI; NOP...  The interrupt triggered after DI must
    // never be serviced: EI takes effect only after the following
    // instruction, and that instruction is the DI.
    let mut cpu = make_cpu(image_with(&[0xFB, 0xF3, 0x00, 0x00]));
    cpu.ime = false;
    cpu.mmc.int_enable = 0x01;
    cpu.run(); // EI
    assert!(!cpu.ime);
    cpu.run(); // DI
    assert!(!cpu.ime);
    cpu.mmc.int_flag = 0x01; // trigger
    let cycles = cpu.run();
    assert_eq!(cycles, 1); // the NOP ran; no 5-cycle dispatch
    assert_eq!(cpu.regs.pc, 3);
    assert_eq!(cpu.mmc.int_flag, 0x01);
}

#[test]
fn ei_enables_after_one_instruction() {
    let mut cpu = make_cpu(image_with(&[0xFB, 0x00, 0x00]));
    cpu.ime = false;
    cpu.mmc.int_enable = 0x01;
    cpu.mmc.int_flag = 0x01;
    cpu.run(); // EI: still disabled during the next instruction
    assert!(!cpu.ime);
    cpu.run(); // NOP; afterwards the enable commits
    assert!(cpu.ime);
    let cycles = cpu.run();
    assert_eq!(cycles, 5);
    assert_eq!(cpu.regs.pc, 0x0040);
}

#[test]
fn banking_writes_select_the_documented_banks() {
    let rom = vec![0u8; 0x200];
    let ram = vec![0u8; 0x2000];
    let mut m = Mbc1::new(rom, ram);
    for &(written, effective) in
        [(0x00u8, 0x01u8), (0x20, 0x21), (0x40, 0x41), (0x60, 0x61)].iter()
    {
        m.write(0x2000, written);
        assert_eq!(m.rom_bank, effective);
    }
    // An ordinary five-bit value is taken as is.
    m.write(0x2000, 0x1F);
    assert_eq!(m.rom_bank, 0x1F);
}

#[test]
fn disabled_ram_reads_the_sentinel() {
    let rom = vec![0u8; 0x200];
    let ram = vec![7u8; 0x2000];
    let mut m = Mbc1::new(rom, ram);
    assert_eq!(m.read(0xA000), 0x00); // latch off: sentinel, not data
    m.write(0x0000, 0x0A);
    assert_eq!(m.read(0xA000), 0x07);
    m.write(0xA001, 0x55);
    assert_eq!(m.read(0xA001), 0x55);
    m.write(0x0000, 0x00);
    assert_eq!(m.read(0xA001), 0x00);
}

#[test]
fn banked_rom_reads_index_through_the_selected_bank() {
    let mut rom = vec![0u8; 0x4000 * 3];
    rom[0x4000] = 0xAA; // bank 1, offset 0
    rom[0x8000] = 0xBB; // bank 2, offset 0
    let mut m = Mbc1::new(rom, vec![]);
    assert_eq!(m.read(0x4000), 0xAA);
    m.write(0x2000, 0x02);
    assert_eq!(m.read(0x4000), 0xBB);
    // A bank beyond the image reads the sentinel.
    m.write(0x2000, 0x10);
    assert_eq!(m.read(0x4000), 0x00);
}

#[test]
fn plain_cartridge_reads_flat() {
    let mut data = vec![0u8; 0x8000];
    data[0x1234] = 0x99;
    let m = NoMbc::new(data);
    assert_eq!(m.read(0x1234), 0x99);
    assert_eq!(m.read(0x7FFF), 0x00);
}

#[test]
fn bus_routes_ram_echo_and_registers() {
    let mut cpu = make_cpu(image_with(&[]));
    cpu.mmc.write(0xC123, 0x5A);
    assert_eq!(cpu.mmc.read(0xC123), 0x5A);
    assert_eq!(cpu.mmc.read(0xE123), 0x5A); // echo mirrors work RAM
    cpu.mmc.write(0xFF85, 0x77);
    assert_eq!(cpu.mmc.read(0xFF85), 0x77);
    cpu.mmc.write(0xFFFF, 0x1F);
    assert_eq!(cpu.mmc.read(0xFFFF), 0x1F);
    cpu.mmc.write(0xFF0F, 0x03);
    assert_eq!(cpu.mmc.read(0xFF0F), 0x03);
    // An address with no backing hardware reads the sentinel and
    // ignores writes.
    cpu.mmc.write(0xFF30, 0xAB);
    assert_eq!(cpu.mmc.read(0xFF30), 0x00);
}

#[test]
fn oam_dma_copies_a_whole_page() {
    let mut cpu = make_cpu(image_with(&[]));
    for i in 0..0xA0u16 {
        cpu.mmc.write(0xC100 + i, i as u8 + 1);
    }
    cpu.mmc.write(0xFF46, 0xC1);
    for i in 0..0xA0u16 {
        assert_eq!(cpu.mmc.read(0xFE00 + i), i as u8 + 1);
    }
}

#[test]
fn stack_push_pop_round_trip() {
    let mut cpu = make_cpu(image_with(&[]));
    cpu.regs.sp = 0xC200;
    cpu.push(0xBEEF);
    assert_eq!(cpu.regs.sp, 0xC1FE);
    let v = cpu.pop();
    assert_eq!(v, 0xBEEF);
    assert_eq!(cpu.regs.sp, 0xC200);
}

#[test]
fn joypad_select_bits_pick_the_group() {
    let mut cpu = make_cpu(image_with(&[]));
    cpu.mmc.key_down(Button::Right);
    cpu.mmc.key_down(Button::Start);
    assert_eq!(cpu.mmc.int_flag & 0x10, 0x10);
    // Direction group selected (bit 4 low): Right held reads 0 in bit 0.
    cpu.mmc.write(0xFF00, 0x20);
    assert_eq!(cpu.mmc.read(0xFF00), 0x20 | 0b1110);
    // Action group selected (bit 5 low): Start held reads 0 in bit 3.
    cpu.mmc.write(0xFF00, 0x10);
    assert_eq!(cpu.mmc.read(0xFF00), 0x10 | 0b0111);
    cpu.mmc.key_up(Button::Right);
    cpu.mmc.write(0xFF00, 0x20);
    assert_eq!(cpu.mmc.read(0xFF00), 0x20 | 0b1111);
}

#[test]
fn gameboy_steps_and_counts_cycles() {
    let mut gb = Gameboy::new(image_with(&[0x00, 0x00])).expect("loads");
    // IME starts set with nothing pending, so the first step fetches
    // the NOP at PC 0: one machine cycle, four clock cycles.
    let cycles = gb.exec_frame();
    assert_eq!(cycles, 4);
    assert_eq!(gb.elapsed_cycles, 4);
    assert_eq!(gb.cpu.cpu.regs.pc, 1);
    assert!(!gb.frame_ready());
}

#[test]
fn gameboy_rejects_bad_cartridges() {
    assert_eq!(
        Gameboy::new(vec![0u8; 0x10]).err(),
        Some(CartridgeError::ImageTooSmall)
    );
    let mut image = vec![0u8; 0x8000];
    image[0x147] = 3;
    assert_eq!(
        Gameboy::new(image).err(),
        Some(CartridgeError::UnsupportedMapper(3))
    );
}

#[test]
fn program_with_loads_and_jumps_executes() {
    // LD A,0x0F; ADD A,0x01; LD (0xC000),A; JP 0x0000
    let mut cpu = make_cpu(image_with(&[
        0x3E, 0x0F, 0xC6, 0x01, 0xEA, 0x00, 0xC0, 0xC3, 0x00, 0x00,
    ]));
    cpu.ime = false;
    assert_eq!(cpu.run(), 2); // LD A,d8
    assert_eq!(cpu.regs.a, 0x0F);
    assert_eq!(cpu.run(), 2); // ADD A,d8
    assert_eq!(cpu.regs.a, 0x10);
    assert!(cpu.regs.hf);
    assert_eq!(cpu.run(), 4); // LD (a16),A
    assert_eq!(cpu.mmc.read(0xC000), 0x10);
    assert_eq!(cpu.run(), 4); // JP a16
    assert_eq!(cpu.regs.pc, 0x0000);
}

#[test]
fn conditional_jump_costs_differ_by_branch() {
    // JR NZ,+2 with Z clear (taken, 3 cycles) then with Z set (2).
    let mut cpu = make_cpu(image_with(&[0x20, 0x02, 0x00, 0x00, 0x20, 0x02]));
    cpu.ime = false;
    cpu.regs.zf = false;
    assert_eq!(cpu.run(), 3);
    assert_eq!(cpu.regs.pc, 4);
    cpu.regs.zf = true;
    assert_eq!(cpu.run(), 2);
    assert_eq!(cpu.regs.pc, 6);
}

#[test]
fn cb_prefix_dispatches_and_charges_cb_cost() {
    // CB 37: SWAP A.
    let mut cpu = make_cpu(image_with(&[0xCB, 0x37]));
    cpu.ime = false;
    cpu.regs.a = 0xA5;
    assert_eq!(cpu.run(), 2);
    assert_eq!(cpu.regs.a, 0x5A);
    assert_eq!(cpu.cb_opcode, 0x37);
}

#[test]
fn halt_instruction_halts() {
    let mut cpu = make_cpu(image_with(&[0x76]));
    cpu.ime = false;
    cpu.run();
    assert!(cpu.halt);
    assert_eq!(cpu.run(), 1);
}
