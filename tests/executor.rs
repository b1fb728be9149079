use gameboy_core::alu::{AluOp, RotOp};
use gameboy_core::bus::Bus;
use gameboy_core::cpu::{Cpu, CpuError};
use gameboy_core::decoder::decode;
use gameboy_core::executor::{execute_instruction, step};
use gameboy_core::flags::FlagRegister;
use gameboy_core::instruction::{Instruction, Operand8};
use gameboy_core::interrupt::InterruptId;

fn machine(program: &[u8], at: u16) -> (Cpu, Bus) {
    let mut cpu = Cpu::new(false);
    cpu.pc = at;
    cpu.sp = 0xFFFE;
    let mut bus = Bus::new();
    for (i, b) in program.iter().enumerate() {
        bus.write8(at.wrapping_add(i as u16), *b);
    }
    (cpu, bus)
}

fn flags(z: bool, n: bool, h: bool, c: bool) -> FlagRegister {
    FlagRegister { z, n, h, c }
}

#[test]
fn add_immediate_overflows_to_zero() {
    let (mut cpu, mut bus) = machine(&[0xC6, 0x01], 0x0100);
    cpu.a = 0xFF;
    assert_eq!(step(&mut cpu, &mut bus), Ok(8));
    assert_eq!(cpu.a, 0x00);
    assert_eq!(cpu.f, flags(true, false, true, true));
    assert_eq!(cpu.pc, 0x0102);
}

#[test]
fn adc_immediate_half_carry_from_carry_in() {
    let (mut cpu, mut bus) = machine(&[0xCE, 0x00], 0x0100);
    cpu.a = 0x0F;
    cpu.f.c = true;
    step(&mut cpu, &mut bus).unwrap();
    assert_eq!(cpu.a, 0x10);
    assert!(cpu.f.h);
    assert!(!cpu.f.c);
    assert!(!cpu.f.z);
    assert!(!cpu.f.n);
}

#[test]
fn sub_immediate_borrows() {
    let (mut cpu, mut bus) = machine(&[0xD6, 0x01], 0x0100);
    cpu.a = 0x00;
    step(&mut cpu, &mut bus).unwrap();
    assert_eq!(cpu.a, 0xFF);
    assert_eq!(cpu.f, flags(false, true, true, true));
}

#[test]
fn ld_hl_sp_offset_carries() {
    let (mut cpu, mut bus) = machine(&[0xF8, 0x08], 0x0100);
    cpu.sp = 0xFFF8;
    assert_eq!(step(&mut cpu, &mut bus), Ok(12));
    assert_eq!(cpu.h, 0x00);
    assert_eq!(cpu.l, 0x00);
    assert_eq!(cpu.f, flags(false, false, true, true));
    assert_eq!(cpu.sp, 0xFFF8);
}

#[test]
fn add_sp_negative_offset_is_sign_extended() {
    let (mut cpu, mut bus) = machine(&[0xE8, 0xFF], 0x0100);
    cpu.sp = 0x0001;
    assert_eq!(step(&mut cpu, &mut bus), Ok(16));
    assert_eq!(cpu.sp, 0x0000);
    assert_eq!(cpu.f, flags(false, false, true, true));
}

#[test]
fn daa_after_add_adjusts_to_zero() {
    let (mut cpu, mut bus) = machine(&[0xC6, 0x0A, 0x27], 0x0100);
    cpu.a = 0x90;
    step(&mut cpu, &mut bus).unwrap();
    assert_eq!(cpu.a, 0x9A);
    assert!(!cpu.f.h && !cpu.f.c);
    step(&mut cpu, &mut bus).unwrap();
    assert_eq!(cpu.a, 0x00);
    assert!(cpu.f.c);
    assert!(cpu.f.z);
    assert!(!cpu.f.h);
}

#[test]
fn rst_pushes_next_pc_and_jumps_to_vector() {
    let (mut cpu, mut bus) = machine(&[0xEF], 0x1234);
    assert_eq!(step(&mut cpu, &mut bus), Ok(16));
    assert_eq!(cpu.pc, 0x0028);
    assert_eq!(cpu.sp, 0xFFFC);
    assert_eq!(bus.read8(0xFFFD), 0x12);
    assert_eq!(bus.read8(0xFFFC), 0x35);
}

#[test]
fn call_then_ret_restores_pc_and_sp() {
    let (mut cpu, mut bus) = machine(&[0xCD, 0x00, 0x20], 0xC000);
    bus.write8(0x2000, 0xC9);
    assert_eq!(step(&mut cpu, &mut bus), Ok(24));
    assert_eq!(cpu.pc, 0x2000);
    assert_eq!(cpu.sp, 0xFFFC);
    assert_eq!(bus.read8(0xFFFC), 0x03);
    assert_eq!(bus.read8(0xFFFD), 0xC0);
    assert_eq!(step(&mut cpu, &mut bus), Ok(16));
    assert_eq!(cpu.pc, 0xC003);
    assert_eq!(cpu.sp, 0xFFFE);
}

#[test]
fn dispatch_serves_most_urgent_source() {
    let (mut cpu, mut bus) = machine(&[0x00], 0x0100);
    cpu.ime = true;
    bus.write8(0xFFFF, 0x05);
    bus.write8(0xFF0F, 0x05);
    assert_eq!(step(&mut cpu, &mut bus), Ok(4 + 20));
    assert_eq!(bus.interrupts().flag & 0x1F, 0x04);
    assert!(!cpu.ime);
    assert_eq!(cpu.pc, 0x0040);
    assert_eq!(cpu.sp, 0xFFFC);
    assert_eq!(bus.read8(0xFFFC), 0x01);
    assert_eq!(bus.read8(0xFFFD), 0x01);
}

#[test]
fn ei_then_di_cancels_delayed_enable() {
    let (mut cpu, mut bus) = machine(&[0xFB, 0xF3], 0x0100);
    step(&mut cpu, &mut bus).unwrap();
    assert!(!cpu.ime);
    assert_eq!(cpu.ime_counter, 1);
    step(&mut cpu, &mut bus).unwrap();
    assert!(!cpu.ime);
    assert_eq!(cpu.ime_counter, -1);
}

#[test]
fn ei_takes_effect_after_next_instruction() {
    let (mut cpu, mut bus) = machine(&[0xFB, 0x00, 0x00], 0x0100);
    step(&mut cpu, &mut bus).unwrap();
    assert!(!cpu.ime);
    step(&mut cpu, &mut bus).unwrap();
    assert!(cpu.ime);
    assert_eq!(cpu.ime_counter, 0);
    step(&mut cpu, &mut bus).unwrap();
    assert_eq!(cpu.ime_counter, -1);
}

#[test]
fn reti_returns_and_enables() {
    let (mut cpu, mut bus) = machine(&[0xD9], 0x0050);
    cpu.sp = 0xDFFC;
    bus.write8(0xDFFC, 0x34);
    bus.write8(0xDFFD, 0x12);
    assert_eq!(step(&mut cpu, &mut bus), Ok(16));
    assert_eq!(cpu.pc, 0x1234);
    assert_eq!(cpu.sp, 0xDFFE);
    assert!(cpu.ime);
}

#[test]
fn reti_lets_pending_source_fire_at_once() {
    let (mut cpu, mut bus) = machine(&[0xD9], 0x0050);
    cpu.sp = 0xDFFC;
    bus.write8(0xDFFC, 0x34);
    bus.write8(0xDFFD, 0x12);
    bus.write8(0xFFFF, 0x04);
    bus.write8(0xFF0F, 0x04);
    assert_eq!(step(&mut cpu, &mut bus), Ok(16 + 20));
    assert_eq!(cpu.pc, 0x0050);
    assert!(!cpu.ime);
    assert_eq!(cpu.sp, 0xDFFC);
    assert_eq!(bus.read8(0xDFFC), 0x34);
    assert_eq!(bus.read8(0xDFFD), 0x12);
    assert_eq!(bus.interrupts().flag & 0x1F, 0x00);
}

#[test]
fn halt_wakes_without_dispatch_when_ime_clear() {
    let (mut cpu, mut bus) = machine(&[0x76, 0x00], 0x0100);
    bus.write8(0xFFFF, 0x01);
    bus.write8(0xFF0F, 0x00);
    assert_eq!(step(&mut cpu, &mut bus), Ok(4));
    assert!(cpu.halted);
    assert_eq!(cpu.pc, 0x0101);
    assert_eq!(step(&mut cpu, &mut bus), Ok(4));
    assert!(cpu.halted);
    assert_eq!(cpu.pc, 0x0101);
    bus.request_interrupt(InterruptId::VBlankInt);
    assert_eq!(step(&mut cpu, &mut bus), Ok(4));
    assert!(!cpu.halted);
    assert_eq!(cpu.pc, 0x0101);
    assert_eq!(bus.interrupts().flag & 0x1F, 0x01);
    assert_eq!(cpu.sp, 0xFFFE);
}

#[test]
fn halt_wakes_with_dispatch_when_ime_set() {
    let (mut cpu, mut bus) = machine(&[0x76], 0x0100);
    cpu.ime = true;
    bus.write8(0xFFFF, 0x10);
    step(&mut cpu, &mut bus).unwrap();
    assert!(cpu.halted);
    bus.request_interrupt(InterruptId::JoypadInt);
    assert_eq!(step(&mut cpu, &mut bus), Ok(24));
    assert!(!cpu.halted);
    assert_eq!(cpu.pc, 0x0060);
    assert_eq!(bus.read8(0xFFFC), 0x01);
    assert_eq!(bus.read8(0xFFFD), 0x01);
}

#[test]
fn illegal_opcode_is_an_error_and_changes_nothing() {
    for op in [0xD3u8, 0xDB, 0xDD, 0xE3, 0xE4, 0xEB, 0xEC, 0xED, 0xF4, 0xFC, 0xFD] {
        let (mut cpu, mut bus) = machine(&[op], 0x0200);
        let before = cpu;
        assert_eq!(step(&mut cpu, &mut bus), Err(CpuError::IllegalOpcode(op, 0x0200)));
        assert_eq!(cpu, before);
    }
}

#[test]
fn pop_af_masks_low_nibble() {
    let (mut cpu, mut bus) = machine(&[0xF1, 0xF5], 0x0100);
    cpu.sp = 0xC000;
    bus.write8(0xC000, 0xFF);
    bus.write8(0xC001, 0x42);
    step(&mut cpu, &mut bus).unwrap();
    assert_eq!(cpu.a, 0x42);
    assert_eq!(cpu.f.value(), 0xF0);
    step(&mut cpu, &mut bus).unwrap();
    assert_eq!(bus.read8(0xC000), 0xF0);
    assert_eq!(bus.read8(0xC001), 0x42);
}

#[test]
fn flags_low_nibble_zero_after_each_instruction() {
    let program = [0x3E, 0xFF, 0xC6, 0x01, 0xD6, 0x01, 0x27, 0x2F, 0x3F, 0x37, 0x07, 0x1F];
    let (mut cpu, mut bus) = machine(&program, 0x0100);
    while cpu.pc < 0x0100 + program.len() as u16 {
        step(&mut cpu, &mut bus).unwrap();
        assert_eq!(cpu.f.value() & 0x0F, 0);
    }
}

#[test]
fn ie_and_if_read_with_high_bits_set() {
    let mut bus = Bus::new();
    assert_eq!(bus.read8(0xFFFF) & 0xE0, 0xE0);
    assert_eq!(bus.read8(0xFF0F) & 0xE0, 0xE0);
    bus.write8(0xFFFF, 0x01);
    bus.write8(0xFF0F, 0x02);
    assert_eq!(bus.read8(0xFFFF), 0xE1);
    assert_eq!(bus.read8(0xFF0F), 0xE2);
}

#[test]
fn plain_instructions_advance_pc_by_size() {
    let program = [0x06, 0x12, 0x01, 0x34, 0x12, 0x00, 0xCB, 0x37, 0x10, 0x00];
    let (mut cpu, mut bus) = machine(&program, 0x0100);
    step(&mut cpu, &mut bus).unwrap();
    assert_eq!(cpu.pc, 0x0102);
    step(&mut cpu, &mut bus).unwrap();
    assert_eq!(cpu.pc, 0x0105);
    assert_eq!((cpu.b, cpu.c), (0x12, 0x34));
    step(&mut cpu, &mut bus).unwrap();
    assert_eq!(cpu.pc, 0x0106);
    step(&mut cpu, &mut bus).unwrap();
    assert_eq!(cpu.pc, 0x0108);
    step(&mut cpu, &mut bus).unwrap();
    assert_eq!(cpu.pc, 0x010A);
}

#[test]
fn register_load_changes_only_destination() {
    let (mut cpu, mut bus) = machine(&[0x41], 0x0100);
    cpu.c = 0x99;
    cpu.f = flags(true, true, false, true);
    let before = cpu;
    assert_eq!(step(&mut cpu, &mut bus), Ok(4));
    let mut expected = before;
    expected.b = 0x99;
    expected.pc = 0x0101;
    assert_eq!(cpu, expected);
}

#[test]
fn push_then_pop_restores_register_and_sp() {
    let (mut cpu, mut bus) = machine(&[0xC5, 0x01, 0x00, 0x00, 0xC1], 0x0100);
    cpu.b = 0xAB;
    cpu.c = 0xCD;
    step(&mut cpu, &mut bus).unwrap();
    assert_eq!(cpu.sp, 0xFFFC);
    step(&mut cpu, &mut bus).unwrap();
    assert_eq!((cpu.b, cpu.c), (0, 0));
    step(&mut cpu, &mut bus).unwrap();
    assert_eq!((cpu.b, cpu.c), (0xAB, 0xCD));
    assert_eq!(cpu.sp, 0xFFFE);
}

#[test]
fn swap_twice_is_identity() {
    let (mut cpu, mut bus) = machine(&[0xCB, 0x37, 0xCB, 0x37], 0x0100);
    cpu.a = 0x3C;
    step(&mut cpu, &mut bus).unwrap();
    assert_eq!(cpu.a, 0xC3);
    assert_eq!(cpu.f, flags(false, false, false, false));
    step(&mut cpu, &mut bus).unwrap();
    assert_eq!(cpu.a, 0x3C);
}

#[test]
fn cpl_twice_restores_a_and_sets_n_h() {
    let (mut cpu, mut bus) = machine(&[0x2F, 0x2F], 0x0100);
    cpu.a = 0x5A;
    step(&mut cpu, &mut bus).unwrap();
    assert_eq!(cpu.a, 0xA5);
    assert!(cpu.f.n && cpu.f.h);
    step(&mut cpu, &mut bus).unwrap();
    assert_eq!(cpu.a, 0x5A);
    assert!(cpu.f.n && cpu.f.h);
}

#[test]
fn ccf_twice_keeps_carry() {
    let (mut cpu, mut bus) = machine(&[0x3F, 0x3F], 0x0100);
    cpu.f = flags(false, true, true, true);
    step(&mut cpu, &mut bus).unwrap();
    assert!(!cpu.f.c);
    step(&mut cpu, &mut bus).unwrap();
    assert!(cpu.f.c);
    assert!(!cpu.f.n && !cpu.f.h);
}

#[test]
fn inc_memory_adds_one() {
    let (mut cpu, mut bus) = machine(&[0x34, 0x35, 0x35], 0x0100);
    cpu.h = 0xC0;
    cpu.l = 0x00;
    bus.write8(0xC000, 0x0F);
    assert_eq!(step(&mut cpu, &mut bus), Ok(12));
    assert_eq!(bus.read8(0xC000), 0x10);
    assert_eq!(cpu.f, flags(false, false, true, false));
    step(&mut cpu, &mut bus).unwrap();
    assert_eq!(bus.read8(0xC000), 0x0F);
    assert_eq!(cpu.f, flags(false, true, true, false));
}

#[test]
fn conditional_jump_not_taken_costs_less() {
    let (mut cpu, mut bus) = machine(&[0x20, 0x05, 0x28, 0x05], 0x0100);
    cpu.f.z = true;
    assert_eq!(step(&mut cpu, &mut bus), Ok(8));
    assert_eq!(cpu.pc, 0x0102);
    assert_eq!(step(&mut cpu, &mut bus), Ok(12));
    assert_eq!(cpu.pc, 0x0109);
}

#[test]
fn jr_backwards() {
    let (mut cpu, mut bus) = machine(&[0x18, 0xFE], 0x0100);
    step(&mut cpu, &mut bus).unwrap();
    assert_eq!(cpu.pc, 0x0100);
}

#[test]
fn load_increment_and_decrement_hl() {
    let (mut cpu, mut bus) = machine(&[0x22, 0x32, 0x2A], 0x0100);
    cpu.a = 0x77;
    cpu.h = 0xC0;
    cpu.l = 0x10;
    step(&mut cpu, &mut bus).unwrap();
    assert_eq!(bus.read8(0xC010), 0x77);
    assert_eq!((cpu.h, cpu.l), (0xC0, 0x11));
    step(&mut cpu, &mut bus).unwrap();
    assert_eq!(bus.read8(0xC011), 0x77);
    assert_eq!((cpu.h, cpu.l), (0xC0, 0x10));
    cpu.a = 0;
    step(&mut cpu, &mut bus).unwrap();
    assert_eq!(cpu.a, 0x77);
    assert_eq!((cpu.h, cpu.l), (0xC0, 0x11));
}

#[test]
fn ld_address_sp_stores_little_endian() {
    let (mut cpu, mut bus) = machine(&[0x08, 0x00, 0xC1], 0x0100);
    cpu.sp = 0xBEEF;
    assert_eq!(step(&mut cpu, &mut bus), Ok(20));
    assert_eq!(bus.read8(0xC100), 0xEF);
    assert_eq!(bus.read8(0xC101), 0xBE);
}

#[test]
fn bit_res_set_on_register() {
    let (mut cpu, mut bus) = machine(&[0xCB, 0x7F, 0xCB, 0xFF, 0xCB, 0x7F, 0xCB, 0xBF], 0x0100);
    cpu.a = 0x01;
    cpu.f.c = true;
    step(&mut cpu, &mut bus).unwrap();
    assert_eq!(cpu.f, flags(true, false, true, true));
    step(&mut cpu, &mut bus).unwrap();
    assert_eq!(cpu.a, 0x81);
    step(&mut cpu, &mut bus).unwrap();
    assert!(!cpu.f.z);
    step(&mut cpu, &mut bus).unwrap();
    assert_eq!(cpu.a, 0x01);
}

#[test]
fn add_hl_carries_from_bits_11_and_15() {
    let (mut cpu, mut bus) = machine(&[0x09], 0x0100);
    cpu.h = 0x8F;
    cpu.l = 0xFF;
    cpu.b = 0x80;
    cpu.c = 0x01;
    cpu.f.z = true;
    assert_eq!(step(&mut cpu, &mut bus), Ok(8));
    assert_eq!((cpu.h, cpu.l), (0x10, 0x00));
    assert_eq!(cpu.f, flags(true, false, true, true));
}

#[test]
fn rotate_accumulator_clears_zero() {
    let (mut cpu, mut bus) = machine(&[0x07, 0xCB, 0x00], 0x0100);
    cpu.a = 0x00;
    step(&mut cpu, &mut bus).unwrap();
    assert!(!cpu.f.z);
    step(&mut cpu, &mut bus).unwrap();
    assert!(cpu.f.z);
}

#[test]
fn execute_instruction_reports_cycles() {
    let (mut cpu, mut bus) = machine(&[], 0x0100);
    cpu.a = 0x10;
    let add_b = Instruction::Alu(AluOp::Add, Operand8::B);
    let r = execute_instruction(&mut cpu, &mut bus, 0x80, add_b);
    assert_eq!(r, Ok(4));
    assert_eq!(cpu.pc, 0x0101);
    assert_eq!(cpu.a, 0x10);
    assert!(!cpu.f.z);
}

#[test]
fn decoder_grid() {
    assert_eq!(decode(0x76, 0, 0), Instruction::Halt);
    assert_eq!(decode(0x41, 0, 0), Instruction::Ld(Operand8::B, Operand8::C));
    assert_eq!(decode(0xCB, 0x37, 0), Instruction::Cb(RotOp::Swap, Operand8::A));
    assert_eq!(decode(0xCB, 0x46, 0), Instruction::Bit(0, Operand8::HlInd));
    assert_eq!(decode(0xC3, 0x34, 0x12), Instruction::Jp(0x1234));
    assert_eq!(decode(0x18, 0xFE, 0), Instruction::Jr(-2));
    assert_eq!(decode(0xEF, 0, 0), Instruction::Rst(0x28));
    assert_eq!(decode(0xD3, 0, 0), Instruction::Invalid);
    assert_eq!(decode(0xC6, 0x01, 0).size(), 2);
    assert_eq!(decode(0xCD, 0, 0).size(), 3);
    assert_eq!(decode(0x00, 0, 0).size(), 1);
}

#[test]
fn reset_values() {
    let cpu = Cpu::new(true);
    assert_eq!(cpu.a, 0x01);
    assert_eq!(cpu.f.value(), 0xB0);
    assert_eq!((cpu.b, cpu.c, cpu.d, cpu.e, cpu.h, cpu.l), (0x00, 0x13, 0x00, 0xD8, 0x01, 0x4D));
    assert_eq!(cpu.sp, 0xFFFE);
    assert_eq!(cpu.pc, 0x0100);
    let mut zero = cpu;
    zero.reset(false);
    assert_eq!(zero.pc, 0);
    assert_eq!(zero.f.value(), 0);
}
