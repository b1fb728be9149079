use crate::alu::{
    add16, add16_spec, add_sp_offset, add_sp_spec, alu8, alu_spec, bit_mask, daa, daa_spec, dec8,
    dec_spec, inc8, inc_spec, mask_of_bit, rot_a_spec, rot_spec, rotate,
};
use crate::bus::{Bus, BusModel};
use crate::cpu::{add_wrap, wrap16, Cpu, CpuError, DISPATCH_CYCLES, HALT_CYCLES};
use crate::decoder::{decode, decode_spec};
use crate::flags::{check_condition, condition_holds, FlagRegister};
use crate::instruction::{Indirect, Instruction, Operand8, Reg16};
use crate::interrupt::{InterruptId, InterruptState};
use vstd::prelude::*;

verus! {

/// What one instruction's body does, once PC has moved past it. The flag says
/// whether a conditional branch was taken (true for everything else).
pub open spec fn body_spec(cpu: Cpu, bus: BusModel, instr: Instruction) -> (Cpu, BusModel, bool) {
    match instr {
        Instruction::Halt => (Cpu { halted: true, ..cpu }, bus, true),
        Instruction::Di => (Cpu { ime: false, ime_counter: -1i8, ..cpu }, bus, true),
        Instruction::Ei => (Cpu { ime_counter: 2i8, ..cpu }, bus, true),
        Instruction::Ld(d, s) => {
            let (c, b) = cpu.with_operand(bus, d, cpu.operand(bus, s));
            (c, b, true)
        },
        Instruction::LdImm(d, n) => {
            let (c, b) = cpu.with_operand(bus, d, n);
            (c, b, true)
        },
        Instruction::Alu(op, s) => {
            let (r, f) = alu_spec(op, cpu.a, cpu.operand(bus, s), cpu.f);
            (Cpu { a: r, f, ..cpu }, bus, true)
        },
        Instruction::AluImm(op, n) => {
            let (r, f) = alu_spec(op, cpu.a, n, cpu.f);
            (Cpu { a: r, f, ..cpu }, bus, true)
        },
        Instruction::Inc(d) => {
            let (r, f) = inc_spec(cpu.operand(bus, d), cpu.f);
            let (c, b) = Cpu { f, ..cpu }.with_operand(bus, d, r);
            (c, b, true)
        },
        Instruction::Dec(d) => {
            let (r, f) = dec_spec(cpu.operand(bus, d), cpu.f);
            let (c, b) = Cpu { f, ..cpu }.with_operand(bus, d, r);
            (c, b, true)
        },
        Instruction::LdRrImm(r, nn) => (cpu.with_reg16(r, nn), bus, true),
        Instruction::IncRr(r) => (cpu.with_reg16(r, wrap16(cpu.reg16(r), 1)), bus, true),
        Instruction::DecRr(r) => (cpu.with_reg16(r, wrap16(cpu.reg16(r), -1)), bus, true),
        Instruction::AddHl(r) => {
            let (v, f) = add16_spec(cpu.hl(), cpu.reg16(r), cpu.f);
            (Cpu { f, ..cpu }.with_reg16(Reg16::HL, v), bus, true)
        },
        Instruction::LdIndA(i) => (
            cpu.indirect_step(i),
            bus.write(cpu.indirect_address(i), cpu.a),
            true,
        ),
        Instruction::LdAInd(i) => (
            Cpu { a: bus.read(cpu.indirect_address(i)), ..cpu }.indirect_step(i),
            bus,
            true,
        ),
        Instruction::LdAddrA(nn) => (cpu, bus.write(nn, cpu.a), true),
        Instruction::LdAAddr(nn) => (Cpu { a: bus.read(nn), ..cpu }, bus, true),
        Instruction::LdhImmA(n) => (cpu, bus.write((0xFF00 + n) as u16, cpu.a), true),
        Instruction::LdhAImm(n) => (Cpu { a: bus.read((0xFF00 + n) as u16), ..cpu }, bus, true),
        Instruction::LdhCA => (cpu, bus.write((0xFF00 + cpu.c) as u16, cpu.a), true),
        Instruction::LdhAC => (Cpu { a: bus.read((0xFF00 + cpu.c) as u16), ..cpu }, bus, true),
        Instruction::LdAddrSp(nn) => (
            cpu,
            bus.write(nn, (cpu.sp % 256) as u8).write(wrap16(nn, 1), (cpu.sp / 256) as u8),
            true,
        ),
        Instruction::LdSpHl => (Cpu { sp: cpu.hl(), ..cpu }, bus, true),
        Instruction::AddSpE(e) => {
            let (v, f) = add_sp_spec(cpu.sp, e);
            (Cpu { sp: v, f, ..cpu }, bus, true)
        },
        Instruction::LdHlSpE(e) => {
            let (v, f) = add_sp_spec(cpu.sp, e);
            (Cpu { f, ..cpu }.with_reg16(Reg16::HL, v), bus, true)
        },
        Instruction::Push(r) => {
            let (c, b) = cpu.push_spec(bus, cpu.stack_reg(r));
            (c, b, true)
        },
        Instruction::Pop(r) => {
            let (v, c) = cpu.pop_spec(bus);
            (c.with_stack_reg(r, v), bus, true)
        },
        Instruction::Jp(nn) => (Cpu { pc: nn, ..cpu }, bus, true),
        Instruction::JpCc(cc, nn) => if condition_holds(cc, cpu.f) {
            (Cpu { pc: nn, ..cpu }, bus, true)
        } else {
            (cpu, bus, false)
        },
        Instruction::JpHl => (Cpu { pc: cpu.hl(), ..cpu }, bus, true),
        Instruction::Jr(e) => (Cpu { pc: wrap16(cpu.pc, e as int), ..cpu }, bus, true),
        Instruction::JrCc(cc, e) => if condition_holds(cc, cpu.f) {
            (Cpu { pc: wrap16(cpu.pc, e as int), ..cpu }, bus, true)
        } else {
            (cpu, bus, false)
        },
        Instruction::Call(nn) => {
            let (c, b) = cpu.push_spec(bus, cpu.pc);
            (Cpu { pc: nn, ..c }, b, true)
        },
        Instruction::CallCc(cc, nn) => if condition_holds(cc, cpu.f) {
            let (c, b) = cpu.push_spec(bus, cpu.pc);
            (Cpu { pc: nn, ..c }, b, true)
        } else {
            (cpu, bus, false)
        },
        Instruction::Ret => {
            let (v, c) = cpu.pop_spec(bus);
            (Cpu { pc: v, ..c }, bus, true)
        },
        Instruction::RetCc(cc) => if condition_holds(cc, cpu.f) {
            let (v, c) = cpu.pop_spec(bus);
            (Cpu { pc: v, ..c }, bus, true)
        } else {
            (cpu, bus, false)
        },
        Instruction::Reti => {
            let (v, c) = cpu.pop_spec(bus);
            (Cpu { pc: v, ime_counter: 1i8, ..c }, bus, true)
        },
        Instruction::Rst(v) => {
            let (c, b) = cpu.push_spec(bus, cpu.pc);
            (Cpu { pc: v as u16, ..c }, b, true)
        },
        Instruction::RotA(op) => {
            let (r, f) = rot_a_spec(op, cpu.a, cpu.f);
            (Cpu { a: r, f, ..cpu }, bus, true)
        },
        Instruction::Daa => {
            let (r, f) = daa_spec(cpu.a, cpu.f);
            (Cpu { a: r, f, ..cpu }, bus, true)
        },
        Instruction::Cpl => (
            Cpu { a: (255 - cpu.a) as u8, f: FlagRegister { n: true, h: true, ..cpu.f }, ..cpu },
            bus,
            true,
        ),
        Instruction::Scf => (
            Cpu { f: FlagRegister { n: false, h: false, c: true, ..cpu.f }, ..cpu },
            bus,
            true,
        ),
        Instruction::Ccf => (
            Cpu { f: FlagRegister { n: false, h: false, c: !cpu.f.c, ..cpu.f }, ..cpu },
            bus,
            true,
        ),
        Instruction::Cb(op, d) => {
            let (r, f) = rot_spec(op, cpu.operand(bus, d), cpu.f);
            let (c, b) = Cpu { f, ..cpu }.with_operand(bus, d, r);
            (c, b, true)
        },
        Instruction::Bit(n, s) => (
            Cpu {
                f: FlagRegister {
                    z: cpu.operand(bus, s) & bit_mask(n) == 0,
                    n: false,
                    h: true,
                    ..cpu.f
                },
                ..cpu
            },
            bus,
            true,
        ),
        Instruction::Res(n, d) => {
            let (c, b) = cpu.with_operand(bus, d, cpu.operand(bus, d) & !bit_mask(n));
            (c, b, true)
        },
        Instruction::SetBit(n, d) => {
            let (c, b) = cpu.with_operand(bus, d, cpu.operand(bus, d) | bit_mask(n));
            (c, b, true)
        },
        _ => (cpu, bus, true),
    }
}

/// The delayed enable advancing by one instruction: a positive counter counts down
/// and sets IME when it reaches zero; otherwise it parks at -1.
pub open spec fn tick_ime(cpu: Cpu) -> Cpu {
    if cpu.ime_counter > 0 {
        let n = cpu.ime_counter - 1;
        Cpu { ime_counter: n as i8, ime: if n == 0 { true } else { cpu.ime }, ..cpu }
    } else {
        Cpu { ime_counter: -1i8, ..cpu }
    }
}

/// The poll that ends every step. With a source both enabled and requested: if IME
/// is clear, only HALT is left; if IME is set, the most urgent such source is
/// served (IME cleared, its request dropped, PC pushed, PC set to its vector).
/// The flag says whether a source was served.
pub open spec fn dispatch_spec(cpu: Cpu, bus: BusModel) -> (Cpu, BusModel, bool) {
    let c1 = tick_ime(cpu);
    match bus.handler().first_active() {
        None => (c1, bus, false),
        Some(id) => if !c1.ime {
            (Cpu { halted: false, ..c1 }, bus, false)
        } else {
            let c2 = Cpu { ime: false, halted: false, ..c1 };
            let b2 = BusModel { flag: bus.flag & !id.bit(), ..bus };
            let (c3, b3) = c2.push_spec(b2, c2.pc);
            (Cpu { pc: id.vector_spec(), ..c3 }, b3, true)
        },
    }
}

fn handle_interrupts(cpu: &mut Cpu, bus: &mut Bus) -> (fired: bool)
    requires
        old(bus)@.wf(),
    ensures
        final(bus)@.wf(),
        (*final(cpu), final(bus)@, fired) == dispatch_spec(*old(cpu), old(bus)@),
{
    if cpu.ime_counter > 0 {
        cpu.ime_counter = cpu.ime_counter - 1;
        if cpu.ime_counter == 0 {
            cpu.ime = true;
        }
    } else {
        cpu.ime_counter = -1;
    }
    let handler = bus.interrupts();
    proof {
        assert(*handler == bus@.handler());
    }
    let id = handler.pending_priority(InterruptId::VBlankInt);
    if handler.state(id) != InterruptState::Active {
        return false;
    }
    if !cpu.ime {
        cpu.halted = false;
        return false;
    }
    cpu.ime = false;
    cpu.halted = false;
    bus.clear_interrupt(id);
    let pc = cpu.pc;
    cpu.push(bus, pc);
    cpu.pc = id.vector();
    true
}

/// One instruction: PC moves past it, its body runs, the delayed enable advances
/// and interrupts are polled. The count is the instruction's T-cycles plus 20 when
/// a source was served. An undefined opcode changes nothing and is an error.
pub open spec fn execute_spec(cpu: Cpu, bus: BusModel, op: u8, instr: Instruction) -> Result<
    (Cpu, BusModel, u16),
    CpuError,
> {
    if instr is Invalid {
        Err(CpuError::IllegalOpcode(op, cpu.pc))
    } else {
        let c0 = Cpu { pc: wrap16(cpu.pc, instr.size_spec() as int), ..cpu };
        let (c1, b1, taken) = body_spec(c0, bus, instr);
        let (c2, b2, fired) = dispatch_spec(c1, b1);
        Ok((c2, b2, (instr.cycles_spec(taken) + if fired { 20int } else { 0int }) as u16))
    }
}

/// Executes `instruction`, decoded from the opcode `op` at PC.
pub fn execute_instruction(cpu: &mut Cpu, bus: &mut Bus, op: u8, instruction: Instruction) -> (r:
    Result<u16, CpuError>)
    requires
        old(bus)@.wf(),
    ensures
        final(bus)@.wf(),
        match execute_spec(*old(cpu), old(bus)@, op, instruction) {
            Ok((c, b, n)) => r == Ok::<u16, CpuError>(n) && *final(cpu) == c && final(bus)@ == b,
            Err(e) => r == Err::<u16, CpuError>(e) && *final(cpu) == *old(cpu) && final(bus)@
                == old(bus)@,
        },
{
    if let Instruction::Invalid = instruction {
        return Err(CpuError::IllegalOpcode(op, cpu.pc));
    }
    cpu.pc = add_wrap(cpu.pc, instruction.size() as i32);
    let taken = execute_body(cpu, bus, instruction);
    let fired = handle_interrupts(cpu, bus);
    let extra: u16 = if fired { DISPATCH_CYCLES } else { 0 };
    Ok(instruction.cycles(taken) + extra)
}

/// One step of the core: a halted CPU idles for 4 T-cycles and polls; otherwise
/// the instruction at PC is fetched, decoded and executed.
pub open spec fn step_spec(cpu: Cpu, bus: BusModel) -> Result<(Cpu, BusModel, u16), CpuError> {
    if cpu.halted {
        let (c, b, fired) = dispatch_spec(cpu, bus);
        Ok((c, b, (4 + if fired { 20int } else { 0int }) as u16))
    } else {
        let op = bus.read(cpu.pc);
        let instr = decode_spec(op, bus.read(wrap16(cpu.pc, 1)), bus.read(wrap16(cpu.pc, 2)));
        execute_spec(cpu, bus, op, instr)
    }
}

pub fn step(cpu: &mut Cpu, bus: &mut Bus) -> (r: Result<u16, CpuError>)
    requires
        old(bus)@.wf(),
    ensures
        final(bus)@.wf(),
        match step_spec(*old(cpu), old(bus)@) {
            Ok((c, b, n)) => r == Ok::<u16, CpuError>(n) && *final(cpu) == c && final(bus)@ == b,
            Err(e) => r == Err::<u16, CpuError>(e) && *final(cpu) == *old(cpu) && final(bus)@
                == old(bus)@,
        },
{
    if cpu.halted {
        let fired = handle_interrupts(cpu, bus);
        let extra: u16 = if fired { DISPATCH_CYCLES } else { 0 };
        return Ok(HALT_CYCLES + extra);
    }
    let op = bus.read8(cpu.pc);
    let b1 = bus.read8(add_wrap(cpu.pc, 1));
    let b2 = bus.read8(add_wrap(cpu.pc, 2));
    let instruction = decode(op, b1, b2);
    execute_instruction(cpu, bus, op, instruction)
}

/// Loads, stores, PUSH and POP.
pub open spec fn is_load(instr: Instruction) -> bool {
    instr is Ld || instr is LdImm || instr is LdRrImm || instr is LdIndA || instr is LdAInd
        || instr is LdAddrA || instr is LdAAddr || instr is LdhImmA || instr is LdhAImm
        || instr is LdhCA || instr is LdhAC || instr is LdAddrSp || instr is LdSpHl
        || instr is LdHlSpE || instr is Push || instr is Pop
}

/// Jumps, calls, returns and the control of IME and HALT.
pub open spec fn is_control(instr: Instruction) -> bool {
    instr is Halt || instr is Di || instr is Ei || instr is Jp || instr is JpCc || instr is JpHl
        || instr is Jr || instr is JrCc || instr is Call || instr is CallCc || instr is Ret
        || instr is RetCc || instr is Reti || instr is Rst
}

/// Runs an instruction's body by family, so that each family is proved on its own.
fn execute_body(cpu: &mut Cpu, bus: &mut Bus, instr: Instruction) -> (taken: bool)
    requires
        old(bus)@.wf(),
    ensures
        final(bus)@.wf(),
        (*final(cpu), final(bus)@, taken) == body_spec(*old(cpu), old(bus)@, instr),
{
    if is_load_instruction(instr) {
        execute_load(cpu, bus, instr);
        true
    } else if is_control_instruction(instr) {
        execute_control(cpu, bus, instr)
    } else {
        execute_arith(cpu, bus, instr);
        true
    }
}

fn is_load_instruction(instr: Instruction) -> (r: bool)
    ensures
        r == is_load(instr),
{
    match instr {
        Instruction::Ld(_, _) => true,
        Instruction::LdImm(_, _) => true,
        Instruction::LdRrImm(_, _) => true,
        Instruction::LdIndA(_) => true,
        Instruction::LdAInd(_) => true,
        Instruction::LdAddrA(_) => true,
        Instruction::LdAAddr(_) => true,
        Instruction::LdhImmA(_) => true,
        Instruction::LdhAImm(_) => true,
        Instruction::LdhCA => true,
        Instruction::LdhAC => true,
        Instruction::LdAddrSp(_) => true,
        Instruction::LdSpHl => true,
        Instruction::LdHlSpE(_) => true,
        Instruction::Push(_) => true,
        Instruction::Pop(_) => true,
        _ => false,
    }
}

fn is_control_instruction(instr: Instruction) -> (r: bool)
    ensures
        r == is_control(instr),
{
    match instr {
        Instruction::Halt => true,
        Instruction::Di => true,
        Instruction::Ei => true,
        Instruction::Jp(_) => true,
        Instruction::JpCc(_, _) => true,
        Instruction::JpHl => true,
        Instruction::Jr(_) => true,
        Instruction::JrCc(_, _) => true,
        Instruction::Call(_) => true,
        Instruction::CallCc(_, _) => true,
        Instruction::Ret => true,
        Instruction::RetCc(_) => true,
        Instruction::Reti => true,
        Instruction::Rst(_) => true,
        _ => false,
    }
}

/// Loads, stores, PUSH and POP.
#[verifier::spinoff_prover]
#[verifier::rlimit(50)]
fn execute_load(cpu: &mut Cpu, bus: &mut Bus, instr: Instruction)
    requires
        old(bus)@.wf(),
        is_load(instr),
    ensures
        final(bus)@.wf(),
        (*final(cpu), final(bus)@, true) == body_spec(*old(cpu), old(bus)@, instr),
{
    match instr {
        Instruction::Ld(d, s) => {
            let v = cpu.read_operand(bus, s);
            cpu.write_operand(bus, d, v);
        },
        Instruction::LdImm(d, n) => {
            cpu.write_operand(bus, d, n);
        },
        Instruction::LdRrImm(r, nn) => {
            cpu.set16(r, nn);
        },
        Instruction::LdIndA(i) => {
            let addr = indirect_address(cpu, i);
            bus.write8(addr, cpu.a);
            indirect_step(cpu, i);
        },
        Instruction::LdAInd(i) => {
            let addr = indirect_address(cpu, i);
            cpu.a = bus.read8(addr);
            indirect_step(cpu, i);
        },
        Instruction::LdAddrA(nn) => {
            bus.write8(nn, cpu.a);
        },
        Instruction::LdAAddr(nn) => {
            cpu.a = bus.read8(nn);
        },
        Instruction::LdhImmA(n) => {
            bus.write8(0xFF00 + n as u16, cpu.a);
        },
        Instruction::LdhAImm(n) => {
            cpu.a = bus.read8(0xFF00 + n as u16);
        },
        Instruction::LdhCA => {
            bus.write8(0xFF00 + cpu.c as u16, cpu.a);
        },
        Instruction::LdhAC => {
            cpu.a = bus.read8(0xFF00 + cpu.c as u16);
        },
        Instruction::LdAddrSp(nn) => {
            bus.write8(nn, (cpu.sp % 256) as u8);
            bus.write8(add_wrap(nn, 1), (cpu.sp / 256) as u8);
        },
        Instruction::LdSpHl => {
            cpu.sp = cpu.hl_value();
        },
        Instruction::LdHlSpE(e) => {
            let (v, f) = add_sp_offset(cpu.sp, e);
            cpu.f = f;
            cpu.set16(Reg16::HL, v);
        },
        Instruction::Push(r) => {
            let v = cpu.get_stack_reg(r);
            cpu.push(bus, v);
        },
        Instruction::Pop(r) => {
            let v = cpu.pop(bus);
            cpu.set_stack_reg(r, v);
        },
        _ => {},
    }
}

/// Arithmetic, logic, rotates, bit operations, NOP and STOP.
#[verifier::spinoff_prover]
#[verifier::rlimit(50)]
fn execute_arith(cpu: &mut Cpu, bus: &mut Bus, instr: Instruction)
    requires
        old(bus)@.wf(),
        !is_load(instr) && !is_control(instr),
    ensures
        final(bus)@.wf(),
        (*final(cpu), final(bus)@, true) == body_spec(*old(cpu), old(bus)@, instr),
{
    match instr {
        Instruction::Alu(op, s) => {
            let v = cpu.read_operand(bus, s);
            let (r, f) = alu8(op, cpu.a, v, cpu.f);
            cpu.a = r;
            cpu.f = f;
        },
        Instruction::AluImm(op, n) => {
            let (r, f) = alu8(op, cpu.a, n, cpu.f);
            cpu.a = r;
            cpu.f = f;
        },
        Instruction::Inc(d) => {
            let v = cpu.read_operand(bus, d);
            let (r, f) = inc8(v, cpu.f);
            cpu.f = f;
            cpu.write_operand(bus, d, r);
        },
        Instruction::Dec(d) => {
            let v = cpu.read_operand(bus, d);
            let (r, f) = dec8(v, cpu.f);
            cpu.f = f;
            cpu.write_operand(bus, d, r);
        },
        Instruction::IncRr(r) => {
            let v = add_wrap(cpu.get16(r), 1);
            cpu.set16(r, v);
        },
        Instruction::DecRr(r) => {
            let v = add_wrap(cpu.get16(r), -1);
            cpu.set16(r, v);
        },
        Instruction::AddHl(r) => {
            let (v, f) = add16(cpu.hl_value(), cpu.get16(r), cpu.f);
            cpu.f = f;
            cpu.set16(Reg16::HL, v);
        },
        Instruction::AddSpE(e) => {
            let (v, f) = add_sp_offset(cpu.sp, e);
            cpu.sp = v;
            cpu.f = f;
        },
        Instruction::RotA(op) => {
            let (r, f) = rotate(op, cpu.a, cpu.f, true);
            cpu.a = r;
            cpu.f = f;
        },
        Instruction::Daa => {
            let (r, f) = daa(cpu.a, cpu.f);
            cpu.a = r;
            cpu.f = f;
        },
        Instruction::Cpl => {
            cpu.a = 255 - cpu.a;
            cpu.f.n = true;
            cpu.f.h = true;
        },
        Instruction::Scf => {
            cpu.f.n = false;
            cpu.f.h = false;
            cpu.f.c = true;
        },
        Instruction::Ccf => {
            cpu.f.n = false;
            cpu.f.h = false;
            cpu.f.c = !cpu.f.c;
        },
        Instruction::Cb(op, d) => {
            let v = cpu.read_operand(bus, d);
            let (r, f) = rotate(op, v, cpu.f, false);
            cpu.f = f;
            cpu.write_operand(bus, d, r);
        },
        Instruction::Bit(n, s) => {
            let v = cpu.read_operand(bus, s);
            cpu.f.z = v & mask_of_bit(n) == 0;
            cpu.f.n = false;
            cpu.f.h = true;
        },
        Instruction::Res(n, d) => {
            let v = cpu.read_operand(bus, d);
            cpu.write_operand(bus, d, v & !mask_of_bit(n));
        },
        Instruction::SetBit(n, d) => {
            let v = cpu.read_operand(bus, d);
            cpu.write_operand(bus, d, v | mask_of_bit(n));
        },
        _ => {},
    }
}

/// Jumps, calls, returns, HALT, DI and EI; the result is false for a conditional
/// branch not taken.
#[verifier::spinoff_prover]
#[verifier::rlimit(50)]
fn execute_control(cpu: &mut Cpu, bus: &mut Bus, instr: Instruction) -> (taken: bool)
    requires
        old(bus)@.wf(),
        is_control(instr),
    ensures
        final(bus)@.wf(),
        (*final(cpu), final(bus)@, taken) == body_spec(*old(cpu), old(bus)@, instr),
{
    match instr {
        Instruction::Halt => {
            cpu.halted = true;
        },
        Instruction::Di => {
            cpu.ime = false;
            cpu.ime_counter = -1;
        },
        Instruction::Ei => {
            cpu.ime_counter = 2;
        },
        Instruction::Jp(nn) => {
            cpu.pc = nn;
        },
        Instruction::JpCc(cc, nn) => {
            if check_condition(cc, cpu.f) {
                cpu.pc = nn;
            } else {
                return false;
            }
        },
        Instruction::JpHl => {
            cpu.pc = cpu.hl_value();
        },
        Instruction::Jr(e) => {
            cpu.pc = add_wrap(cpu.pc, e as i32);
        },
        Instruction::JrCc(cc, e) => {
            if check_condition(cc, cpu.f) {
                cpu.pc = add_wrap(cpu.pc, e as i32);
            } else {
                return false;
            }
        },
        Instruction::Call(nn) => {
            let ret = cpu.pc;
            cpu.push(bus, ret);
            cpu.pc = nn;
        },
        Instruction::CallCc(cc, nn) => {
            if check_condition(cc, cpu.f) {
                let ret = cpu.pc;
                cpu.push(bus, ret);
                cpu.pc = nn;
            } else {
                return false;
            }
        },
        Instruction::Ret => {
            cpu.pc = cpu.pop(bus);
        },
        Instruction::RetCc(cc) => {
            if check_condition(cc, cpu.f) {
                cpu.pc = cpu.pop(bus);
            } else {
                return false;
            }
        },
        Instruction::Reti => {
            cpu.pc = cpu.pop(bus);
            cpu.ime_counter = 1;
        },
        Instruction::Rst(v) => {
            let ret = cpu.pc;
            cpu.push(bus, ret);
            cpu.pc = v as u16;
        },
        _ => {},
    }
    true
}

fn indirect_address(cpu: &Cpu, i: Indirect) -> (r: u16)
    ensures
        r == cpu.indirect_address(i),
{
    match i {
        Indirect::BC => crate::cpu::join(cpu.b, cpu.c),
        Indirect::DE => crate::cpu::join(cpu.d, cpu.e),
        _ => cpu.hl_value(),
    }
}

fn indirect_step(cpu: &mut Cpu, i: Indirect)
    ensures
        *final(cpu) == old(cpu).indirect_step(i),
{
    match i {
        Indirect::HLI => {
            let v = add_wrap(cpu.hl_value(), 1);
            cpu.set16(Reg16::HL, v);
        },
        Indirect::HLD => {
            let v = add_wrap(cpu.hl_value(), -1);
            cpu.set16(Reg16::HL, v);
        },
        _ => {},
    }
}

} // verus!
