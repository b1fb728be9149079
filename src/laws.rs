use crate::alu::{alu_spec, carry_bit, rot_value, AluOp, RotOp};
use crate::bus::BusModel;
use crate::cpu::{high, low, word, wrap16, Cpu, CpuError};
use crate::executor::{body_spec, dispatch_spec, execute_spec, step_spec, tick_ime};
use crate::flags::{bit_of, lemma_flags_low_nibble, FlagRegister};
use crate::instruction::{Instruction, Operand8, StackReg};
use vstd::prelude::*;

verus! {

/// Whatever CPU state a step leaves behind has a zero low nibble in F, and in
/// AF as PUSH AF would store it.
pub open spec fn flags_low_nibble_clear(r: Result<(Cpu, BusModel, u16), CpuError>) -> bool {
    match r {
        Ok((c, b, n)) => c.f.byte() & 0x0F == 0 && c.stack_reg(StackReg::AF) % 16 == 0,
        Err(_) => true,
    }
}

proof fn lemma_flags_low_nibble_of(r: Result<(Cpu, BusModel, u16), CpuError>)
    ensures
        flags_low_nibble_clear(r),
{
    if let Ok((c, b, n)) = r {
        lemma_flags_low_nibble(c.f);
        let fb = c.f.byte();
        assert(fb & 0x0F == 0 ==> fb % 16 == 0) by (bit_vector);
    }
}

/// After any step that succeeds, the F register's low nibble is zero.
pub proof fn lemma_flags_low_nibble_after_step(cpu: Cpu, bus: BusModel)
    ensures
        flags_low_nibble_clear(step_spec(cpu, bus)),
{
    lemma_flags_low_nibble_of(step_spec(cpu, bus));
}

/// IE and IF read through the bus always have bits 5 to 7 set.
pub proof fn lemma_interrupt_registers_read_high_bits(bus: BusModel)
    ensures
        bus.read(0xFFFF) & 0xE0 == 0xE0,
        bus.read(0xFF0F) & 0xE0 == 0xE0,
{
    let e = bus.enable;
    let f = bus.flag;
    assert((e | 0xE0) & 0xE0 == 0xE0 && (f | 0xE0) & 0xE0 == 0xE0) by (bit_vector);
}

/// An instruction that does not jump, call, return or restart leaves PC at the
/// address just past itself (before the interrupt poll that ends the step).
pub proof fn lemma_pc_advances_by_size(cpu: Cpu, bus: BusModel, instr: Instruction)
    requires
        !instr.is_control_flow(),
    ensures
        ({
            let next = wrap16(cpu.pc, instr.size_spec() as int);
            body_spec(Cpu { pc: next, ..cpu }, bus, instr).0.pc == next
        }),
{
}

/// With IME clear and no enable about to land, the interrupt poll leaves PC alone.
pub proof fn lemma_poll_keeps_pc_when_disabled(cpu: Cpu, bus: BusModel)
    requires
        !cpu.ime,
        cpu.ime_counter != 1,
    ensures
        dispatch_spec(cpu, bus).0.pc == cpu.pc,
        !dispatch_spec(cpu, bus).2,
{
}

/// With IME clear and no enable about to land, a whole step of an instruction
/// that does not jump, call, return or restart leaves PC just past it.
#[verifier::spinoff_prover]
pub proof fn lemma_execute_advances_pc(cpu: Cpu, bus: BusModel, op: u8, instr: Instruction)
    requires
        !instr.is_control_flow(),
        !(instr is Invalid),
        !cpu.ime,
        cpu.ime_counter <= 0,
    ensures
        match execute_spec(cpu, bus, op, instr) {
            Ok((c, b, n)) => c.pc == wrap16(cpu.pc, instr.size_spec() as int),
            Err(_) => false,
        },
{
    let next = wrap16(cpu.pc, instr.size_spec() as int);
    let c0 = Cpu { pc: next, ..cpu };
    let (c1, b1, taken) = body_spec(c0, bus, instr);
    lemma_pc_advances_by_size(cpu, bus, instr);
    assert(!c1.ime && c1.ime_counter != 1);
    lemma_poll_keeps_pc_when_disabled(c1, b1);
}

/// EI followed at once by DI leaves IME clear and the delayed enable idle: the
/// enable that EI scheduled is cancelled before it lands.
pub proof fn lemma_ei_then_di_cancels(cpu: Cpu, bus: BusModel)
    requires
        !cpu.ime,
    ensures
        match execute_spec(cpu, bus, 0xFB, Instruction::Ei) {
            Ok((c1, b1, n1)) => {
                &&& !c1.ime
                &&& c1.ime_counter == 1
                &&& match execute_spec(c1, b1, 0xF3, Instruction::Di) {
                    Ok((c2, b2, n2)) => !c2.ime && c2.ime_counter == -1 && b2 == b1,
                    Err(_) => false,
                }
            },
            Err(_) => false,
        },
{
}

/// RETI returns and enables interrupts in the poll that ends its own step: with a
/// source both enabled and requested, the most urgent one is served at once from
/// the address RETI returned to; with none, IME is simply set.
#[verifier::spinoff_prover]
#[verifier::rlimit(100)]
pub proof fn lemma_reti_enables_at_once(cpu: Cpu, bus: BusModel)
    requires
        bus.wf(),
    ensures
        match execute_spec(cpu, bus, 0xD9, Instruction::Reti) {
            Ok((c, b, n)) => {
                let (ret, popped) = cpu.pop_spec(bus);
                match bus.handler().first_active() {
                    None => c.ime && c.pc == ret && c.sp == popped.sp && n == 16 && b == bus,
                    Some(id) => !c.ime && c.pc == id.vector_spec() && n == 36 && c.sp == cpu.sp,
                }
            },
            Err(_) => false,
        },
{
    let c0 = Cpu { pc: wrap16(cpu.pc, 1), ..cpu };
    let (ret, popped) = cpu.pop_spec(bus);
    let c1 = Cpu { pc: ret, ime_counter: 1i8, ..c0.pop_spec(bus).1 };
    assert(Instruction::Reti.size_spec() == 1 && Instruction::Reti.cycles_spec(true) == 16);
    lemma_reti_body(c0, bus);
    lemma_poll_after_reti(c1, bus);
    let (c2, b2, fired) = dispatch_spec(c1, bus);
    let n: u16 = if fired { 36 } else { 16 };
    assert(execute_spec(cpu, bus, 0xD9, Instruction::Reti) == Ok::<
        (Cpu, BusModel, u16),
        CpuError,
    >((c2, b2, n)));
    assert(wrap16(wrap16(cpu.sp, 2), -2) == cpu.sp);
}

proof fn lemma_reti_body(c0: Cpu, bus: BusModel)
    ensures
        body_spec(c0, bus, Instruction::Reti) == (
            Cpu { pc: c0.pop_spec(bus).0, ime_counter: 1i8, ..c0.pop_spec(bus).1 },
            bus,
            true,
        ),
{
}

proof fn lemma_poll_after_reti(c1: Cpu, bus: BusModel)
    requires
        c1.ime_counter == 1,
    ensures
        ({
            let (c2, b2, fired) = dispatch_spec(c1, bus);
            match bus.handler().first_active() {
                None => !fired && c2.ime && c2.pc == c1.pc && c2.sp == c1.sp && b2 == bus,
                Some(id) => fired && !c2.ime && c2.pc == id.vector_spec() && c2.sp == wrap16(
                    c1.sp,
                    -2,
                ),
            }
        }),
{
}

/// `LD r1,r2` between registers changes no flag and no memory, and of the
/// registers only r1, which takes r2's value.
pub proof fn lemma_register_load(cpu: Cpu, bus: BusModel, d: Operand8, s: Operand8)
    requires
        d != Operand8::HlInd,
        s != Operand8::HlInd,
    ensures
        ({
            let (c, b, taken) = body_spec(cpu, bus, Instruction::Ld(d, s));
            &&& b == bus
            &&& taken
            &&& c.f == cpu.f
            &&& c.sp == cpu.sp && c.pc == cpu.pc
            &&& c.ime == cpu.ime && c.ime_counter == cpu.ime_counter && c.halted == cpu.halted
            &&& c.operand(b, d) == cpu.operand(bus, s)
            &&& forall|o: Operand8|
                o != d && o != Operand8::HlInd ==> #[trigger] c.operand(b, o) == cpu.operand(
                    bus,
                    o,
                )
        }),
{
}

/// The flags that ADD, ADC, SUB, SBC and CP store are those recomputed over
/// full-width integers: the carry as the sum passing 0xFF (or the difference going
/// below zero), the half-carry from the low nibbles, Z from the wrapped result.
pub proof fn lemma_alu_flags_full_width(op: AluOp, a: u8, n: u8, f: FlagRegister)
    ensures
        ({
            let cin: int = if op == AluOp::Adc || op == AluOp::Sbc {
                carry_bit(f)
            } else {
                0
            };
            let (r, g) = alu_spec(op, a, n, f);
            &&& (op == AluOp::Add || op == AluOp::Adc) ==> {
                &&& r as int == (a as int + n as int + cin) % 256
                &&& g.z == ((a as int + n as int + cin) % 256 == 0)
                &&& !g.n
                &&& g.h == ((a & 0x0F) as int + (n & 0x0F) as int + cin > 0x0F)
                &&& g.c == (a as int + n as int + cin > 0xFF)
            }
            &&& (op == AluOp::Sub || op == AluOp::Sbc || op == AluOp::Cp) ==> {
                &&& (op != AluOp::Cp ==> r as int == (a as int - n as int - cin) % 256)
                &&& (op == AluOp::Cp ==> r == a)
                &&& g.z == ((a as int - n as int - cin) % 256 == 0)
                &&& g.n
                &&& g.h == (((a & 0x0F) as int) < (n & 0x0F) as int + cin)
                &&& g.c == ((a as int - n as int - cin) < 0)
            }
        }),
{
    assert((a & 0x0F) == a % 16 && (n & 0x0F) == n % 16) by (bit_vector);
}

proof fn lemma_flags_round_trip(f: FlagRegister)
    ensures
        FlagRegister::of_byte(f.byte()) == f,
{
    assert(1u8 << 7u8 == 0x80u8 && 1u8 << 6u8 == 0x40u8 && 1u8 << 5u8 == 0x20u8 && 1u8 << 4u8
        == 0x10u8) by (bit_vector);
    let z = bit_of(f.z, 7);
    let n = bit_of(f.n, 6);
    let h = bit_of(f.h, 5);
    let c = bit_of(f.c, 4);
    assert((z == 0 || z == 0x80) && (n == 0 || n == 0x40) && (h == 0 || h == 0x20) && (c == 0
        || c == 0x10) ==> {
        let v = z | n | h | c;
        &&& (v & 0x80 != 0) == (z == 0x80)
        &&& (v & 0x40 != 0) == (n == 0x40)
        &&& (v & 0x20 != 0) == (h == 0x20)
        &&& (v & 0x10 != 0) == (c == 0x10)
    }) by (bit_vector);
}

proof fn lemma_word_split(hi: u8, lo: u8)
    ensures
        high(word(hi, lo)) == hi,
        low(word(hi, lo)) == lo,
{
}

/// PUSH rr followed by POP rr gives back every register, SP, IME and all the rest
/// of the CPU state (AF too, F's low nibble being zero already), provided the two
/// stack bytes are plain memory rather than IE or IF.
pub proof fn lemma_push_pop_identity(cpu: Cpu, bus: BusModel, r: StackReg)
    requires
        bus.wf(),
        wrap16(cpu.sp, -1) != 0xFFFF && wrap16(cpu.sp, -1) != 0xFF0F,
        wrap16(cpu.sp, -2) != 0xFFFF && wrap16(cpu.sp, -2) != 0xFF0F,
    ensures
        ({
            let (c1, b1, t1) = body_spec(cpu, bus, Instruction::Push(r));
            let (c2, b2, t2) = body_spec(c1, b1, Instruction::Pop(r));
            &&& c2 == cpu
            &&& c2.stack_reg(r) == cpu.stack_reg(r)
            &&& c2.sp == cpu.sp
        }),
{
    let v = cpu.stack_reg(r);
    let sp1 = wrap16(cpu.sp, -1);
    let sp2 = wrap16(cpu.sp, -2);
    let b1 = bus.write(sp1, high(v)).write(sp2, low(v));
    assert(wrap16(sp2, 1) == sp1);
    assert(wrap16(sp2, 2) == cpu.sp);
    assert(b1.read(sp2) == low(v));
    assert(b1.read(sp1) == high(v));
    assert(word(high(v), low(v)) == v);
    lemma_word_split(cpu.b, cpu.c);
    lemma_word_split(cpu.d, cpu.e);
    lemma_word_split(cpu.h, cpu.l);
    lemma_word_split(cpu.a, cpu.f.byte());
    lemma_flags_round_trip(cpu.f);
}

/// SWAP applied twice gives back the byte.
pub proof fn lemma_swap_twice(v: u8, f: FlagRegister)
    ensures
        rot_value(RotOp::Swap, rot_value(RotOp::Swap, v, f).0, f).0 == v,
{
}

/// CPL applied twice gives back A, and each application sets N and H.
pub proof fn lemma_cpl_twice(cpu: Cpu, bus: BusModel)
    ensures
        ({
            let (c1, b1, t1) = body_spec(cpu, bus, Instruction::Cpl);
            let (c2, b2, t2) = body_spec(c1, b1, Instruction::Cpl);
            &&& c2.a == cpu.a
            &&& c1.f.n && c1.f.h
            &&& c2.f.n && c2.f.h
        }),
{
}

/// CCF applied twice leaves C as it was, with N and H cleared.
pub proof fn lemma_ccf_twice(cpu: Cpu, bus: BusModel)
    ensures
        ({
            let (c1, b1, t1) = body_spec(cpu, bus, Instruction::Ccf);
            let (c2, b2, t2) = body_spec(c1, b1, Instruction::Ccf);
            &&& c2.f.c == cpu.f.c
            &&& c1.f.c == !cpu.f.c
            &&& !c2.f.n && !c2.f.h
        }),
{
}

} // verus!
