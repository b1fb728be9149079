use crate::flags::FlagRegister;
use vstd::prelude::*;

verus! {

/// The eight accumulator operations of the `ALU A, x` grid.
#[derive(Clone, Copy, Debug, PartialEq, Eq, Structural)]
pub enum AluOp {
    Add,
    Adc,
    Sub,
    Sbc,
    And,
    Xor,
    Or,
    Cp,
}

/// The eight rotate/shift/swap operations of the CB-prefixed grid.
#[derive(Clone, Copy, Debug, PartialEq, Eq, Structural)]
pub enum RotOp {
    Rlc,
    Rrc,
    Rl,
    Rr,
    Sla,
    Sra,
    Swap,
    Srl,
}

pub open spec fn carry_bit(f: FlagRegister) -> int {
    if f.c { 1 } else { 0 }
}

/// Carry out of bit 3 when adding `a`, `b` and a carry-in.
pub open spec fn half_carry_add_spec(a: int, b: int, c: int) -> bool {
    a % 16 + b % 16 + c > 15
}

/// Borrow into bit 4 when subtracting `b` and a carry-in from `a`.
pub open spec fn half_carry_sub_spec(a: int, b: int, c: int) -> bool {
    a % 16 < b % 16 + c
}

pub fn half_carry_8_add(a: u8, b: u8, c: u8) -> (r: bool)
    requires
        c <= 1,
    ensures
        r == half_carry_add_spec(a as int, b as int, c as int),
{
    (a % 16) + (b % 16) + c > 15
}

pub fn half_carry_8_sub(a: u8, b: u8, c: u8) -> (r: bool)
    requires
        c <= 1,
    ensures
        r == half_carry_sub_spec(a as int, b as int, c as int),
{
    (a % 16) < (b % 16) + c
}

/// Carry out of bit 11 of a 16-bit addition.
pub open spec fn half_carry_16_add_spec(a: int, b: int, c: int) -> bool {
    a % 4096 + b % 4096 + c > 4095
}

pub fn half_carry_16_add(a: u16, b: u16, c: u16) -> (r: bool)
    requires
        c <= 1,
    ensures
        r == half_carry_16_add_spec(a as int, b as int, c as int),
{
    (a % 4096) + (b % 4096) + c > 4095
}

/// Adds (or subtracts) `b` and a carry-in to (from) `a` modulo 256 and reports the
/// carry (or borrow) out of bit 7.
pub fn calc_with_carry(a: u8, b: u8, carry: u8, subtract: bool) -> (r: (u8, bool))
    requires
        carry <= 1,
    ensures
        !subtract ==> r.0 == (a + b + carry) % 256 && r.1 == (a + b + carry > 255),
        subtract ==> r.0 == (a - b - carry) % 256 && r.1 == (a < b + carry),
{
    if subtract {
        let rhs: u16 = b as u16 + carry as u16;
        if (a as u16) < rhs {
            (((a as u16 + 256) - rhs) as u8, true)
        } else {
            ((a as u16 - rhs) as u8, false)
        }
    } else {
        let sum: u16 = a as u16 + b as u16 + carry as u16;
        ((sum % 256) as u8, sum > 255)
    }
}

/// The result and flags of `op A, n`, computed over full-width integers.
pub open spec fn alu_spec(op: AluOp, a: u8, n: u8, f: FlagRegister) -> (u8, FlagRegister) {
    match op {
        AluOp::Add => add_spec(a, n, 0),
        AluOp::Adc => add_spec(a, n, carry_bit(f)),
        AluOp::Sub => sub_spec(a, n, 0),
        AluOp::Sbc => sub_spec(a, n, carry_bit(f)),
        AluOp::And => ((a & n), FlagRegister { z: a & n == 0, n: false, h: true, c: false }),
        AluOp::Xor => ((a ^ n), FlagRegister { z: a ^ n == 0, n: false, h: false, c: false }),
        AluOp::Or => ((a | n), FlagRegister { z: a | n == 0, n: false, h: false, c: false }),
        AluOp::Cp => (a, sub_spec(a, n, 0).1),
    }
}

pub open spec fn add_spec(a: u8, n: u8, c: int) -> (u8, FlagRegister) {
    let sum = a + n + c;
    (
        (sum % 256) as u8,
        FlagRegister {
            z: sum % 256 == 0,
            n: false,
            h: half_carry_add_spec(a as int, n as int, c),
            c: sum > 255,
        },
    )
}

pub open spec fn sub_spec(a: u8, n: u8, c: int) -> (u8, FlagRegister) {
    let diff = a - n - c;
    (
        (diff % 256) as u8,
        FlagRegister {
            z: diff % 256 == 0,
            n: true,
            h: half_carry_sub_spec(a as int, n as int, c),
            c: diff < 0,
        },
    )
}

pub fn alu8(op: AluOp, a: u8, n: u8, f: FlagRegister) -> (r: (u8, FlagRegister))
    ensures
        r == alu_spec(op, a, n, f),
{
    let cin: u8 = if f.c { 1 } else { 0 };
    match op {
        AluOp::Add | AluOp::Adc => {
            let c: u8 = if op == AluOp::Adc { cin } else { 0 };
            let (res, carry) = calc_with_carry(a, n, c, false);
            let h = half_carry_8_add(a, n, c);
            (res, FlagRegister { z: res == 0, n: false, h, c: carry })
        },
        AluOp::Sub | AluOp::Sbc | AluOp::Cp => {
            let c: u8 = if op == AluOp::Sbc { cin } else { 0 };
            let (res, borrow) = calc_with_carry(a, n, c, true);
            let h = half_carry_8_sub(a, n, c);
            let flags = FlagRegister { z: res == 0, n: true, h, c: borrow };
            if op == AluOp::Cp {
                (a, flags)
            } else {
                (res, flags)
            }
        },
        AluOp::And => (a & n, FlagRegister { z: a & n == 0, n: false, h: true, c: false }),
        AluOp::Xor => (a ^ n, FlagRegister { z: a ^ n == 0, n: false, h: false, c: false }),
        AluOp::Or => (a | n, FlagRegister { z: a | n == 0, n: false, h: false, c: false }),
    }
}

/// The value of a rotate, shift or swap, and the bit it moves into C.
pub open spec fn rot_value(op: RotOp, v: u8, f: FlagRegister) -> (u8, bool) {
    match op {
        RotOp::Rlc => (((v % 128) * 2 + v / 128) as u8, v >= 128),
        RotOp::Rrc => ((v / 2 + (v % 2) * 128) as u8, v % 2 == 1),
        RotOp::Rl => (((v % 128) * 2 + carry_bit(f)) as u8, v >= 128),
        RotOp::Rr => ((v / 2 + carry_bit(f) * 128) as u8, v % 2 == 1),
        RotOp::Sla => (((v % 128) * 2) as u8, v >= 128),
        RotOp::Sra => ((v / 2 + (v / 128) * 128) as u8, v % 2 == 1),
        RotOp::Swap => (((v % 16) * 16 + v / 16) as u8, false),
        RotOp::Srl => ((v / 2) as u8, v % 2 == 1),
    }
}

/// A CB-prefixed rotate, shift or swap: Z from the result, N and H cleared.
pub open spec fn rot_spec(op: RotOp, v: u8, f: FlagRegister) -> (u8, FlagRegister) {
    let (r, c) = rot_value(op, v, f);
    (r, FlagRegister { z: r == 0, n: false, h: false, c })
}

/// RLCA, RRCA, RLA, RRA: as the CB forms, but Z is always cleared.
pub open spec fn rot_a_spec(op: RotOp, v: u8, f: FlagRegister) -> (u8, FlagRegister) {
    let (r, c) = rot_value(op, v, f);
    (r, FlagRegister { z: false, n: false, h: false, c })
}

pub fn rotate(op: RotOp, v: u8, f: FlagRegister, accumulator: bool) -> (r: (u8, FlagRegister))
    ensures
        !accumulator ==> r == rot_spec(op, v, f),
        accumulator ==> r == rot_a_spec(op, v, f),
{
    let cin: u8 = if f.c { 1 } else { 0 };
    let (res, c): (u8, bool) = match op {
        RotOp::Rlc => ((v % 128) * 2 + v / 128, v >= 128),
        RotOp::Rrc => (v / 2 + (v % 2) * 128, v % 2 == 1),
        RotOp::Rl => ((v % 128) * 2 + cin, v >= 128),
        RotOp::Rr => (v / 2 + cin * 128, v % 2 == 1),
        RotOp::Sla => ((v % 128) * 2, v >= 128),
        RotOp::Sra => (v / 2 + (v / 128) * 128, v % 2 == 1),
        RotOp::Swap => ((v % 16) * 16 + v / 16, false),
        RotOp::Srl => (v / 2, v % 2 == 1),
    };
    (res, FlagRegister { z: !accumulator && res == 0, n: false, h: false, c })
}

/// INC r: Z from the result, N cleared, H the half-carry of +1, C kept.
pub open spec fn inc_spec(v: u8, f: FlagRegister) -> (u8, FlagRegister) {
    (
        ((v + 1) % 256) as u8,
        FlagRegister {
            z: (v + 1) % 256 == 0,
            n: false,
            h: half_carry_add_spec(v as int, 1, 0),
            c: f.c,
        },
    )
}

/// DEC r: Z from the result, N set, H the half-borrow of -1, C kept.
pub open spec fn dec_spec(v: u8, f: FlagRegister) -> (u8, FlagRegister) {
    (
        ((v - 1) % 256) as u8,
        FlagRegister {
            z: (v - 1) % 256 == 0,
            n: true,
            h: half_carry_sub_spec(v as int, 1, 0),
            c: f.c,
        },
    )
}

pub fn inc8(v: u8, f: FlagRegister) -> (r: (u8, FlagRegister))
    ensures
        r == inc_spec(v, f),
{
    let (res, _) = calc_with_carry(v, 1, 0, false);
    (res, FlagRegister { z: res == 0, n: false, h: half_carry_8_add(v, 1, 0), c: f.c })
}

pub fn dec8(v: u8, f: FlagRegister) -> (r: (u8, FlagRegister))
    ensures
        r == dec_spec(v, f),
{
    let (res, _) = calc_with_carry(v, 1, 0, true);
    (res, FlagRegister { z: res == 0, n: true, h: half_carry_8_sub(v, 1, 0), c: f.c })
}

/// ADD HL, rr: Z kept, N cleared, H from bit 11, C from bit 15.
pub open spec fn add16_spec(hl: u16, rr: u16, f: FlagRegister) -> (u16, FlagRegister) {
    (
        ((hl + rr) % 65536) as u16,
        FlagRegister {
            z: f.z,
            n: false,
            h: half_carry_16_add_spec(hl as int, rr as int, 0),
            c: hl + rr > 65535,
        },
    )
}

pub fn add16(hl: u16, rr: u16, f: FlagRegister) -> (r: (u16, FlagRegister))
    ensures
        r == add16_spec(hl, rr, f),
{
    let sum: u32 = hl as u32 + rr as u32;
    (
        (sum % 65536) as u16,
        FlagRegister { z: f.z, n: false, h: half_carry_16_add(hl, rr, 0), c: sum > 65535 },
    )
}

/// The low byte of a signed offset, as the hardware adds it.
pub open spec fn offset_byte(e: i8) -> int {
    if e < 0 { e + 256 } else { e as int }
}

/// SP + e8 for ADD SP,e8 and LD HL,SP+e8: the sign-extended sum modulo 2^16, with H
/// and C from the unsigned addition of the low bytes, Z and N cleared.
pub open spec fn add_sp_spec(sp: u16, e: i8) -> (u16, FlagRegister) {
    (
        ((sp + e) % 65536) as u16,
        FlagRegister {
            z: false,
            n: false,
            h: half_carry_add_spec(sp as int, offset_byte(e), 0),
            c: sp % 256 + offset_byte(e) > 255,
        },
    )
}

pub fn add_sp_offset(sp: u16, e: i8) -> (r: (u16, FlagRegister))
    ensures
        r == add_sp_spec(sp, e),
{
    let low: u8 = if e < 0 { (e as i16 + 256) as u8 } else { e as u8 };
    let sp_low: u8 = (sp % 256) as u8;
    let h = half_carry_8_add(sp_low, low, 0);
    let (_, c) = calc_with_carry(sp_low, low, 0, false);
    let sum: i32 = sp as i32 + e as i32;
    let wrapped: u16 = if sum < 0 { (sum + 65536) as u16 } else { (sum % 65536) as u16 };
    (wrapped, FlagRegister { z: false, n: false, h, c })
}

/// DAA: BCD adjustment of A after an addition (N clear) or a subtraction (N set).
pub open spec fn daa_spec(a: u8, f: FlagRegister) -> (u8, FlagRegister) {
    let (a1, c1) = if !f.n && (f.c || a > 0x99) {
        (((a + 0x60) % 256) as u8, true)
    } else if f.n && f.c {
        (((a - 0x60) % 256) as u8, true)
    } else {
        (a, f.c)
    };
    let a2 = if !f.n && (f.h || a1 % 16 > 9) {
        ((a1 + 6) % 256) as u8
    } else if f.n && f.h {
        ((a1 - 6) % 256) as u8
    } else {
        a1
    };
    (a2, FlagRegister { z: a2 == 0, n: f.n, h: false, c: c1 })
}

pub fn daa(a: u8, f: FlagRegister) -> (r: (u8, FlagRegister))
    ensures
        r == daa_spec(a, f),
{
    let mut v = a;
    let mut c = f.c;
    if !f.n {
        if f.c || v > 0x99 {
            v = calc_with_carry(v, 0x60, 0, false).0;
            c = true;
        }
        if f.h || v % 16 > 9 {
            v = calc_with_carry(v, 0x06, 0, false).0;
        }
    } else {
        if f.c {
            v = calc_with_carry(v, 0x60, 0, true).0;
        }
        if f.h {
            v = calc_with_carry(v, 0x06, 0, true).0;
        }
    }
    (v, FlagRegister { z: v == 0, n: f.n, h: false, c })
}

/// The one-hot mask of a bit index (taken modulo 8).
pub open spec fn bit_mask(b: u8) -> u8 {
    (1u8 << (b % 8)) as u8
}

pub fn mask_of_bit(b: u8) -> (r: u8)
    ensures
        r == bit_mask(b),
{
    1u8 << (b % 8)
}

} // verus!
