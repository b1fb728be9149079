use crate::bus::{Bus, BusModel};
use crate::flags::FlagRegister;
use crate::instruction::{Indirect, Operand8, Reg16, StackReg};
use vstd::prelude::*;

verus! {

/// Register file, stack pointer, program counter and interrupt bookkeeping.
#[derive(Clone, Copy, Debug, PartialEq, Eq, Structural)]
pub struct Cpu {
    pub a: u8,
    pub b: u8,
    pub c: u8,
    pub d: u8,
    pub e: u8,
    pub h: u8,
    pub l: u8,
    pub f: FlagRegister,
    pub sp: u16,
    pub pc: u16,
    /// Master interrupt enable.
    pub ime: bool,
    /// Delayed enable after EI or RETI; -1 when idle.
    pub ime_counter: i8,
    pub halted: bool,
}

/// The fatal errors of the executor.
#[derive(Clone, Copy, Debug, PartialEq, Eq, Structural)]
pub enum CpuError {
    /// An undefined opcode, and the address it was fetched from.
    IllegalOpcode(u8, u16),
}

/// Extra T-cycles charged when an interrupt is dispatched.
pub const DISPATCH_CYCLES: u16 = 20;

/// T-cycles of one idle step while halted.
pub const HALT_CYCLES: u16 = 4;

pub open spec fn word(hi: u8, lo: u8) -> u16 {
    (hi * 256 + lo) as u16
}

pub open spec fn high(v: u16) -> u8 {
    (v / 256) as u8
}

pub open spec fn low(v: u16) -> u8 {
    (v % 256) as u8
}

/// `a + n` modulo 2^16.
pub open spec fn wrap16(a: u16, n: int) -> u16 {
    ((a + n) % 65536) as u16
}

pub fn add_wrap(a: u16, n: i32) -> (r: u16)
    requires
        -65536 <= n <= 65536,
    ensures
        r == wrap16(a, n as int),
{
    let s: i32 = a as i32 + n;
    if s < 0 {
        (s + 65536) as u16
    } else if s >= 65536 {
        (s - 65536) as u16
    } else {
        s as u16
    }
}

pub fn split(v: u16) -> (r: (u8, u8))
    ensures
        r.0 == high(v),
        r.1 == low(v),
{
    ((v / 256) as u8, (v % 256) as u8)
}

pub fn join(hi: u8, lo: u8) -> (r: u16)
    ensures
        r == word(hi, lo),
{
    hi as u16 * 256 + lo as u16
}

impl Cpu {
    pub open spec fn hl(self) -> u16 {
        word(self.h, self.l)
    }

    pub open spec fn reg16(self, r: Reg16) -> u16 {
        match r {
            Reg16::BC => word(self.b, self.c),
            Reg16::DE => word(self.d, self.e),
            Reg16::HL => word(self.h, self.l),
            Reg16::SP => self.sp,
        }
    }

    pub open spec fn with_reg16(self, r: Reg16, v: u16) -> Cpu {
        match r {
            Reg16::BC => Cpu { b: high(v), c: low(v), ..self },
            Reg16::DE => Cpu { d: high(v), e: low(v), ..self },
            Reg16::HL => Cpu { h: high(v), l: low(v), ..self },
            Reg16::SP => Cpu { sp: v, ..self },
        }
    }

    /// A register pair as PUSH sees it; AF carries F's packed byte.
    pub open spec fn stack_reg(self, r: StackReg) -> u16 {
        match r {
            StackReg::BC => word(self.b, self.c),
            StackReg::DE => word(self.d, self.e),
            StackReg::HL => word(self.h, self.l),
            StackReg::AF => word(self.a, self.f.byte()),
        }
    }

    /// A register pair as POP fills it; F keeps the high nibble of the low byte.
    pub open spec fn with_stack_reg(self, r: StackReg, v: u16) -> Cpu {
        match r {
            StackReg::BC => Cpu { b: high(v), c: low(v), ..self },
            StackReg::DE => Cpu { d: high(v), e: low(v), ..self },
            StackReg::HL => Cpu { h: high(v), l: low(v), ..self },
            StackReg::AF => Cpu { a: high(v), f: FlagRegister::of_byte(low(v)), ..self },
        }
    }

    pub open spec fn operand(self, bus: BusModel, o: Operand8) -> u8 {
        match o {
            Operand8::B => self.b,
            Operand8::C => self.c,
            Operand8::D => self.d,
            Operand8::E => self.e,
            Operand8::H => self.h,
            Operand8::L => self.l,
            Operand8::HlInd => bus.read(self.hl()),
            Operand8::A => self.a,
        }
    }

    pub open spec fn with_operand(self, bus: BusModel, o: Operand8, v: u8) -> (Cpu, BusModel) {
        match o {
            Operand8::B => (Cpu { b: v, ..self }, bus),
            Operand8::C => (Cpu { c: v, ..self }, bus),
            Operand8::D => (Cpu { d: v, ..self }, bus),
            Operand8::E => (Cpu { e: v, ..self }, bus),
            Operand8::H => (Cpu { h: v, ..self }, bus),
            Operand8::L => (Cpu { l: v, ..self }, bus),
            Operand8::HlInd => (self, bus.write(self.hl(), v)),
            Operand8::A => (Cpu { a: v, ..self }, bus),
        }
    }

    /// PUSH: SP -= 1, store the high byte; SP -= 1, store the low byte.
    pub open spec fn push_spec(self, bus: BusModel, v: u16) -> (Cpu, BusModel) {
        let sp1 = wrap16(self.sp, -1);
        let sp2 = wrap16(self.sp, -2);
        (Cpu { sp: sp2, ..self }, bus.write(sp1, high(v)).write(sp2, low(v)))
    }

    /// POP: the low byte from SP, the high byte from SP + 1, then SP += 2.
    pub open spec fn pop_spec(self, bus: BusModel) -> (u16, Cpu) {
        (
            word(bus.read(wrap16(self.sp, 1)), bus.read(self.sp)),
            Cpu { sp: wrap16(self.sp, 2), ..self },
        )
    }

    pub open spec fn indirect_address(self, i: Indirect) -> u16 {
        match i {
            Indirect::BC => word(self.b, self.c),
            Indirect::DE => word(self.d, self.e),
            _ => self.hl(),
        }
    }

    /// HL after `LD (HLI),A` and the like: one up, one down, or unchanged.
    pub open spec fn indirect_step(self, i: Indirect) -> Cpu {
        match i {
            Indirect::HLI => self.with_reg16(Reg16::HL, wrap16(self.hl(), 1)),
            Indirect::HLD => self.with_reg16(Reg16::HL, wrap16(self.hl(), -1)),
            _ => self,
        }
    }

    /// The register state at power-on: the values the boot ROM leaves behind, or all
    /// zero when a boot ROM is going to run.
    pub open spec fn reset_spec(post_boot: bool) -> Cpu {
        if post_boot {
            Cpu {
                a: 0x01,
                b: 0x00,
                c: 0x13,
                d: 0x00,
                e: 0xD8,
                h: 0x01,
                l: 0x4D,
                f: FlagRegister { z: true, n: false, h: true, c: true },
                sp: 0xFFFE,
                pc: 0x0100,
                ime: false,
                ime_counter: -1i8,
                halted: false,
            }
        } else {
            Cpu {
                a: 0,
                b: 0,
                c: 0,
                d: 0,
                e: 0,
                h: 0,
                l: 0,
                f: FlagRegister { z: false, n: false, h: false, c: false },
                sp: 0,
                pc: 0,
                ime: false,
                ime_counter: -1i8,
                halted: false,
            }
        }
    }

    pub fn new(post_boot: bool) -> (r: Cpu)
        ensures
            r == Cpu::reset_spec(post_boot),
    {
        if post_boot {
            Cpu {
                a: 0x01,
                b: 0x00,
                c: 0x13,
                d: 0x00,
                e: 0xD8,
                h: 0x01,
                l: 0x4D,
                f: FlagRegister { z: true, n: false, h: true, c: true },
                sp: 0xFFFE,
                pc: 0x0100,
                ime: false,
                ime_counter: -1i8,
                halted: false,
            }
        } else {
            Cpu {
                a: 0,
                b: 0,
                c: 0,
                d: 0,
                e: 0,
                h: 0,
                l: 0,
                f: FlagRegister::new(),
                sp: 0,
                pc: 0,
                ime: false,
                ime_counter: -1i8,
                halted: false,
            }
        }
    }

    pub fn reset(&mut self, post_boot: bool)
        ensures
            *final(self) == Cpu::reset_spec(post_boot),
    {
        *self = Cpu::new(post_boot);
    }

    pub fn hl_value(&self) -> (r: u16)
        ensures
            r == self.hl(),
    {
        join(self.h, self.l)
    }

    pub fn get16(&self, r: Reg16) -> (v: u16)
        ensures
            v == self.reg16(r),
    {
        match r {
            Reg16::BC => join(self.b, self.c),
            Reg16::DE => join(self.d, self.e),
            Reg16::HL => join(self.h, self.l),
            Reg16::SP => self.sp,
        }
    }

    pub fn set16(&mut self, r: Reg16, v: u16)
        ensures
            *final(self) == old(self).with_reg16(r, v),
    {
        let (hi, lo) = split(v);
        match r {
            Reg16::BC => {
                self.b = hi;
                self.c = lo;
            },
            Reg16::DE => {
                self.d = hi;
                self.e = lo;
            },
            Reg16::HL => {
                self.h = hi;
                self.l = lo;
            },
            Reg16::SP => {
                self.sp = v;
            },
        }
    }

    pub fn get_stack_reg(&self, r: StackReg) -> (v: u16)
        ensures
            v == self.stack_reg(r),
    {
        match r {
            StackReg::BC => join(self.b, self.c),
            StackReg::DE => join(self.d, self.e),
            StackReg::HL => join(self.h, self.l),
            StackReg::AF => join(self.a, self.f.value()),
        }
    }

    pub fn set_stack_reg(&mut self, r: StackReg, v: u16)
        ensures
            *final(self) == old(self).with_stack_reg(r, v),
    {
        let (hi, lo) = split(v);
        match r {
            StackReg::BC => {
                self.b = hi;
                self.c = lo;
            },
            StackReg::DE => {
                self.d = hi;
                self.e = lo;
            },
            StackReg::HL => {
                self.h = hi;
                self.l = lo;
            },
            StackReg::AF => {
                self.a = hi;
                self.f.set(lo);
            },
        }
    }

    pub fn read_operand(&self, bus: &Bus, o: Operand8) -> (v: u8)
        requires
            bus@.wf(),
        ensures
            v == self.operand(bus@, o),
    {
        match o {
            Operand8::B => self.b,
            Operand8::C => self.c,
            Operand8::D => self.d,
            Operand8::E => self.e,
            Operand8::H => self.h,
            Operand8::L => self.l,
            Operand8::HlInd => bus.read8(self.hl_value()),
            Operand8::A => self.a,
        }
    }

    pub fn write_operand(&mut self, bus: &mut Bus, o: Operand8, v: u8)
        requires
            old(bus)@.wf(),
        ensures
            final(bus)@.wf(),
            (*final(self), final(bus)@) == old(self).with_operand(old(bus)@, o, v),
    {
        match o {
            Operand8::B => self.b = v,
            Operand8::C => self.c = v,
            Operand8::D => self.d = v,
            Operand8::E => self.e = v,
            Operand8::H => self.h = v,
            Operand8::L => self.l = v,
            Operand8::HlInd => bus.write8(self.hl_value(), v),
            Operand8::A => self.a = v,
        }
    }

    pub fn push(&mut self, bus: &mut Bus, v: u16)
        requires
            old(bus)@.wf(),
        ensures
            final(bus)@.wf(),
            (*final(self), final(bus)@) == old(self).push_spec(old(bus)@, v),
    {
        let (hi, lo) = split(v);
        self.sp = add_wrap(self.sp, -1);
        bus.write8(self.sp, hi);
        self.sp = add_wrap(self.sp, -1);
        bus.write8(self.sp, lo);
    }

    pub fn pop(&mut self, bus: &Bus) -> (v: u16)
        requires
            bus@.wf(),
        ensures
            (v, *final(self)) == old(self).pop_spec(bus@),
    {
        let lo = bus.read8(self.sp);
        let hi = bus.read8(add_wrap(self.sp, 1));
        self.sp = add_wrap(self.sp, 2);
        join(hi, lo)
    }
}

} // verus!
