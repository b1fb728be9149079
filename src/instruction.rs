use crate::alu::{AluOp, RotOp};
use crate::flags::Condition;
use vstd::prelude::*;

verus! {

/// An 8-bit operand: a register, or the byte at (HL).
#[derive(Clone, Copy, Debug, PartialEq, Eq, Structural)]
pub enum Operand8 {
    B,
    C,
    D,
    E,
    H,
    L,
    HlInd,
    A,
}

/// A 16-bit register as named by loads, INC/DEC and ADD HL.
#[derive(Clone, Copy, Debug, PartialEq, Eq, Structural)]
pub enum Reg16 {
    BC,
    DE,
    HL,
    SP,
}

/// A 16-bit register as named by PUSH and POP.
#[derive(Clone, Copy, Debug, PartialEq, Eq, Structural)]
pub enum StackReg {
    BC,
    DE,
    HL,
    AF,
}

/// The address of `LD (x),A` and `LD A,(x)`; HLI and HLD step HL afterwards.
#[derive(Clone, Copy, Debug, PartialEq, Eq, Structural)]
pub enum Indirect {
    BC,
    DE,
    HLI,
    HLD,
}

/// A decoded instruction with its operands.
#[derive(Clone, Copy, Debug, PartialEq, Eq, Structural)]
pub enum Instruction {
    Nop,
    Stop,
    Halt,
    Di,
    Ei,
    Ld(Operand8, Operand8),
    LdImm(Operand8, u8),
    Alu(AluOp, Operand8),
    AluImm(AluOp, u8),
    Inc(Operand8),
    Dec(Operand8),
    LdRrImm(Reg16, u16),
    IncRr(Reg16),
    DecRr(Reg16),
    AddHl(Reg16),
    LdIndA(Indirect),
    LdAInd(Indirect),
    LdAddrA(u16),
    LdAAddr(u16),
    LdhImmA(u8),
    LdhAImm(u8),
    LdhCA,
    LdhAC,
    LdAddrSp(u16),
    LdSpHl,
    AddSpE(i8),
    LdHlSpE(i8),
    Push(StackReg),
    Pop(StackReg),
    Jp(u16),
    JpCc(Condition, u16),
    JpHl,
    Jr(i8),
    JrCc(Condition, i8),
    Call(u16),
    CallCc(Condition, u16),
    Ret,
    RetCc(Condition),
    Reti,
    Rst(u8),
    RotA(RotOp),
    Daa,
    Cpl,
    Scf,
    Ccf,
    Cb(RotOp, Operand8),
    Bit(u8, Operand8),
    Res(u8, Operand8),
    SetBit(u8, Operand8),
    Invalid,
}

impl Instruction {
    /// The encoded length in bytes.
    pub open spec fn size_spec(self) -> u16 {
        match self {
            Instruction::LdImm(_, _) | Instruction::AluImm(_, _) | Instruction::LdhImmA(_)
            | Instruction::LdhAImm(_) | Instruction::AddSpE(_) | Instruction::LdHlSpE(_)
            | Instruction::Jr(_) | Instruction::JrCc(_, _) | Instruction::Stop
            | Instruction::Cb(_, _) | Instruction::Bit(_, _) | Instruction::Res(_, _)
            | Instruction::SetBit(_, _) => 2,
            Instruction::LdRrImm(_, _) | Instruction::LdAddrA(_) | Instruction::LdAAddr(_)
            | Instruction::LdAddrSp(_) | Instruction::Jp(_) | Instruction::JpCc(_, _)
            | Instruction::Call(_) | Instruction::CallCc(_, _) => 3,
            _ => 1,
        }
    }

    pub fn size(&self) -> (r: u16)
        ensures
            r == self.size_spec(),
            1 <= r <= 3,
    {
        match self {
            Instruction::LdImm(_, _) | Instruction::AluImm(_, _) | Instruction::LdhImmA(_)
            | Instruction::LdhAImm(_) | Instruction::AddSpE(_) | Instruction::LdHlSpE(_)
            | Instruction::Jr(_) | Instruction::JrCc(_, _) | Instruction::Stop
            | Instruction::Cb(_, _) | Instruction::Bit(_, _) | Instruction::Res(_, _)
            | Instruction::SetBit(_, _) => 2,
            Instruction::LdRrImm(_, _) | Instruction::LdAddrA(_) | Instruction::LdAAddr(_)
            | Instruction::LdAddrSp(_) | Instruction::Jp(_) | Instruction::JpCc(_, _)
            | Instruction::Call(_) | Instruction::CallCc(_, _) => 3,
            _ => 1,
        }
    }

    /// The cost in T-cycles; `taken` is false only for a conditional branch whose
    /// condition failed.
    pub open spec fn cycles_spec(self, taken: bool) -> u16 {
        match self {
            Instruction::Ld(d, s) => if d == Operand8::HlInd || s == Operand8::HlInd {
                8
            } else {
                4
            },
            Instruction::LdImm(d, _) => if d == Operand8::HlInd {
                12
            } else {
                8
            },
            Instruction::Alu(_, s) => if s == Operand8::HlInd {
                8
            } else {
                4
            },
            Instruction::Inc(d) | Instruction::Dec(d) => if d == Operand8::HlInd {
                12
            } else {
                4
            },
            Instruction::Cb(_, d) | Instruction::Res(_, d) | Instruction::SetBit(_, d) => if d
                == Operand8::HlInd {
                16
            } else {
                8
            },
            Instruction::Bit(_, d) => if d == Operand8::HlInd {
                12
            } else {
                8
            },
            Instruction::AluImm(_, _) | Instruction::IncRr(_) | Instruction::DecRr(_)
            | Instruction::AddHl(_) | Instruction::LdIndA(_) | Instruction::LdAInd(_)
            | Instruction::LdhCA | Instruction::LdhAC | Instruction::LdSpHl => 8,
            Instruction::LdRrImm(_, _) | Instruction::LdhImmA(_) | Instruction::LdhAImm(_)
            | Instruction::LdHlSpE(_) | Instruction::Pop(_) | Instruction::Jr(_) => 12,
            Instruction::LdAddrA(_) | Instruction::LdAAddr(_) | Instruction::AddSpE(_)
            | Instruction::Push(_) | Instruction::Jp(_) | Instruction::Ret | Instruction::Reti
            | Instruction::Rst(_) => 16,
            Instruction::LdAddrSp(_) => 20,
            Instruction::Call(_) => 24,
            Instruction::JpCc(_, _) => if taken {
                16
            } else {
                12
            },
            Instruction::JrCc(_, _) => if taken {
                12
            } else {
                8
            },
            Instruction::CallCc(_, _) => if taken {
                24
            } else {
                12
            },
            Instruction::RetCc(_) => if taken {
                20
            } else {
                8
            },
            _ => 4,
        }
    }

    pub fn cycles(&self, taken: bool) -> (r: u16)
        ensures
            r == self.cycles_spec(taken),
            4 <= r <= 24,
    {
        match self {
            Instruction::Ld(d, s) => if *d == Operand8::HlInd || *s == Operand8::HlInd {
                8
            } else {
                4
            },
            Instruction::LdImm(d, _) => if *d == Operand8::HlInd {
                12
            } else {
                8
            },
            Instruction::Alu(_, s) => if *s == Operand8::HlInd {
                8
            } else {
                4
            },
            Instruction::Inc(d) | Instruction::Dec(d) => if *d == Operand8::HlInd {
                12
            } else {
                4
            },
            Instruction::Cb(_, d) | Instruction::Res(_, d) | Instruction::SetBit(_, d) => if *d
                == Operand8::HlInd {
                16
            } else {
                8
            },
            Instruction::Bit(_, d) => if *d == Operand8::HlInd {
                12
            } else {
                8
            },
            Instruction::AluImm(_, _) | Instruction::IncRr(_) | Instruction::DecRr(_)
            | Instruction::AddHl(_) | Instruction::LdIndA(_) | Instruction::LdAInd(_)
            | Instruction::LdhCA | Instruction::LdhAC | Instruction::LdSpHl => 8,
            Instruction::LdRrImm(_, _) | Instruction::LdhImmA(_) | Instruction::LdhAImm(_)
            | Instruction::LdHlSpE(_) | Instruction::Pop(_) | Instruction::Jr(_) => 12,
            Instruction::LdAddrA(_) | Instruction::LdAAddr(_) | Instruction::AddSpE(_)
            | Instruction::Push(_) | Instruction::Jp(_) | Instruction::Ret | Instruction::Reti
            | Instruction::Rst(_) => 16,
            Instruction::LdAddrSp(_) => 20,
            Instruction::Call(_) => 24,
            Instruction::JpCc(_, _) => if taken {
                16
            } else {
                12
            },
            Instruction::JrCc(_, _) => if taken {
                12
            } else {
                8
            },
            Instruction::CallCc(_, _) => if taken {
                24
            } else {
                12
            },
            Instruction::RetCc(_) => if taken {
                20
            } else {
                8
            },
            _ => 4,
        }
    }

    /// Instructions that set PC themselves (jumps, calls, returns, restarts).
    pub open spec fn is_control_flow(self) -> bool {
        match self {
            Instruction::Jp(_) | Instruction::JpCc(_, _) | Instruction::JpHl | Instruction::Jr(_)
            | Instruction::JrCc(_, _) | Instruction::Call(_) | Instruction::CallCc(_, _)
            | Instruction::Ret | Instruction::RetCc(_) | Instruction::Reti
            | Instruction::Rst(_) => true,
            _ => false,
        }
    }
}

} // verus!
