use crate::alu::{AluOp, RotOp};
use crate::flags::Condition;
use crate::instruction::{Indirect, Instruction, Operand8, Reg16, StackReg};
use vstd::prelude::*;

verus! {

// Opcodes are read as a grid: x = bits 7-6, y = bits 5-3, z = bits 2-0, and y
// splits further into p = bits 5-4 and q = bit 3.

pub open spec fn operand8_spec(i: u8) -> Operand8 {
    let k = i % 8;
    if k == 0 {
        Operand8::B
    } else if k == 1 {
        Operand8::C
    } else if k == 2 {
        Operand8::D
    } else if k == 3 {
        Operand8::E
    } else if k == 4 {
        Operand8::H
    } else if k == 5 {
        Operand8::L
    } else if k == 6 {
        Operand8::HlInd
    } else {
        Operand8::A
    }
}

pub fn operand8_of(i: u8) -> (r: Operand8)
    ensures
        r == operand8_spec(i),
{
    let k = i % 8;
    if k == 0 {
        Operand8::B
    } else if k == 1 {
        Operand8::C
    } else if k == 2 {
        Operand8::D
    } else if k == 3 {
        Operand8::E
    } else if k == 4 {
        Operand8::H
    } else if k == 5 {
        Operand8::L
    } else if k == 6 {
        Operand8::HlInd
    } else {
        Operand8::A
    }
}

pub open spec fn reg16_spec(p: u8) -> Reg16 {
    if p % 4 == 0 {
        Reg16::BC
    } else if p % 4 == 1 {
        Reg16::DE
    } else if p % 4 == 2 {
        Reg16::HL
    } else {
        Reg16::SP
    }
}

pub fn reg16_of(p: u8) -> (r: Reg16)
    ensures
        r == reg16_spec(p),
{
    if p % 4 == 0 {
        Reg16::BC
    } else if p % 4 == 1 {
        Reg16::DE
    } else if p % 4 == 2 {
        Reg16::HL
    } else {
        Reg16::SP
    }
}

pub open spec fn stack_reg_spec(p: u8) -> StackReg {
    if p % 4 == 0 {
        StackReg::BC
    } else if p % 4 == 1 {
        StackReg::DE
    } else if p % 4 == 2 {
        StackReg::HL
    } else {
        StackReg::AF
    }
}

pub fn stack_reg_of(p: u8) -> (r: StackReg)
    ensures
        r == stack_reg_spec(p),
{
    if p % 4 == 0 {
        StackReg::BC
    } else if p % 4 == 1 {
        StackReg::DE
    } else if p % 4 == 2 {
        StackReg::HL
    } else {
        StackReg::AF
    }
}

pub open spec fn indirect_spec(p: u8) -> Indirect {
    if p % 4 == 0 {
        Indirect::BC
    } else if p % 4 == 1 {
        Indirect::DE
    } else if p % 4 == 2 {
        Indirect::HLI
    } else {
        Indirect::HLD
    }
}

pub fn indirect_of(p: u8) -> (r: Indirect)
    ensures
        r == indirect_spec(p),
{
    if p % 4 == 0 {
        Indirect::BC
    } else if p % 4 == 1 {
        Indirect::DE
    } else if p % 4 == 2 {
        Indirect::HLI
    } else {
        Indirect::HLD
    }
}

pub open spec fn condition_spec(y: u8) -> Condition {
    if y % 4 == 0 {
        Condition::NZ
    } else if y % 4 == 1 {
        Condition::Z
    } else if y % 4 == 2 {
        Condition::NC
    } else {
        Condition::C
    }
}

pub fn condition_of(y: u8) -> (r: Condition)
    ensures
        r == condition_spec(y),
{
    if y % 4 == 0 {
        Condition::NZ
    } else if y % 4 == 1 {
        Condition::Z
    } else if y % 4 == 2 {
        Condition::NC
    } else {
        Condition::C
    }
}

pub open spec fn alu_op_spec(y: u8) -> AluOp {
    let k = y % 8;
    if k == 0 {
        AluOp::Add
    } else if k == 1 {
        AluOp::Adc
    } else if k == 2 {
        AluOp::Sub
    } else if k == 3 {
        AluOp::Sbc
    } else if k == 4 {
        AluOp::And
    } else if k == 5 {
        AluOp::Xor
    } else if k == 6 {
        AluOp::Or
    } else {
        AluOp::Cp
    }
}

pub fn alu_op_of(y: u8) -> (r: AluOp)
    ensures
        r == alu_op_spec(y),
{
    let k = y % 8;
    if k == 0 {
        AluOp::Add
    } else if k == 1 {
        AluOp::Adc
    } else if k == 2 {
        AluOp::Sub
    } else if k == 3 {
        AluOp::Sbc
    } else if k == 4 {
        AluOp::And
    } else if k == 5 {
        AluOp::Xor
    } else if k == 6 {
        AluOp::Or
    } else {
        AluOp::Cp
    }
}

pub open spec fn rot_op_spec(y: u8) -> RotOp {
    let k = y % 8;
    if k == 0 {
        RotOp::Rlc
    } else if k == 1 {
        RotOp::Rrc
    } else if k == 2 {
        RotOp::Rl
    } else if k == 3 {
        RotOp::Rr
    } else if k == 4 {
        RotOp::Sla
    } else if k == 5 {
        RotOp::Sra
    } else if k == 6 {
        RotOp::Swap
    } else {
        RotOp::Srl
    }
}

pub fn rot_op_of(y: u8) -> (r: RotOp)
    ensures
        r == rot_op_spec(y),
{
    let k = y % 8;
    if k == 0 {
        RotOp::Rlc
    } else if k == 1 {
        RotOp::Rrc
    } else if k == 2 {
        RotOp::Rl
    } else if k == 3 {
        RotOp::Rr
    } else if k == 4 {
        RotOp::Sla
    } else if k == 5 {
        RotOp::Sra
    } else if k == 6 {
        RotOp::Swap
    } else {
        RotOp::Srl
    }
}

/// A little-endian 16-bit immediate.
pub open spec fn word_spec(lo: u8, hi: u8) -> u16 {
    (hi * 256 + lo) as u16
}

/// A byte read as a two's-complement offset.
pub open spec fn signed_spec(b: u8) -> i8 {
    if b < 128 {
        b as i8
    } else {
        (b - 256) as i8
    }
}

pub fn signed_of(b: u8) -> (r: i8)
    ensures
        r == signed_spec(b),
{
    if b < 128 {
        b as i8
    } else {
        (b as i16 - 256) as i8
    }
}

/// The second byte after 0xCB: rotates and shifts, then BIT, RES and SET.
pub open spec fn decode_cb_spec(b: u8) -> Instruction {
    let x = b / 64;
    let y = (b / 8) % 8;
    let r = operand8_spec(b);
    if x == 0 {
        Instruction::Cb(rot_op_spec(y), r)
    } else if x == 1 {
        Instruction::Bit(y, r)
    } else if x == 2 {
        Instruction::Res(y, r)
    } else {
        Instruction::SetBit(y, r)
    }
}

/// The instruction that starts with `op`, followed in the stream by `b1` and `b2`.
pub open spec fn decode_spec(op: u8, b1: u8, b2: u8) -> Instruction {
    let x = op / 64;
    let y = (op / 8) % 8;
    let z = op % 8;
    let p = y / 2;
    let q = y % 2;
    let nn = word_spec(b1, b2);
    let e = signed_spec(b1);
    if op == 0xCB {
        decode_cb_spec(b1)
    } else if x == 1 {
        if op == 0x76 {
            Instruction::Halt
        } else {
            Instruction::Ld(operand8_spec(y), operand8_spec(z))
        }
    } else if x == 2 {
        Instruction::Alu(alu_op_spec(y), operand8_spec(z))
    } else if x == 0 {
        if z == 0 {
            if y == 0 {
                Instruction::Nop
            } else if y == 1 {
                Instruction::LdAddrSp(nn)
            } else if y == 2 {
                Instruction::Stop
            } else if y == 3 {
                Instruction::Jr(e)
            } else {
                Instruction::JrCc(condition_spec(y), e)
            }
        } else if z == 1 {
            if q == 0 {
                Instruction::LdRrImm(reg16_spec(p), nn)
            } else {
                Instruction::AddHl(reg16_spec(p))
            }
        } else if z == 2 {
            if q == 0 {
                Instruction::LdIndA(indirect_spec(p))
            } else {
                Instruction::LdAInd(indirect_spec(p))
            }
        } else if z == 3 {
            if q == 0 {
                Instruction::IncRr(reg16_spec(p))
            } else {
                Instruction::DecRr(reg16_spec(p))
            }
        } else if z == 4 {
            Instruction::Inc(operand8_spec(y))
        } else if z == 5 {
            Instruction::Dec(operand8_spec(y))
        } else if z == 6 {
            Instruction::LdImm(operand8_spec(y), b1)
        } else if y < 4 {
            Instruction::RotA(rot_op_spec(y))
        } else if y == 4 {
            Instruction::Daa
        } else if y == 5 {
            Instruction::Cpl
        } else if y == 6 {
            Instruction::Scf
        } else {
            Instruction::Ccf
        }
    } else {
        if z == 0 {
            if y < 4 {
                Instruction::RetCc(condition_spec(y))
            } else if y == 4 {
                Instruction::LdhImmA(b1)
            } else if y == 5 {
                Instruction::AddSpE(e)
            } else if y == 6 {
                Instruction::LdhAImm(b1)
            } else {
                Instruction::LdHlSpE(e)
            }
        } else if z == 1 {
            if q == 0 {
                Instruction::Pop(stack_reg_spec(p))
            } else if p == 0 {
                Instruction::Ret
            } else if p == 1 {
                Instruction::Reti
            } else if p == 2 {
                Instruction::JpHl
            } else {
                Instruction::LdSpHl
            }
        } else if z == 2 {
            if y < 4 {
                Instruction::JpCc(condition_spec(y), nn)
            } else if y == 4 {
                Instruction::LdhCA
            } else if y == 5 {
                Instruction::LdAddrA(nn)
            } else if y == 6 {
                Instruction::LdhAC
            } else {
                Instruction::LdAAddr(nn)
            }
        } else if z == 3 {
            if y == 0 {
                Instruction::Jp(nn)
            } else if y == 6 {
                Instruction::Di
            } else if y == 7 {
                Instruction::Ei
            } else {
                Instruction::Invalid
            }
        } else if z == 4 {
            if y < 4 {
                Instruction::CallCc(condition_spec(y), nn)
            } else {
                Instruction::Invalid
            }
        } else if z == 5 {
            if q == 0 {
                Instruction::Push(stack_reg_spec(p))
            } else if p == 0 {
                Instruction::Call(nn)
            } else {
                Instruction::Invalid
            }
        } else if z == 6 {
            Instruction::AluImm(alu_op_spec(y), b1)
        } else {
            Instruction::Rst((y * 8) as u8)
        }
    }
}

fn decode_cb(b: u8) -> (r: Instruction)
    ensures
        r == decode_cb_spec(b),
{
    let x = b / 64;
    let y = (b / 8) % 8;
    let r = operand8_of(b);
    if x == 0 {
        Instruction::Cb(rot_op_of(y), r)
    } else if x == 1 {
        Instruction::Bit(y, r)
    } else if x == 2 {
        Instruction::Res(y, r)
    } else {
        Instruction::SetBit(y, r)
    }
}

/// Decodes the instruction at the start of `op, b1, b2`.
pub fn decode(op: u8, b1: u8, b2: u8) -> (r: Instruction)
    ensures
        r == decode_spec(op, b1, b2),
{
    let x = op / 64;
    let y = (op / 8) % 8;
    let z = op % 8;
    let p = y / 2;
    let q = y % 2;
    let nn: u16 = b2 as u16 * 256 + b1 as u16;
    let e = signed_of(b1);
    if op == 0xCB {
        decode_cb(b1)
    } else if x == 1 {
        if op == 0x76 {
            Instruction::Halt
        } else {
            Instruction::Ld(operand8_of(y), operand8_of(z))
        }
    } else if x == 2 {
        Instruction::Alu(alu_op_of(y), operand8_of(z))
    } else if x == 0 {
        if z == 0 {
            if y == 0 {
                Instruction::Nop
            } else if y == 1 {
                Instruction::LdAddrSp(nn)
            } else if y == 2 {
                Instruction::Stop
            } else if y == 3 {
                Instruction::Jr(e)
            } else {
                Instruction::JrCc(condition_of(y), e)
            }
        } else if z == 1 {
            if q == 0 {
                Instruction::LdRrImm(reg16_of(p), nn)
            } else {
                Instruction::AddHl(reg16_of(p))
            }
        } else if z == 2 {
            if q == 0 {
                Instruction::LdIndA(indirect_of(p))
            } else {
                Instruction::LdAInd(indirect_of(p))
            }
        } else if z == 3 {
            if q == 0 {
                Instruction::IncRr(reg16_of(p))
            } else {
                Instruction::DecRr(reg16_of(p))
            }
        } else if z == 4 {
            Instruction::Inc(operand8_of(y))
        } else if z == 5 {
            Instruction::Dec(operand8_of(y))
        } else if z == 6 {
            Instruction::LdImm(operand8_of(y), b1)
        } else if y < 4 {
            Instruction::RotA(rot_op_of(y))
        } else if y == 4 {
            Instruction::Daa
        } else if y == 5 {
            Instruction::Cpl
        } else if y == 6 {
            Instruction::Scf
        } else {
            Instruction::Ccf
        }
    } else {
        if z == 0 {
            if y < 4 {
                Instruction::RetCc(condition_of(y))
            } else if y == 4 {
                Instruction::LdhImmA(b1)
            } else if y == 5 {
                Instruction::AddSpE(e)
            } else if y == 6 {
                Instruction::LdhAImm(b1)
            } else {
                Instruction::LdHlSpE(e)
            }
        } else if z == 1 {
            if q == 0 {
                Instruction::Pop(stack_reg_of(p))
            } else if p == 0 {
                Instruction::Ret
            } else if p == 1 {
                Instruction::Reti
            } else if p == 2 {
                Instruction::JpHl
            } else {
                Instruction::LdSpHl
            }
        } else if z == 2 {
            if y < 4 {
                Instruction::JpCc(condition_of(y), nn)
            } else if y == 4 {
                Instruction::LdhCA
            } else if y == 5 {
                Instruction::LdAddrA(nn)
            } else if y == 6 {
                Instruction::LdhAC
            } else {
                Instruction::LdAAddr(nn)
            }
        } else if z == 3 {
            if y == 0 {
                Instruction::Jp(nn)
            } else if y == 6 {
                Instruction::Di
            } else if y == 7 {
                Instruction::Ei
            } else {
                Instruction::Invalid
            }
        } else if z == 4 {
            if y < 4 {
                Instruction::CallCc(condition_of(y), nn)
            } else {
                Instruction::Invalid
            }
        } else if z == 5 {
            if q == 0 {
                Instruction::Push(stack_reg_of(p))
            } else if p == 0 {
                Instruction::Call(nn)
            } else {
                Instruction::Invalid
            }
        } else if z == 6 {
            Instruction::AluImm(alu_op_of(y), b1)
        } else {
            Instruction::Rst(y * 8)
        }
    }
}

/// An opcode whose first byte is one of 0xD3, 0xDB, 0xDD, 0xE3, 0xE4, 0xEB, 0xEC,
/// 0xED, 0xF4, 0xFC, 0xFD.
pub open spec fn is_unused_opcode(op: u8) -> bool {
    op == 0xD3 || op == 0xDB || op == 0xDD || op == 0xE3 || op == 0xE4 || op == 0xEB || op == 0xEC
        || op == 0xED || op == 0xF4 || op == 0xFC || op == 0xFD
}

/// Exactly the eleven unused opcodes decode to `Invalid`, whatever follows them.
pub proof fn lemma_invalid_exactly_unused(op: u8, b1: u8, b2: u8)
    ensures
        (decode_spec(op, b1, b2) is Invalid) <==> is_unused_opcode(op),
{
    let x = op / 64;
    let y = (op / 8) % 8;
    let z = op % 8;
    assert(op == 64 * x + 8 * y + z);
    if decode_spec(op, b1, b2) is Invalid {
        assert(x == 3);
        assert(op == 192 + 8 * y + z);
    }
}

} // verus!
