use vstd::prelude::*;

verus! {

/// The four semantic bits of the F register.
#[derive(Clone, Copy, Debug, PartialEq, Eq, Structural)]
pub struct FlagRegister {
    pub z: bool,
    pub n: bool,
    pub h: bool,
    pub c: bool,
}

/// Branch conditions over the flag register.
#[derive(Clone, Copy, Debug, PartialEq, Eq, Structural)]
pub enum Condition {
    NZ,
    Z,
    NC,
    C,
}

pub open spec fn bit_of(b: bool, shift: u8) -> u8 {
    if b { (1u8 << shift) } else { 0u8 }
}

impl FlagRegister {
    /// The packed byte: `(z<<7)|(n<<6)|(h<<5)|(c<<4)`.
    pub open spec fn byte(self) -> u8 {
        (bit_of(self.z, 7) | bit_of(self.n, 6) | bit_of(self.h, 5) | bit_of(self.c, 4)) as u8
    }

    /// Flags read back out of a byte: bits 7, 6, 5 and 4.
    pub open spec fn of_byte(v: u8) -> FlagRegister {
        FlagRegister {
            z: v & 0x80 != 0,
            n: v & 0x40 != 0,
            h: v & 0x20 != 0,
            c: v & 0x10 != 0,
        }
    }

    pub fn new() -> (r: FlagRegister)
        ensures
            r == (FlagRegister { z: false, n: false, h: false, c: false }),
    {
        FlagRegister { z: false, n: false, h: false, c: false }
    }

    pub fn value(&self) -> (r: u8)
        ensures
            r == self.byte(),
            r & 0x0F == 0,
    {
        let z: u8 = if self.z { 0x80 } else { 0 };
        let n: u8 = if self.n { 0x40 } else { 0 };
        let h: u8 = if self.h { 0x20 } else { 0 };
        let c: u8 = if self.c { 0x10 } else { 0 };
        proof {
            assert(1u8 << 7u8 == 0x80u8 && 1u8 << 6u8 == 0x40u8 && 1u8 << 5u8 == 0x20u8
                && 1u8 << 4u8 == 0x10u8) by (bit_vector);
            lemma_packed_low_nibble(z, n, h, c);
        }
        z | n | h | c
    }

    /// Restores the flags from a byte; the low nibble is dropped.
    pub fn set(&mut self, v: u8)
        ensures
            *final(self) == FlagRegister::of_byte(v),
            final(self).byte() == v & 0xF0,
    {
        self.z = v & 0x80 != 0;
        self.n = v & 0x40 != 0;
        self.h = v & 0x20 != 0;
        self.c = v & 0x10 != 0;
        proof {
            lemma_byte_of_byte(v);
        }
    }
}

proof fn lemma_packed_low_nibble(z: u8, n: u8, h: u8, c: u8)
    requires
        z == 0 || z == 0x80,
        n == 0 || n == 0x40,
        h == 0 || h == 0x20,
        c == 0 || c == 0x10,
    ensures
        (z | n | h | c) & 0x0F == 0,
{
    assert((z == 0 || z == 0x80) && (n == 0 || n == 0x40) && (h == 0 || h == 0x20) && (c == 0
        || c == 0x10) ==> (z | n | h | c) & 0x0F == 0) by (bit_vector);
}

/// Packing the flags of a byte keeps exactly its high nibble.
pub proof fn lemma_byte_of_byte(v: u8)
    ensures
        FlagRegister::of_byte(v).byte() == v & 0xF0,
{
    assert(1u8 << 7u8 == 0x80u8 && 1u8 << 6u8 == 0x40u8 && 1u8 << 5u8 == 0x20u8 && 1u8 << 4u8
        == 0x10u8) by (bit_vector);
    let z: u8 = if v & 0x80 != 0 { 0x80 } else { 0 };
    let n: u8 = if v & 0x40 != 0 { 0x40 } else { 0 };
    let h: u8 = if v & 0x20 != 0 { 0x20 } else { 0 };
    let c: u8 = if v & 0x10 != 0 { 0x10 } else { 0 };
    assert(z == (v & 0x80) && n == (v & 0x40) && h == (v & 0x20) && c == (v & 0x10)) by (bit_vector)
        requires
            z == (if v & 0x80 != 0 { 0x80u8 } else { 0u8 }),
            n == (if v & 0x40 != 0 { 0x40u8 } else { 0u8 }),
            h == (if v & 0x20 != 0 { 0x20u8 } else { 0u8 }),
            c == (if v & 0x10 != 0 { 0x10u8 } else { 0u8 }),
    ;
    assert((v & 0x80) | (v & 0x40) | (v & 0x20) | (v & 0x10) == v & 0xF0) by (bit_vector);
}

/// The packed byte of any flag register has a zero low nibble.
pub proof fn lemma_flags_low_nibble(f: FlagRegister)
    ensures
        f.byte() & 0x0F == 0,
{
    assert(1u8 << 7u8 == 0x80u8 && 1u8 << 6u8 == 0x40u8 && 1u8 << 5u8 == 0x20u8 && 1u8 << 4u8
        == 0x10u8) by (bit_vector);
    lemma_packed_low_nibble(bit_of(f.z, 7), bit_of(f.n, 6), bit_of(f.h, 5), bit_of(f.c, 4));
}

/// Whether a branch condition holds: NZ is !Z, Z is Z, NC is !C, C is C.
pub open spec fn condition_holds(cc: Condition, f: FlagRegister) -> bool {
    match cc {
        Condition::NZ => !f.z,
        Condition::Z => f.z,
        Condition::NC => !f.c,
        Condition::C => f.c,
    }
}

pub fn check_condition(cc: Condition, f: FlagRegister) -> (r: bool)
    ensures
        r == condition_holds(cc, f),
{
    match cc {
        Condition::NZ => !f.z,
        Condition::Z => f.z,
        Condition::NC => !f.c,
        Condition::C => f.c,
    }
}

} // verus!
