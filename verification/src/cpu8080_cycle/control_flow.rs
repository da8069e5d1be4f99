use vstd::prelude::*;
use super::alu::{FLAG_1, FLAG_C, FLAG_P, FLAG_S, FLAG_Z};
use super::state::Registers;

verus! {

#[derive(Clone, Copy, Debug, PartialEq, Eq, Structural)]
pub enum Condition {
    NZ,
    Z,
    NC,
    C,
    PO,
    PE,
    P,
    M,
}

/// The condition selected by bits 5..3 of a conditional JMP/CALL/RET.
pub open spec fn spec_condition_from_code(code: u8) -> Condition {
    let c = code % 8;
    if c == 0 {
        Condition::NZ
    } else if c == 1 {
        Condition::Z
    } else if c == 2 {
        Condition::NC
    } else if c == 3 {
        Condition::C
    } else if c == 4 {
        Condition::PO
    } else if c == 5 {
        Condition::PE
    } else if c == 6 {
        Condition::P
    } else {
        Condition::M
    }
}

impl Condition {
    pub fn from_code(code: u8) -> (r: Condition)
        ensures
            r == spec_condition_from_code(code),
    {
        let c = code % 8;
        if c == 0 {
            Condition::NZ
        } else if c == 1 {
            Condition::Z
        } else if c == 2 {
            Condition::NC
        } else if c == 3 {
            Condition::C
        } else if c == 4 {
            Condition::PO
        } else if c == 5 {
            Condition::PE
        } else if c == 6 {
            Condition::P
        } else {
            Condition::M
        }
    }
}

#[derive(Clone, Copy, Debug, PartialEq, Eq, Structural)]
pub enum StackPair {
    BC,
    DE,
    HL,
    PSW,
}

/// The register pair selected by bits 5..4 of PUSH/POP.
pub open spec fn spec_stack_pair_from_code(code: u8) -> StackPair {
    let c = code % 4;
    if c == 0 {
        StackPair::BC
    } else if c == 1 {
        StackPair::DE
    } else if c == 2 {
        StackPair::HL
    } else {
        StackPair::PSW
    }
}

impl StackPair {
    pub fn from_code(code: u8) -> (r: StackPair)
        ensures
            r == spec_stack_pair_from_code(code),
    {
        let c = code % 4;
        if c == 0 {
            StackPair::BC
        } else if c == 1 {
            StackPair::DE
        } else if c == 2 {
            StackPair::HL
        } else {
            StackPair::PSW
        }
    }
}

/// Whether `condition` holds for the flag byte `flags`.
pub open spec fn spec_condition(flags: u8, condition: Condition) -> bool {
    match condition {
        Condition::NZ => flags & FLAG_Z == 0,
        Condition::Z => flags & FLAG_Z != 0,
        Condition::NC => flags & FLAG_C == 0,
        Condition::C => flags & FLAG_C != 0,
        Condition::PO => flags & FLAG_P == 0,
        Condition::PE => flags & FLAG_P != 0,
        Condition::P => flags & FLAG_S == 0,
        Condition::M => flags & FLAG_S != 0,
    }
}

pub fn condition(flags: u8, cond: Condition) -> (r: bool)
    ensures
        r == spec_condition(flags, cond),
{
    match cond {
        Condition::NZ => flags & FLAG_Z == 0,
        Condition::Z => flags & FLAG_Z != 0,
        Condition::NC => flags & FLAG_C == 0,
        Condition::C => flags & FLAG_C != 0,
        Condition::PO => flags & FLAG_P == 0,
        Condition::PE => flags & FLAG_P != 0,
        Condition::P => flags & FLAG_S == 0,
        Condition::M => flags & FLAG_S != 0,
    }
}

/// The flag byte as pushed/popped with PSW: bits 3 and 5 read as zero and
/// bit 1 reads as one.
pub open spec fn spec_normalized_flags(f: u8) -> u8 {
    (f & 0xd5) | FLAG_1
}

/// The 16-bit value of a register pair, high register first.
pub open spec fn spec_read_stack_pair(r: Registers, pair: StackPair) -> u16 {
    match pair {
        StackPair::BC => (r.b as int * 256 + r.c as int) as u16,
        StackPair::DE => (r.d as int * 256 + r.e as int) as u16,
        StackPair::HL => (r.h as int * 256 + r.l as int) as u16,
        StackPair::PSW => (r.a as int * 256 + spec_normalized_flags(r.f) as int) as u16,
    }
}

/// Registers after loading a register pair from a 16-bit value.
pub open spec fn spec_write_stack_pair(r: Registers, pair: StackPair, value: u16) -> Registers {
    let high = (value / 256) as u8;
    let low = (value % 256) as u8;
    match pair {
        StackPair::BC => Registers { b: high, c: low, ..r },
        StackPair::DE => Registers { d: high, e: low, ..r },
        StackPair::HL => Registers { h: high, l: low, ..r },
        StackPair::PSW => Registers { a: high, f: spec_normalized_flags(low), ..r },
    }
}

fn word(high: u8, low: u8) -> (r: u16)
    ensures
        r == high as int * 256 + low as int,
{
    high as u16 * 256 + low as u16
}

pub fn read_stack_pair(registers: &Registers, pair: StackPair) -> (r: u16)
    ensures
        r == spec_read_stack_pair(*registers, pair),
{
    match pair {
        StackPair::BC => word(registers.b, registers.c),
        StackPair::DE => word(registers.d, registers.e),
        StackPair::HL => word(registers.h, registers.l),
        StackPair::PSW => word(registers.a, (registers.f & 0xd5) | FLAG_1),
    }
}

pub fn write_stack_pair(registers: &mut Registers, pair: StackPair, value: u16)
    ensures
        *final(registers) == spec_write_stack_pair(*old(registers), pair, value),
{
    let high = (value / 256) as u8;
    let low = (value % 256) as u8;
    match pair {
        StackPair::BC => {
            registers.b = high;
            registers.c = low;
        },
        StackPair::DE => {
            registers.d = high;
            registers.e = low;
        },
        StackPair::HL => {
            registers.h = high;
            registers.l = low;
        },
        StackPair::PSW => {
            registers.a = high;
            registers.f = (low & 0xd5) | FLAG_1;
        },
    }
}

/// Writing a pair and reading it back gives the written value, except for the
/// flag bits that PSW normalizes.
pub proof fn lemma_stack_pair_round_trip(r: Registers, pair: StackPair, value: u16)
    ensures
        pair != StackPair::PSW ==> spec_read_stack_pair(spec_write_stack_pair(r, pair, value), pair)
            == value,
        pair == StackPair::PSW ==> spec_read_stack_pair(spec_write_stack_pair(r, pair, value), pair)
            == (value / 256) * 256 + spec_normalized_flags((value % 256) as u8),
{
    let low = (value % 256) as u8;
    assert(spec_normalized_flags(spec_normalized_flags(low)) == spec_normalized_flags(low))
        by (bit_vector);
}

} // verus!
