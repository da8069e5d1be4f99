use vstd::prelude::*;
use super::state::Registers;

verus! {

pub const FLAG_C: u8 = 0x01;
pub const FLAG_1: u8 = 0x02;
pub const FLAG_P: u8 = 0x04;
pub const FLAG_AC: u8 = 0x10;
pub const FLAG_Z: u8 = 0x40;
pub const FLAG_S: u8 = 0x80;

/// Number of one bits in `v`.
pub open spec fn popcount(v: nat) -> nat
    decreases v,
{
    if v == 0 {
        0
    } else {
        v % 2 + popcount(v / 2)
    }
}

/// The S, Z and P flags for a result byte, together with the always-one bit 1.
pub open spec fn spec_szp(v: u8) -> u8 {
    FLAG_1
        | (if v >= 0x80 { FLAG_S } else { 0u8 })
        | (if v == 0 { FLAG_Z } else { 0u8 })
        | (if popcount(v as nat) % 2 == 0 { FLAG_P } else { 0u8 })
}

/// Flag byte after an arithmetic or logical operation: S, Z, P from the
/// result, AC and C as given, bit 1 forced to one, bits 3 and 5 preserved.
pub open spec fn spec_arith_flags(f: u8, result: u8, ac: bool, c: bool) -> u8 {
    (f & 0x28) | spec_szp(result) | (if ac { FLAG_AC } else { 0u8 }) | (if c { FLAG_C } else { 0u8 })
}

/// Flag byte after INR/DCR: like an arithmetic result, but carry is preserved.
pub open spec fn spec_incdec_flags(f: u8, result: u8, ac: bool) -> u8 {
    (f & 0x29) | spec_szp(result) | (if ac { FLAG_AC } else { 0u8 })
}

/// Flag byte after a rotate: only carry changes.
pub open spec fn spec_rotate_flags(f: u8, c: bool) -> u8 {
    (f & 0xfe) | (if c { FLAG_C } else { 0u8 })
}

pub open spec fn carry_in(f: u8, enabled: bool) -> int {
    if enabled && f & FLAG_C != 0 { 1 } else { 0 }
}

#[derive(Clone, Copy, Debug, PartialEq, Eq, Structural)]
pub enum AluOp {
    Add,
    Adc,
    Sub,
    Sbb,
    Ana,
    Xra,
    Ora,
    Cmp,
    Rlc,
    Rrc,
    Ral,
    Rar,
    Daa,
    Cma,
    Stc,
    Cmc,
}

/// The eight register/immediate ALU operations selected by bits 5..3 of an
/// opcode.
pub open spec fn spec_alu_from_code(code: u8) -> AluOp {
    let c = code % 8;
    if c == 0 {
        AluOp::Add
    } else if c == 1 {
        AluOp::Adc
    } else if c == 2 {
        AluOp::Sub
    } else if c == 3 {
        AluOp::Sbb
    } else if c == 4 {
        AluOp::Ana
    } else if c == 5 {
        AluOp::Xra
    } else if c == 6 {
        AluOp::Ora
    } else {
        AluOp::Cmp
    }
}

impl AluOp {
    pub fn from_code(code: u8) -> (r: AluOp)
        ensures
            r == spec_alu_from_code(code),
    {
        let c = code % 8;
        if c == 0 {
            AluOp::Add
        } else if c == 1 {
            AluOp::Adc
        } else if c == 2 {
            AluOp::Sub
        } else if c == 3 {
            AluOp::Sbb
        } else if c == 4 {
            AluOp::Ana
        } else if c == 5 {
            AluOp::Xra
        } else if c == 6 {
            AluOp::Ora
        } else {
            AluOp::Cmp
        }
    }
}

/// Result of an 8-bit addition `lhs + rhs + carry` (A := result).
pub open spec fn spec_add(r: Registers, rhs: u8, with_carry: bool) -> Registers {
    let carry = carry_in(r.f, with_carry);
    let sum = r.a + rhs + carry;
    let result = (sum % 256) as u8;
    Registers {
        a: result,
        f: spec_arith_flags(r.f, result, (r.a % 16) + (rhs % 16) + carry > 15, sum > 255),
        ..r
    }
}

/// Result of an 8-bit subtraction `A - rhs - borrow`; CMP keeps A (store false).
/// The 8080 AC flag after subtraction is the inverse of a low-nibble borrow.
pub open spec fn spec_sub(r: Registers, rhs: u8, with_borrow: bool, store: bool) -> Registers {
    let borrow = carry_in(r.f, with_borrow);
    let diff = r.a - rhs - borrow;
    let result = ((diff + 512) % 256) as u8;
    Registers {
        a: if store { result } else { r.a },
        f: spec_arith_flags(r.f, result, r.a % 16 >= rhs % 16 + borrow, diff < 0),
        ..r
    }
}

/// Decimal-adjust the accumulator after BCD addition.
pub open spec fn spec_daa(r: Registers) -> Registers {
    let old_carry = r.f & FLAG_C != 0;
    let old_aux = r.f & FLAG_AC != 0;
    let lo = r.a % 16 > 9 || old_aux;
    let hi = r.a > 0x99 || old_carry;
    let correction = (if lo { 6int } else { 0 }) + (if hi { 0x60int } else { 0 });
    let result = ((r.a + correction) % 256) as u8;
    Registers {
        a: result,
        f: spec_arith_flags(r.f, result, (r.a % 16) + (if lo { 6int } else { 0 }) > 15, hi),
        ..r
    }
}

/// Register state after executing one ALU/accumulator operation with operand
/// `rhs` (ignored by the eight accumulator-only operations).
pub open spec fn spec_execute(r: Registers, op: AluOp, rhs: u8) -> Registers {
    match op {
        AluOp::Add => spec_add(r, rhs, false),
        AluOp::Adc => spec_add(r, rhs, true),
        AluOp::Sub => spec_sub(r, rhs, false, true),
        AluOp::Sbb => spec_sub(r, rhs, true, true),
        AluOp::Cmp => spec_sub(r, rhs, false, false),
        AluOp::Ana => {
            let result = r.a & rhs;
            Registers {
                a: result,
                f: spec_arith_flags(r.f, result, (r.a | rhs) & 0x08 != 0, false),
                ..r
            }
        },
        AluOp::Xra => {
            let result = r.a ^ rhs;
            Registers { a: result, f: spec_arith_flags(r.f, result, false, false), ..r }
        },
        AluOp::Ora => {
            let result = r.a | rhs;
            Registers { a: result, f: spec_arith_flags(r.f, result, false, false), ..r }
        },
        AluOp::Rlc => Registers {
            a: ((r.a * 2) % 256 + r.a / 128) as u8,
            f: spec_rotate_flags(r.f, r.a >= 128),
            ..r
        },
        AluOp::Rrc => Registers {
            a: (r.a / 2 + (r.a % 2) * 128) as u8,
            f: spec_rotate_flags(r.f, r.a % 2 == 1),
            ..r
        },
        AluOp::Ral => Registers {
            a: ((r.a * 2) % 256 + carry_in(r.f, true)) as u8,
            f: spec_rotate_flags(r.f, r.a >= 128),
            ..r
        },
        AluOp::Rar => Registers {
            a: (r.a / 2 + carry_in(r.f, true) * 128) as u8,
            f: spec_rotate_flags(r.f, r.a % 2 == 1),
            ..r
        },
        AluOp::Daa => spec_daa(r),
        AluOp::Cma => Registers { a: (255 - r.a) as u8, ..r },
        AluOp::Stc => Registers { f: r.f | FLAG_C, ..r },
        AluOp::Cmc => Registers { f: r.f ^ FLAG_C, ..r },
    }
}

/// Result and new flags of INR on `value`; carry is preserved.
pub open spec fn spec_inr(f: u8, value: u8) -> (u8, u8) {
    let result = ((value + 1) % 256) as u8;
    (result, spec_incdec_flags(f, result, value % 16 == 15))
}

/// Result and new flags of DCR on `value`; carry is preserved and AC is set
/// unless the low nibble borrows.
pub open spec fn spec_dcr(f: u8, value: u8) -> (u8, u8) {
    let result = ((value + 255) % 256) as u8;
    (result, spec_incdec_flags(f, result, value % 16 != 0))
}

/// Computes S, Z, P and bit 1 for a result byte.
pub fn szp(v: u8) -> (r: u8)
    ensures
        r == spec_szp(v),
{
    proof {
        lemma_popcount_le(v as nat);
    }
    let mut x: u8 = v;
    let mut ones: u8 = 0;
    while x > 0
        invariant
            ones as nat + popcount(x as nat) == popcount(v as nat),
            popcount(v as nat) <= v,
        decreases x,
    {
        proof {
            lemma_popcount_le(x as nat);
        }
        ones = ones + x % 2;
        x = x / 2;
    }
    let s: u8 = if v >= 0x80 { FLAG_S } else { 0 };
    let z: u8 = if v == 0 { FLAG_Z } else { 0 };
    let p: u8 = if ones % 2 == 0 { FLAG_P } else { 0 };
    FLAG_1 | s | z | p
}

/// A number has no more one bits than its value.
pub proof fn lemma_popcount_le(n: nat)
    ensures
        popcount(n) <= n,
    decreases n,
{
    if n > 0 {
        lemma_popcount_le(n / 2);
    }
}

fn arith_flags(f: u8, result: u8, ac: bool, c: bool) -> (r: u8)
    ensures
        r == spec_arith_flags(f, result, ac, c),
{
    let acb: u8 = if ac { FLAG_AC } else { 0 };
    let cb: u8 = if c { FLAG_C } else { 0 };
    (f & 0x28) | szp(result) | acb | cb
}

fn incdec_flags(f: u8, result: u8, ac: bool) -> (r: u8)
    ensures
        r == spec_incdec_flags(f, result, ac),
{
    let acb: u8 = if ac { FLAG_AC } else { 0 };
    (f & 0x29) | szp(result) | acb
}

fn rotate_flags(f: u8, c: bool) -> (r: u8)
    ensures
        r == spec_rotate_flags(f, c),
{
    let cb: u8 = if c { FLAG_C } else { 0 };
    (f & 0xfe) | cb
}

fn carry_bit(f: u8, enabled: bool) -> (r: u8)
    ensures
        r == carry_in(f, enabled),
{
    if enabled && f & FLAG_C != 0 {
        1
    } else {
        0
    }
}

fn add_op(registers: &mut Registers, rhs: u8, with_carry: bool)
    ensures
        *final(registers) == spec_add(*old(registers), rhs, with_carry),
{
    let carry = carry_bit(registers.f, with_carry);
    let lhs = registers.a;
    let sum: u16 = lhs as u16 + rhs as u16 + carry as u16;
    let result = (sum % 256) as u8;
    let ac = (lhs % 16) as u16 + (rhs % 16) as u16 + carry as u16 > 15;
    registers.f = arith_flags(registers.f, result, ac, sum > 255);
    registers.a = result;
}

fn sub_op(registers: &mut Registers, rhs: u8, with_borrow: bool, store: bool)
    ensures
        *final(registers) == spec_sub(*old(registers), rhs, with_borrow, store),
{
    let borrow = carry_bit(registers.f, with_borrow);
    let lhs = registers.a;
    let rhs16: u16 = rhs as u16 + borrow as u16;
    let result = ((lhs as u16 + 512 - rhs16) % 256) as u8;
    let ac = (lhs % 16) as u16 >= (rhs % 16) as u16 + borrow as u16;
    registers.f = arith_flags(registers.f, result, ac, (lhs as u16) < rhs16);
    if store {
        registers.a = result;
    }
}

fn daa(registers: &mut Registers)
    ensures
        *final(registers) == spec_daa(*old(registers)),
{
    let old_a = registers.a;
    let old_carry = registers.f & FLAG_C != 0;
    let old_aux = registers.f & FLAG_AC != 0;
    let lo = old_a % 16 > 9 || old_aux;
    let hi = old_a > 0x99 || old_carry;
    let low_fix: u16 = if lo { 6 } else { 0 };
    let high_fix: u16 = if hi { 0x60 } else { 0 };
    let result = ((old_a as u16 + low_fix + high_fix) % 256) as u8;
    let ac = (old_a % 16) as u16 + low_fix > 15;
    registers.f = arith_flags(registers.f, result, ac, hi);
    registers.a = result;
}

/// Execute an 8080 ALU/internal accumulator operation.
///
/// `rhs` is used by binary ALU operations and ignored by the eight
/// accumulator-only operations.
pub fn execute(registers: &mut Registers, op: AluOp, rhs: u8)
    ensures
        *final(registers) == spec_execute(*old(registers), op, rhs),
{
    match op {
        AluOp::Add => add_op(registers, rhs, false),
        AluOp::Adc => add_op(registers, rhs, true),
        AluOp::Sub => sub_op(registers, rhs, false, true),
        AluOp::Sbb => sub_op(registers, rhs, true, true),
        AluOp::Cmp => sub_op(registers, rhs, false, false),
        AluOp::Ana => {
            let ac = (registers.a | rhs) & 0x08 != 0;
            let result = registers.a & rhs;
            registers.f = arith_flags(registers.f, result, ac, false);
            registers.a = result;
        },
        AluOp::Xra => {
            let result = registers.a ^ rhs;
            registers.f = arith_flags(registers.f, result, false, false);
            registers.a = result;
        },
        AluOp::Ora => {
            let result = registers.a | rhs;
            registers.f = arith_flags(registers.f, result, false, false);
            registers.a = result;
        },
        AluOp::Rlc => {
            let a = registers.a;
            registers.a = ((a as u16 * 2) % 256 + (a / 128) as u16) as u8;
            registers.f = rotate_flags(registers.f, a >= 128);
        },
        AluOp::Rrc => {
            let a = registers.a;
            registers.a = (a / 2 + (a % 2) * 128) as u8;
            registers.f = rotate_flags(registers.f, a % 2 == 1);
        },
        AluOp::Ral => {
            let a = registers.a;
            let old_carry = carry_bit(registers.f, true);
            registers.a = ((a as u16 * 2) % 256 + old_carry as u16) as u8;
            registers.f = rotate_flags(registers.f, a >= 128);
        },
        AluOp::Rar => {
            let a = registers.a;
            let old_carry = carry_bit(registers.f, true);
            registers.a = (a / 2 + old_carry * 128) as u8;
            registers.f = rotate_flags(registers.f, a % 2 == 1);
        },
        AluOp::Daa => daa(registers),
        AluOp::Cma => {
            registers.a = 255 - registers.a;
        },
        AluOp::Stc => {
            registers.f = registers.f | FLAG_C;
        },
        AluOp::Cmc => {
            registers.f = registers.f ^ FLAG_C;
        },
    }
}

/// INR: returns `value + 1` (wrapping) and updates S, Z, P, AC; carry kept.
pub fn inr(registers: &mut Registers, value: u8) -> (result: u8)
    ensures
        (result, final(registers).f) == spec_inr(old(registers).f, value),
        *final(registers) == (Registers { f: final(registers).f, ..*old(registers) }),
{
    let result = ((value as u16 + 1) % 256) as u8;
    registers.f = incdec_flags(registers.f, result, value % 16 == 15);
    result
}

/// DCR: returns `value - 1` (wrapping) and updates S, Z, P, AC; carry kept.
pub fn dcr(registers: &mut Registers, value: u8) -> (result: u8)
    ensures
        (result, final(registers).f) == spec_dcr(old(registers).f, value),
        *final(registers) == (Registers { f: final(registers).f, ..*old(registers) }),
{
    let result = ((value as u16 + 255) % 256) as u8;
    registers.f = incdec_flags(registers.f, result, value % 16 != 0);
    result
}

proof fn lemma_flag_bits(f: u8, s: u8, z: u8, p: u8, a: u8, c: u8)
    by (bit_vector)
    requires
        s == 0 || s == 0x80,
        z == 0 || z == 0x40,
        p == 0 || p == 0x04,
        a == 0 || a == 0x10,
        c == 0 || c == 0x01,
    ensures
        ((f & 0x28) | (0x02 | s | z | p) | a | c) & 0x01 == c,
        ((f & 0x28) | (0x02 | s | z | p) | a | c) & 0x10 == a,
        ((f & 0x28) | (0x02 | s | z | p) | a | c) & 0x40 == z,
        ((f & 0x28) | (0x02 | s | z | p) | a | c) & 0x80 == s,
        ((f & 0x28) | (0x02 | s | z | p) | a | c) & 0x04 == p,
        ((f & 0x28) | (0x02 | s | z | p) | a | c) & 0x02 == 0x02,
        ((f & 0x28) | (0x02 | s | z | p) | a | c) & 0x28 == f & 0x28,
        ((f & 0x29) | (0x02 | s | z | p) | a) & 0x01 == f & 0x01,
        ((f & 0x29) | (0x02 | s | z | p) | a) & 0x10 == a,
        ((f & 0x29) | (0x02 | s | z | p) | a) & 0x40 == z,
        ((f & 0x29) | (0x02 | s | z | p) | a) & 0x80 == s,
        ((f & 0x29) | (0x02 | s | z | p) | a) & 0x04 == p,
{
}

/// Decomposes the flag byte produced by an arithmetic/logical operation.
pub proof fn lemma_arith_flags(f: u8, result: u8, ac: bool, c: bool)
    ensures
        (spec_arith_flags(f, result, ac, c) & FLAG_C != 0) == c,
        (spec_arith_flags(f, result, ac, c) & FLAG_AC != 0) == ac,
        (spec_arith_flags(f, result, ac, c) & FLAG_Z != 0) == (result == 0),
        (spec_arith_flags(f, result, ac, c) & FLAG_S != 0) == (result >= 0x80),
        (spec_arith_flags(f, result, ac, c) & FLAG_P != 0) == (popcount(result as nat) % 2 == 0),
        spec_arith_flags(f, result, ac, c) & FLAG_1 != 0,
{
    lemma_flag_bits(
        f,
        if result >= 0x80 { 0x80u8 } else { 0 },
        if result == 0 { 0x40u8 } else { 0 },
        if popcount(result as nat) % 2 == 0 { 0x04u8 } else { 0 },
        if ac { 0x10u8 } else { 0 },
        if c { 0x01u8 } else { 0 },
    );
}

/// ADD/ADC set carry exactly on an unsigned 8-bit overflow and store the sum
/// modulo 256.
pub proof fn lemma_add_carry_is_overflow(r: Registers, rhs: u8, with_carry: bool)
    ensures
        spec_add(r, rhs, with_carry).a == (r.a + rhs + carry_in(r.f, with_carry)) % 256,
        (spec_add(r, rhs, with_carry).f & FLAG_C != 0) == (r.a + rhs + carry_in(r.f, with_carry)
            > 255),
{
    let sum = r.a + rhs + carry_in(r.f, with_carry);
    lemma_arith_flags(r.f, (sum % 256) as u8, (r.a % 16) + (rhs % 16) + carry_in(r.f, with_carry) > 15, sum > 255);
}

/// SUB/SBB/CMP set carry exactly on an unsigned borrow; CMP leaves A alone.
pub proof fn lemma_sub_carry_is_borrow(r: Registers, rhs: u8, with_borrow: bool, store: bool)
    ensures
        (spec_sub(r, rhs, with_borrow, store).f & FLAG_C != 0) == (r.a < rhs + carry_in(r.f, with_borrow)),
        !store ==> spec_sub(r, rhs, with_borrow, store).a == r.a,
        spec_sub(r, rhs, with_borrow, store).b == r.b,
{
    let borrow = carry_in(r.f, with_borrow);
    let diff = r.a - rhs - borrow;
    lemma_arith_flags(r.f, ((diff + 512) % 256) as u8, r.a % 16 >= rhs % 16 + borrow, diff < 0);
}

/// INR and DCR never change the carry flag.
pub proof fn lemma_incdec_preserves_carry(f: u8, value: u8)
    ensures
        spec_inr(f, value).1 & FLAG_C == f & FLAG_C,
        spec_dcr(f, value).1 & FLAG_C == f & FLAG_C,
        (spec_inr(f, value).1 & FLAG_Z != 0) == (spec_inr(f, value).0 == 0),
        (spec_dcr(f, value).1 & FLAG_Z != 0) == (spec_dcr(f, value).0 == 0),
{
    let ri = spec_inr(f, value).0;
    let rd = spec_dcr(f, value).0;
    lemma_flag_bits(
        f,
        if ri >= 0x80 { 0x80u8 } else { 0 },
        if ri == 0 { 0x40u8 } else { 0 },
        if popcount(ri as nat) % 2 == 0 { 0x04u8 } else { 0 },
        if value % 16 == 15 { 0x10u8 } else { 0 },
        0,
    );
    lemma_flag_bits(
        f,
        if rd >= 0x80 { 0x80u8 } else { 0 },
        if rd == 0 { 0x40u8 } else { 0 },
        if popcount(rd as nat) % 2 == 0 { 0x04u8 } else { 0 },
        if value % 16 != 0 { 0x10u8 } else { 0 },
        0,
    );
}

/// The rotate family changes only the accumulator and the carry flag.
pub proof fn lemma_rotates_touch_only_a_and_carry(r: Registers, op: AluOp, rhs: u8)
    requires
        op == AluOp::Rlc || op == AluOp::Rrc || op == AluOp::Ral || op == AluOp::Rar,
    ensures
        spec_execute(r, op, rhs).f & 0xfe == r.f & 0xfe,
        spec_execute(r, op, rhs) == (Registers {
            a: spec_execute(r, op, rhs).a,
            f: spec_execute(r, op, rhs).f,
            ..r
        }),
{
    let f = r.f;
    assert((((f & 0xfe) | 1u8) & 0xfe) == f & 0xfe && (((f & 0xfe) | 0u8) & 0xfe) == f & 0xfe)
        by (bit_vector);
}

/// CMA, STC and CMC leave every unrelated flag bit alone.
pub proof fn lemma_accumulator_controls_preserve_flags(r: Registers)
    ensures
        spec_execute(r, AluOp::Cma, 0).f == r.f,
        spec_execute(r, AluOp::Stc, 0).f & 0xfe == r.f & 0xfe,
        spec_execute(r, AluOp::Stc, 0).f & FLAG_C != 0,
        spec_execute(r, AluOp::Cmc, 0).f & 0xfe == r.f & 0xfe,
        (spec_execute(r, AluOp::Cmc, 0).f & FLAG_C != 0) == (r.f & FLAG_C == 0),
        spec_execute(spec_execute(r, AluOp::Cmc, 0), AluOp::Cmc, 0) == r,
{
    let f = r.f;
    assert(((f | 1u8) & 0xfe) == f & 0xfe && (f | 1u8) & 1u8 != 0 && ((f ^ 1u8) & 0xfe) == f
        & 0xfe && (((f ^ 1u8) & 1u8 != 0) == (f & 1u8 == 0)) && ((f ^ 1u8) ^ 1u8) == f)
        by (bit_vector);
}


/// The four rotates move the accumulator's bits as the 8080 defines them:
/// RLC and RRC rotate the eight bits of A (the bit that leaves also goes to
/// Carry); RAL and RAR rotate the nine bits of A and Carry together, so the
/// bit that enters A is the old Carry and the bit that leaves A becomes the
/// new Carry.
pub proof fn lemma_rotates_move_bits(r: Registers, rhs: u8)
    ensures
        spec_execute(r, AluOp::Rlc, rhs).a == ((r.a << 1u8) | (r.a >> 7u8)),
        (spec_execute(r, AluOp::Rlc, rhs).f & 1) == (r.a >> 7u8),
        spec_execute(r, AluOp::Rrc, rhs).a == ((r.a >> 1u8) | (r.a << 7u8)),
        (spec_execute(r, AluOp::Rrc, rhs).f & 1) == (r.a & 1),
        spec_execute(r, AluOp::Ral, rhs).a == ((r.a << 1u8) | (r.f & 1)),
        (spec_execute(r, AluOp::Ral, rhs).f & 1) == (r.a >> 7u8),
        spec_execute(r, AluOp::Rar, rhs).a == ((r.a >> 1u8) | ((r.f & 1) << 7u8)),
        (spec_execute(r, AluOp::Rar, rhs).f & 1) == (r.a & 1),
{
    let a = r.a;
    let f = r.f;
    assert(((a as int * 2) % 256 + a as int / 128) as u8 == ((a << 1u8) | (a >> 7u8))) by (bit_vector);
    assert((a as int / 2 + (a as int % 2) * 128) as u8 == ((a >> 1u8) | (a << 7u8))) by (bit_vector);
    assert(((a as int * 2) % 256 + (if f & 1u8 != 0 { 1int } else { 0int })) as u8 == ((a << 1u8) | (f & 1u8)))
        by (bit_vector);
    assert((a as int / 2 + (if f & 1u8 != 0 { 1int } else { 0int }) * 128) as u8 == ((a >> 1u8) | ((f & 1u8) << 7u8)))
        by (bit_vector);
    assert((((f & 0xfe) | 1u8) & 1u8) == 1u8 && (((f & 0xfe) | 0u8) & 1u8) == 0u8) by (bit_vector);
    assert((a >= 128) == (a >> 7u8 == 1u8) && (a < 128) == (a >> 7u8 == 0u8)) by (bit_vector);
    assert((a % 2 == 1) == (a & 1u8 == 1u8) && (a % 2 != 1) == (a & 1u8 == 0u8)) by (bit_vector);
}

/// RAL and RAR undo each other: rotating left through Carry and then right
/// through Carry gives back the registers, A and every flag included; the
/// same holds the other way round. RRC likewise undoes RLC on A.
pub proof fn lemma_rotates_through_carry_are_inverse(r: Registers, x: u8, y: u8)
    ensures
        spec_execute(spec_execute(r, AluOp::Ral, x), AluOp::Rar, y) == r,
        spec_execute(spec_execute(r, AluOp::Rar, x), AluOp::Ral, y) == r,
        spec_execute(spec_execute(r, AluOp::Rlc, x), AluOp::Rrc, y).a == r.a,
        spec_execute(spec_execute(r, AluOp::Rrc, x), AluOp::Rlc, y).a == r.a,
{
    lemma_rotates_move_bits(r, x);
    lemma_rotates_move_bits(spec_execute(r, AluOp::Ral, x), y);
    lemma_rotates_move_bits(spec_execute(r, AluOp::Rar, x), y);
    lemma_rotates_move_bits(spec_execute(r, AluOp::Rlc, x), y);
    lemma_rotates_move_bits(spec_execute(r, AluOp::Rrc, x), y);
    lemma_rotates_touch_only_a_and_carry(r, AluOp::Ral, x);
    lemma_rotates_touch_only_a_and_carry(r, AluOp::Rar, x);
    lemma_rotates_touch_only_a_and_carry(spec_execute(r, AluOp::Ral, x), AluOp::Rar, y);
    lemma_rotates_touch_only_a_and_carry(spec_execute(r, AluOp::Rar, x), AluOp::Ral, y);
    let a = r.a;
    let f = r.f;
    let a1 = spec_execute(r, AluOp::Ral, x).a;
    let f1 = spec_execute(r, AluOp::Ral, x).f;
    let a2 = spec_execute(spec_execute(r, AluOp::Ral, x), AluOp::Rar, y).a;
    let f2 = spec_execute(spec_execute(r, AluOp::Ral, x), AluOp::Rar, y).f;
    assert(a2 == a && f2 == f) by (bit_vector)
        requires
            a1 == ((a << 1u8) | (f & 1u8)),
            f1 & 1u8 == a >> 7u8,
            f1 & 0xfe == f & 0xfe,
            a2 == ((a1 >> 1u8) | ((f1 & 1u8) << 7u8)),
            f2 & 1u8 == a1 & 1u8,
            f2 & 0xfe == f1 & 0xfe,
    ;
    let b1 = spec_execute(r, AluOp::Rar, x).a;
    let g1 = spec_execute(r, AluOp::Rar, x).f;
    let b2 = spec_execute(spec_execute(r, AluOp::Rar, x), AluOp::Ral, y).a;
    let g2 = spec_execute(spec_execute(r, AluOp::Rar, x), AluOp::Ral, y).f;
    assert(b2 == a && g2 == f) by (bit_vector)
        requires
            b1 == ((a >> 1u8) | ((f & 1u8) << 7u8)),
            g1 & 1u8 == a & 1u8,
            g1 & 0xfe == f & 0xfe,
            b2 == ((b1 << 1u8) | (g1 & 1u8)),
            g2 & 1u8 == b1 >> 7u8,
            g2 & 0xfe == g1 & 0xfe,
    ;
    let c1 = spec_execute(r, AluOp::Rlc, x).a;
    let d1 = spec_execute(r, AluOp::Rrc, x).a;
    assert(((c1 >> 1u8) | (c1 << 7u8)) == a) by (bit_vector)
        requires
            c1 == ((a << 1u8) | (a >> 7u8)),
    ;
    assert(((d1 << 1u8) | (d1 >> 7u8)) == a) by (bit_vector)
        requires
            d1 == ((a >> 1u8) | (a << 7u8)),
    ;
}

} // verus!
