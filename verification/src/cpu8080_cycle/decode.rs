use vstd::prelude::*;
use super::alu::{AluOp, spec_alu_from_code};
use super::control_flow::{Condition, StackPair, spec_condition_from_code, spec_stack_pair_from_code};

verus! {

#[derive(Clone, Copy, Debug, PartialEq, Eq, Structural)]
pub enum Register8 {
    B,
    C,
    D,
    E,
    H,
    L,
    A,
}

/// The register selected by a three-bit register field; code 6 selects memory
/// (M) and therefore no register.
pub open spec fn spec_register8_from_code(code: u8) -> Option<Register8> {
    let c = code % 8;
    if c == 0 {
        Some(Register8::B)
    } else if c == 1 {
        Some(Register8::C)
    } else if c == 2 {
        Some(Register8::D)
    } else if c == 3 {
        Some(Register8::E)
    } else if c == 4 {
        Some(Register8::H)
    } else if c == 5 {
        Some(Register8::L)
    } else if c == 6 {
        None
    } else {
        Some(Register8::A)
    }
}

impl Register8 {
    pub fn from_code(code: u8) -> (r: Option<Register8>)
        ensures
            r == spec_register8_from_code(code),
    {
        let c = code % 8;
        if c == 0 {
            Some(Register8::B)
        } else if c == 1 {
            Some(Register8::C)
        } else if c == 2 {
            Some(Register8::D)
        } else if c == 3 {
            Some(Register8::E)
        } else if c == 4 {
            Some(Register8::H)
        } else if c == 5 {
            Some(Register8::L)
        } else if c == 6 {
            None
        } else {
            Some(Register8::A)
        }
    }
}

#[derive(Clone, Copy, Debug, PartialEq, Eq, Structural)]
pub enum RegisterPair {
    BC,
    DE,
    HL,
    SP,
}

/// The register pair selected by a two-bit field of LXI/INX/DCX/DAD/LDAX/STAX.
pub open spec fn spec_register_pair_from_code(code: u8) -> RegisterPair {
    let c = code % 4;
    if c == 0 {
        RegisterPair::BC
    } else if c == 1 {
        RegisterPair::DE
    } else if c == 2 {
        RegisterPair::HL
    } else {
        RegisterPair::SP
    }
}

impl RegisterPair {
    pub fn from_code(code: u8) -> (r: RegisterPair)
        ensures
            r == spec_register_pair_from_code(code),
    {
        let c = code % 4;
        if c == 0 {
            RegisterPair::BC
        } else if c == 1 {
            RegisterPair::DE
        } else if c == 2 {
            RegisterPair::HL
        } else {
            RegisterPair::SP
        }
    }
}

#[derive(Clone, Copy, Debug, PartialEq, Eq, Structural)]
pub enum Instruction {
    Nop,
    MviImmediate(Register8),
    MviMemory,
    MovRegister { dst: Register8, src: Register8 },
    MovFromMemory { dst: Register8 },
    MovToMemory { src: Register8 },
    Hlt,
    Lxi(RegisterPair),
    Inx(RegisterPair),
    Dcx(RegisterPair),
    Dad(RegisterPair),
    Ldax(RegisterPair),
    Stax(RegisterPair),
    LdaDirect,
    StaDirect,
    LhldDirect,
    ShldDirect,
    InrRegister(Register8),
    InrMemory,
    DcrRegister(Register8),
    DcrMemory,
    AluRegister { op: AluOp, src: Register8 },
    AluMemory { op: AluOp },
    AluImmediate { op: AluOp },
    Jump,
    JumpConditional(Condition),
    Call,
    CallConditional(Condition),
    Ret,
    RetConditional(Condition),
    Rst(u8),
    Push(StackPair),
    Pop(StackPair),
    In,
    Out,
    Xthl,
    Pchl,
    Xchg,
    Di,
    Sphl,
    Ei,
    Unsupported(u8),
}

/// Instructions whose opcode is fully fixed (no register or condition field),
/// including the undocumented aliases of the 8080 silicon.
pub open spec fn spec_decode_fixed(opcode: u8) -> Option<Instruction> {
    if opcode == 0x00 || opcode == 0x08 || opcode == 0x10 || opcode == 0x18 || opcode == 0x20
        || opcode == 0x28 || opcode == 0x30 || opcode == 0x38 {
        Some(Instruction::Nop)
    } else if opcode == 0x02 {
        Some(Instruction::Stax(RegisterPair::BC))
    } else if opcode == 0x07 {
        Some(Instruction::AluRegister { op: AluOp::Rlc, src: Register8::A })
    } else if opcode == 0x0a {
        Some(Instruction::Ldax(RegisterPair::BC))
    } else if opcode == 0x0f {
        Some(Instruction::AluRegister { op: AluOp::Rrc, src: Register8::A })
    } else if opcode == 0x12 {
        Some(Instruction::Stax(RegisterPair::DE))
    } else if opcode == 0x17 {
        Some(Instruction::AluRegister { op: AluOp::Ral, src: Register8::A })
    } else if opcode == 0x1a {
        Some(Instruction::Ldax(RegisterPair::DE))
    } else if opcode == 0x1f {
        Some(Instruction::AluRegister { op: AluOp::Rar, src: Register8::A })
    } else if opcode == 0x22 {
        Some(Instruction::ShldDirect)
    } else if opcode == 0x27 {
        Some(Instruction::AluRegister { op: AluOp::Daa, src: Register8::A })
    } else if opcode == 0x2a {
        Some(Instruction::LhldDirect)
    } else if opcode == 0x2f {
        Some(Instruction::AluRegister { op: AluOp::Cma, src: Register8::A })
    } else if opcode == 0x32 {
        Some(Instruction::StaDirect)
    } else if opcode == 0x37 {
        Some(Instruction::AluRegister { op: AluOp::Stc, src: Register8::A })
    } else if opcode == 0x3a {
        Some(Instruction::LdaDirect)
    } else if opcode == 0x3f {
        Some(Instruction::AluRegister { op: AluOp::Cmc, src: Register8::A })
    } else if opcode == 0x76 {
        Some(Instruction::Hlt)
    } else if opcode == 0xc3 || opcode == 0xcb {
        Some(Instruction::Jump)
    } else if opcode == 0xc6 {
        Some(Instruction::AluImmediate { op: AluOp::Add })
    } else if opcode == 0xc9 || opcode == 0xd9 {
        Some(Instruction::Ret)
    } else if opcode == 0xcd || opcode == 0xdd || opcode == 0xed || opcode == 0xfd {
        Some(Instruction::Call)
    } else if opcode == 0xce {
        Some(Instruction::AluImmediate { op: AluOp::Adc })
    } else if opcode == 0xd3 {
        Some(Instruction::Out)
    } else if opcode == 0xd6 {
        Some(Instruction::AluImmediate { op: AluOp::Sub })
    } else if opcode == 0xdb {
        Some(Instruction::In)
    } else if opcode == 0xde {
        Some(Instruction::AluImmediate { op: AluOp::Sbb })
    } else if opcode == 0xe3 {
        Some(Instruction::Xthl)
    } else if opcode == 0xe6 {
        Some(Instruction::AluImmediate { op: AluOp::Ana })
    } else if opcode == 0xe9 {
        Some(Instruction::Pchl)
    } else if opcode == 0xeb {
        Some(Instruction::Xchg)
    } else if opcode == 0xee {
        Some(Instruction::AluImmediate { op: AluOp::Xra })
    } else if opcode == 0xf3 {
        Some(Instruction::Di)
    } else if opcode == 0xf6 {
        Some(Instruction::AluImmediate { op: AluOp::Ora })
    } else if opcode == 0xf9 {
        Some(Instruction::Sphl)
    } else if opcode == 0xfb {
        Some(Instruction::Ei)
    } else if opcode == 0xfe {
        Some(Instruction::AluImmediate { op: AluOp::Cmp })
    } else {
        None
    }
}

/// Instructions recognised by their register, pair or condition field.
pub open spec fn spec_decode_family(opcode: u8) -> Instruction {
    let pair = spec_register_pair_from_code((opcode >> 4) & 0x03);
    let mid = spec_register8_from_code((opcode >> 3) & 0x07);
    let low = spec_register8_from_code(opcode & 0x07);
    let cond = spec_condition_from_code((opcode >> 3) & 7);
    if opcode & 0xcf == 0x01 {
        Instruction::Lxi(pair)
    } else if opcode & 0xcf == 0x03 {
        Instruction::Inx(pair)
    } else if opcode & 0xcf == 0x0b {
        Instruction::Dcx(pair)
    } else if opcode & 0xcf == 0x09 {
        Instruction::Dad(pair)
    } else if opcode & 0xc7 == 0x04 {
        match mid {
            Some(dst) => Instruction::InrRegister(dst),
            None => Instruction::InrMemory,
        }
    } else if opcode & 0xc7 == 0x05 {
        match mid {
            Some(dst) => Instruction::DcrRegister(dst),
            None => Instruction::DcrMemory,
        }
    } else if opcode & 0xc7 == 0x06 {
        match mid {
            Some(dst) => Instruction::MviImmediate(dst),
            None => Instruction::MviMemory,
        }
    } else if 0x40 <= opcode <= 0x7f {
        match (mid, low) {
            (Some(dst), Some(src)) => Instruction::MovRegister { dst, src },
            (Some(dst), None) => Instruction::MovFromMemory { dst },
            (None, Some(src)) => Instruction::MovToMemory { src },
            (None, None) => Instruction::Unsupported(opcode),
        }
    } else if 0x80 <= opcode <= 0xbf {
        let op = spec_alu_from_code((opcode >> 3) & 0x07);
        match low {
            Some(src) => Instruction::AluRegister { op, src },
            None => Instruction::AluMemory { op },
        }
    } else if opcode & 0xc7 == 0xc0 {
        Instruction::RetConditional(cond)
    } else if opcode & 0xc7 == 0xc2 {
        Instruction::JumpConditional(cond)
    } else if opcode & 0xc7 == 0xc4 {
        Instruction::CallConditional(cond)
    } else if opcode & 0xc7 == 0xc7 {
        Instruction::Rst((opcode >> 3) & 7)
    } else if opcode & 0xcf == 0xc1 {
        Instruction::Pop(spec_stack_pair_from_code((opcode >> 4) & 3))
    } else if opcode & 0xcf == 0xc5 {
        Instruction::Push(spec_stack_pair_from_code((opcode >> 4) & 3))
    } else {
        Instruction::Unsupported(opcode)
    }
}

/// The instruction an opcode byte selects on NMOS 8080 silicon.
pub open spec fn spec_decode(opcode: u8) -> Instruction {
    match spec_decode_fixed(opcode) {
        Some(instruction) => instruction,
        None => spec_decode_family(opcode),
    }
}

fn decode_fixed(opcode: u8) -> (r: Option<Instruction>)
    ensures
        r == spec_decode_fixed(opcode),
{
    if opcode == 0x00 || opcode == 0x08 || opcode == 0x10 || opcode == 0x18 || opcode == 0x20
        || opcode == 0x28 || opcode == 0x30 || opcode == 0x38 {
        Some(Instruction::Nop)
    } else if opcode == 0x02 {
        Some(Instruction::Stax(RegisterPair::BC))
    } else if opcode == 0x07 {
        Some(Instruction::AluRegister { op: AluOp::Rlc, src: Register8::A })
    } else if opcode == 0x0a {
        Some(Instruction::Ldax(RegisterPair::BC))
    } else if opcode == 0x0f {
        Some(Instruction::AluRegister { op: AluOp::Rrc, src: Register8::A })
    } else if opcode == 0x12 {
        Some(Instruction::Stax(RegisterPair::DE))
    } else if opcode == 0x17 {
        Some(Instruction::AluRegister { op: AluOp::Ral, src: Register8::A })
    } else if opcode == 0x1a {
        Some(Instruction::Ldax(RegisterPair::DE))
    } else if opcode == 0x1f {
        Some(Instruction::AluRegister { op: AluOp::Rar, src: Register8::A })
    } else if opcode == 0x22 {
        Some(Instruction::ShldDirect)
    } else if opcode == 0x27 {
        Some(Instruction::AluRegister { op: AluOp::Daa, src: Register8::A })
    } else if opcode == 0x2a {
        Some(Instruction::LhldDirect)
    } else if opcode == 0x2f {
        Some(Instruction::AluRegister { op: AluOp::Cma, src: Register8::A })
    } else if opcode == 0x32 {
        Some(Instruction::StaDirect)
    } else if opcode == 0x37 {
        Some(Instruction::AluRegister { op: AluOp::Stc, src: Register8::A })
    } else if opcode == 0x3a {
        Some(Instruction::LdaDirect)
    } else if opcode == 0x3f {
        Some(Instruction::AluRegister { op: AluOp::Cmc, src: Register8::A })
    } else if opcode == 0x76 {
        Some(Instruction::Hlt)
    } else if opcode == 0xc3 || opcode == 0xcb {
        Some(Instruction::Jump)
    } else if opcode == 0xc6 {
        Some(Instruction::AluImmediate { op: AluOp::Add })
    } else if opcode == 0xc9 || opcode == 0xd9 {
        Some(Instruction::Ret)
    } else if opcode == 0xcd || opcode == 0xdd || opcode == 0xed || opcode == 0xfd {
        Some(Instruction::Call)
    } else if opcode == 0xce {
        Some(Instruction::AluImmediate { op: AluOp::Adc })
    } else if opcode == 0xd3 {
        Some(Instruction::Out)
    } else if opcode == 0xd6 {
        Some(Instruction::AluImmediate { op: AluOp::Sub })
    } else if opcode == 0xdb {
        Some(Instruction::In)
    } else if opcode == 0xde {
        Some(Instruction::AluImmediate { op: AluOp::Sbb })
    } else if opcode == 0xe3 {
        Some(Instruction::Xthl)
    } else if opcode == 0xe6 {
        Some(Instruction::AluImmediate { op: AluOp::Ana })
    } else if opcode == 0xe9 {
        Some(Instruction::Pchl)
    } else if opcode == 0xeb {
        Some(Instruction::Xchg)
    } else if opcode == 0xee {
        Some(Instruction::AluImmediate { op: AluOp::Xra })
    } else if opcode == 0xf3 {
        Some(Instruction::Di)
    } else if opcode == 0xf6 {
        Some(Instruction::AluImmediate { op: AluOp::Ora })
    } else if opcode == 0xf9 {
        Some(Instruction::Sphl)
    } else if opcode == 0xfb {
        Some(Instruction::Ei)
    } else if opcode == 0xfe {
        Some(Instruction::AluImmediate { op: AluOp::Cmp })
    } else {
        None
    }
}

fn decode_family(opcode: u8) -> (r: Instruction)
    ensures
        r == spec_decode_family(opcode),
{
    let pair = RegisterPair::from_code((opcode >> 4) & 0x03);
    let mid = Register8::from_code((opcode >> 3) & 0x07);
    let low = Register8::from_code(opcode & 0x07);
    let cond = Condition::from_code((opcode >> 3) & 7);
    if opcode & 0xcf == 0x01 {
        Instruction::Lxi(pair)
    } else if opcode & 0xcf == 0x03 {
        Instruction::Inx(pair)
    } else if opcode & 0xcf == 0x0b {
        Instruction::Dcx(pair)
    } else if opcode & 0xcf == 0x09 {
        Instruction::Dad(pair)
    } else if opcode & 0xc7 == 0x04 {
        match mid {
            Some(dst) => Instruction::InrRegister(dst),
            None => Instruction::InrMemory,
        }
    } else if opcode & 0xc7 == 0x05 {
        match mid {
            Some(dst) => Instruction::DcrRegister(dst),
            None => Instruction::DcrMemory,
        }
    } else if opcode & 0xc7 == 0x06 {
        match mid {
            Some(dst) => Instruction::MviImmediate(dst),
            None => Instruction::MviMemory,
        }
    } else if 0x40 <= opcode && opcode <= 0x7f {
        match (mid, low) {
            (Some(dst), Some(src)) => Instruction::MovRegister { dst, src },
            (Some(dst), None) => Instruction::MovFromMemory { dst },
            (None, Some(src)) => Instruction::MovToMemory { src },
            (None, None) => Instruction::Unsupported(opcode),
        }
    } else if 0x80 <= opcode && opcode <= 0xbf {
        let op = AluOp::from_code((opcode >> 3) & 0x07);
        match low {
            Some(src) => Instruction::AluRegister { op, src },
            None => Instruction::AluMemory { op },
        }
    } else if opcode & 0xc7 == 0xc0 {
        Instruction::RetConditional(cond)
    } else if opcode & 0xc7 == 0xc2 {
        Instruction::JumpConditional(cond)
    } else if opcode & 0xc7 == 0xc4 {
        Instruction::CallConditional(cond)
    } else if opcode & 0xc7 == 0xc7 {
        Instruction::Rst((opcode >> 3) & 7)
    } else if opcode & 0xcf == 0xc1 {
        Instruction::Pop(StackPair::from_code((opcode >> 4) & 3))
    } else if opcode & 0xcf == 0xc5 {
        Instruction::Push(StackPair::from_code((opcode >> 4) & 3))
    } else {
        Instruction::Unsupported(opcode)
    }
}

/// Decode one opcode byte into the cycle engine's instruction class.
pub fn decode(opcode: u8) -> (r: Instruction)
    ensures
        r == spec_decode(opcode),
{
    match decode_fixed(opcode) {
        Some(instruction) => instruction,
        None => decode_family(opcode),
    }
}

/// Every one of the 256 opcode values has defined 8080 silicon behaviour:
/// none decodes to `Unsupported`.
pub proof fn lemma_every_opcode_is_supported(opcode: u8)
    ensures
        !(spec_decode(opcode) is Unsupported),
{
    if spec_decode_fixed(opcode).is_none() {
        assert(
            (opcode & 0xcf == 0x01) || (opcode & 0xcf == 0x03) || (opcode & 0xcf == 0x0b)
            || (opcode & 0xcf == 0x09) || (opcode & 0xc7 == 0x04) || (opcode & 0xc7 == 0x05)
            || (opcode & 0xc7 == 0x06) || (0x40 <= opcode <= 0x7f && opcode != 0x76)
            || (0x80 <= opcode <= 0xbf) || (opcode & 0xc7 == 0xc0) || (opcode & 0xc7 == 0xc2)
            || (opcode & 0xc7 == 0xc4) || (opcode & 0xc7 == 0xc7) || (opcode & 0xcf == 0xc1)
            || (opcode & 0xcf == 0xc5) || opcode == 0x00 || opcode == 0x08 || opcode == 0x10
            || opcode == 0x18 || opcode == 0x20 || opcode == 0x28 || opcode == 0x30
            || opcode == 0x38 || opcode == 0x02 || opcode == 0x07 || opcode == 0x0a
            || opcode == 0x0f || opcode == 0x12 || opcode == 0x17 || opcode == 0x1a
            || opcode == 0x1f || opcode == 0x22 || opcode == 0x27 || opcode == 0x2a
            || opcode == 0x2f || opcode == 0x32 || opcode == 0x37 || opcode == 0x3a
            || opcode == 0x3f || opcode == 0x76 || opcode == 0xc3 || opcode == 0xcb
            || opcode == 0xc6 || opcode == 0xc9 || opcode == 0xd9 || opcode == 0xcd
            || opcode == 0xdd || opcode == 0xed || opcode == 0xfd || opcode == 0xce
            || opcode == 0xd3 || opcode == 0xd6 || opcode == 0xdb || opcode == 0xde
            || opcode == 0xe3 || opcode == 0xe6 || opcode == 0xe9 || opcode == 0xeb
            || opcode == 0xee || opcode == 0xf3 || opcode == 0xf6 || opcode == 0xf9
            || opcode == 0xfb || opcode == 0xfe
        ) by (bit_vector);
        if 0x40 <= opcode <= 0x7f && opcode != 0x76 && !(opcode & 0xc7 == 0x04)
            && !(opcode & 0xc7 == 0x05) && !(opcode & 0xc7 == 0x06) && !(opcode & 0xcf == 0x01)
            && !(opcode & 0xcf == 0x03) && !(opcode & 0xcf == 0x0b) && !(opcode & 0xcf == 0x09) {
            assert(((opcode >> 3) & 0x07) % 8 != 6 || (opcode & 0x07) % 8 != 6) by (bit_vector)
                requires
                    0x40 <= opcode <= 0x7f,
                    opcode != 0x76,
            ;
        }
    }
}

} // verus!
