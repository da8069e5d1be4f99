//! Structured Intel 8080 instruction metadata for debugger views: mnemonic,
//! operands, length, immediates, affected flags, T-state timing, memory and
//! I/O access and control flow, for every one of the 256 opcodes.

use vstd::prelude::*;
use vstd::string::*;
use crate::cpu8080_cycle::alu::{FLAG_AC, FLAG_C, FLAG_P, FLAG_S, FLAG_Z};
use crate::text::{
    hex4, push_dec, push_hex2, push_hex4, join_strs, join_strings, spec_dec, spec_hex2,
    spec_hex4, spec_join, string_views,
};

verus! {

#[derive(Clone, Copy, Debug, PartialEq, Eq, Structural)]
pub enum Condition {
    NotZero,
    Zero,
    NoCarry,
    Carry,
    ParityOdd,
    ParityEven,
    Positive,
    Minus,
}

pub open spec fn spec_condition_from_code(code: u8) -> Condition {
    let c = code % 8;
    if c == 0 {
        Condition::NotZero
    } else if c == 1 {
        Condition::Zero
    } else if c == 2 {
        Condition::NoCarry
    } else if c == 3 {
        Condition::Carry
    } else if c == 4 {
        Condition::ParityOdd
    } else if c == 5 {
        Condition::ParityEven
    } else if c == 6 {
        Condition::Positive
    } else {
        Condition::Minus
    }
}

pub open spec fn spec_condition_label(c: Condition) -> Seq<char> {
    match c {
        Condition::NotZero => "NZ"@,
        Condition::Zero => "Z"@,
        Condition::NoCarry => "NC"@,
        Condition::Carry => "C"@,
        Condition::ParityOdd => "PO"@,
        Condition::ParityEven => "PE"@,
        Condition::Positive => "P"@,
        Condition::Minus => "M"@,
    }
}

pub open spec fn spec_condition_description(c: Condition) -> Seq<char> {
    match c {
        Condition::NotZero => "Zero flag is clear"@,
        Condition::Zero => "Zero flag is set"@,
        Condition::NoCarry => "Carry flag is clear"@,
        Condition::Carry => "Carry flag is set"@,
        Condition::ParityOdd => "Parity flag is clear"@,
        Condition::ParityEven => "Parity flag is set"@,
        Condition::Positive => "Sign flag is clear"@,
        Condition::Minus => "Sign flag is set"@,
    }
}

/// Whether the condition holds for a flag byte.
pub open spec fn spec_condition_evaluate(c: Condition, flags: u8) -> bool {
    match c {
        Condition::NotZero => flags & FLAG_Z == 0,
        Condition::Zero => flags & FLAG_Z != 0,
        Condition::NoCarry => flags & FLAG_C == 0,
        Condition::Carry => flags & FLAG_C != 0,
        Condition::ParityOdd => flags & FLAG_P == 0,
        Condition::ParityEven => flags & FLAG_P != 0,
        Condition::Positive => flags & FLAG_S == 0,
        Condition::Minus => flags & FLAG_S != 0,
    }
}

impl Condition {
    pub fn from_code(code: u8) -> (r: Condition)
        ensures
            r == spec_condition_from_code(code),
    {
        let c = code % 8;
        if c == 0 {
            Condition::NotZero
        } else if c == 1 {
            Condition::Zero
        } else if c == 2 {
            Condition::NoCarry
        } else if c == 3 {
            Condition::Carry
        } else if c == 4 {
            Condition::ParityOdd
        } else if c == 5 {
            Condition::ParityEven
        } else if c == 6 {
            Condition::Positive
        } else {
            Condition::Minus
        }
    }

    pub fn label(self) -> (r: &'static str)
        ensures
            r@ == spec_condition_label(self),
    {
        match self {
            Condition::NotZero => "NZ",
            Condition::Zero => "Z",
            Condition::NoCarry => "NC",
            Condition::Carry => "C",
            Condition::ParityOdd => "PO",
            Condition::ParityEven => "PE",
            Condition::Positive => "P",
            Condition::Minus => "M",
        }
    }

    pub fn description(self) -> (r: &'static str)
        ensures
            r@ == spec_condition_description(self),
    {
        match self {
            Condition::NotZero => "Zero flag is clear",
            Condition::Zero => "Zero flag is set",
            Condition::NoCarry => "Carry flag is clear",
            Condition::Carry => "Carry flag is set",
            Condition::ParityOdd => "Parity flag is clear",
            Condition::ParityEven => "Parity flag is set",
            Condition::Positive => "Sign flag is clear",
            Condition::Minus => "Sign flag is set",
        }
    }

    pub fn evaluate(self, flags: u8) -> (r: bool)
        ensures
            r == spec_condition_evaluate(self, flags),
    {
        match self {
            Condition::NotZero => flags & FLAG_Z == 0,
            Condition::Zero => flags & FLAG_Z != 0,
            Condition::NoCarry => flags & FLAG_C == 0,
            Condition::Carry => flags & FLAG_C != 0,
            Condition::ParityOdd => flags & FLAG_P == 0,
            Condition::ParityEven => flags & FLAG_P != 0,
            Condition::Positive => flags & FLAG_S == 0,
            Condition::Minus => flags & FLAG_S != 0,
        }
    }
}

#[derive(Clone, Copy, Debug, PartialEq, Eq, Structural)]
pub enum ControlFlow {
    Linear,
    Halt,
    Jump { target: u16, condition: Option<Condition> },
    Call { target: u16, condition: Option<Condition> },
    Return { condition: Option<Condition> },
    Restart { vector: u16 },
    IndirectJump,
}

pub open spec fn spec_direct_target(flow: ControlFlow) -> Option<u16> {
    match flow {
        ControlFlow::Jump { target, .. } => Some(target),
        ControlFlow::Call { target, .. } => Some(target),
        ControlFlow::Restart { vector } => Some(vector),
        _ => None,
    }
}

pub open spec fn spec_flow_condition(flow: ControlFlow) -> Option<Condition> {
    match flow {
        ControlFlow::Jump { condition, .. } => condition,
        ControlFlow::Call { condition, .. } => condition,
        ControlFlow::Return { condition } => condition,
        _ => None,
    }
}

impl ControlFlow {
    pub fn direct_target(self) -> (r: Option<u16>)
        ensures
            r == spec_direct_target(self),
    {
        match self {
            ControlFlow::Jump { target, .. } => Some(target),
            ControlFlow::Call { target, .. } => Some(target),
            ControlFlow::Restart { vector } => Some(vector),
            _ => None,
        }
    }

    pub fn condition(self) -> (r: Option<Condition>)
        ensures
            r == spec_flow_condition(self),
    {
        match self {
            ControlFlow::Jump { condition, .. } => condition,
            ControlFlow::Call { condition, .. } => condition,
            ControlFlow::Return { condition } => condition,
            _ => None,
        }
    }

    /// Jumps (direct or through HL) are branches; calls, returns and restarts
    /// are not.
    pub fn is_branch(self) -> (r: bool)
        ensures
            r == (self is Jump || self is IndirectJump),
    {
        match self {
            ControlFlow::Jump { .. } => true,
            ControlFlow::IndirectJump => true,
            _ => false,
        }
    }
}

#[derive(Clone, Copy, Debug, PartialEq, Eq, Structural)]
pub enum MemoryAccess {
    NoAccess,
    Read,
    Write,
    ReadWrite,
    StackRead,
    StackWrite,
    StackReadWrite,
}

pub open spec fn spec_memory_access_label(m: MemoryAccess) -> Seq<char> {
    match m {
        MemoryAccess::NoAccess => "none"@,
        MemoryAccess::Read => "read"@,
        MemoryAccess::Write => "write"@,
        MemoryAccess::ReadWrite => "read + write"@,
        MemoryAccess::StackRead => "stack read"@,
        MemoryAccess::StackWrite => "stack write"@,
        MemoryAccess::StackReadWrite => "stack read + write"@,
    }
}

impl MemoryAccess {
    pub fn label(self) -> (r: &'static str)
        ensures
            r@ == spec_memory_access_label(self),
    {
        match self {
            MemoryAccess::NoAccess => "none",
            MemoryAccess::Read => "read",
            MemoryAccess::Write => "write",
            MemoryAccess::ReadWrite => "read + write",
            MemoryAccess::StackRead => "stack read",
            MemoryAccess::StackWrite => "stack write",
            MemoryAccess::StackReadWrite => "stack read + write",
        }
    }
}

#[derive(Clone, Copy, Debug, PartialEq, Eq, Structural)]
pub enum IoAccess {
    NoAccess,
    Read(u8),
    Write(u8),
}

pub open spec fn spec_io_access_label(io: IoAccess) -> Seq<char> {
    match io {
        IoAccess::NoAccess => "none"@,
        IoAccess::Read(port) => "IN from port $"@ + spec_hex2(port),
        IoAccess::Write(port) => "OUT to port $"@ + spec_hex2(port),
    }
}

impl IoAccess {
    pub fn label(self) -> (r: String)
        ensures
            r@ == spec_io_access_label(self),
    {
        match self {
            IoAccess::NoAccess => String::from_str("none"),
            IoAccess::Read(port) => {
                let mut s = String::from_str("IN from port $");
                push_hex2(&mut s, port);
                s
            },
            IoAccess::Write(port) => {
                let mut s = String::from_str("OUT to port $");
                push_hex2(&mut s, port);
                s
            },
        }
    }
}

#[derive(Clone, Copy, Debug, PartialEq, Eq, Structural)]
pub struct Timing {
    pub base_t_states: u8,
    pub taken_t_states: Option<u8>,
}

pub open spec fn spec_fixed(t_states: u8) -> Timing {
    Timing { base_t_states: t_states, taken_t_states: None }
}

pub open spec fn spec_conditional(not_taken: u8, taken: u8) -> Timing {
    Timing { base_t_states: not_taken, taken_t_states: Some(taken) }
}

pub open spec fn spec_timing_label(t: Timing) -> Seq<char> {
    match t.taken_t_states {
        Some(taken) => if taken != t.base_t_states {
            spec_dec(t.base_t_states as nat) + " T not taken / "@ + spec_dec(taken as nat)
                + " T taken"@
        } else {
            spec_dec(t.base_t_states as nat) + " T"@
        },
        None => spec_dec(t.base_t_states as nat) + " T"@,
    }
}

impl Timing {
    pub fn fixed(t_states: u8) -> (r: Timing)
        ensures
            r == spec_fixed(t_states),
    {
        Timing { base_t_states: t_states, taken_t_states: None }
    }

    pub fn conditional(not_taken: u8, taken: u8) -> (r: Timing)
        ensures
            r == spec_conditional(not_taken, taken),
    {
        Timing { base_t_states: not_taken, taken_t_states: Some(taken) }
    }

    pub fn label(self) -> (r: String)
        ensures
            r@ == spec_timing_label(self),
    {
        let mut s = String::new();
        push_dec(&mut s, self.base_t_states);
        match self.taken_t_states {
            Some(taken) => {
                if taken != self.base_t_states {
                    s.append(" T not taken / ");
                    push_dec(&mut s, taken);
                    s.append(" T taken");
                } else {
                    s.append(" T");
                }
            },
            None => {
                s.append(" T");
            },
        }
        s
    }
}

#[derive(Clone, Copy, Debug, Default, PartialEq, Eq, Structural)]
pub struct FlagEffects {
    pub mask: u8,
}

/// Names of the flags in `mask`, in the order S Z AC P C.
pub open spec fn spec_flag_names(mask: u8) -> Seq<Seq<char>> {
    (if mask & FLAG_S != 0 { seq!["S"@] } else { Seq::empty() })
        + (if mask & FLAG_Z != 0 { seq!["Z"@] } else { Seq::empty() })
        + (if mask & FLAG_AC != 0 { seq!["AC"@] } else { Seq::empty() })
        + (if mask & FLAG_P != 0 { seq!["P"@] } else { Seq::empty() })
        + (if mask & FLAG_C != 0 { seq!["C"@] } else { Seq::empty() })
}

pub open spec fn spec_flag_effects_label(f: FlagEffects) -> Seq<char> {
    if f.mask == 0 {
        "none"@
    } else {
        spec_join(spec_flag_names(f.mask), " "@)
    }
}

pub open spec fn spec_flags_none() -> FlagEffects {
    FlagEffects { mask: 0 }
}

pub open spec fn spec_flags_szp_ac() -> FlagEffects {
    FlagEffects { mask: FLAG_S | FLAG_Z | FLAG_P | FLAG_AC }
}

pub open spec fn spec_flags_szp_ac_c() -> FlagEffects {
    FlagEffects { mask: FLAG_S | FLAG_Z | FLAG_P | FLAG_AC | FLAG_C }
}

pub open spec fn spec_flags_carry() -> FlagEffects {
    FlagEffects { mask: FLAG_C }
}

impl FlagEffects {
    /// No flag is affected.
    pub fn none() -> (r: FlagEffects)
        ensures
            r.mask == 0,
            r == spec_flags_none(),
    {
        FlagEffects { mask: 0 }
    }

    /// S, Z, P and AC are affected; carry is preserved.
    pub fn szp_ac() -> (r: FlagEffects)
        ensures
            r.mask == FLAG_S | FLAG_Z | FLAG_P | FLAG_AC,
            r == spec_flags_szp_ac(),
    {
        FlagEffects { mask: FLAG_S | FLAG_Z | FLAG_P | FLAG_AC }
    }

    /// All five condition flags are affected.
    pub fn szp_ac_c() -> (r: FlagEffects)
        ensures
            r.mask == FLAG_S | FLAG_Z | FLAG_P | FLAG_AC | FLAG_C,
            r == spec_flags_szp_ac_c(),
    {
        FlagEffects { mask: FLAG_S | FLAG_Z | FLAG_P | FLAG_AC | FLAG_C }
    }

    /// Only carry is affected.
    pub fn carry() -> (r: FlagEffects)
        ensures
            r.mask == FLAG_C,
            r == spec_flags_carry(),
    {
        FlagEffects { mask: FLAG_C }
    }

    pub fn label(self) -> (r: String)
        ensures
            r@ == spec_flag_effects_label(self),
    {
        if self.mask == 0 {
            return String::from_str("none");
        }
        let mut names: Vec<&str> = Vec::new();
        let ghost mut views: Seq<Seq<char>> = Seq::empty();
        if self.mask & FLAG_S != 0 {
            names.push("S");
        }
        if self.mask & FLAG_Z != 0 {
            names.push("Z");
        }
        if self.mask & FLAG_AC != 0 {
            names.push("AC");
        }
        if self.mask & FLAG_P != 0 {
            names.push("P");
        }
        if self.mask & FLAG_C != 0 {
            names.push("C");
        }
        assert(names@.map_values(|p: &str| p@) =~= spec_flag_names(self.mask));
        join_strs(&names, " ")
    }
}

/// The mathematical content of a decoded instruction.
pub struct DecodedView {
    pub opcode: u8,
    pub mnemonic: Seq<char>,
    pub operands: Seq<Seq<char>>,
    pub length: u8,
    pub immediate8: Option<u8>,
    pub immediate16: Option<u16>,
    pub address_target: Option<u16>,
    pub flags: FlagEffects,
    pub timing: Timing,
    pub memory: MemoryAccess,
    pub io: IoAccess,
    pub control_flow: ControlFlow,
    pub undocumented_alias: bool,
}

#[derive(Clone, Debug, PartialEq, Eq)]
pub struct DecodedInstruction {
    pub opcode: u8,
    pub mnemonic: &'static str,
    pub operands: Vec<String>,
    pub length: u8,
    pub immediate8: Option<u8>,
    pub immediate16: Option<u16>,
    pub address_target: Option<u16>,
    pub flags: FlagEffects,
    pub timing: Timing,
    pub memory: MemoryAccess,
    pub io: IoAccess,
    pub control_flow: ControlFlow,
    pub undocumented_alias: bool,
}

impl View for DecodedInstruction {
    type V = DecodedView;

    open spec fn view(&self) -> DecodedView {
        DecodedView {
            opcode: self.opcode,
            mnemonic: self.mnemonic@,
            operands: string_views(self.operands@),
            length: self.length,
            immediate8: self.immediate8,
            immediate16: self.immediate16,
            address_target: self.address_target,
            flags: self.flags,
            timing: self.timing,
            memory: self.memory,
            io: self.io,
            control_flow: self.control_flow,
            undocumented_alias: self.undocumented_alias,
        }
    }
}

/// Assembler text: the mnemonic, then the operands separated by commas.
pub open spec fn spec_text(d: DecodedView) -> Seq<char> {
    if d.operands.len() == 0 {
        d.mnemonic
    } else {
        d.mnemonic + " "@ + spec_join(d.operands, ","@)
    }
}

/// The instruction bytes that belong to the instruction, in hexadecimal.
pub open spec fn spec_bytes_text(length: u8, bytes: Seq<u8>) -> Seq<char> {
    if length == 1 {
        spec_hex2(bytes[0])
    } else if length == 2 {
        spec_hex2(bytes[0]) + " "@ + spec_hex2(bytes[1])
    } else {
        spec_hex2(bytes[0]) + " "@ + spec_hex2(bytes[1]) + " "@ + spec_hex2(bytes[2])
    }
}

/// Debugger memory description; conditional CALL/RET only touch the stack
/// when taken.
pub open spec fn spec_memory_label(d: DecodedView) -> Seq<char> {
    if d.memory == MemoryAccess::StackWrite && d.control_flow is Call && spec_flow_condition(
        d.control_flow,
    ) is Some {
        "stack write if taken"@
    } else if d.memory == MemoryAccess::StackRead && d.control_flow is Return
        && spec_flow_condition(d.control_flow) is Some {
        "stack read if taken"@
    } else {
        spec_memory_access_label(d.memory)
    }
}

pub open spec fn spec_when(c: Condition) -> Seq<char> {
    " when "@ + spec_condition_label(c) + " ("@ + spec_condition_description(c) + ")"@
}

/// Plain-language description of the control flow.
pub open spec fn spec_flow_label(flow: ControlFlow) -> Seq<char> {
    match flow {
        ControlFlow::Linear => "continues to the next instruction"@,
        ControlFlow::Halt => "halts the CPU until an interrupt/reset"@,
        ControlFlow::Jump { target, condition } => match condition {
            None => "jumps to $"@ + spec_hex4(target),
            Some(c) => "jumps to $"@ + spec_hex4(target) + spec_when(c),
        },
        ControlFlow::Call { target, condition } => match condition {
            None => "calls $"@ + spec_hex4(target),
            Some(c) => "calls $"@ + spec_hex4(target) + spec_when(c),
        },
        ControlFlow::Return { condition } => match condition {
            None => "returns through the stack"@,
            Some(c) => "returns"@ + spec_when(c),
        },
        ControlFlow::Restart { vector } => "RST call to $"@ + spec_hex4(vector),
        ControlFlow::IndirectJump => "jumps indirectly to the address in HL"@,
    }
}

fn push_when(s: &mut String, c: Condition)
    ensures
        final(s)@ == old(s)@ + spec_when(c),
{
    s.append(" when ");
    s.append(c.label());
    s.append(" (");
    s.append(c.description());
    s.append(")");
}

impl DecodedInstruction {
    pub fn text(&self) -> (r: String)
        ensures
            r@ == spec_text(self@),
    {
        if self.operands.len() == 0 {
            String::from_str(self.mnemonic)
        } else {
            let mut s = String::from_str(self.mnemonic);
            s.append(" ");
            let joined = join_strings(&self.operands, ",");
            s.append(joined.as_str());
            s
        }
    }

    pub fn bytes_text(&self, bytes: [u8; 3]) -> (r: String)
        ensures
            r@ == spec_bytes_text(self.length, bytes@),
    {
        let mut s = String::new();
        push_hex2(&mut s, bytes[0]);
        if self.length == 1 {
            return s;
        }
        s.append(" ");
        push_hex2(&mut s, bytes[1]);
        if self.length == 2 {
            return s;
        }
        s.append(" ");
        push_hex2(&mut s, bytes[2]);
        s
    }

    pub fn memory_label(&self) -> (r: String)
        ensures
            r@ == spec_memory_label(self@),
    {
        match (self.memory, self.control_flow) {
            (MemoryAccess::StackWrite, ControlFlow::Call { condition: Some(_), .. }) => {
                String::from_str("stack write if taken")
            },
            (MemoryAccess::StackRead, ControlFlow::Return { condition: Some(_) }) => {
                String::from_str("stack read if taken")
            },
            _ => String::from_str(self.memory.label()),
        }
    }

    pub fn flow_label(&self) -> (r: String)
        ensures
            r@ == spec_flow_label(self.control_flow),
    {
        match self.control_flow {
            ControlFlow::Linear => String::from_str("continues to the next instruction"),
            ControlFlow::Halt => String::from_str("halts the CPU until an interrupt/reset"),
            ControlFlow::Jump { target, condition } => {
                let mut s = String::from_str("jumps to $");
                push_hex4(&mut s, target);
                if let Some(c) = condition {
                    push_when(&mut s, c);
                }
                s
            },
            ControlFlow::Call { target, condition } => {
                let mut s = String::from_str("calls $");
                push_hex4(&mut s, target);
                if let Some(c) = condition {
                    push_when(&mut s, c);
                }
                s
            },
            ControlFlow::Return { condition } => match condition {
                None => String::from_str("returns through the stack"),
                Some(c) => {
                    let mut s = String::from_str("returns");
                    push_when(&mut s, c);
                    s
                },
            },
            ControlFlow::Restart { vector } => {
                let mut s = String::from_str("RST call to $");
                push_hex4(&mut s, vector);
                s
            },
            ControlFlow::IndirectJump => String::from_str(
                "jumps indirectly to the address in HL",
            ),
        }
    }
}

pub open spec fn spec_reg_name(code: u8) -> Seq<char> {
    let c = code % 8;
    if c == 0 {
        "B"@
    } else if c == 1 {
        "C"@
    } else if c == 2 {
        "D"@
    } else if c == 3 {
        "E"@
    } else if c == 4 {
        "H"@
    } else if c == 5 {
        "L"@
    } else if c == 6 {
        "M"@
    } else {
        "A"@
    }
}

fn reg_name(code: u8) -> (r: &'static str)
    ensures
        r@ == spec_reg_name(code),
{
    let c = code % 8;
    if c == 0 {
        "B"
    } else if c == 1 {
        "C"
    } else if c == 2 {
        "D"
    } else if c == 3 {
        "E"
    } else if c == 4 {
        "H"
    } else if c == 5 {
        "L"
    } else if c == 6 {
        "M"
    } else {
        "A"
    }
}

pub open spec fn spec_pair_name(code: u8) -> Seq<char> {
    let c = code % 4;
    if c == 0 {
        "B"@
    } else if c == 1 {
        "D"@
    } else if c == 2 {
        "H"@
    } else {
        "SP"@
    }
}

fn pair_name(code: u8) -> (r: &'static str)
    ensures
        r@ == spec_pair_name(code),
{
    let c = code % 4;
    if c == 0 {
        "B"
    } else if c == 1 {
        "D"
    } else if c == 2 {
        "H"
    } else {
        "SP"
    }
}

pub open spec fn spec_push_pair_name(code: u8) -> Seq<char> {
    let c = code % 4;
    if c == 0 {
        "B"@
    } else if c == 1 {
        "D"@
    } else if c == 2 {
        "H"@
    } else {
        "PSW"@
    }
}

fn push_pair_name(code: u8) -> (r: &'static str)
    ensures
        r@ == spec_push_pair_name(code),
{
    let c = code % 4;
    if c == 0 {
        "B"
    } else if c == 1 {
        "D"
    } else if c == 2 {
        "H"
    } else {
        "PSW"
    }
}

pub open spec fn spec_alu_name(code: u8) -> Seq<char> {
    let c = code % 8;
    if c == 0 {
        "ADD"@
    } else if c == 1 {
        "ADC"@
    } else if c == 2 {
        "SUB"@
    } else if c == 3 {
        "SBB"@
    } else if c == 4 {
        "ANA"@
    } else if c == 5 {
        "XRA"@
    } else if c == 6 {
        "ORA"@
    } else {
        "CMP"@
    }
}

fn alu_name(code: u8) -> (r: &'static str)
    ensures
        r@ == spec_alu_name(code),
{
    let c = code % 8;
    if c == 0 {
        "ADD"
    } else if c == 1 {
        "ADC"
    } else if c == 2 {
        "SUB"
    } else if c == 3 {
        "SBB"
    } else if c == 4 {
        "ANA"
    } else if c == 5 {
        "XRA"
    } else if c == 6 {
        "ORA"
    } else {
        "CMP"
    }
}

pub open spec fn spec_cond_ret_name(code: u8) -> Seq<char> {
    let c = code % 8;
    if c == 0 {
        "RNZ"@
    } else if c == 1 {
        "RZ"@
    } else if c == 2 {
        "RNC"@
    } else if c == 3 {
        "RC"@
    } else if c == 4 {
        "RPO"@
    } else if c == 5 {
        "RPE"@
    } else if c == 6 {
        "RP"@
    } else {
        "RM"@
    }
}

fn cond_ret_name(code: u8) -> (r: &'static str)
    ensures
        r@ == spec_cond_ret_name(code),
{
    let c = code % 8;
    if c == 0 {
        "RNZ"
    } else if c == 1 {
        "RZ"
    } else if c == 2 {
        "RNC"
    } else if c == 3 {
        "RC"
    } else if c == 4 {
        "RPO"
    } else if c == 5 {
        "RPE"
    } else if c == 6 {
        "RP"
    } else {
        "RM"
    }
}

pub open spec fn spec_cond_jmp_name(code: u8) -> Seq<char> {
    let c = code % 8;
    if c == 0 {
        "JNZ"@
    } else if c == 1 {
        "JZ"@
    } else if c == 2 {
        "JNC"@
    } else if c == 3 {
        "JC"@
    } else if c == 4 {
        "JPO"@
    } else if c == 5 {
        "JPE"@
    } else if c == 6 {
        "JP"@
    } else {
        "JM"@
    }
}

fn cond_jmp_name(code: u8) -> (r: &'static str)
    ensures
        r@ == spec_cond_jmp_name(code),
{
    let c = code % 8;
    if c == 0 {
        "JNZ"
    } else if c == 1 {
        "JZ"
    } else if c == 2 {
        "JNC"
    } else if c == 3 {
        "JC"
    } else if c == 4 {
        "JPO"
    } else if c == 5 {
        "JPE"
    } else if c == 6 {
        "JP"
    } else {
        "JM"
    }
}

pub open spec fn spec_cond_call_name(code: u8) -> Seq<char> {
    let c = code % 8;
    if c == 0 {
        "CNZ"@
    } else if c == 1 {
        "CZ"@
    } else if c == 2 {
        "CNC"@
    } else if c == 3 {
        "CC"@
    } else if c == 4 {
        "CPO"@
    } else if c == 5 {
        "CPE"@
    } else if c == 6 {
        "CP"@
    } else {
        "CM"@
    }
}

fn cond_call_name(code: u8) -> (r: &'static str)
    ensures
        r@ == spec_cond_call_name(code),
{
    let c = code % 8;
    if c == 0 {
        "CNZ"
    } else if c == 1 {
        "CZ"
    } else if c == 2 {
        "CNC"
    } else if c == 3 {
        "CC"
    } else if c == 4 {
        "CPO"
    } else if c == 5 {
        "CPE"
    } else if c == 6 {
        "CP"
    } else {
        "CM"
    }
}

/// Little-endian 16-bit value of two operand bytes.
pub open spec fn spec_word(lo: u8, hi: u8) -> u16 {
    (hi as int * 256 + lo as int) as u16
}

fn word(lo: u8, hi: u8) -> (r: u16)
    ensures
        r == spec_word(lo, hi),
{
    hi as u16 * 256 + lo as u16
}

/// `$XX` operand text.
pub open spec fn spec_d8(b: u8) -> Seq<char> {
    "$"@ + spec_hex2(b)
}

/// `$XXXX` operand text.
pub open spec fn spec_d16(w: u16) -> Seq<char> {
    "$"@ + spec_hex4(w)
}

fn d8(b: u8) -> (r: String)
    ensures
        r@ == spec_d8(b),
{
    let mut s = String::from_str("$");
    push_hex2(&mut s, b);
    s
}

fn d16(w: u16) -> (r: String)
    ensures
        r@ == spec_d16(w),
{
    let mut s = String::from_str("$");
    push_hex4(&mut s, w);
    s
}

fn owned(text: &str) -> (r: String)
    ensures
        r@ == text@,
{
    String::from_str(text)
}

fn ops0() -> (r: Vec<String>)
    ensures
        string_views(r@) == Seq::<Seq<char>>::empty(),
{
    let r: Vec<String> = Vec::new();
    assert(string_views(r@) =~= Seq::<Seq<char>>::empty());
    r
}

fn ops1(a: String) -> (r: Vec<String>)
    ensures
        string_views(r@) == seq![a@],
{
    let mut r: Vec<String> = Vec::new();
    r.push(a);
    assert(string_views(r@) =~= seq![a@]);
    r
}

fn ops2(a: String, b: String) -> (r: Vec<String>)
    ensures
        string_views(r@) == seq![a@, b@],
{
    let mut r: Vec<String> = Vec::new();
    r.push(a);
    r.push(b);
    assert(string_views(r@) =~= seq![a@, b@]);
    r
}

pub open spec fn spec_decoded(
    opcode: u8,
    mnemonic: Seq<char>,
    operands: Seq<Seq<char>>,
    length: u8,
    immediate8: Option<u8>,
    immediate16: Option<u16>,
    address_target: Option<u16>,
    flags: FlagEffects,
    timing: Timing,
    memory: MemoryAccess,
    io: IoAccess,
    control_flow: ControlFlow,
    undocumented_alias: bool,
) -> DecodedView {
    DecodedView {
        opcode,
        mnemonic,
        operands,
        length,
        immediate8,
        immediate16,
        address_target,
        flags,
        timing,
        memory,
        io,
        control_flow,
        undocumented_alias,
    }
}

fn decoded(
    opcode: u8,
    mnemonic: &'static str,
    operands: Vec<String>,
    length: u8,
    immediate8: Option<u8>,
    immediate16: Option<u16>,
    address_target: Option<u16>,
    flags: FlagEffects,
    timing: Timing,
    memory: MemoryAccess,
    io: IoAccess,
    control_flow: ControlFlow,
    undocumented_alias: bool,
) -> (r: DecodedInstruction)
    ensures
        r@ == spec_decoded(
            opcode,
            mnemonic@,
            string_views(operands@),
            length,
            immediate8,
            immediate16,
            address_target,
            flags,
            timing,
            memory,
            io,
            control_flow,
            undocumented_alias,
        ),
{
    DecodedInstruction {
        opcode,
        mnemonic,
        operands,
        length,
        immediate8,
        immediate16,
        address_target,
        flags,
        timing,
        memory,
        io,
        control_flow,
        undocumented_alias,
    }
}

/// Opcodes with no register, pair or condition field (and the unused
/// encodings, shown as `DB`).
pub open spec fn spec_decode_fixed(opcode: u8, b1: u8, b2: u8) -> DecodedView {
    let value = spec_word(b1, b2);
    if opcode == 0x00 || opcode == 0x08 || opcode == 0x10 || opcode == 0x18 || opcode == 0x20 || opcode == 0x28 || opcode == 0x30 || opcode == 0x38 {
        spec_decoded(opcode, "NOP"@, Seq::empty(), 1, None, None, None, spec_flags_none(), spec_fixed(4), MemoryAccess::NoAccess, IoAccess::NoAccess, ControlFlow::Linear, opcode != 0x00)
    } else if opcode == 0x02 {
        spec_decoded(opcode, "STAX"@, seq!["B"@], 1, None, None, None, spec_flags_none(), spec_fixed(7), MemoryAccess::Write, IoAccess::NoAccess, ControlFlow::Linear, false)
    } else if opcode == 0x07 {
        spec_decoded(opcode, "RLC"@, Seq::empty(), 1, None, None, None, spec_flags_carry(), spec_fixed(4), MemoryAccess::NoAccess, IoAccess::NoAccess, ControlFlow::Linear, false)
    } else if opcode == 0x0a {
        spec_decoded(opcode, "LDAX"@, seq!["B"@], 1, None, None, None, spec_flags_none(), spec_fixed(7), MemoryAccess::Read, IoAccess::NoAccess, ControlFlow::Linear, false)
    } else if opcode == 0x0f {
        spec_decoded(opcode, "RRC"@, Seq::empty(), 1, None, None, None, spec_flags_carry(), spec_fixed(4), MemoryAccess::NoAccess, IoAccess::NoAccess, ControlFlow::Linear, false)
    } else if opcode == 0x12 {
        spec_decoded(opcode, "STAX"@, seq!["D"@], 1, None, None, None, spec_flags_none(), spec_fixed(7), MemoryAccess::Write, IoAccess::NoAccess, ControlFlow::Linear, false)
    } else if opcode == 0x17 {
        spec_decoded(opcode, "RAL"@, Seq::empty(), 1, None, None, None, spec_flags_carry(), spec_fixed(4), MemoryAccess::NoAccess, IoAccess::NoAccess, ControlFlow::Linear, false)
    } else if opcode == 0x1a {
        spec_decoded(opcode, "LDAX"@, seq!["D"@], 1, None, None, None, spec_flags_none(), spec_fixed(7), MemoryAccess::Read, IoAccess::NoAccess, ControlFlow::Linear, false)
    } else if opcode == 0x1f {
        spec_decoded(opcode, "RAR"@, Seq::empty(), 1, None, None, None, spec_flags_carry(), spec_fixed(4), MemoryAccess::NoAccess, IoAccess::NoAccess, ControlFlow::Linear, false)
    } else if opcode == 0x22 {
        spec_decoded(opcode, "SHLD"@, seq![spec_d16(value)], 3, None, Some(value), Some(value), spec_flags_none(), spec_fixed(16), MemoryAccess::Write, IoAccess::NoAccess, ControlFlow::Linear, false)
    } else if opcode == 0x27 {
        spec_decoded(opcode, "DAA"@, Seq::empty(), 1, None, None, None, spec_flags_szp_ac_c(), spec_fixed(4), MemoryAccess::NoAccess, IoAccess::NoAccess, ControlFlow::Linear, false)
    } else if opcode == 0x2a {
        spec_decoded(opcode, "LHLD"@, seq![spec_d16(value)], 3, None, Some(value), Some(value), spec_flags_none(), spec_fixed(16), MemoryAccess::Read, IoAccess::NoAccess, ControlFlow::Linear, false)
    } else if opcode == 0x2f {
        spec_decoded(opcode, "CMA"@, Seq::empty(), 1, None, None, None, spec_flags_none(), spec_fixed(4), MemoryAccess::NoAccess, IoAccess::NoAccess, ControlFlow::Linear, false)
    } else if opcode == 0x32 {
        spec_decoded(opcode, "STA"@, seq![spec_d16(value)], 3, None, Some(value), Some(value), spec_flags_none(), spec_fixed(13), MemoryAccess::Write, IoAccess::NoAccess, ControlFlow::Linear, false)
    } else if opcode == 0x37 {
        spec_decoded(opcode, "STC"@, Seq::empty(), 1, None, None, None, spec_flags_carry(), spec_fixed(4), MemoryAccess::NoAccess, IoAccess::NoAccess, ControlFlow::Linear, false)
    } else if opcode == 0x3a {
        spec_decoded(opcode, "LDA"@, seq![spec_d16(value)], 3, None, Some(value), Some(value), spec_flags_none(), spec_fixed(13), MemoryAccess::Read, IoAccess::NoAccess, ControlFlow::Linear, false)
    } else if opcode == 0x3f {
        spec_decoded(opcode, "CMC"@, Seq::empty(), 1, None, None, None, spec_flags_carry(), spec_fixed(4), MemoryAccess::NoAccess, IoAccess::NoAccess, ControlFlow::Linear, false)
    } else if opcode == 0xc3 || opcode == 0xcb {
        spec_decoded(opcode, "JMP"@, seq![spec_d16(value)], 3, None, Some(value), Some(value), spec_flags_none(), spec_fixed(10), MemoryAccess::NoAccess, IoAccess::NoAccess, ControlFlow::Jump { target: value, condition: None }, opcode == 0xcb)
    } else if opcode == 0xc6 {
        spec_decoded(opcode, "ADI"@, seq![spec_d8(b1)], 2, Some(b1), None, None, spec_flags_szp_ac_c(), spec_fixed(7), MemoryAccess::NoAccess, IoAccess::NoAccess, ControlFlow::Linear, false)
    } else if opcode == 0xc9 || opcode == 0xd9 {
        spec_decoded(opcode, "RET"@, Seq::empty(), 1, None, None, None, spec_flags_none(), spec_fixed(10), MemoryAccess::StackRead, IoAccess::NoAccess, ControlFlow::Return { condition: None }, opcode == 0xd9)
    } else if opcode == 0xcd || opcode == 0xdd || opcode == 0xed || opcode == 0xfd {
        spec_decoded(opcode, "CALL"@, seq![spec_d16(value)], 3, None, Some(value), Some(value), spec_flags_none(), spec_fixed(17), MemoryAccess::StackWrite, IoAccess::NoAccess, ControlFlow::Call { target: value, condition: None }, opcode != 0xcd)
    } else if opcode == 0xce {
        spec_decoded(opcode, "ACI"@, seq![spec_d8(b1)], 2, Some(b1), None, None, spec_flags_szp_ac_c(), spec_fixed(7), MemoryAccess::NoAccess, IoAccess::NoAccess, ControlFlow::Linear, false)
    } else if opcode == 0xd3 {
        spec_decoded(opcode, "OUT"@, seq![spec_d8(b1)], 2, Some(b1), None, None, spec_flags_none(), spec_fixed(10), MemoryAccess::NoAccess, IoAccess::Write(b1), ControlFlow::Linear, false)
    } else if opcode == 0xd6 {
        spec_decoded(opcode, "SUI"@, seq![spec_d8(b1)], 2, Some(b1), None, None, spec_flags_szp_ac_c(), spec_fixed(7), MemoryAccess::NoAccess, IoAccess::NoAccess, ControlFlow::Linear, false)
    } else if opcode == 0xdb {
        spec_decoded(opcode, "IN"@, seq![spec_d8(b1)], 2, Some(b1), None, None, spec_flags_none(), spec_fixed(10), MemoryAccess::NoAccess, IoAccess::Read(b1), ControlFlow::Linear, false)
    } else if opcode == 0xde {
        spec_decoded(opcode, "SBI"@, seq![spec_d8(b1)], 2, Some(b1), None, None, spec_flags_szp_ac_c(), spec_fixed(7), MemoryAccess::NoAccess, IoAccess::NoAccess, ControlFlow::Linear, false)
    } else if opcode == 0xe3 {
        spec_decoded(opcode, "XTHL"@, Seq::empty(), 1, None, None, None, spec_flags_none(), spec_fixed(18), MemoryAccess::StackReadWrite, IoAccess::NoAccess, ControlFlow::Linear, false)
    } else if opcode == 0xe6 {
        spec_decoded(opcode, "ANI"@, seq![spec_d8(b1)], 2, Some(b1), None, None, spec_flags_szp_ac_c(), spec_fixed(7), MemoryAccess::NoAccess, IoAccess::NoAccess, ControlFlow::Linear, false)
    } else if opcode == 0xe9 {
        spec_decoded(opcode, "PCHL"@, Seq::empty(), 1, None, None, None, spec_flags_none(), spec_fixed(5), MemoryAccess::NoAccess, IoAccess::NoAccess, ControlFlow::IndirectJump, false)
    } else if opcode == 0xeb {
        spec_decoded(opcode, "XCHG"@, Seq::empty(), 1, None, None, None, spec_flags_none(), spec_fixed(4), MemoryAccess::NoAccess, IoAccess::NoAccess, ControlFlow::Linear, false)
    } else if opcode == 0xee {
        spec_decoded(opcode, "XRI"@, seq![spec_d8(b1)], 2, Some(b1), None, None, spec_flags_szp_ac_c(), spec_fixed(7), MemoryAccess::NoAccess, IoAccess::NoAccess, ControlFlow::Linear, false)
    } else if opcode == 0xf3 {
        spec_decoded(opcode, "DI"@, Seq::empty(), 1, None, None, None, spec_flags_none(), spec_fixed(4), MemoryAccess::NoAccess, IoAccess::NoAccess, ControlFlow::Linear, false)
    } else if opcode == 0xf6 {
        spec_decoded(opcode, "ORI"@, seq![spec_d8(b1)], 2, Some(b1), None, None, spec_flags_szp_ac_c(), spec_fixed(7), MemoryAccess::NoAccess, IoAccess::NoAccess, ControlFlow::Linear, false)
    } else if opcode == 0xf9 {
        spec_decoded(opcode, "SPHL"@, Seq::empty(), 1, None, None, None, spec_flags_none(), spec_fixed(5), MemoryAccess::NoAccess, IoAccess::NoAccess, ControlFlow::Linear, false)
    } else if opcode == 0xfb {
        spec_decoded(opcode, "EI"@, Seq::empty(), 1, None, None, None, spec_flags_none(), spec_fixed(4), MemoryAccess::NoAccess, IoAccess::NoAccess, ControlFlow::Linear, false)
    } else if opcode == 0xfe {
        spec_decoded(opcode, "CPI"@, seq![spec_d8(b1)], 2, Some(b1), None, None, spec_flags_szp_ac_c(), spec_fixed(7), MemoryAccess::NoAccess, IoAccess::NoAccess, ControlFlow::Linear, false)
    } else {
        spec_decoded(opcode, "DB"@, seq![spec_d8(opcode)], 1, None, None, None, spec_flags_none(), spec_fixed(4), MemoryAccess::NoAccess, IoAccess::NoAccess, ControlFlow::Linear, false)
    }
}

fn decode_fixed(opcode: u8, b1: u8, b2: u8) -> (r: DecodedInstruction)
    ensures
        r@ == spec_decode_fixed(opcode, b1, b2),
{
    let value = word(b1, b2);
    if opcode == 0x00 || opcode == 0x08 || opcode == 0x10 || opcode == 0x18 || opcode == 0x20 || opcode == 0x28 || opcode == 0x30 || opcode == 0x38 {
        decoded(opcode, "NOP", ops0(), 1, None, None, None, FlagEffects::none(), Timing::fixed(4), MemoryAccess::NoAccess, IoAccess::NoAccess, ControlFlow::Linear, opcode != 0x00)
    } else if opcode == 0x02 {
        decoded(opcode, "STAX", ops1(owned("B")), 1, None, None, None, FlagEffects::none(), Timing::fixed(7), MemoryAccess::Write, IoAccess::NoAccess, ControlFlow::Linear, false)
    } else if opcode == 0x07 {
        decoded(opcode, "RLC", ops0(), 1, None, None, None, FlagEffects::carry(), Timing::fixed(4), MemoryAccess::NoAccess, IoAccess::NoAccess, ControlFlow::Linear, false)
    } else if opcode == 0x0a {
        decoded(opcode, "LDAX", ops1(owned("B")), 1, None, None, None, FlagEffects::none(), Timing::fixed(7), MemoryAccess::Read, IoAccess::NoAccess, ControlFlow::Linear, false)
    } else if opcode == 0x0f {
        decoded(opcode, "RRC", ops0(), 1, None, None, None, FlagEffects::carry(), Timing::fixed(4), MemoryAccess::NoAccess, IoAccess::NoAccess, ControlFlow::Linear, false)
    } else if opcode == 0x12 {
        decoded(opcode, "STAX", ops1(owned("D")), 1, None, None, None, FlagEffects::none(), Timing::fixed(7), MemoryAccess::Write, IoAccess::NoAccess, ControlFlow::Linear, false)
    } else if opcode == 0x17 {
        decoded(opcode, "RAL", ops0(), 1, None, None, None, FlagEffects::carry(), Timing::fixed(4), MemoryAccess::NoAccess, IoAccess::NoAccess, ControlFlow::Linear, false)
    } else if opcode == 0x1a {
        decoded(opcode, "LDAX", ops1(owned("D")), 1, None, None, None, FlagEffects::none(), Timing::fixed(7), MemoryAccess::Read, IoAccess::NoAccess, ControlFlow::Linear, false)
    } else if opcode == 0x1f {
        decoded(opcode, "RAR", ops0(), 1, None, None, None, FlagEffects::carry(), Timing::fixed(4), MemoryAccess::NoAccess, IoAccess::NoAccess, ControlFlow::Linear, false)
    } else if opcode == 0x22 {
        decoded(opcode, "SHLD", ops1(d16(value)), 3, None, Some(value), Some(value), FlagEffects::none(), Timing::fixed(16), MemoryAccess::Write, IoAccess::NoAccess, ControlFlow::Linear, false)
    } else if opcode == 0x27 {
        decoded(opcode, "DAA", ops0(), 1, None, None, None, FlagEffects::szp_ac_c(), Timing::fixed(4), MemoryAccess::NoAccess, IoAccess::NoAccess, ControlFlow::Linear, false)
    } else if opcode == 0x2a {
        decoded(opcode, "LHLD", ops1(d16(value)), 3, None, Some(value), Some(value), FlagEffects::none(), Timing::fixed(16), MemoryAccess::Read, IoAccess::NoAccess, ControlFlow::Linear, false)
    } else if opcode == 0x2f {
        decoded(opcode, "CMA", ops0(), 1, None, None, None, FlagEffects::none(), Timing::fixed(4), MemoryAccess::NoAccess, IoAccess::NoAccess, ControlFlow::Linear, false)
    } else if opcode == 0x32 {
        decoded(opcode, "STA", ops1(d16(value)), 3, None, Some(value), Some(value), FlagEffects::none(), Timing::fixed(13), MemoryAccess::Write, IoAccess::NoAccess, ControlFlow::Linear, false)
    } else if opcode == 0x37 {
        decoded(opcode, "STC", ops0(), 1, None, None, None, FlagEffects::carry(), Timing::fixed(4), MemoryAccess::NoAccess, IoAccess::NoAccess, ControlFlow::Linear, false)
    } else if opcode == 0x3a {
        decoded(opcode, "LDA", ops1(d16(value)), 3, None, Some(value), Some(value), FlagEffects::none(), Timing::fixed(13), MemoryAccess::Read, IoAccess::NoAccess, ControlFlow::Linear, false)
    } else if opcode == 0x3f {
        decoded(opcode, "CMC", ops0(), 1, None, None, None, FlagEffects::carry(), Timing::fixed(4), MemoryAccess::NoAccess, IoAccess::NoAccess, ControlFlow::Linear, false)
    } else if opcode == 0xc3 || opcode == 0xcb {
        decoded(opcode, "JMP", ops1(d16(value)), 3, None, Some(value), Some(value), FlagEffects::none(), Timing::fixed(10), MemoryAccess::NoAccess, IoAccess::NoAccess, ControlFlow::Jump { target: value, condition: None }, opcode == 0xcb)
    } else if opcode == 0xc6 {
        decoded(opcode, "ADI", ops1(d8(b1)), 2, Some(b1), None, None, FlagEffects::szp_ac_c(), Timing::fixed(7), MemoryAccess::NoAccess, IoAccess::NoAccess, ControlFlow::Linear, false)
    } else if opcode == 0xc9 || opcode == 0xd9 {
        decoded(opcode, "RET", ops0(), 1, None, None, None, FlagEffects::none(), Timing::fixed(10), MemoryAccess::StackRead, IoAccess::NoAccess, ControlFlow::Return { condition: None }, opcode == 0xd9)
    } else if opcode == 0xcd || opcode == 0xdd || opcode == 0xed || opcode == 0xfd {
        decoded(opcode, "CALL", ops1(d16(value)), 3, None, Some(value), Some(value), FlagEffects::none(), Timing::fixed(17), MemoryAccess::StackWrite, IoAccess::NoAccess, ControlFlow::Call { target: value, condition: None }, opcode != 0xcd)
    } else if opcode == 0xce {
        decoded(opcode, "ACI", ops1(d8(b1)), 2, Some(b1), None, None, FlagEffects::szp_ac_c(), Timing::fixed(7), MemoryAccess::NoAccess, IoAccess::NoAccess, ControlFlow::Linear, false)
    } else if opcode == 0xd3 {
        decoded(opcode, "OUT", ops1(d8(b1)), 2, Some(b1), None, None, FlagEffects::none(), Timing::fixed(10), MemoryAccess::NoAccess, IoAccess::Write(b1), ControlFlow::Linear, false)
    } else if opcode == 0xd6 {
        decoded(opcode, "SUI", ops1(d8(b1)), 2, Some(b1), None, None, FlagEffects::szp_ac_c(), Timing::fixed(7), MemoryAccess::NoAccess, IoAccess::NoAccess, ControlFlow::Linear, false)
    } else if opcode == 0xdb {
        decoded(opcode, "IN", ops1(d8(b1)), 2, Some(b1), None, None, FlagEffects::none(), Timing::fixed(10), MemoryAccess::NoAccess, IoAccess::Read(b1), ControlFlow::Linear, false)
    } else if opcode == 0xde {
        decoded(opcode, "SBI", ops1(d8(b1)), 2, Some(b1), None, None, FlagEffects::szp_ac_c(), Timing::fixed(7), MemoryAccess::NoAccess, IoAccess::NoAccess, ControlFlow::Linear, false)
    } else if opcode == 0xe3 {
        decoded(opcode, "XTHL", ops0(), 1, None, None, None, FlagEffects::none(), Timing::fixed(18), MemoryAccess::StackReadWrite, IoAccess::NoAccess, ControlFlow::Linear, false)
    } else if opcode == 0xe6 {
        decoded(opcode, "ANI", ops1(d8(b1)), 2, Some(b1), None, None, FlagEffects::szp_ac_c(), Timing::fixed(7), MemoryAccess::NoAccess, IoAccess::NoAccess, ControlFlow::Linear, false)
    } else if opcode == 0xe9 {
        decoded(opcode, "PCHL", ops0(), 1, None, None, None, FlagEffects::none(), Timing::fixed(5), MemoryAccess::NoAccess, IoAccess::NoAccess, ControlFlow::IndirectJump, false)
    } else if opcode == 0xeb {
        decoded(opcode, "XCHG", ops0(), 1, None, None, None, FlagEffects::none(), Timing::fixed(4), MemoryAccess::NoAccess, IoAccess::NoAccess, ControlFlow::Linear, false)
    } else if opcode == 0xee {
        decoded(opcode, "XRI", ops1(d8(b1)), 2, Some(b1), None, None, FlagEffects::szp_ac_c(), Timing::fixed(7), MemoryAccess::NoAccess, IoAccess::NoAccess, ControlFlow::Linear, false)
    } else if opcode == 0xf3 {
        decoded(opcode, "DI", ops0(), 1, None, None, None, FlagEffects::none(), Timing::fixed(4), MemoryAccess::NoAccess, IoAccess::NoAccess, ControlFlow::Linear, false)
    } else if opcode == 0xf6 {
        decoded(opcode, "ORI", ops1(d8(b1)), 2, Some(b1), None, None, FlagEffects::szp_ac_c(), Timing::fixed(7), MemoryAccess::NoAccess, IoAccess::NoAccess, ControlFlow::Linear, false)
    } else if opcode == 0xf9 {
        decoded(opcode, "SPHL", ops0(), 1, None, None, None, FlagEffects::none(), Timing::fixed(5), MemoryAccess::NoAccess, IoAccess::NoAccess, ControlFlow::Linear, false)
    } else if opcode == 0xfb {
        decoded(opcode, "EI", ops0(), 1, None, None, None, FlagEffects::none(), Timing::fixed(4), MemoryAccess::NoAccess, IoAccess::NoAccess, ControlFlow::Linear, false)
    } else if opcode == 0xfe {
        decoded(opcode, "CPI", ops1(d8(b1)), 2, Some(b1), None, None, FlagEffects::szp_ac_c(), Timing::fixed(7), MemoryAccess::NoAccess, IoAccess::NoAccess, ControlFlow::Linear, false)
    } else {
        decoded(opcode, "DB", ops1(d8(opcode)), 1, None, None, None, FlagEffects::none(), Timing::fixed(4), MemoryAccess::NoAccess, IoAccess::NoAccess, ControlFlow::Linear, false)
    }
}

/// The instruction an opcode (with the two bytes that follow it) encodes.
pub open spec fn spec_decode_8080(opcode: u8, b1: u8, b2: u8) -> DecodedView {
    let dst = (opcode >> 3) & 7;
    let src = opcode & 7;
    let pair = (opcode >> 4) & 3;
    let cc = (opcode >> 3) & 7;
    let value = spec_word(b1, b2);
    if 0x40 <= opcode <= 0x7f {
        if opcode == 0x76 {
            spec_decoded(opcode, "HLT"@, Seq::empty(), 1, None, None, None, spec_flags_none(), spec_fixed(7), MemoryAccess::NoAccess, IoAccess::NoAccess, ControlFlow::Halt, false)
        } else {
            spec_decoded(opcode, "MOV"@, seq![spec_reg_name(dst), spec_reg_name(src)], 1, None, None, None, spec_flags_none(),
                spec_fixed(if dst == 6 || src == 6 { 7 } else { 5 }),
                if dst == 6 { MemoryAccess::Write } else if src == 6 { MemoryAccess::Read } else { MemoryAccess::NoAccess },
                IoAccess::NoAccess, ControlFlow::Linear, false)
        }
    } else if 0x80 <= opcode <= 0xbf {
        spec_decoded(opcode, spec_alu_name(dst), seq![spec_reg_name(src)], 1, None, None, None, spec_flags_szp_ac_c(),
            spec_fixed(if src == 6 { 7 } else { 4 }),
            if src == 6 { MemoryAccess::Read } else { MemoryAccess::NoAccess },
            IoAccess::NoAccess, ControlFlow::Linear, false)
    } else if opcode & 0xc7 == 0x04 || opcode & 0xc7 == 0x05 {
        spec_decoded(opcode, if opcode & 0xc7 == 0x04 { "INR"@ } else { "DCR"@ }, seq![spec_reg_name(dst)], 1, None, None, None, spec_flags_szp_ac(),
            spec_fixed(if dst == 6 { 10 } else { 5 }),
            if dst == 6 { MemoryAccess::ReadWrite } else { MemoryAccess::NoAccess },
            IoAccess::NoAccess, ControlFlow::Linear, false)
    } else if opcode & 0xc7 == 0x06 {
        spec_decoded(opcode, "MVI"@, seq![spec_reg_name(dst), spec_d8(b1)], 2, Some(b1), None, None, spec_flags_none(),
            spec_fixed(if dst == 6 { 10 } else { 7 }),
            if dst == 6 { MemoryAccess::Write } else { MemoryAccess::NoAccess },
            IoAccess::NoAccess, ControlFlow::Linear, false)
    } else if opcode & 0xcf == 0x01 {
        spec_decoded(opcode, "LXI"@, seq![spec_pair_name(pair), spec_d16(value)], 3, None, Some(value), None, spec_flags_none(),
            spec_fixed(10), MemoryAccess::NoAccess, IoAccess::NoAccess, ControlFlow::Linear, false)
    } else if opcode & 0xcf == 0x03 || opcode & 0xcf == 0x0b {
        spec_decoded(opcode, if opcode & 0xcf == 0x03 { "INX"@ } else { "DCX"@ }, seq![spec_pair_name(pair)], 1, None, None, None, spec_flags_none(),
            spec_fixed(5), MemoryAccess::NoAccess, IoAccess::NoAccess, ControlFlow::Linear, false)
    } else if opcode & 0xcf == 0x09 {
        spec_decoded(opcode, "DAD"@, seq![spec_pair_name(pair)], 1, None, None, None, spec_flags_carry(),
            spec_fixed(10), MemoryAccess::NoAccess, IoAccess::NoAccess, ControlFlow::Linear, false)
    } else if opcode & 0xc7 == 0xc0 {
        spec_decoded(opcode, spec_cond_ret_name(cc), Seq::empty(), 1, None, None, None, spec_flags_none(),
            spec_conditional(5, 11), MemoryAccess::StackRead, IoAccess::NoAccess,
            ControlFlow::Return { condition: Some(spec_condition_from_code(cc)) }, false)
    } else if opcode & 0xc7 == 0xc2 {
        spec_decoded(opcode, spec_cond_jmp_name(cc), seq![spec_d16(value)], 3, None, Some(value), Some(value), spec_flags_none(),
            spec_conditional(10, 10), MemoryAccess::NoAccess, IoAccess::NoAccess,
            ControlFlow::Jump { target: value, condition: Some(spec_condition_from_code(cc)) }, false)
    } else if opcode & 0xc7 == 0xc4 {
        spec_decoded(opcode, spec_cond_call_name(cc), seq![spec_d16(value)], 3, None, Some(value), Some(value), spec_flags_none(),
            spec_conditional(11, 17), MemoryAccess::StackWrite, IoAccess::NoAccess,
            ControlFlow::Call { target: value, condition: Some(spec_condition_from_code(cc)) }, false)
    } else if opcode & 0xcf == 0xc1 {
        spec_decoded(opcode, "POP"@, seq![spec_push_pair_name(pair)], 1, None, None, None,
            if pair == 3 { spec_flags_szp_ac_c() } else { spec_flags_none() },
            spec_fixed(10), MemoryAccess::StackRead, IoAccess::NoAccess, ControlFlow::Linear, false)
    } else if opcode & 0xcf == 0xc5 {
        spec_decoded(opcode, "PUSH"@, seq![spec_push_pair_name(pair)], 1, None, None, None, spec_flags_none(),
            spec_fixed(11), MemoryAccess::StackWrite, IoAccess::NoAccess, ControlFlow::Linear, false)
    } else if opcode & 0xc7 == 0xc7 {
        spec_decoded(opcode, "RST"@, seq![spec_dec(cc as nat)], 1, None, None, Some((opcode & 0x38) as u16), spec_flags_none(),
            spec_fixed(11), MemoryAccess::StackWrite, IoAccess::NoAccess,
            ControlFlow::Restart { vector: (opcode & 0x38) as u16 }, false)
    } else {
        spec_decode_fixed(opcode, b1, b2)
    }
}

/// Decode the instruction at an opcode byte followed by operand bytes `b1`,
/// `b2` (ignored when the instruction is shorter).
pub fn decode_8080(opcode: u8, b1: u8, b2: u8) -> (r: DecodedInstruction)
    ensures
        r@ == spec_decode_8080(opcode, b1, b2),
{
    let dst = (opcode >> 3) & 7;
    let src = opcode & 7;
    let pair = (opcode >> 4) & 3;
    let cc = (opcode >> 3) & 7;
    let value = word(b1, b2);
    if 0x40 <= opcode && opcode <= 0x7f {
        if opcode == 0x76 {
            decoded(opcode, "HLT", ops0(), 1, None, None, None, FlagEffects::none(), Timing::fixed(7), MemoryAccess::NoAccess, IoAccess::NoAccess, ControlFlow::Halt, false)
        } else {
            let memory = if dst == 6 { MemoryAccess::Write } else if src == 6 { MemoryAccess::Read } else { MemoryAccess::NoAccess };
            decoded(opcode, "MOV", ops2(owned(reg_name(dst)), owned(reg_name(src))), 1, None, None, None, FlagEffects::none(),
                Timing::fixed(if dst == 6 || src == 6 { 7 } else { 5 }), memory,
                IoAccess::NoAccess, ControlFlow::Linear, false)
        }
    } else if 0x80 <= opcode && opcode <= 0xbf {
        let memory = if src == 6 { MemoryAccess::Read } else { MemoryAccess::NoAccess };
        decoded(opcode, alu_name(dst), ops1(owned(reg_name(src))), 1, None, None, None, FlagEffects::szp_ac_c(),
            Timing::fixed(if src == 6 { 7 } else { 4 }), memory,
            IoAccess::NoAccess, ControlFlow::Linear, false)
    } else if opcode & 0xc7 == 0x04 || opcode & 0xc7 == 0x05 {
        let mnemonic = if opcode & 0xc7 == 0x04 { "INR" } else { "DCR" };
        let memory = if dst == 6 { MemoryAccess::ReadWrite } else { MemoryAccess::NoAccess };
        decoded(opcode, mnemonic, ops1(owned(reg_name(dst))), 1, None, None, None, FlagEffects::szp_ac(),
            Timing::fixed(if dst == 6 { 10 } else { 5 }), memory,
            IoAccess::NoAccess, ControlFlow::Linear, false)
    } else if opcode & 0xc7 == 0x06 {
        let memory = if dst == 6 { MemoryAccess::Write } else { MemoryAccess::NoAccess };
        decoded(opcode, "MVI", ops2(owned(reg_name(dst)), d8(b1)), 2, Some(b1), None, None, FlagEffects::none(),
            Timing::fixed(if dst == 6 { 10 } else { 7 }), memory,
            IoAccess::NoAccess, ControlFlow::Linear, false)
    } else if opcode & 0xcf == 0x01 {
        decoded(opcode, "LXI", ops2(owned(pair_name(pair)), d16(value)), 3, None, Some(value), None, FlagEffects::none(),
            Timing::fixed(10), MemoryAccess::NoAccess, IoAccess::NoAccess, ControlFlow::Linear, false)
    } else if opcode & 0xcf == 0x03 || opcode & 0xcf == 0x0b {
        let mnemonic = if opcode & 0xcf == 0x03 { "INX" } else { "DCX" };
        decoded(opcode, mnemonic, ops1(owned(pair_name(pair))), 1, None, None, None, FlagEffects::none(),
            Timing::fixed(5), MemoryAccess::NoAccess, IoAccess::NoAccess, ControlFlow::Linear, false)
    } else if opcode & 0xcf == 0x09 {
        decoded(opcode, "DAD", ops1(owned(pair_name(pair))), 1, None, None, None, FlagEffects::carry(),
            Timing::fixed(10), MemoryAccess::NoAccess, IoAccess::NoAccess, ControlFlow::Linear, false)
    } else if opcode & 0xc7 == 0xc0 {
        decoded(opcode, cond_ret_name(cc), ops0(), 1, None, None, None, FlagEffects::none(),
            Timing::conditional(5, 11), MemoryAccess::StackRead, IoAccess::NoAccess,
            ControlFlow::Return { condition: Some(Condition::from_code(cc)) }, false)
    } else if opcode & 0xc7 == 0xc2 {
        decoded(opcode, cond_jmp_name(cc), ops1(d16(value)), 3, None, Some(value), Some(value), FlagEffects::none(),
            Timing::conditional(10, 10), MemoryAccess::NoAccess, IoAccess::NoAccess,
            ControlFlow::Jump { target: value, condition: Some(Condition::from_code(cc)) }, false)
    } else if opcode & 0xc7 == 0xc4 {
        decoded(opcode, cond_call_name(cc), ops1(d16(value)), 3, None, Some(value), Some(value), FlagEffects::none(),
            Timing::conditional(11, 17), MemoryAccess::StackWrite, IoAccess::NoAccess,
            ControlFlow::Call { target: value, condition: Some(Condition::from_code(cc)) }, false)
    } else if opcode & 0xcf == 0xc1 {
        let flags = if pair == 3 { FlagEffects::szp_ac_c() } else { FlagEffects::none() };
        decoded(opcode, "POP", ops1(owned(push_pair_name(pair))), 1, None, None, None, flags,
            Timing::fixed(10), MemoryAccess::StackRead, IoAccess::NoAccess, ControlFlow::Linear, false)
    } else if opcode & 0xcf == 0xc5 {
        decoded(opcode, "PUSH", ops1(owned(push_pair_name(pair))), 1, None, None, None, FlagEffects::none(),
            Timing::fixed(11), MemoryAccess::StackWrite, IoAccess::NoAccess, ControlFlow::Linear, false)
    } else if opcode & 0xc7 == 0xc7 {
        let vector = (opcode & 0x38) as u16;
        let mut number = String::new();
        push_dec(&mut number, cc);
        decoded(opcode, "RST", ops1(number), 1, None, None, Some(vector), FlagEffects::none(),
            Timing::fixed(11), MemoryAccess::StackWrite, IoAccess::NoAccess,
            ControlFlow::Restart { vector }, false)
    } else {
        decode_fixed(opcode, b1, b2)
    }
}

/// Every opcode decodes to an instruction of one to three bytes with a
/// positive T-state count, whatever the operand bytes.
pub proof fn lemma_every_opcode_has_structured_metadata(opcode: u8, b1: u8, b2: u8)
    ensures
        1 <= spec_decode_8080(opcode, b1, b2).length <= 3,
        spec_decode_8080(opcode, b1, b2).timing.base_t_states > 0,
        spec_decode_8080(opcode, b1, b2).opcode == opcode,
{
}

/// Exactly the twelve undocumented silicon aliases are marked as such.
pub proof fn lemma_undocumented_aliases(opcode: u8, b1: u8, b2: u8)
    ensures
        spec_decode_8080(opcode, b1, b2).undocumented_alias == (opcode == 0x08 || opcode == 0x10
            || opcode == 0x18 || opcode == 0x20 || opcode == 0x28 || opcode == 0x30
            || opcode == 0x38 || opcode == 0xcb || opcode == 0xd9 || opcode == 0xdd
            || opcode == 0xed || opcode == 0xfd),
{
    assert(opcode == 0x08 || opcode == 0x10 || opcode == 0x18 || opcode == 0x20 || opcode == 0x28
        || opcode == 0x30 || opcode == 0x38 || opcode == 0xcb || opcode == 0xd9 || opcode == 0xdd
        || opcode == 0xed || opcode == 0xfd ==> !(0x40 <= opcode <= 0x7f) && !(0x80 <= opcode <= 0xbf)
        && opcode & 0xc7 != 0x04 && opcode & 0xc7 != 0x05 && opcode & 0xc7 != 0x06 && opcode & 0xcf
        != 0x01 && opcode & 0xcf != 0x03 && opcode & 0xcf != 0x0b && opcode & 0xcf != 0x09
        && opcode & 0xc7 != 0xc0 && opcode & 0xc7 != 0xc2 && opcode & 0xc7 != 0xc4 && opcode
        & 0xcf != 0xc1 && opcode & 0xcf != 0xc5 && opcode & 0xc7 != 0xc7) by (bit_vector);
}


/// A condition code selects the flag its 8080 encoding names: bits 2..1 pick
/// Zero, Carry, Parity or Sign, and bit 0 says whether the condition holds
/// when that flag is set (1) or clear (0).
pub proof fn lemma_condition_code_selects_flag(code: u8, flags: u8)
    requires
        code < 8,
    ensures
        ({
            let sel = code / 2;
            let mask: u8 = if sel == 0 {
                0x40u8
            } else if sel == 1 {
                0x01u8
            } else if sel == 2 {
                0x04u8
            } else {
                0x80u8
            };
            spec_condition_evaluate(spec_condition_from_code(code), flags) == ((flags & mask != 0) == (code % 2 == 1))
        }),
{
}

/// Every conditional jump, call and return (opcodes 11ccc000, 11ccc010 and
/// 11ccc100) carries a branch condition, and that condition holds exactly
/// when the flag selected by opcode bits 5..4 (Zero, Carry, Parity, Sign)
/// equals opcode bit 3.
pub proof fn lemma_conditional_branches_test_the_encoded_flag(opcode: u8, b1: u8, b2: u8, flags: u8)
    requires
        opcode & 0xc7 == 0xc0 || opcode & 0xc7 == 0xc2 || opcode & 0xc7 == 0xc4,
    ensures
        ({
            let sel = (opcode >> 4u8) & 3u8;
            let mask: u8 = if sel == 0 {
                0x40u8
            } else if sel == 1 {
                0x01u8
            } else if sel == 2 {
                0x04u8
            } else {
                0x80u8
            };
            match spec_flow_condition(spec_decode_8080(opcode, b1, b2).control_flow) {
                Some(c) => spec_condition_evaluate(c, flags) == ((flags & mask != 0) == (opcode & 0x08 != 0)),
                None => false,
            }
        }),
{
    let cc = (opcode >> 3u8) & 7u8;
    assert(cc < 8 && cc / 2 == (opcode >> 4u8) & 3u8 && (cc % 2 == 1) == (opcode & 0x08 != 0)) by (bit_vector)
        requires
            cc == (opcode >> 3u8) & 7u8,
    ;
    assert(!(0x40 <= opcode <= 0xbf) && opcode & 0xc7 != 0x04 && opcode & 0xc7 != 0x05 && opcode & 0xc7 != 0x06
        && opcode & 0xcf != 0x01 && opcode & 0xcf != 0x03 && opcode & 0xcf != 0x0b && opcode & 0xcf != 0x09)
        by (bit_vector)
        requires
            opcode & 0xc7 == 0xc0 || opcode & 0xc7 == 0xc2 || opcode & 0xc7 == 0xc4,
    ;
    lemma_condition_code_selects_flag(cc, flags);
}

/// The condition a conditional jump, call or return reports is the one its
/// mnemonic names: the mnemonic is J, C or R followed by the condition's
/// label (JNC for NoCarry, JC for Carry, and so on).
pub proof fn lemma_condition_agrees_with_mnemonic(code: u8)
    requires
        code < 8,
    ensures
        spec_cond_jmp_name(code) == "J"@ + spec_condition_label(spec_condition_from_code(code)),
        spec_cond_call_name(code) == "C"@ + spec_condition_label(spec_condition_from_code(code)),
        spec_cond_ret_name(code) == "R"@ + spec_condition_label(spec_condition_from_code(code)),
{
    reveal_strlit("J");
    reveal_strlit("C");
    reveal_strlit("R");
        reveal_strlit("NZ");
        reveal_strlit("JNZ");
        reveal_strlit("CNZ");
        reveal_strlit("RNZ");
        reveal_strlit("Z");
        reveal_strlit("JZ");
        reveal_strlit("CZ");
        reveal_strlit("RZ");
        reveal_strlit("NC");
        reveal_strlit("JNC");
        reveal_strlit("CNC");
        reveal_strlit("RNC");
        reveal_strlit("JC");
        reveal_strlit("CC");
        reveal_strlit("RC");
        reveal_strlit("PO");
        reveal_strlit("JPO");
        reveal_strlit("CPO");
        reveal_strlit("RPO");
        reveal_strlit("PE");
        reveal_strlit("JPE");
        reveal_strlit("CPE");
        reveal_strlit("RPE");
        reveal_strlit("P");
        reveal_strlit("JP");
        reveal_strlit("CP");
        reveal_strlit("RP");
        reveal_strlit("M");
        reveal_strlit("JM");
        reveal_strlit("CM");
        reveal_strlit("RM");
}

} // verus!
