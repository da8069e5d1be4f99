//! Plain-language explanation of a decoded instruction for the debugger,
//! including the live context (HL, SP, branch condition) it depends on.

use vstd::prelude::*;
use vstd::string::*;
use crate::backend::{Intel8080State, spec_hl};
use crate::decoder8080::{
    ControlFlow, DecodedInstruction, DecodedView, IoAccess, MemoryAccess, spec_condition_evaluate,
    spec_condition_label, spec_flag_effects_label, spec_flow_label, spec_text,
};
use crate::text::{first_char, push_hex2, push_hex4, spec_hex2, spec_hex4, str_eq, string_views};

verus! {

#[derive(Clone, Debug, PartialEq, Eq)]
pub struct InstructionExplanation {
    pub summary: String,
    pub reads: String,
    pub writes: String,
    pub flags: String,
    pub memory: String,
    pub io: String,
    pub flow: String,
    pub context: Vec<String>,
}

pub struct ExplanationView {
    pub summary: Seq<char>,
    pub reads: Seq<char>,
    pub writes: Seq<char>,
    pub flags: Seq<char>,
    pub memory: Seq<char>,
    pub io: Seq<char>,
    pub flow: Seq<char>,
    pub context: Seq<Seq<char>>,
}

impl View for InstructionExplanation {
    type V = ExplanationView;

    open spec fn view(&self) -> ExplanationView {
        ExplanationView {
            summary: self.summary@,
            reads: self.reads@,
            writes: self.writes@,
            flags: self.flags@,
            memory: self.memory@,
            io: self.io@,
            flow: self.flow@,
            context: string_views(self.context@),
        }
    }
}

/// Operand `index` of the instruction, or `?` when there is none.
pub open spec fn spec_operand(d: DecodedView, index: int) -> Seq<char> {
    if 0 <= index < d.operands.len() {
        d.operands[index]
    } else {
        "?"@
    }
}

pub open spec fn spec_starts_with(s: Seq<char>, c: char) -> bool {
    s.len() > 0 && s[0] == c
}

fn operand(decoded: &DecodedInstruction, index: usize) -> (r: &str)
    ensures
        r@ == spec_operand(decoded@, index as int),
{
    if index < decoded.operands.len() {
        decoded.operands[index].as_str()
    } else {
        "?"
    }
}

/// Plain-language summary of what the instruction does.
pub open spec fn spec_summary(d: DecodedView) -> Seq<char> {
    let m = d.mnemonic;
    let a = spec_operand(d, 0);
    let b = spec_operand(d, 1);
    if m == "NOP"@ {
        "Do nothing. Execution continues with the next instruction."@
    } else if m == "HLT"@ {
        "Halt the 8080. The processor remains halted until reset or a supported interrupt resumes it."@
    } else if m == "MOV"@ {
        "Copy "@ + b + " into "@ + a + ". The source is not modified."@
    } else if m == "MVI"@ {
        "Load the immediate byte "@ + b + " into "@ + a + "."@
    } else if m == "LXI"@ {
        "Load the 16-bit immediate value "@ + b + " into register pair "@ + a + "."@
    } else if m == "INR"@ {
        "Increment "@ + a + " by one. Carry is preserved."@
    } else if m == "DCR"@ {
        "Decrement "@ + a + " by one. Carry is preserved."@
    } else if m == "INX"@ {
        "Increment 16-bit register pair "@ + a + " by one. Flags are not changed."@
    } else if m == "DCX"@ {
        "Decrement 16-bit register pair "@ + a + " by one. Flags are not changed."@
    } else if m == "DAD"@ {
        "Add 16-bit register pair "@ + a + " to HL and store the 16-bit result in HL."@
    } else if m == "STAX"@ {
        "Store accumulator A into memory addressed by register pair "@ + a + "."@
    } else if m == "LDAX"@ {
        "Load accumulator A from memory addressed by register pair "@ + a + "."@
    } else if m == "RLC"@ {
        "Rotate accumulator A left. Bit 7 moves into bit 0 and Carry."@
    } else if m == "RRC"@ {
        "Rotate accumulator A right. Bit 0 moves into bit 7 and Carry."@
    } else if m == "RAL"@ {
        "Rotate accumulator A left through Carry."@
    } else if m == "RAR"@ {
        "Rotate accumulator A right through Carry."@
    } else if m == "DAA"@ {
        "Decimal-adjust accumulator A after BCD arithmetic."@
    } else if m == "CMA"@ {
        "Complement every bit of accumulator A."@
    } else if m == "STC"@ {
        "Set the Carry flag."@
    } else if m == "CMC"@ {
        "Complement the Carry flag."@
    } else if m == "SHLD"@ {
        "Store L at "@ + a + " and H at the following memory address."@
    } else if m == "LHLD"@ {
        "Load L from "@ + a + " and H from the following memory address."@
    } else if m == "STA"@ {
        "Store accumulator A at memory address "@ + a + "."@
    } else if m == "LDA"@ {
        "Load accumulator A from memory address "@ + a + "."@
    } else if m == "ADD"@ {
        "Add "@ + a + " to accumulator A."@
    } else if m == "ADC"@ {
        "Add "@ + a + " plus Carry to accumulator A."@
    } else if m == "SUB"@ {
        "Subtract "@ + a + " from accumulator A."@
    } else if m == "SBB"@ {
        "Subtract "@ + a + " and the Carry/borrow input from accumulator A."@
    } else if m == "ANA"@ {
        "Bitwise-AND accumulator A with "@ + a + "."@
    } else if m == "XRA"@ {
        "Bitwise-XOR accumulator A with "@ + a + "."@
    } else if m == "ORA"@ {
        "Bitwise-OR accumulator A with "@ + a + "."@
    } else if m == "CMP"@ {
        "Compare accumulator A with "@ + a + " by performing a subtraction only for flags; A is unchanged."@
    } else if m == "ADI"@ {
        "Add immediate byte "@ + a + " to accumulator A."@
    } else if m == "ACI"@ {
        "Add immediate byte "@ + a + " plus Carry to accumulator A."@
    } else if m == "SUI"@ {
        "Subtract immediate byte "@ + a + " from accumulator A."@
    } else if m == "SBI"@ {
        "Subtract immediate byte "@ + a + " and Carry/borrow from accumulator A."@
    } else if m == "ANI"@ {
        "Bitwise-AND accumulator A with immediate byte "@ + a + "."@
    } else if m == "XRI"@ {
        "Bitwise-XOR accumulator A with immediate byte "@ + a + "."@
    } else if m == "ORI"@ {
        "Bitwise-OR accumulator A with immediate byte "@ + a + "."@
    } else if m == "CPI"@ {
        "Compare accumulator A with immediate byte "@ + a + "; only flags receive the subtraction result."@
    } else if m == "PUSH"@ {
        "Push register pair "@ + a + " onto the stack. SP moves down by two bytes."@
    } else if m == "POP"@ {
        "Pop two bytes from the stack into "@ + a + ". SP moves up by two bytes."@
    } else if m == "XTHL"@ {
        "Exchange L/H with the two bytes at the top of the stack without changing SP."@
    } else if m == "XCHG"@ {
        "Exchange register pairs DE and HL."@
    } else if m == "SPHL"@ {
        "Copy HL into SP."@
    } else if m == "PCHL"@ {
        "Copy HL into PC, transferring execution to the address held in HL."@
    } else if m == "IN"@ {
        "Read one byte from I/O port "@ + a + " into accumulator A."@
    } else if m == "OUT"@ {
        "Write accumulator A to I/O port "@ + a + "."@
    } else if m == "DI"@ {
        "Disable maskable interrupts."@
    } else if m == "EI"@ {
        "Enable maskable interrupts after the following instruction, matching Intel 8080 EI delay semantics."@
    } else if m == "CALL"@ {
        "Push the return address onto the stack and continue execution at "@ + a + "."@
    } else if m == "RET"@ {
        "Pop a return address from the stack into PC."@
    } else if m == "RST"@ {
        "Push the return address and call restart vector "@ + a + "."@
    } else if m == "JMP"@ {
        "Load PC with "@ + a + "; execution always continues there."@
    } else if spec_starts_with(m, 'J') {
        "Evaluate the branch condition and, when satisfied, load PC with "@ + a + "."@
    } else if spec_starts_with(m, 'C') && m != "CMC"@ && m != "CMA"@ && m != "CMP"@ && m != "CPI"@ {
        "Evaluate the call condition and, when satisfied, push the return address then continue at "@ + a + "."@
    } else if spec_starts_with(m, 'R') && m != "RLC"@ && m != "RRC"@ && m != "RAL"@ && m != "RAR"@ {
        "Evaluate the return condition and, when satisfied, pop the return address from the stack into PC."@
    } else {
        "Execute "@ + spec_text(d) + " using normal Intel 8080 semantics."@
    }
}

fn summary(decoded: &DecodedInstruction) -> (r: String)
    ensures
        r@ == spec_summary(decoded@),
{
    let m = decoded.mnemonic;
    let a = operand(decoded, 0);
    let b = operand(decoded, 1);
    if str_eq(m, "NOP") {
        let s = String::from_str("Do nothing. Execution continues with the next instruction.");
        s
    } else if str_eq(m, "HLT") {
        let s = String::from_str("Halt the 8080. The processor remains halted until reset or a supported interrupt resumes it.");
        s
    } else if str_eq(m, "MOV") {
        let mut s = String::from_str("Copy ");
        s.append(b);
        s.append(" into ");
        s.append(a);
        s.append(". The source is not modified.");
        s
    } else if str_eq(m, "MVI") {
        let mut s = String::from_str("Load the immediate byte ");
        s.append(b);
        s.append(" into ");
        s.append(a);
        s.append(".");
        s
    } else if str_eq(m, "LXI") {
        let mut s = String::from_str("Load the 16-bit immediate value ");
        s.append(b);
        s.append(" into register pair ");
        s.append(a);
        s.append(".");
        s
    } else if str_eq(m, "INR") {
        let mut s = String::from_str("Increment ");
        s.append(a);
        s.append(" by one. Carry is preserved.");
        s
    } else if str_eq(m, "DCR") {
        let mut s = String::from_str("Decrement ");
        s.append(a);
        s.append(" by one. Carry is preserved.");
        s
    } else if str_eq(m, "INX") {
        let mut s = String::from_str("Increment 16-bit register pair ");
        s.append(a);
        s.append(" by one. Flags are not changed.");
        s
    } else if str_eq(m, "DCX") {
        let mut s = String::from_str("Decrement 16-bit register pair ");
        s.append(a);
        s.append(" by one. Flags are not changed.");
        s
    } else if str_eq(m, "DAD") {
        let mut s = String::from_str("Add 16-bit register pair ");
        s.append(a);
        s.append(" to HL and store the 16-bit result in HL.");
        s
    } else if str_eq(m, "STAX") {
        let mut s = String::from_str("Store accumulator A into memory addressed by register pair ");
        s.append(a);
        s.append(".");
        s
    } else if str_eq(m, "LDAX") {
        let mut s = String::from_str("Load accumulator A from memory addressed by register pair ");
        s.append(a);
        s.append(".");
        s
    } else if str_eq(m, "RLC") {
        let s = String::from_str("Rotate accumulator A left. Bit 7 moves into bit 0 and Carry.");
        s
    } else if str_eq(m, "RRC") {
        let s = String::from_str("Rotate accumulator A right. Bit 0 moves into bit 7 and Carry.");
        s
    } else if str_eq(m, "RAL") {
        let s = String::from_str("Rotate accumulator A left through Carry.");
        s
    } else if str_eq(m, "RAR") {
        let s = String::from_str("Rotate accumulator A right through Carry.");
        s
    } else if str_eq(m, "DAA") {
        let s = String::from_str("Decimal-adjust accumulator A after BCD arithmetic.");
        s
    } else if str_eq(m, "CMA") {
        let s = String::from_str("Complement every bit of accumulator A.");
        s
    } else if str_eq(m, "STC") {
        let s = String::from_str("Set the Carry flag.");
        s
    } else if str_eq(m, "CMC") {
        let s = String::from_str("Complement the Carry flag.");
        s
    } else if str_eq(m, "SHLD") {
        let mut s = String::from_str("Store L at ");
        s.append(a);
        s.append(" and H at the following memory address.");
        s
    } else if str_eq(m, "LHLD") {
        let mut s = String::from_str("Load L from ");
        s.append(a);
        s.append(" and H from the following memory address.");
        s
    } else if str_eq(m, "STA") {
        let mut s = String::from_str("Store accumulator A at memory address ");
        s.append(a);
        s.append(".");
        s
    } else if str_eq(m, "LDA") {
        let mut s = String::from_str("Load accumulator A from memory address ");
        s.append(a);
        s.append(".");
        s
    } else if str_eq(m, "ADD") {
        let mut s = String::from_str("Add ");
        s.append(a);
        s.append(" to accumulator A.");
        s
    } else if str_eq(m, "ADC") {
        let mut s = String::from_str("Add ");
        s.append(a);
        s.append(" plus Carry to accumulator A.");
        s
    } else if str_eq(m, "SUB") {
        let mut s = String::from_str("Subtract ");
        s.append(a);
        s.append(" from accumulator A.");
        s
    } else if str_eq(m, "SBB") {
        let mut s = String::from_str("Subtract ");
        s.append(a);
        s.append(" and the Carry/borrow input from accumulator A.");
        s
    } else if str_eq(m, "ANA") {
        let mut s = String::from_str("Bitwise-AND accumulator A with ");
        s.append(a);
        s.append(".");
        s
    } else if str_eq(m, "XRA") {
        let mut s = String::from_str("Bitwise-XOR accumulator A with ");
        s.append(a);
        s.append(".");
        s
    } else if str_eq(m, "ORA") {
        let mut s = String::from_str("Bitwise-OR accumulator A with ");
        s.append(a);
        s.append(".");
        s
    } else if str_eq(m, "CMP") {
        let mut s = String::from_str("Compare accumulator A with ");
        s.append(a);
        s.append(" by performing a subtraction only for flags; A is unchanged.");
        s
    } else if str_eq(m, "ADI") {
        let mut s = String::from_str("Add immediate byte ");
        s.append(a);
        s.append(" to accumulator A.");
        s
    } else if str_eq(m, "ACI") {
        let mut s = String::from_str("Add immediate byte ");
        s.append(a);
        s.append(" plus Carry to accumulator A.");
        s
    } else if str_eq(m, "SUI") {
        let mut s = String::from_str("Subtract immediate byte ");
        s.append(a);
        s.append(" from accumulator A.");
        s
    } else if str_eq(m, "SBI") {
        let mut s = String::from_str("Subtract immediate byte ");
        s.append(a);
        s.append(" and Carry/borrow from accumulator A.");
        s
    } else if str_eq(m, "ANI") {
        let mut s = String::from_str("Bitwise-AND accumulator A with immediate byte ");
        s.append(a);
        s.append(".");
        s
    } else if str_eq(m, "XRI") {
        let mut s = String::from_str("Bitwise-XOR accumulator A with immediate byte ");
        s.append(a);
        s.append(".");
        s
    } else if str_eq(m, "ORI") {
        let mut s = String::from_str("Bitwise-OR accumulator A with immediate byte ");
        s.append(a);
        s.append(".");
        s
    } else if str_eq(m, "CPI") {
        let mut s = String::from_str("Compare accumulator A with immediate byte ");
        s.append(a);
        s.append("; only flags receive the subtraction result.");
        s
    } else if str_eq(m, "PUSH") {
        let mut s = String::from_str("Push register pair ");
        s.append(a);
        s.append(" onto the stack. SP moves down by two bytes.");
        s
    } else if str_eq(m, "POP") {
        let mut s = String::from_str("Pop two bytes from the stack into ");
        s.append(a);
        s.append(". SP moves up by two bytes.");
        s
    } else if str_eq(m, "XTHL") {
        let s = String::from_str("Exchange L/H with the two bytes at the top of the stack without changing SP.");
        s
    } else if str_eq(m, "XCHG") {
        let s = String::from_str("Exchange register pairs DE and HL.");
        s
    } else if str_eq(m, "SPHL") {
        let s = String::from_str("Copy HL into SP.");
        s
    } else if str_eq(m, "PCHL") {
        let s = String::from_str("Copy HL into PC, transferring execution to the address held in HL.");
        s
    } else if str_eq(m, "IN") {
        let mut s = String::from_str("Read one byte from I/O port ");
        s.append(a);
        s.append(" into accumulator A.");
        s
    } else if str_eq(m, "OUT") {
        let mut s = String::from_str("Write accumulator A to I/O port ");
        s.append(a);
        s.append(".");
        s
    } else if str_eq(m, "DI") {
        let s = String::from_str("Disable maskable interrupts.");
        s
    } else if str_eq(m, "EI") {
        let s = String::from_str("Enable maskable interrupts after the following instruction, matching Intel 8080 EI delay semantics.");
        s
    } else if str_eq(m, "CALL") {
        let mut s = String::from_str("Push the return address onto the stack and continue execution at ");
        s.append(a);
        s.append(".");
        s
    } else if str_eq(m, "RET") {
        let s = String::from_str("Pop a return address from the stack into PC.");
        s
    } else if str_eq(m, "RST") {
        let mut s = String::from_str("Push the return address and call restart vector ");
        s.append(a);
        s.append(".");
        s
    } else if str_eq(m, "JMP") {
        let mut s = String::from_str("Load PC with ");
        s.append(a);
        s.append("; execution always continues there.");
        s
    } else if first_char(m) == Some('J') {
        let mut s = String::from_str("Evaluate the branch condition and, when satisfied, load PC with ");
        s.append(a);
        s.append(".");
        s
    } else if first_char(m) == Some('C') && !str_eq(m, "CMC") && !str_eq(m, "CMA") && !str_eq(m, "CMP") && !str_eq(m, "CPI") {
        let mut s = String::from_str("Evaluate the call condition and, when satisfied, push the return address then continue at ");
        s.append(a);
        s.append(".");
        s
    } else if first_char(m) == Some('R') && !str_eq(m, "RLC") && !str_eq(m, "RRC") && !str_eq(m, "RAL") && !str_eq(m, "RAR") {
        let s = String::from_str("Evaluate the return condition and, when satisfied, pop the return address from the stack into PC.");
        s
    } else {
        let mut s = String::from_str("Execute ");
        let text = decoded.text();
        s.append(text.as_str());
        s.append(" using normal Intel 8080 semantics.");
        s
    }
}

/// What the instruction reads and what it writes.
pub open spec fn spec_register_effects(d: DecodedView) -> (Seq<char>, Seq<char>) {
    let m = d.mnemonic;
    let a = spec_operand(d, 0);
    let b = spec_operand(d, 1);
    if m == "NOP"@ || m == "HLT"@ || m == "DI"@ || m == "EI"@ {
        ("none"@, "none"@)
    } else if m == "MOV"@ {
        (b, a)
    } else if m == "MVI"@ {
        ("immediate byte"@, a)
    } else if m == "LXI"@ {
        ("16-bit immediate"@, a)
    } else if m == "INR"@ || m == "DCR"@ {
        (a, a)
    } else if m == "INX"@ || m == "DCX"@ {
        (a, a)
    } else if m == "DAD"@ {
        ("HL, "@ + a, "HL"@)
    } else if m == "STAX"@ {
        ("A, "@ + a, "memory"@)
    } else if m == "LDAX"@ {
        (a + ", memory"@, "A"@)
    } else if m == "RLC"@ || m == "RRC"@ || m == "RAL"@ || m == "RAR"@ || m == "DAA"@ || m == "CMA"@ {
        ("A"@, "A"@)
    } else if m == "STC"@ || m == "CMC"@ {
        ("Carry flag"@, "Carry flag"@)
    } else if m == "SHLD"@ {
        ("HL"@, "memory"@)
    } else if m == "LHLD"@ {
        ("memory"@, "HL"@)
    } else if m == "STA"@ {
        ("A"@, "memory"@)
    } else if m == "LDA"@ {
        ("memory"@, "A"@)
    } else if m == "ADD"@ || m == "ADC"@ || m == "SUB"@ || m == "SBB"@ || m == "ANA"@ || m == "XRA"@ || m == "ORA"@ {
        ("A, "@ + a, "A"@)
    } else if m == "CMP"@ {
        ("A, "@ + a, "flags only"@)
    } else if m == "ADI"@ || m == "ACI"@ || m == "SUI"@ || m == "SBI"@ || m == "ANI"@ || m == "XRI"@ || m == "ORI"@ {
        ("A, immediate byte"@, "A"@)
    } else if m == "CPI"@ {
        ("A, immediate byte"@, "flags only"@)
    } else if m == "PUSH"@ {
        (a + ", SP"@, "SP, stack memory"@)
    } else if m == "POP"@ {
        ("SP, stack memory"@, a + ", SP"@)
    } else if m == "XTHL"@ {
        ("HL, SP, stack memory"@, "HL, stack memory"@)
    } else if m == "XCHG"@ {
        ("DE, HL"@, "DE, HL"@)
    } else if m == "SPHL"@ {
        ("HL"@, "SP"@)
    } else if m == "PCHL"@ {
        ("HL"@, "PC"@)
    } else if m == "IN"@ {
        ("I/O port"@, "A"@)
    } else if m == "OUT"@ {
        ("A"@, "I/O port"@)
    } else if m == "CALL"@ || m == "RST"@ {
        ("PC, SP"@, "PC, SP, stack memory"@)
    } else if m == "RET"@ {
        ("SP, stack memory"@, "PC, SP"@)
    } else if m == "JMP"@ {
        ("16-bit immediate"@, "PC"@)
    } else if spec_starts_with(m, 'J') {
        ("condition flags"@, "PC when taken"@)
    } else if spec_starts_with(m, 'C') {
        ("condition flags, PC, SP"@, "PC/SP/stack when taken"@)
    } else if spec_starts_with(m, 'R') {
        ("condition flags, SP/stack when taken"@, "PC/SP when taken"@)
    } else {
        ("see instruction semantics"@, "see instruction semantics"@)
    }
}

fn register_effects(decoded: &DecodedInstruction) -> (r: (String, String))
    ensures
        (r.0@, r.1@) == spec_register_effects(decoded@),
{
    let m = decoded.mnemonic;
    let a = operand(decoded, 0);
    let b = operand(decoded, 1);
    if str_eq(m, "NOP") || str_eq(m, "HLT") || str_eq(m, "DI") || str_eq(m, "EI") {
        let reads = String::from_str("none");
        let writes = String::from_str("none");
        (reads, writes)
    } else if str_eq(m, "MOV") {
        let reads = String::from_str(b);
        let writes = String::from_str(a);
        (reads, writes)
    } else if str_eq(m, "MVI") {
        let reads = String::from_str("immediate byte");
        let writes = String::from_str(a);
        (reads, writes)
    } else if str_eq(m, "LXI") {
        let reads = String::from_str("16-bit immediate");
        let writes = String::from_str(a);
        (reads, writes)
    } else if str_eq(m, "INR") || str_eq(m, "DCR") {
        let reads = String::from_str(a);
        let writes = String::from_str(a);
        (reads, writes)
    } else if str_eq(m, "INX") || str_eq(m, "DCX") {
        let reads = String::from_str(a);
        let writes = String::from_str(a);
        (reads, writes)
    } else if str_eq(m, "DAD") {
        let mut reads = String::from_str("HL, ");
        reads.append(a);
        let writes = String::from_str("HL");
        (reads, writes)
    } else if str_eq(m, "STAX") {
        let mut reads = String::from_str("A, ");
        reads.append(a);
        let writes = String::from_str("memory");
        (reads, writes)
    } else if str_eq(m, "LDAX") {
        let mut reads = String::from_str(a);
        reads.append(", memory");
        let writes = String::from_str("A");
        (reads, writes)
    } else if str_eq(m, "RLC") || str_eq(m, "RRC") || str_eq(m, "RAL") || str_eq(m, "RAR") || str_eq(m, "DAA") || str_eq(m, "CMA") {
        let reads = String::from_str("A");
        let writes = String::from_str("A");
        (reads, writes)
    } else if str_eq(m, "STC") || str_eq(m, "CMC") {
        let reads = String::from_str("Carry flag");
        let writes = String::from_str("Carry flag");
        (reads, writes)
    } else if str_eq(m, "SHLD") {
        let reads = String::from_str("HL");
        let writes = String::from_str("memory");
        (reads, writes)
    } else if str_eq(m, "LHLD") {
        let reads = String::from_str("memory");
        let writes = String::from_str("HL");
        (reads, writes)
    } else if str_eq(m, "STA") {
        let reads = String::from_str("A");
        let writes = String::from_str("memory");
        (reads, writes)
    } else if str_eq(m, "LDA") {
        let reads = String::from_str("memory");
        let writes = String::from_str("A");
        (reads, writes)
    } else if str_eq(m, "ADD") || str_eq(m, "ADC") || str_eq(m, "SUB") || str_eq(m, "SBB") || str_eq(m, "ANA") || str_eq(m, "XRA") || str_eq(m, "ORA") {
        let mut reads = String::from_str("A, ");
        reads.append(a);
        let writes = String::from_str("A");
        (reads, writes)
    } else if str_eq(m, "CMP") {
        let mut reads = String::from_str("A, ");
        reads.append(a);
        let writes = String::from_str("flags only");
        (reads, writes)
    } else if str_eq(m, "ADI") || str_eq(m, "ACI") || str_eq(m, "SUI") || str_eq(m, "SBI") || str_eq(m, "ANI") || str_eq(m, "XRI") || str_eq(m, "ORI") {
        let reads = String::from_str("A, immediate byte");
        let writes = String::from_str("A");
        (reads, writes)
    } else if str_eq(m, "CPI") {
        let reads = String::from_str("A, immediate byte");
        let writes = String::from_str("flags only");
        (reads, writes)
    } else if str_eq(m, "PUSH") {
        let mut reads = String::from_str(a);
        reads.append(", SP");
        let writes = String::from_str("SP, stack memory");
        (reads, writes)
    } else if str_eq(m, "POP") {
        let reads = String::from_str("SP, stack memory");
        let mut writes = String::from_str(a);
        writes.append(", SP");
        (reads, writes)
    } else if str_eq(m, "XTHL") {
        let reads = String::from_str("HL, SP, stack memory");
        let writes = String::from_str("HL, stack memory");
        (reads, writes)
    } else if str_eq(m, "XCHG") {
        let reads = String::from_str("DE, HL");
        let writes = String::from_str("DE, HL");
        (reads, writes)
    } else if str_eq(m, "SPHL") {
        let reads = String::from_str("HL");
        let writes = String::from_str("SP");
        (reads, writes)
    } else if str_eq(m, "PCHL") {
        let reads = String::from_str("HL");
        let writes = String::from_str("PC");
        (reads, writes)
    } else if str_eq(m, "IN") {
        let reads = String::from_str("I/O port");
        let writes = String::from_str("A");
        (reads, writes)
    } else if str_eq(m, "OUT") {
        let reads = String::from_str("A");
        let writes = String::from_str("I/O port");
        (reads, writes)
    } else if str_eq(m, "CALL") || str_eq(m, "RST") {
        let reads = String::from_str("PC, SP");
        let writes = String::from_str("PC, SP, stack memory");
        (reads, writes)
    } else if str_eq(m, "RET") {
        let reads = String::from_str("SP, stack memory");
        let writes = String::from_str("PC, SP");
        (reads, writes)
    } else if str_eq(m, "JMP") {
        let reads = String::from_str("16-bit immediate");
        let writes = String::from_str("PC");
        (reads, writes)
    } else if first_char(m) == Some('J') {
        let reads = String::from_str("condition flags");
        let writes = String::from_str("PC when taken");
        (reads, writes)
    } else if first_char(m) == Some('C') {
        let reads = String::from_str("condition flags, PC, SP");
        let writes = String::from_str("PC/SP/stack when taken");
        (reads, writes)
    } else if first_char(m) == Some('R') {
        let reads = String::from_str("condition flags, SP/stack when taken");
        let writes = String::from_str("PC/SP when taken");
        (reads, writes)
    } else {
        (String::from_str("see instruction semantics"), String::from_str("see instruction semantics"))
    }
}

pub open spec fn spec_memory_text(m: MemoryAccess) -> Seq<char> {
    match m {
        MemoryAccess::NoAccess => "No data-memory access beyond instruction fetch."@,
        MemoryAccess::Read => "Reads data memory."@,
        MemoryAccess::Write => "Writes data memory."@,
        MemoryAccess::ReadWrite => "Reads and then writes data memory."@,
        MemoryAccess::StackRead => "Reads the stack through SP."@,
        MemoryAccess::StackWrite => "Writes the stack through SP."@,
        MemoryAccess::StackReadWrite => "Reads and writes the stack through SP."@,
    }
}

fn memory_text(decoded: &DecodedInstruction) -> (r: String)
    ensures
        r@ == spec_memory_text(decoded.memory),
{
    match decoded.memory {
        MemoryAccess::NoAccess => String::from_str("No data-memory access beyond instruction fetch."),
        MemoryAccess::Read => String::from_str("Reads data memory."),
        MemoryAccess::Write => String::from_str("Writes data memory."),
        MemoryAccess::ReadWrite => String::from_str("Reads and then writes data memory."),
        MemoryAccess::StackRead => String::from_str("Reads the stack through SP."),
        MemoryAccess::StackWrite => String::from_str("Writes the stack through SP."),
        MemoryAccess::StackReadWrite => String::from_str("Reads and writes the stack through SP."),
    }
}

pub open spec fn spec_io_text(io: IoAccess) -> Seq<char> {
    match io {
        IoAccess::NoAccess => "No I/O port access."@,
        IoAccess::Read(port) => "Reads I/O port $"@ + spec_hex2(port) + "."@,
        IoAccess::Write(port) => "Writes I/O port $"@ + spec_hex2(port) + "."@,
    }
}

fn io_text(decoded: &DecodedInstruction) -> (r: String)
    ensures
        r@ == spec_io_text(decoded.io),
{
    match decoded.io {
        IoAccess::NoAccess => String::from_str("No I/O port access."),
        IoAccess::Read(port) => {
            let mut s = String::from_str("Reads I/O port $");
            push_hex2(&mut s, port);
            s.append(".");
            s
        },
        IoAccess::Write(port) => {
            let mut s = String::from_str("Writes I/O port $");
            push_hex2(&mut s, port);
            s.append(".");
            s
        },
    }
}

/// The control-flow description, with the live outcome of a conditional
/// branch, call or return under the current flags.
pub open spec fn spec_flow_text(d: DecodedView, flags: u8) -> Seq<char> {
    let condition = match d.control_flow {
        ControlFlow::Jump { condition, .. } => condition,
        ControlFlow::Call { condition, .. } => condition,
        ControlFlow::Return { condition } => condition,
        _ => None,
    };
    match condition {
        Some(c) => spec_flow_label(d.control_flow) + " Current condition "@ + spec_condition_label(c)
            + " is "@ + (if spec_condition_evaluate(c, flags) {
            "TRUE / TAKEN"@
        } else {
            "FALSE / NOT TAKEN"@
        }) + "."@,
        None => spec_flow_label(d.control_flow),
    }
}

fn flow_text(decoded: &DecodedInstruction, flags: u8) -> (r: String)
    ensures
        r@ == spec_flow_text(decoded@, flags),
{
    let condition = match decoded.control_flow {
        ControlFlow::Jump { condition, .. } => condition,
        ControlFlow::Call { condition, .. } => condition,
        ControlFlow::Return { condition } => condition,
        _ => None,
    };
    let mut s = decoded.flow_label();
    match condition {
        Some(c) => {
            s.append(" Current condition ");
            s.append(c.label());
            s.append(" is ");
            if c.evaluate(flags) {
                s.append("TRUE / TAKEN");
            } else {
                s.append("FALSE / NOT TAKEN");
            }
            s.append(".");
        },
        None => {},
    }
    s
}

/// Whether `M` (memory at HL) is one of the operands.
pub open spec fn spec_uses_m(d: DecodedView) -> bool {
    exists|i: int| 0 <= i < d.operands.len() && d.operands[i] == "M"@
}

fn uses_m(decoded: &DecodedInstruction) -> (r: bool)
    ensures
        r == spec_uses_m(decoded@),
{
    let mut i: usize = 0;
    while i < decoded.operands.len()
        invariant
            i <= decoded.operands.len(),
            forall|j: int| 0 <= j < i ==> decoded@.operands[j] != "M"@,
        decreases decoded.operands.len() - i,
    {
        if str_eq(decoded.operands[i].as_str(), "M") {
            assert(decoded@.operands[i as int] == "M"@);
            return true;
        }
        i = i + 1;
    }
    false
}

/// The live-context lines shown with an explanation.
pub open spec fn spec_context(d: DecodedView, cpu: Intel8080State, memory_at_hl: Option<u8>) -> Seq<
    Seq<char>,
> {
    let hl = spec_hl(cpu);
    let m_line = match memory_at_hl {
        Some(value) => "M is not a register: M means memory[HL]. Current HL=$"@ + spec_hex4(hl)
            + ", so M=[$"@ + spec_hex4(hl) + "]=$"@ + spec_hex2(value) + "."@,
        None => "M is not a register: M means memory[HL]. Current HL=$"@ + spec_hex4(hl)
            + ", but that address is outside installed RAM."@,
    };
    (if spec_uses_m(d) { seq![m_line] } else { Seq::empty() }) + (if d.control_flow
        is IndirectJump {
        seq!["Current HL=$"@ + spec_hex4(hl) + "; PCHL would therefore continue at that address."@]
    } else {
        Seq::empty()
    }) + (if d.memory == MemoryAccess::StackRead || d.memory == MemoryAccess::StackWrite || d.memory
        == MemoryAccess::StackReadWrite {
        seq!["Current SP=$"@ + spec_hex4(cpu.sp) + "."@]
    } else {
        Seq::empty()
    }) + (if d.undocumented_alias {
        seq!["This byte is an undocumented 8080 alias accepted by the RusTair CPU cores."@]
    } else {
        Seq::empty()
    })
}

/// The complete explanation of a decoded instruction under the live CPU
/// state (`memory_at_hl` is the byte at HL, or `None` outside installed RAM).
pub open spec fn spec_explain(d: DecodedView, cpu: Intel8080State, memory_at_hl: Option<u8>) -> ExplanationView {
    ExplanationView {
        summary: spec_summary(d),
        reads: spec_register_effects(d).0,
        writes: spec_register_effects(d).1,
        flags: "Affected flags: "@ + spec_flag_effects_label(d.flags) + "."@,
        memory: spec_memory_text(d.memory),
        io: spec_io_text(d.io),
        flow: spec_flow_text(d, cpu.flags),
        context: spec_context(d, cpu, memory_at_hl),
    }
}

pub fn explain_instruction(
    decoded: &DecodedInstruction,
    cpu: Intel8080State,
    memory_at_hl: Option<u8>,
) -> (r: InstructionExplanation)
    ensures
        r@ == spec_explain(decoded@, cpu, memory_at_hl),
{
    let (reads, writes) = register_effects(decoded);
    let mut context: Vec<String> = Vec::new();
    let ghost mut lines: Seq<Seq<char>> = Seq::empty();
    assert(string_views(context@) =~= lines);
    let hl = cpu.hl();
    if uses_m(decoded) {
        let mut line = String::from_str("M is not a register: M means memory[HL]. Current HL=$");
        push_hex4(&mut line, hl);
        match memory_at_hl {
            Some(value) => {
                line.append(", so M=[$");
                push_hex4(&mut line, hl);
                line.append("]=$");
                push_hex2(&mut line, value);
                line.append(".");
            },
            None => {
                line.append(", but that address is outside installed RAM.");
            },
        }
        proof {
            lines = lines.push(line@);
        }
        let ghost before = context@;
        context.push(line);
        assert(string_views(context@) =~= string_views(before).push(line@));
    }
    match decoded.control_flow {
        ControlFlow::IndirectJump => {
            let mut line = String::from_str("Current HL=$");
            push_hex4(&mut line, hl);
            line.append("; PCHL would therefore continue at that address.");
            proof {
                lines = lines.push(line@);
            }
            let ghost before = context@;
        context.push(line);
        assert(string_views(context@) =~= string_views(before).push(line@));
        },
        _ => {},
    }
    match decoded.memory {
        MemoryAccess::StackRead | MemoryAccess::StackWrite | MemoryAccess::StackReadWrite => {
            let mut line = String::from_str("Current SP=$");
            push_hex4(&mut line, cpu.sp);
            line.append(".");
            proof {
                lines = lines.push(line@);
            }
            let ghost before = context@;
        context.push(line);
        assert(string_views(context@) =~= string_views(before).push(line@));
        },
        _ => {},
    }
    if decoded.undocumented_alias {
        let line = String::from_str(
            "This byte is an undocumented 8080 alias accepted by the RusTair CPU cores.",
        );
        proof {
            lines = lines.push(line@);
        }
        let ghost before = context@;
        context.push(line);
        assert(string_views(context@) =~= string_views(before).push(line@));
    }
    assert(string_views(context@) =~= lines);
    assert(lines =~= spec_context(decoded@, cpu, memory_at_hl));
    let mut flags = String::from_str("Affected flags: ");
    let label = decoded.flags.label();
    flags.append(label.as_str());
    flags.append(".");
    InstructionExplanation {
        summary: summary(decoded),
        reads,
        writes,
        flags,
        memory: memory_text(decoded),
        io: io_text(decoded),
        flow: flow_text(decoded, cpu.flags),
        context,
    }
}

} // verus!
