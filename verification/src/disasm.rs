//! One-line Intel 8080 disassembler.

use vstd::prelude::*;
use vstd::string::*;
use crate::decoder8080::{
    spec_decode_8080, spec_decode_fixed, spec_text, spec_cond_ret_name, spec_cond_jmp_name, spec_cond_call_name, spec_reg_name, spec_pair_name, spec_push_pair_name, spec_alu_name,
    spec_d8, spec_d16, spec_word,
};
use crate::text::{push_dec, push_hex2, push_hex4, spec_dec, spec_join, spec_hex2, spec_hex4, lemma_join_small};

verus! {

/// Length in bytes of the instruction with this opcode, for the documented
/// 8080 encodings.
pub open spec fn spec_instruction_len(op: u8) -> u8 {
    if op == 0x01 || op == 0x11 || op == 0x21 || op == 0x31 || op == 0x22 || op == 0x2a
        || op == 0x32 || op == 0x3a || op == 0xc2 || op == 0xc3 || op == 0xc4 || op == 0xca
        || op == 0xcc || op == 0xcd || op == 0xd2 || op == 0xd4 || op == 0xda || op == 0xdc
        || op == 0xe2 || op == 0xe4 || op == 0xea || op == 0xec || op == 0xf2 || op == 0xf4
        || op == 0xfa || op == 0xfc {
        3
    } else if op == 0x06 || op == 0x0e || op == 0x16 || op == 0x1e || op == 0x26 || op == 0x2e
        || op == 0x36 || op == 0x3e || op == 0xc6 || op == 0xce || op == 0xd3 || op == 0xd6
        || op == 0xdb || op == 0xde || op == 0xe6 || op == 0xee || op == 0xf6 || op == 0xfe {
        2
    } else {
        1
    }
}

pub fn instruction_len(op: u8) -> (r: u8)
    ensures
        r == spec_instruction_len(op),
{
    if op == 0x01 || op == 0x11 || op == 0x21 || op == 0x31 || op == 0x22 || op == 0x2a
        || op == 0x32 || op == 0x3a || op == 0xc2 || op == 0xc3 || op == 0xc4 || op == 0xca
        || op == 0xcc || op == 0xcd || op == 0xd2 || op == 0xd4 || op == 0xda || op == 0xdc
        || op == 0xe2 || op == 0xe4 || op == 0xea || op == 0xec || op == 0xf2 || op == 0xf4
        || op == 0xfa || op == 0xfc {
        3
    } else if op == 0x06 || op == 0x0e || op == 0x16 || op == 0x1e || op == 0x26 || op == 0x2e
        || op == 0x36 || op == 0x3e || op == 0xc6 || op == 0xce || op == 0xd3 || op == 0xd6
        || op == 0xdb || op == 0xde || op == 0xe6 || op == 0xee || op == 0xf6 || op == 0xfe {
        2
    } else {
        1
    }
}

fn reg(code: u8) -> (r: &'static str)
    ensures
        r@ == spec_reg_name(code),
{
    let c = code % 8;
    if c == 0 {
        "B"
    } else if c == 1 {
        "C"
    } else if c == 2 {
        "D"
    } else if c == 3 {
        "E"
    } else if c == 4 {
        "H"
    } else if c == 5 {
        "L"
    } else if c == 6 {
        "M"
    } else {
        "A"
    }
}

fn rp(code: u8) -> (r: &'static str)
    ensures
        r@ == spec_pair_name(code),
{
    let c = code % 4;
    if c == 0 {
        "B"
    } else if c == 1 {
        "D"
    } else if c == 2 {
        "H"
    } else {
        "SP"
    }
}

fn rp_push(code: u8) -> (r: &'static str)
    ensures
        r@ == spec_push_pair_name(code),
{
    let c = code % 4;
    if c == 0 {
        "B"
    } else if c == 1 {
        "D"
    } else if c == 2 {
        "H"
    } else {
        "PSW"
    }
}

/// Condition suffix of a conditional JMP/CALL/RET.
pub open spec fn spec_cond_suffix(code: u8) -> Seq<char> {
    let c = code % 8;
    if c == 0 {
        "NZ"@
    } else if c == 1 {
        "Z"@
    } else if c == 2 {
        "NC"@
    } else if c == 3 {
        "C"@
    } else if c == 4 {
        "PO"@
    } else if c == 5 {
        "PE"@
    } else if c == 6 {
        "P"@
    } else {
        "M"@
    }
}

fn cond(code: u8) -> (r: &'static str)
    ensures
        r@ == spec_cond_suffix(code),
{
    let c = code % 8;
    if c == 0 {
        "NZ"
    } else if c == 1 {
        "Z"
    } else if c == 2 {
        "NC"
    } else if c == 3 {
        "C"
    } else if c == 4 {
        "PO"
    } else if c == 5 {
        "PE"
    } else if c == 6 {
        "P"
    } else {
        "M"
    }
}

fn alu(code: u8) -> (r: &'static str)
    ensures
        r@ == spec_alu_name(code),
{
    let c = code % 8;
    if c == 0 {
        "ADD"
    } else if c == 1 {
        "ADC"
    } else if c == 2 {
        "SUB"
    } else if c == 3 {
        "SBB"
    } else if c == 4 {
        "ANA"
    } else if c == 5 {
        "XRA"
    } else if c == 6 {
        "ORA"
    } else {
        "CMP"
    }
}

fn text1(mnemonic: &str, a: &str) -> (r: String)
    ensures
        r@ == mnemonic@ + " "@ + a@,
{
    let mut s = String::from_str(mnemonic);
    s.append(" ");
    s.append(a);
    s
}

fn text2(mnemonic: &str, a: &str, b: &str) -> (r: String)
    ensures
        r@ == mnemonic@ + " "@ + a@ + ","@ + b@,
{
    let mut s = String::from_str(mnemonic);
    s.append(" ");
    s.append(a);
    s.append(",");
    s.append(b);
    s
}

fn with_d8(mnemonic: &str, b1: u8) -> (r: String)
    ensures
        r@ == mnemonic@ + " "@ + spec_d8(b1),
{
    let mut s = String::from_str(mnemonic);
    s.append(" $");
    push_hex2(&mut s, b1);
    proof {
        assert(mnemonic@ + " $"@ == mnemonic@ + " "@ + "$"@) by {
            reveal_strlit(" $");
            reveal_strlit(" ");
            reveal_strlit("$");
            assert(" $"@ =~= " "@ + "$"@);
        }
    }
    s
}

fn with_d16(mnemonic: &str, w: u16) -> (r: String)
    ensures
        r@ == mnemonic@ + " "@ + spec_d16(w),
{
    let mut s = String::from_str(mnemonic);
    s.append(" $");
    push_hex4(&mut s, w);
    proof {
        assert(mnemonic@ + " $"@ == mnemonic@ + " "@ + "$"@) by {
            reveal_strlit(" $");
            reveal_strlit(" ");
            reveal_strlit("$");
            assert(" $"@ =~= " "@ + "$"@);
        }
    }
    s
}

/// A conditional mnemonic is its family letter followed by the condition
/// suffix.
proof fn lemma_conditional_mnemonics(code: u8)
    ensures
        "R"@ + spec_cond_suffix(code) == spec_cond_ret_name(code),
        "J"@ + spec_cond_suffix(code) == spec_cond_jmp_name(code),
        "C"@ + spec_cond_suffix(code) == spec_cond_call_name(code),
{
    reveal_strlit("R");
    reveal_strlit("J");
    reveal_strlit("C");
    let c = code % 8;
    if c == 0 {
        reveal_strlit("NZ");
        reveal_strlit("RNZ");
        assert("R"@ + "NZ"@ =~= "RNZ"@);
        reveal_strlit("JNZ");
        assert("J"@ + "NZ"@ =~= "JNZ"@);
        reveal_strlit("CNZ");
        assert("C"@ + "NZ"@ =~= "CNZ"@);
    } else if c == 1 {
        reveal_strlit("Z");
        reveal_strlit("RZ");
        assert("R"@ + "Z"@ =~= "RZ"@);
        reveal_strlit("JZ");
        assert("J"@ + "Z"@ =~= "JZ"@);
        reveal_strlit("CZ");
        assert("C"@ + "Z"@ =~= "CZ"@);
    } else if c == 2 {
        reveal_strlit("NC");
        reveal_strlit("RNC");
        assert("R"@ + "NC"@ =~= "RNC"@);
        reveal_strlit("JNC");
        assert("J"@ + "NC"@ =~= "JNC"@);
        reveal_strlit("CNC");
        assert("C"@ + "NC"@ =~= "CNC"@);
    } else if c == 3 {
        reveal_strlit("C");
        reveal_strlit("RC");
        assert("R"@ + "C"@ =~= "RC"@);
        reveal_strlit("JC");
        assert("J"@ + "C"@ =~= "JC"@);
        reveal_strlit("CC");
        assert("C"@ + "C"@ =~= "CC"@);
    } else if c == 4 {
        reveal_strlit("PO");
        reveal_strlit("RPO");
        assert("R"@ + "PO"@ =~= "RPO"@);
        reveal_strlit("JPO");
        assert("J"@ + "PO"@ =~= "JPO"@);
        reveal_strlit("CPO");
        assert("C"@ + "PO"@ =~= "CPO"@);
    } else if c == 5 {
        reveal_strlit("PE");
        reveal_strlit("RPE");
        assert("R"@ + "PE"@ =~= "RPE"@);
        reveal_strlit("JPE");
        assert("J"@ + "PE"@ =~= "JPE"@);
        reveal_strlit("CPE");
        assert("C"@ + "PE"@ =~= "CPE"@);
    } else if c == 6 {
        reveal_strlit("P");
        reveal_strlit("RP");
        assert("R"@ + "P"@ =~= "RP"@);
        reveal_strlit("JP");
        assert("J"@ + "P"@ =~= "JP"@);
        reveal_strlit("CP");
        assert("C"@ + "P"@ =~= "CP"@);
    } else if c == 7 {
        reveal_strlit("M");
        reveal_strlit("RM");
        assert("R"@ + "M"@ =~= "RM"@);
        reveal_strlit("JM");
        assert("J"@ + "M"@ =~= "JM"@);
        reveal_strlit("CM");
        assert("C"@ + "M"@ =~= "CM"@);
    }
}

/// Assembler text of one instruction. The text is exactly that of the
/// structured decoder for every opcode.
pub fn disassemble(op: u8, b1: u8, b2: u8) -> (r: String)
    ensures
        r@ == spec_text(spec_decode_8080(op, b1, b2)),
{
    let d16 = b2 as u16 * 256 + b1 as u16;
    proof {
        assert(d16 == spec_word(b1, b2));
    }
    if 0x40 <= op && op <= 0x7f {
        if op == 0x76 {
            return String::from_str("HLT");
        }
        proof {
            lemma_join_small(spec_reg_name((op >> 3) & 7), spec_reg_name(op & 7), ","@);
        }
        return text2("MOV", reg((op >> 3) & 7), reg(op & 7));
    }
    if 0x80 <= op && op <= 0xbf {
        return text1(alu((op >> 3) & 7), reg(op & 7));
    }
    if op & 0xc7 == 0x04 {
        return text1("INR", reg((op >> 3) & 7));
    }
    if op & 0xc7 == 0x05 {
        return text1("DCR", reg((op >> 3) & 7));
    }
    if op & 0xc7 == 0x06 {
        let mut s = text2("MVI", reg((op >> 3) & 7), "$");
        push_hex2(&mut s, b1);
        proof {
            let a = spec_reg_name((op >> 3) & 7);
            lemma_join_small(a, spec_d8(b1), ","@);
            assert(s@ =~= "MVI"@ + " "@ + (a + ","@ + spec_d8(b1)));
        }
        return s;
    }
    if op & 0xcf == 0x01 {
        let mut s = text2("LXI", rp((op >> 4) & 3), "$");
        push_hex4(&mut s, d16);
        proof {
            let a = spec_pair_name((op >> 4) & 3);
            lemma_join_small(a, spec_d16(d16), ","@);
            assert(s@ =~= "LXI"@ + " "@ + (a + ","@ + spec_d16(d16)));
        }
        return s;
    }
    if op & 0xcf == 0x03 {
        return text1("INX", rp((op >> 4) & 3));
    }
    if op & 0xcf == 0x0b {
        return text1("DCX", rp((op >> 4) & 3));
    }
    if op & 0xcf == 0x09 {
        return text1("DAD", rp((op >> 4) & 3));
    }
    proof {
        lemma_conditional_mnemonics((op >> 3) & 7);
    }
    if op & 0xc7 == 0xc0 {
        let mut s = String::from_str("R");
        s.append(cond((op >> 3) & 7));
        return s;
    }
    if op & 0xc7 == 0xc2 {
        let mut m = String::from_str("J");
        m.append(cond((op >> 3) & 7));
        return with_d16(m.as_str(), d16);
    }
    if op & 0xc7 == 0xc4 {
        let mut m = String::from_str("C");
        m.append(cond((op >> 3) & 7));
        return with_d16(m.as_str(), d16);
    }
    if op & 0xcf == 0xc1 {
        return text1("POP", rp_push((op >> 4) & 3));
    }
    if op & 0xcf == 0xc5 {
        return text1("PUSH", rp_push((op >> 4) & 3));
    }
    if op & 0xc7 == 0xc7 {
        let mut s = String::from_str("RST ");
        push_dec(&mut s, (op >> 3) & 7);
        proof {
            let n = spec_dec(((op >> 3) & 7) as nat);
            lemma_join_small(n, n, ","@);
            reveal_strlit("RST ");
            reveal_strlit("RST");
            reveal_strlit(" ");
            assert("RST "@ =~= "RST"@ + " "@);
            assert(s@ =~= "RST"@ + " "@ + spec_join(seq![n], ","@));
        }
        return s;
    }
    disassemble_fixed(op, b1, b2)
}

fn disassemble_fixed(op: u8, b1: u8, b2: u8) -> (r: String)
    ensures
        r@ == spec_text(spec_decode_fixed(op, b1, b2)),
{
    let d16 = b2 as u16 * 256 + b1 as u16;
    if op == 0x00 || op == 0x08 || op == 0x10 || op == 0x18 || op == 0x20 || op == 0x28
        || op == 0x30 || op == 0x38 {
        String::from_str("NOP")
    } else if op == 0x07 {
        String::from_str("RLC")
    } else if op == 0x0f {
        String::from_str("RRC")
    } else if op == 0x17 {
        String::from_str("RAL")
    } else if op == 0x1f {
        String::from_str("RAR")
    } else if op == 0x27 {
        String::from_str("DAA")
    } else if op == 0x2f {
        String::from_str("CMA")
    } else if op == 0x37 {
        String::from_str("STC")
    } else if op == 0x3f {
        String::from_str("CMC")
    } else if op == 0x02 {
        text1("STAX", "B")
    } else if op == 0x12 {
        text1("STAX", "D")
    } else if op == 0x0a {
        text1("LDAX", "B")
    } else if op == 0x1a {
        text1("LDAX", "D")
    } else if op == 0x22 {
        with_d16("SHLD", d16)
    } else if op == 0x2a {
        with_d16("LHLD", d16)
    } else if op == 0x32 {
        with_d16("STA", d16)
    } else if op == 0x3a {
        with_d16("LDA", d16)
    } else if op == 0xc3 || op == 0xcb {
        with_d16("JMP", d16)
    } else if op == 0xc9 || op == 0xd9 {
        String::from_str("RET")
    } else if op == 0xcd || op == 0xdd || op == 0xed || op == 0xfd {
        with_d16("CALL", d16)
    } else if op == 0xc6 {
        with_d8("ADI", b1)
    } else if op == 0xce {
        with_d8("ACI", b1)
    } else if op == 0xd6 {
        with_d8("SUI", b1)
    } else if op == 0xde {
        with_d8("SBI", b1)
    } else if op == 0xe6 {
        with_d8("ANI", b1)
    } else if op == 0xee {
        with_d8("XRI", b1)
    } else if op == 0xf6 {
        with_d8("ORI", b1)
    } else if op == 0xfe {
        with_d8("CPI", b1)
    } else if op == 0xd3 {
        with_d8("OUT", b1)
    } else if op == 0xdb {
        with_d8("IN", b1)
    } else if op == 0xe3 {
        String::from_str("XTHL")
    } else if op == 0xe9 {
        String::from_str("PCHL")
    } else if op == 0xeb {
        String::from_str("XCHG")
    } else if op == 0xf3 {
        String::from_str("DI")
    } else if op == 0xf9 {
        String::from_str("SPHL")
    } else if op == 0xfb {
        String::from_str("EI")
    } else {
        with_d8("DB", op)
    }
}

/// Instruction length as the structured decoder assigns it, family by family.
pub open spec fn spec_decoder_length(op: u8) -> u8 {
    if 0x40 <= op <= 0xbf {
        1
    } else if op & 0xc7 == 0x04 || op & 0xc7 == 0x05 {
        1
    } else if op & 0xc7 == 0x06 {
        2
    } else if op & 0xcf == 0x01 {
        3
    } else if op & 0xcf == 0x03 || op & 0xcf == 0x0b || op & 0xcf == 0x09 {
        1
    } else if op & 0xc7 == 0xc0 {
        1
    } else if op & 0xc7 == 0xc2 || op & 0xc7 == 0xc4 {
        3
    } else if op & 0xcf == 0xc1 || op & 0xcf == 0xc5 || op & 0xc7 == 0xc7 {
        1
    } else if op == 0x22 || op == 0x2a || op == 0x32 || op == 0x3a || op == 0xc3 || op == 0xcb
        || op == 0xcd || op == 0xdd || op == 0xed || op == 0xfd {
        3
    } else if op == 0xc6 || op == 0xce || op == 0xd3 || op == 0xd6 || op == 0xdb || op == 0xde
        || op == 0xe6 || op == 0xee || op == 0xf6 || op == 0xfe {
        2
    } else {
        1
    }
}

/// The structured decoder and the one-line length table agree on the length
/// of every instruction except the four undocumented 3-byte aliases (JMP at
/// CBh, CALL at DDh/EDh/FDh), which the table treats as one byte.
pub proof fn lemma_length_agrees_with_decoder(op: u8, b1: u8, b2: u8)
    requires
        op != 0xcb && op != 0xdd && op != 0xed && op != 0xfd,
    ensures
        crate::decoder8080::spec_decode_8080(op, b1, b2).length == spec_instruction_len(op),
{
    assert(spec_decoder_length(op) == spec_instruction_len(op)) by (bit_vector)
        requires
            op != 0xcb && op != 0xdd && op != 0xed && op != 0xfd,
    ;
    assert(crate::decoder8080::spec_decode_8080(op, b1, b2).length == spec_decoder_length(op));
}

} // verus!
