use rustair::disasm::{disassemble, instruction_len};

#[test]
fn decodes_common_altair_instructions(){
    assert_eq!(disassemble(0x3e,0x8c,0),"MVI A,$8C");
    assert_eq!(disassemble(0xc3,0x34,0x12),"JMP $1234");
    assert_eq!(disassemble(0x76,0,0),"HLT");
    assert_eq!(instruction_len(0x21),3);
}
