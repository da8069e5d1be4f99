use rustair::backend::Intel8080State;
use rustair::decoder8080::decode_8080;
use rustair::explain8080::explain_instruction;

#[test]
fn explains_m_as_memory_at_live_hl() {
    let decoded = decode_8080(0x7e, 0, 0); // MOV A,M
    let cpu = Intel8080State { h: 0x12, l: 0x34, ..Intel8080State::default() };
    let explanation = explain_instruction(&decoded, cpu, Some(0x5a));
    assert!(explanation.summary.contains("Copy M into A"));
    assert!(explanation.context.iter().any(|line| line.contains("HL=$1234")));
    assert!(explanation.context.iter().any(|line| line.contains("$5A")));
}

#[test]
fn conditional_flow_uses_live_flags() {
    let decoded = decode_8080(0xc2, 0x34, 0x12); // JNZ 1234h
    let cpu = Intel8080State { flags: 0, ..Intel8080State::default() };
    let explanation = explain_instruction(&decoded, cpu, None);
    assert!(explanation.flow.contains("TRUE / TAKEN"));
}

#[test]
fn unconditional_call_return_and_restart_are_not_described_as_conditional() {
    let cpu = Intel8080State::default();
    let call = explain_instruction(&decode_8080(0xcd, 0x34, 0x12), cpu, None);
    let ret = explain_instruction(&decode_8080(0xc9, 0, 0), cpu, None);
    let rst = explain_instruction(&decode_8080(0xcf, 0, 0), cpu, None);
    assert!(!call.summary.contains("condition"));
    assert!(!ret.summary.contains("condition"));
    assert!(!rst.summary.contains("condition"));
    assert!(call.summary.contains("return address"));
    assert!(ret.summary.contains("Pop a return address"));
    assert!(rst.summary.contains("restart vector"));
}

#[test]
fn unconditional_jump_is_not_described_as_conditional() {
    let cpu = Intel8080State::default();
    for opcode in [0xc3, 0xcb] {
        let jmp = explain_instruction(&decode_8080(opcode, 0x34, 0x12), cpu, None);
        assert!(!jmp.summary.contains("condition"));
        assert!(jmp.summary.contains("Load PC with $1234"));
        assert_eq!(jmp.reads, "16-bit immediate");
        assert_eq!(jmp.writes, "PC");
    }
    let jnz = explain_instruction(&decode_8080(0xc2, 0x34, 0x12), cpu, None);
    assert!(jnz.summary.contains("branch condition"));
    assert_eq!(jnz.reads, "condition flags");
}
