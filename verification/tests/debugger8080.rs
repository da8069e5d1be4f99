use rustair::cpu8080_cycle::alu::FLAG_Z;
use rustair::debugger8080::detect_simple_backward_loop;
use rustair::decoder8080::Condition;

fn reader(memory: &[u8]) -> Vec<Option<u8>> {
    memory.iter().map(|byte| Some(*byte)).collect()
}

#[test]
fn detects_simple_conditional_backward_loop_and_live_branch_state() {
    // 0000: MVI B,03
    // 0002: DCR B
    // 0003: JNZ 0002
    // 0006: HLT
    let memory = [0x06, 0x03, 0x05, 0xc2, 0x02, 0x00, 0x76];
    let found = detect_simple_backward_loop(&reader(&memory), 0x0002, 0).unwrap();
    assert_eq!(found.start, 0x0002);
    assert_eq!(found.back_edge, 0x0003);
    assert_eq!(found.condition, Some(Condition::NotZero));
    assert!(found.branch_taken_now);
    assert_eq!(found.instructions.len(), 2);
    assert_eq!(found.instructions[0].decoded.text(), "DCR B");
    assert_eq!(found.instructions[1].decoded.text(), "JNZ $0002");

    let exiting = detect_simple_backward_loop(&reader(&memory), 0x0003, FLAG_Z).unwrap();
    assert!(!exiting.branch_taken_now);
}

#[test]
fn detects_unconditional_loop() {
    let memory = [0x00, 0xc3, 0x00, 0x00];
    let found = detect_simple_backward_loop(&reader(&memory), 0x0000, 0).unwrap();
    assert_eq!(found.start, 0x0000);
    assert_eq!(found.back_edge, 0x0001);
    assert_eq!(found.condition, None);
    assert!(found.branch_taken_now);
}

#[test]
fn refuses_false_branch_found_inside_an_operand() {
    // At byte 0001 there is C2, but it is the low immediate byte of LXI H.
    // Linear decoding from its claimed target cannot prove a loop ending at
    // that byte, so the detector must not present it as known code.
    let memory = [0x21, 0xc2, 0x00, 0x76];
    assert!(detect_simple_backward_loop(&reader(&memory), 0x0000, 0).is_none());
}

#[test]
fn rejects_nested_or_non_linear_body_in_first_conservative_version() {
    // 0000 JNZ 0006 (forward branch inside would-be body)
    // 0003 NOP
    // 0004 JMP 0000
    let memory = [0xc2, 0x06, 0x00, 0x00, 0xc3, 0x00, 0x00];
    assert!(detect_simple_backward_loop(&reader(&memory), 0x0003, 0).is_none());
}
