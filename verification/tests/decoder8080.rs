use rustair::cpu8080_cycle::alu::FLAG_Z;
use rustair::decoder8080::{decode_8080, Condition, ControlFlow, FlagEffects, IoAccess, MemoryAccess, Timing};

#[test]
fn every_opcode_has_structured_metadata() {
    for opcode in 0u8..=u8::MAX {
        let decoded = decode_8080(opcode, 0x34, 0x12);
        assert!((1..=3).contains(&decoded.length), "opcode {opcode:02X}");
        assert!(!decoded.mnemonic.is_empty(), "opcode {opcode:02X}");
        assert!(!decoded.text().is_empty(), "opcode {opcode:02X}");
        assert!(decoded.timing.base_t_states > 0, "opcode {opcode:02X}");
    }
}

#[test]
fn undocumented_8080_aliases_are_explicit() {
    for opcode in [0x08, 0x10, 0x18, 0x20, 0x28, 0x30, 0x38, 0xcb, 0xd9, 0xdd, 0xed, 0xfd] {
        assert!(decode_8080(opcode, 0x34, 0x12).undocumented_alias, "opcode {opcode:02X}");
    }
    assert!(!decode_8080(0x00, 0, 0).undocumented_alias);
    assert!(!decode_8080(0xc3, 0x34, 0x12).undocumented_alias);
    assert!(!decode_8080(0xc9, 0, 0).undocumented_alias);
    assert!(!decode_8080(0xcd, 0x34, 0x12).undocumented_alias);
}

#[test]
fn branch_metadata_exposes_targets_and_live_conditions() {
    let jnz = decode_8080(0xc2, 0x34, 0x12);
    assert_eq!(jnz.text(), "JNZ $1234");
    assert_eq!(jnz.address_target, Some(0x1234));
    assert_eq!(
        jnz.control_flow,
        ControlFlow::Jump {
            target: 0x1234,
            condition: Some(Condition::NotZero),
        }
    );
    assert!(Condition::NotZero.evaluate(0));
    assert!(!Condition::NotZero.evaluate(FLAG_Z));
}

#[test]
fn pop_psw_reports_restored_condition_flags() {
    let pop_h = decode_8080(0xe1, 0, 0);
    let pop_psw = decode_8080(0xf1, 0, 0);
    assert_eq!(pop_h.flags, FlagEffects::none());
    assert_eq!(pop_psw.text(), "POP PSW");
    assert_eq!(pop_psw.flags, FlagEffects::szp_ac_c());
}

#[test]
fn conditional_stack_metadata_does_not_imply_an_unconditional_transfer() {
    let call = decode_8080(0xc4, 0x00, 0x20);
    let ret = decode_8080(0xc0, 0, 0);
    assert_eq!(call.memory, MemoryAccess::StackWrite);
    assert_eq!(call.memory_label(), "stack write if taken");
    assert_eq!(ret.memory, MemoryAccess::StackRead);
    assert_eq!(ret.memory_label(), "stack read if taken");
}

#[test]
fn special_transfer_timings_match_the_8080_cores() {
    assert_eq!(decode_8080(0xeb, 0, 0).timing, Timing::fixed(4)); // XCHG
    assert_eq!(decode_8080(0xe3, 0, 0).timing, Timing::fixed(18)); // XTHL
    assert_eq!(decode_8080(0xe9, 0, 0).timing, Timing::fixed(5)); // PCHL
    assert_eq!(decode_8080(0xf9, 0, 0).timing, Timing::fixed(5)); // SPHL
}

#[test]
fn memory_io_flags_and_timing_are_not_inferred_from_text() {
    let inr_m = decode_8080(0x34, 0, 0);
    assert_eq!(inr_m.memory, MemoryAccess::ReadWrite);
    assert_eq!(inr_m.flags, FlagEffects::szp_ac());
    assert_eq!(inr_m.timing, Timing::fixed(10));

    let input = decode_8080(0xdb, 0x11, 0);
    assert_eq!(input.io, IoAccess::Read(0x11));
    assert_eq!(input.timing, Timing::fixed(10));

    let call = decode_8080(0xc4, 0x00, 0x20);
    assert_eq!(call.memory, MemoryAccess::StackWrite);
    assert_eq!(call.timing, Timing::conditional(11, 17));
}
