use rustair::cpu8080_cycle::alu::{
    dcr, execute, inr, szp, AluOp, FLAG_1, FLAG_AC, FLAG_C, FLAG_P, FLAG_S, FLAG_Z,
};
use rustair::cpu8080_cycle::control_flow::{
    condition, read_stack_pair, write_stack_pair, Condition, StackPair,
};
use rustair::cpu8080_cycle::decode::{decode, Instruction, Register8, RegisterPair};
use rustair::cpu8080_cycle::{ClockEdge, MachineCycle, Registers};

#[test]
fn szp_table_matches_the_8080_flag_definition_for_all_values() {
    for value in 0u16..=0xff {
        let value = value as u8;
        let expected = FLAG_1
            | if value & 0x80 != 0 { FLAG_S } else { 0 }
            | if value == 0 { FLAG_Z } else { 0 }
            | if value.count_ones() & 1 == 0 { FLAG_P } else { 0 };
        assert_eq!(szp(value), expected, "value {value:02x}");
    }
}

#[test]
fn subtraction_aux_carry_uses_8080_internal_carry_polarity() {
    let mut r = Registers::default();
    r.a = 0x03;
    execute(&mut r, AluOp::Sub, 0x00);
    assert_eq!(r.a, 0x03);
    assert_ne!(r.f & FLAG_AC, 0);
    assert_eq!(r.f & FLAG_C, 0);

    r.a = 0x03;
    r.f = FLAG_1;
    execute(&mut r, AluOp::Sub, 0x04);
    assert_eq!(r.a, 0xff);
    assert_eq!(r.f & FLAG_AC, 0);
    assert_ne!(r.f & FLAG_C, 0);
}

#[test]
fn cmp_changes_flags_but_not_accumulator() {
    let mut r = Registers::default();
    r.a = 0x03;
    execute(&mut r, AluOp::Cmp, 0x04);
    assert_eq!(r.a, 0x03);
    assert_ne!(r.f & FLAG_C, 0);
    assert_eq!(r.f & FLAG_AC, 0);
}

#[test]
fn inr_and_dcr_preserve_carry() {
    let mut r = Registers::default();
    r.f = FLAG_1 | FLAG_C;
    assert_eq!(inr(&mut r, 0x0f), 0x10);
    assert_ne!(r.f & FLAG_C, 0);
    assert_ne!(r.f & FLAG_AC, 0);

    r.f = FLAG_1 | FLAG_C;
    assert_eq!(dcr(&mut r, 0x10), 0x0f);
    assert_ne!(r.f & FLAG_C, 0);
    assert_eq!(r.f & FLAG_AC, 0);
}

#[test]
fn ana_matches_8080_auxiliary_carry_rule() {
    let mut r = Registers::default();
    r.a = 0x08;
    execute(&mut r, AluOp::Ana, 0x00);
    assert_eq!(r.a, 0x00);
    assert_ne!(r.f & FLAG_AC, 0);
    assert_eq!(r.f & FLAG_C, 0);
}

#[test]
fn rotate_family_only_changes_accumulator_and_carry() {
    let preserved = FLAG_S | FLAG_Z | FLAG_P | FLAG_AC | FLAG_1;

    let mut r = Registers::default();
    r.a = 0x81;
    r.f = preserved;
    execute(&mut r, AluOp::Rlc, 0);
    assert_eq!(r.a, 0x03);
    assert_eq!(r.f, preserved | FLAG_C);

    r.a = 0x81;
    r.f = preserved;
    execute(&mut r, AluOp::Rrc, 0);
    assert_eq!(r.a, 0xc0);
    assert_eq!(r.f, preserved | FLAG_C);

    r.a = 0x80;
    r.f = preserved | FLAG_C;
    execute(&mut r, AluOp::Ral, 0);
    assert_eq!(r.a, 0x01);
    assert_eq!(r.f, preserved | FLAG_C);

    r.a = 0x01;
    r.f = preserved | FLAG_C;
    execute(&mut r, AluOp::Rar, 0);
    assert_eq!(r.a, 0x80);
    assert_eq!(r.f, preserved | FLAG_C);
}

#[test]
fn cma_stc_and_cmc_leave_unrelated_flags_alone() {
    let preserved = FLAG_S | FLAG_Z | FLAG_P | FLAG_AC | FLAG_1;
    let mut r = Registers::default();
    r.a = 0x55;
    r.f = preserved;

    execute(&mut r, AluOp::Cma, 0);
    assert_eq!(r.a, 0xaa);
    assert_eq!(r.f, preserved);

    execute(&mut r, AluOp::Stc, 0);
    assert_eq!(r.f, preserved | FLAG_C);

    execute(&mut r, AluOp::Cmc, 0);
    assert_eq!(r.f, preserved);
}

#[test]
fn daa_matches_validated_8080_bcd_adjust_cases() {
    let mut r = Registers::default();

    // 09h + 09h = 12h with AC, then DAA -> 18h.
    r.a = 0x12;
    r.f = FLAG_1 | FLAG_AC;
    execute(&mut r, AluOp::Daa, 0);
    assert_eq!(r.a, 0x18);
    assert_eq!(r.f & FLAG_C, 0);

    // 99h + 99h = 32h with carry and AC, DAA -> 98h with carry.
    r.a = 0x32;
    r.f = FLAG_1 | FLAG_C | FLAG_AC;
    execute(&mut r, AluOp::Daa, 0);
    assert_eq!(r.a, 0x98);
    assert_ne!(r.f & FLAG_C, 0);

    // Pure low-nibble correction.
    r.a = 0x0a;
    r.f = FLAG_1;
    execute(&mut r, AluOp::Daa, 0);
    assert_eq!(r.a, 0x10);
    assert_ne!(r.f & FLAG_AC, 0);
}

#[test]
fn all_eight_condition_codes_match_8080_flags() {
    let flags = FLAG_Z | FLAG_C | FLAG_P | FLAG_S | FLAG_1;
    assert!(!condition(flags, Condition::NZ));
    assert!(condition(flags, Condition::Z));
    assert!(!condition(flags, Condition::NC));
    assert!(condition(flags, Condition::C));
    assert!(!condition(flags, Condition::PO));
    assert!(condition(flags, Condition::PE));
    assert!(!condition(flags, Condition::P));
    assert!(condition(flags, Condition::M));
}

#[test]
fn psw_pack_and_unpack_normalize_unused_flag_bits() {
    let mut r = Registers::default();
    r.a = 0xa5;
    r.f = 0xff;
    assert_eq!(read_stack_pair(&r, StackPair::PSW), 0xa5d7);

    write_stack_pair(&mut r, StackPair::PSW, 0x5aff);
    assert_eq!(r.a, 0x5a);
    assert_eq!(r.f, 0xd7);
}

#[test]
fn decodes_register_pair_families() {
    let pairs = [RegisterPair::BC, RegisterPair::DE, RegisterPair::HL, RegisterPair::SP];
    for (index, pair) in pairs.into_iter().enumerate() {
        let base = (index as u8) << 4;
        assert_eq!(decode(base | 0x01), Instruction::Lxi(pair));
        assert_eq!(decode(base | 0x03), Instruction::Inx(pair));
        assert_eq!(decode(base | 0x0b), Instruction::Dcx(pair));
        assert_eq!(decode(base | 0x09), Instruction::Dad(pair));
    }
}

#[test]
fn decodes_accumulator_only_operations_on_the_four_t_state_alu_path() {
    for (opcode, op) in [
        (0x07, AluOp::Rlc), (0x0f, AluOp::Rrc), (0x17, AluOp::Ral),
        (0x1f, AluOp::Rar), (0x27, AluOp::Daa), (0x2f, AluOp::Cma),
        (0x37, AluOp::Stc), (0x3f, AluOp::Cmc),
    ] {
        assert_eq!(decode(opcode), Instruction::AluRegister { op, src: Register8::A });
    }
}

#[test]
fn decodes_inr_dcr_and_alu_families() {
    assert_eq!(decode(0x04), Instruction::InrRegister(Register8::B));
    assert_eq!(decode(0x34), Instruction::InrMemory);
    assert_eq!(decode(0x3d), Instruction::DcrRegister(Register8::A));
    assert_eq!(decode(0x35), Instruction::DcrMemory);

    for alu_code in 0u8..8 {
        let op = AluOp::from_code(alu_code);
        let base = 0x80 | (alu_code << 3);
        assert_eq!(decode(base), Instruction::AluRegister { op, src: Register8::B });
        assert_eq!(decode(base | 6), Instruction::AluMemory { op });
    }
}

#[test]
fn decodes_jumps_calls_returns_restarts_and_stack_pairs() {
    assert_eq!(decode(0xc3), Instruction::Jump);
    assert_eq!(decode(0xcd), Instruction::Call);
    assert_eq!(decode(0xc9), Instruction::Ret);

    for code in 0u8..8 {
        let condition = Condition::from_code(code);
        assert_eq!(decode(0xc2 | (code << 3)), Instruction::JumpConditional(condition));
        assert_eq!(decode(0xc4 | (code << 3)), Instruction::CallConditional(condition));
        assert_eq!(decode(0xc0 | (code << 3)), Instruction::RetConditional(condition));
        assert_eq!(decode(0xc7 | (code << 3)), Instruction::Rst(code));
    }
    for code in 0u8..4 {
        let pair = StackPair::from_code(code);
        assert_eq!(decode(0xc1 | (code << 4)), Instruction::Pop(pair));
        assert_eq!(decode(0xc5 | (code << 4)), Instruction::Push(pair));
    }
}

#[test]
fn decodes_io_special_transfer_and_control_instructions() {
    assert_eq!(decode(0x76), Instruction::Hlt);
    assert_eq!(decode(0xd3), Instruction::Out);
    assert_eq!(decode(0xdb), Instruction::In);
    assert_eq!(decode(0xe3), Instruction::Xthl);
    assert_eq!(decode(0xe9), Instruction::Pchl);
    assert_eq!(decode(0xeb), Instruction::Xchg);
    assert_eq!(decode(0xf3), Instruction::Di);
    assert_eq!(decode(0xf9), Instruction::Sphl);
    assert_eq!(decode(0xfb), Instruction::Ei);
}

#[test]
fn undocumented_silicon_aliases_match_the_validated_fast_core() {
    for opcode in [0x08, 0x10, 0x18, 0x20, 0x28, 0x30, 0x38] {
        assert_eq!(decode(opcode), Instruction::Nop);
    }
    assert_eq!(decode(0xcb), Instruction::Jump);
    assert_eq!(decode(0xd9), Instruction::Ret);
    for opcode in [0xdd, 0xed, 0xfd] {
        assert_eq!(decode(opcode), Instruction::Call);
    }
}

#[test]
fn all_256_opcode_values_have_8080_silicon_behavior() {
    for opcode in 0u16..=0xff {
        assert!(
            !matches!(decode(opcode as u8), Instruction::Unsupported(_)),
            "opcode {:02x} has no cycle-core behavior",
            opcode
        );
    }
}

#[test]
fn transfer_paths_are_preserved() {
    assert_eq!(decode(0x02), Instruction::Stax(RegisterPair::BC));
    assert_eq!(decode(0x22), Instruction::ShldDirect);
    assert_eq!(decode(0x36), Instruction::MviMemory);
    assert_eq!(decode(0x46), Instruction::MovFromMemory { dst: Register8::B });
    assert_eq!(decode(0x70), Instruction::MovToMemory { src: Register8::B });
}

#[test]
fn externally_visible_status_words_match_the_8080_bus_definition() {
    assert_eq!(MachineCycle::InstructionFetch.status_word(), Some(0xA2));
    assert_eq!(MachineCycle::MemoryRead.status_word(), Some(0x82));
    assert_eq!(MachineCycle::MemoryWrite.status_word(), Some(0x00));
    assert_eq!(MachineCycle::StackRead.status_word(), Some(0x86));
    assert_eq!(MachineCycle::StackWrite.status_word(), Some(0x04));
    assert_eq!(MachineCycle::InputRead.status_word(), Some(0x42));
    assert_eq!(MachineCycle::OutputWrite.status_word(), Some(0x10));
    assert_eq!(MachineCycle::InterruptAck.status_word(), Some(0x23));
    assert_eq!(MachineCycle::HaltAck.status_word(), Some(0x8A));
    assert_eq!(
        MachineCycle::InterruptAckWhileHalt.status_word(),
        Some(0x2B)
    );
    assert_eq!(MachineCycle::Internal.status_word(), None);
}

#[test]
fn clock_edges_are_non_overlapping_and_repeat_in_historical_order() {
    assert_eq!(
        ClockEdge::all().map(ClockEdge::clock_levels_after),
        [(true, false), (false, false), (false, true), (false, false)]
    );
}
