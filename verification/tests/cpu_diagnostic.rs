use rustair::machine::cpu_diagnostic::CpuDiagnostics;

#[test]
fn diagnostic_meter_normalizes_real_bdos_to_reference_stub() {
    let mut bus = CpuDiagnostics::new();
    bus.begin_cpu_diagnostic_meter("TEST.COM".into(), 0xff00, 0x37, Some(7), Some(65));
    bus.record_cpu_diagnostic_instruction(0x0000, 10);
    bus.record_cpu_diagnostic_instruction(0x0080, 10);
    bus.record_cpu_diagnostic_instruction(0x0100, 4);
    bus.record_cpu_diagnostic_instruction(0x0101, 17);
    bus.record_cpu_diagnostic_instruction(0x0005, 10);
    bus.record_cpu_diagnostic_instruction(0xff00, 11);
    bus.record_cpu_diagnostic_instruction(0xff01, 11);
    bus.record_cpu_diagnostic_instruction(0x0104, 4);
    bus.record_cpu_diagnostic_instruction(0x0105, 10);
    bus.record_cpu_diagnostic_instruction(0x0000, 7);
    let result = bus.take_cpu_diagnostic_result().unwrap();
    assert_eq!(result.instructions, 7);
    assert_eq!(result.t_states, 65);
    assert_eq!(result.expected_instructions, Some(7));
    assert_eq!(result.expected_t_states, Some(65));
}

#[test]
fn diagnostic_result_is_handed_out_once_and_keeps_the_program_name() {
    let mut bus = CpuDiagnostics::new();
    assert!(bus.take_cpu_diagnostic_result().is_none());
    bus.begin_cpu_diagnostic_meter("CPUTEST.COM".into(), 0xe400, 0x100, None, None);
    bus.record_cpu_diagnostic_instruction(0x0100, 4);
    bus.record_cpu_diagnostic_instruction(0x0000, 10);
    let result = bus.take_cpu_diagnostic_result().unwrap();
    assert_eq!(result.name, "CPUTEST.COM");
    assert_eq!(result.instructions, 2);
    assert_eq!(result.t_states, 14);
    assert_eq!(result.expected_instructions, None);
    assert!(bus.take_cpu_diagnostic_result().is_none());
    // The finished run freed the slot: further instructions change nothing.
    bus.record_cpu_diagnostic_instruction(0x0100, 4);
    bus.record_cpu_diagnostic_instruction(0x0000, 10);
    assert!(bus.take_cpu_diagnostic_result().is_none());
}

#[test]
fn cancelled_meter_reports_nothing() {
    let mut bus = CpuDiagnostics::new();
    bus.begin_cpu_diagnostic_meter("A.COM".into(), 0xff00, 0x10, None, None);
    bus.record_cpu_diagnostic_instruction(0x0100, 4);
    bus.cancel_cpu_diagnostic_meter();
    bus.record_cpu_diagnostic_instruction(0x0000, 10);
    assert!(bus.take_cpu_diagnostic_result().is_none());
}

#[test]
fn bdos_window_is_cut_at_ffff_and_uses_low_sixteen_bits_of_length() {
    // A window that would run past FFFFh is held at FFFFh: FFFFh itself counts.
    let mut bus = CpuDiagnostics::new();
    bus.begin_cpu_diagnostic_meter("B.COM".into(), 0xfff0, 0x100, None, None);
    bus.record_cpu_diagnostic_instruction(0x0100, 4);
    bus.record_cpu_diagnostic_instruction(0xfff8, 11);
    bus.record_cpu_diagnostic_instruction(0xffff, 5);
    bus.record_cpu_diagnostic_instruction(0x0000, 10);
    let result = bus.take_cpu_diagnostic_result().unwrap();
    assert_eq!(result.instructions, 3);
    assert_eq!(result.t_states, 19);

    // Only the low 16 bits of the length take part: 0x10002 behaves as 2.
    let mut bus = CpuDiagnostics::new();
    bus.begin_cpu_diagnostic_meter("C.COM".into(), 0x8000, 0x1_0002, None, None);
    bus.record_cpu_diagnostic_instruction(0x0100, 4);
    bus.record_cpu_diagnostic_instruction(0x8001, 7);
    bus.record_cpu_diagnostic_instruction(0x8002, 7);
    bus.record_cpu_diagnostic_instruction(0x0000, 10);
    let result = bus.take_cpu_diagnostic_result().unwrap();
    assert_eq!(result.instructions, 3);
    assert_eq!(result.t_states, 21);
}

#[test]
fn restarting_the_meter_discards_an_unclaimed_result() {
    let mut bus = CpuDiagnostics::new();
    bus.begin_cpu_diagnostic_meter("D.COM".into(), 0xff00, 0x10, None, None);
    bus.record_cpu_diagnostic_instruction(0x0100, 4);
    bus.record_cpu_diagnostic_instruction(0x0000, 10);
    bus.begin_cpu_diagnostic_meter("E.COM".into(), 0xff00, 0x10, None, None);
    assert!(bus.take_cpu_diagnostic_result().is_none());
}
