use rustair::debugger_control::{DebugExecutionControl, DebugStopReason, MemoryWatchAccess};
use rustair::trace8080::InstructionEffect8080;

#[test]
fn fresh_run_still_stops_on_breakpoint_at_current_pc() {
    let mut control = DebugExecutionControl::default();
    control.set_breakpoint(0x1234, true);
    control.prepare_resume(0x1234);
    assert_eq!(control.stop_before(0x1234), Some(DebugStopReason::ExecuteBreakpoint(0x1234)));
}

#[test]
fn persistent_breakpoint_skips_once_when_resuming_from_triggered_stop() {
    let mut control = DebugExecutionControl::default();
    control.set_breakpoint(0x1234, true);
    assert_eq!(control.stop_before(0x1234), Some(DebugStopReason::ExecuteBreakpoint(0x1234)));
    control.prepare_resume(0x1234);
    assert_eq!(control.stop_before(0x1234), None);
    assert_eq!(control.stop_before(0x1234), Some(DebugStopReason::ExecuteBreakpoint(0x1234)));
}

#[test]
fn manual_step_does_not_leave_future_breakpoint_skip_armed() {
    let mut control = DebugExecutionControl::default();
    control.set_breakpoint(0x1234, true);
    assert_eq!(control.stop_before(0x1234), Some(DebugStopReason::ExecuteBreakpoint(0x1234)));
    control.prepare_manual_step();
    assert_eq!(control.stop_reason(), None);
    assert_eq!(control.stop_before(0x1234), Some(DebugStopReason::ExecuteBreakpoint(0x1234)));
}

#[test]
fn run_to_from_triggered_breakpoint_can_resume_past_current_pc() {
    let mut control = DebugExecutionControl::default();
    control.set_breakpoint(0x1000, true);
    assert_eq!(control.stop_before(0x1000), Some(DebugStopReason::ExecuteBreakpoint(0x1000)));
    control.set_run_to(0x1002);
    control.prepare_resume(0x1000);
    assert_eq!(control.stop_before(0x1000), None);
    assert_eq!(control.stop_before(0x1002), Some(DebugStopReason::RunTo(0x1002)));
}

#[test]
fn run_to_is_one_shot_and_precedes_persistent_breakpoint() {
    let mut control = DebugExecutionControl::default();
    control.set_breakpoint(0x2000, true);
    control.set_run_to(0x2000);
    assert_eq!(control.stop_before(0x2000), Some(DebugStopReason::RunTo(0x2000)));
    assert_eq!(control.run_to(), None);
    control.prepare_resume(0x2000);
    assert_eq!(control.stop_before(0x2000), Some(DebugStopReason::ExecuteBreakpoint(0x2000)));
}

#[test]
fn read_write_watchpoints_match_data_and_stack_effects() {
    let mut control = DebugExecutionControl::default();
    control.set_watchpoint(0x3456, Some(MemoryWatchAccess::ReadWrite));
    assert!(control.active());
    assert_eq!(control.watchpoints(), vec![(0x3456, MemoryWatchAccess::ReadWrite)]);

    let read = [InstructionEffect8080::MemoryRead { address: 0x3456, value: 0xaa }];
    assert_eq!(
        control.stop_after_effects(0x0100, &read),
        Some(DebugStopReason::MemoryReadWatchpoint {
            instruction_pc: 0x0100,
            address: 0x3456,
            value: 0xaa,
        })
    );

    control.prepare_resume(0x0101);
    let write = [InstructionEffect8080::StackWrite { address: 0x3456, value: 0x55 }];
    assert_eq!(
        control.stop_after_effects(0x0200, &write),
        Some(DebugStopReason::MemoryWriteWatchpoint {
            instruction_pc: 0x0200,
            address: 0x3456,
            value: 0x55,
        })
    );
}

#[test]
fn access_direction_is_respected() {
    let mut control = DebugExecutionControl::default();
    control.set_watchpoint(0x2222, Some(MemoryWatchAccess::Write));
    let read = [InstructionEffect8080::MemoryRead { address: 0x2222, value: 1 }];
    assert_eq!(control.stop_after_effects(0x1000, &read), None);
    let write = [InstructionEffect8080::MemoryWrite { address: 0x2222, value: 2 }];
    assert!(matches!(
        control.stop_after_effects(0x1001, &write),
        Some(DebugStopReason::MemoryWriteWatchpoint { .. })
    ));
}
