use rustair::cpu8080_cycle::{Cpu8080Pins, MachineCycle, TState, TickTrace};
use rustair::machine::cpu_board::Cycle8080S100Adapter;

#[test]
fn cycle_adapter_keeps_t1_status_on_cpu_d_do_until_real_phi1_latch() {
    let trace = TickTrace {
        machine_cycle: MachineCycle::MemoryRead,
        t_state: TState::T1,
        pins: Cpu8080Pins {
            address: Some(0x2000),
            data_out: Some(0x82),
            sync: true,
            inte: true,
            ..Cpu8080Pins::default()
        },
        opcode: Some(0x3A),
        instruction_complete: false,
        reset: false,
        fault: None,
        total_t_states: 5,
        instruction_t_states: 5,
    };

    let sample = Cycle8080S100Adapter::sample_with_front_panel_direct(&trace, None, false, true);
    assert_eq!(sample.address, Some(0x2000));
    assert_eq!(sample.cpu_data, Some(0x82));
    assert_eq!(sample.data_in, None);
    assert_eq!(sample.data_out, Some(0x82));
    assert_eq!(sample.status_word, None, "exact status latch belongs to SYNC+PHI1, not T1 projection");
    assert!(sample.inte);
    assert!(sample.ready);
}

#[test]
fn cycle_adapter_distinguishes_normal_di_from_front_panel_direct_injection() {
    let trace = TickTrace {
        machine_cycle: MachineCycle::MemoryRead,
        t_state: TState::T3,
        pins: Cpu8080Pins {
            address: Some(0x2000),
            dbin: true,
            ..Cpu8080Pins::default()
        },
        opcode: Some(0x3A),
        instruction_complete: false,
        reset: false,
        fault: None,
        total_t_states: 7,
        instruction_t_states: 7,
    };
    let memory = Cycle8080S100Adapter::sample_with_front_panel_direct(&trace, Some(0x5a), false, true);
    assert_eq!(memory.cpu_data, Some(0x5a));
    assert_eq!(memory.data_in, Some(0x5a));
    assert_eq!(memory.data_out, None);

    let jam = Cycle8080S100Adapter::sample_with_front_panel_direct(&trace, Some(0xc3), true, true);
    assert_eq!(jam.cpu_data, Some(0xc3));
    assert_eq!(jam.data_in, None);
    assert_eq!(jam.data_out, Some(0xc3));
}

#[test]
fn halt_dwell_restores_the_halt_status_and_hold_floats_the_data_bus() {
    let mut trace = TickTrace {
        machine_cycle: MachineCycle::HaltAck,
        t_state: TState::Thalt,
        pins: Cpu8080Pins { address: Some(0x0101), wait: true, ..Cpu8080Pins::default() },
        opcode: Some(0x76),
        instruction_complete: false,
        reset: false,
        fault: None,
        total_t_states: 9,
        instruction_t_states: 9,
    };
    let halted = Cycle8080S100Adapter::sample_with_front_panel_direct(&trace, Some(0x11), false, false);
    assert_eq!(halted.status_word, Some(0x8a));
    assert!(halted.wait);
    assert!(!halted.ready);

    trace.pins.hlda = true;
    let held = Cycle8080S100Adapter::sample_with_front_panel_direct(&trace, Some(0x11), false, true);
    assert_eq!(held.status_word, None);
    assert_eq!((held.cpu_data, held.data_in, held.data_out), (None, None, None));
    assert!(held.hlda);
}
