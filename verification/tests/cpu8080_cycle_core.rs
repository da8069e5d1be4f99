use rustair::cpu8080_cycle::{
    Cpu8080Cycle, Cpu8080CycleFault, Cpu8080Inputs, Cpu8080Pins, MachineCycle, Registers, TState,
    TickTrace,
};

fn input(data_in: u8, ready: bool) -> Cpu8080Inputs {
    Cpu8080Inputs {
        data_in,
        ready,
        ..Cpu8080Inputs::default()
    }
}

#[test]
fn nop_is_a_four_t_state_m1_fetch() {
    let mut cpu = Cpu8080Cycle::new();

    let t1 = cpu.tick(input(0x00, true));
    assert_eq!(t1.t_state, TState::T1);
    assert_eq!(t1.machine_cycle, MachineCycle::InstructionFetch);
    assert_eq!(t1.pins.address, Some(0x0000));
    assert_eq!(t1.pins.data_out, Some(0xA2));
    assert!(t1.pins.sync);
    assert!(!t1.pins.dbin);
    assert!(t1.pins.wr_n);
    assert!(!t1.instruction_complete);

    let t2 = cpu.tick(input(0x00, true));
    assert_eq!(t2.t_state, TState::T2);
    assert_eq!(t2.pins.address, Some(0x0000));
    assert_eq!(t2.pins.data_out, None);
    assert!(!t2.pins.sync);
    assert!(t2.pins.dbin);

    let t3 = cpu.tick(input(0x00, true));
    assert_eq!(t3.t_state, TState::T3);
    assert!(!t3.pins.dbin);
    assert_eq!(t3.opcode, Some(0x00));
    assert_eq!(cpu.registers().pc, 0x0001);

    let t4 = cpu.tick(input(0x00, true));
    assert_eq!(t4.t_state, TState::T4);
    assert!(t4.instruction_complete);
    assert_eq!(t4.instruction_t_states, 4);
    assert_eq!(cpu.last_instruction_t_states(), Some(4));
    assert_eq!(cpu.completed_instructions(), 1);
    assert_eq!(cpu.total_t_states(), 4);
    assert_eq!(cpu.t_state(), TState::T1);
}

#[test]
fn three_nops_are_exactly_twelve_t_states() {
    let mut cpu = Cpu8080Cycle::new();
    let mut completions = 0;

    for _ in 0..12 {
        if cpu.tick(input(0x00, true)).instruction_complete {
            completions += 1;
        }
    }

    assert_eq!(completions, 3);
    assert_eq!(cpu.completed_instructions(), 3);
    assert_eq!(cpu.total_t_states(), 12);
    assert_eq!(cpu.registers().pc, 0x0003);
    assert_eq!(cpu.last_instruction_t_states(), Some(4));
}

#[test]
fn ready_low_inserts_tw_without_consuming_the_opcode() {
    let mut cpu = Cpu8080Cycle::new();

    cpu.tick(input(0x00, true)); // T1
    let t2 = cpu.tick(input(0x5a, false));
    assert_eq!(t2.t_state, TState::T2);
    assert!(t2.pins.dbin);
    assert_eq!(cpu.t_state(), TState::Tw);

    let tw1 = cpu.tick(input(0x5a, false));
    assert_eq!(tw1.t_state, TState::Tw);
    assert!(tw1.pins.wait);
    assert!(tw1.pins.dbin);
    assert_eq!(cpu.registers().pc, 0x0000);

    let tw2 = cpu.tick(input(0x5a, true));
    assert_eq!(tw2.t_state, TState::Tw);
    assert!(tw2.pins.wait);
    assert_eq!(cpu.t_state(), TState::T3);

    let t3 = cpu.tick(input(0x00, true));
    assert_eq!(t3.opcode, Some(0x00));
    assert_eq!(cpu.registers().pc, 0x0001);

    let t4 = cpu.tick(input(0x00, true));
    assert!(t4.instruction_complete);
    assert_eq!(t4.instruction_t_states, 6);
    assert_eq!(cpu.last_instruction_t_states(), Some(6));
}

#[test]
fn reset_restarts_fetch_at_zero_without_clearing_general_registers() {
    let mut cpu = Cpu8080Cycle::new();
    let mut registers = Registers::default();
    registers.a = 0x5a;
    registers.b = 0xa5;
    registers.pc = 0x4321;
    cpu.set_registers(registers);

    let reset = cpu.tick(Cpu8080Inputs {
        reset: true,
        ..Cpu8080Inputs::default()
    });
    assert!(reset.reset);
    assert_eq!(cpu.registers().pc, 0x0000);
    assert_eq!(cpu.registers().a, 0x5a);
    assert_eq!(cpu.registers().b, 0xa5);
    assert!(!cpu.interrupts_enabled());
    assert_eq!(cpu.t_state(), TState::T1);
    assert_eq!(cpu.pins(), Cpu8080Pins::default());

    let t1 = cpu.tick(Cpu8080Inputs::default());
    assert_eq!(t1.t_state, TState::T1);
    assert_eq!(t1.pins.address, Some(0x0000));
    assert_eq!(t1.pins.data_out, Some(0xA2));
}

#[test]
fn unsupported_opcode_faults_instead_of_becoming_an_implicit_nop() {
    let mut cpu = Cpu8080Cycle::new();

    cpu.tick(input(0x3e, true)); // T1
    cpu.tick(input(0x3e, true)); // T2
    cpu.tick(input(0x3e, true)); // T3, latch 3Eh
    let t4 = cpu.tick(input(0x00, true));

    assert_eq!(
        t4.fault,
        Some(Cpu8080CycleFault::UnsupportedOpcode(0x3e))
    );
    assert!(!t4.instruction_complete);
    assert_eq!(cpu.completed_instructions(), 0);
    assert_eq!(cpu.total_t_states(), 4);
}

fn fetch(cpu: &mut Cpu8080Cycle, opcode: u8) -> [TickTrace; 4] {
    [
        cpu.tick(input(0, true)),
        cpu.tick(input(0, true)),
        cpu.tick(input(opcode, true)),
        cpu.tick(input(0, true)),
    ]
}

#[test]
fn nop_remains_four_t_states() {
    let mut cpu = Cpu8080Cycle::new();
    let trace = fetch(&mut cpu, 0x00);
    assert!(trace[3].instruction_complete);
    assert_eq!(trace[3].instruction_t_states, 4);
    assert_eq!(cpu.registers().pc, 1);
}

#[test]
fn unsupported_hlt_remains_an_explicit_fault() {
    let mut cpu = Cpu8080Cycle::new();
    cpu.tick(input(0, true));
    cpu.tick(input(0, true));
    cpu.tick(input(0x76, true));
    let t4 = cpu.tick(input(0, true));
    assert_eq!(t4.fault, Some(Cpu8080CycleFault::UnsupportedOpcode(0x76)));
}

#[test]
fn reset_preserves_general_registers_but_restarts_at_zero() {
    let mut cpu = Cpu8080Cycle::new();
    let mut r = Registers::default();
    r.a = 0x5a;
    r.b = 0xa5;
    r.pc = 0x4321;
    cpu.set_registers(r);
    let reset = cpu.tick(Cpu8080Inputs { reset: true, ..Cpu8080Inputs::default() });
    assert!(reset.reset);
    assert_eq!(cpu.registers().pc, 0);
    assert_eq!(cpu.registers().a, 0x5a);
    assert_eq!(cpu.registers().b, 0xa5);
}

#[test]
fn power_on_seed_carries_interrupt_flip_flop_without_advancing_time() {
    let registers = Registers {
        a: 0x11,
        b: 0x22,
        c: 0x33,
        d: 0x44,
        e: 0x55,
        h: 0x66,
        l: 0x77,
        f: 0xd7,
        sp: 0x1234,
        pc: 0xabcd,
    };
    let mut cpu = Cpu8080Cycle::new();

    cpu.initialize_power_on_state(registers, true);

    assert_eq!(cpu.registers(), registers);
    assert!(cpu.interrupts_enabled());
    assert!(cpu.pins().inte);
    assert_eq!(cpu.total_t_states(), 0);
    assert_eq!(cpu.completed_instructions(), 0);
}
