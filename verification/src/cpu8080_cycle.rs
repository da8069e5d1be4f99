//! T-state-accurate Intel 8080 core.
//!
//! The engine implements the M1 opcode-fetch cycle, READY/TW insertion,
//! asynchronous RESET handling and opcode 00h (NOP). Every other opcode stops
//! at its execution state with an explicit fault instead of silently behaving
//! like a NOP.

use vstd::prelude::*;

pub mod pins;
pub mod timing;
pub mod state;
pub mod alu;
pub mod control_flow;
pub mod decode;

pub use pins::{Cpu8080Inputs, Cpu8080Pins};
use pins::spec_idle_pins;
pub use state::Registers;
use state::spec_default_registers;
pub use timing::{ClockEdge, MachineCycle, TState};
use timing::spec_status_word;
use decode::{decode, Instruction, spec_decode};

verus! {

#[derive(Clone, Copy, Debug, PartialEq, Eq, Structural)]
pub enum Cpu8080CycleFault {
    UnsupportedOpcode(u8),
}

/// Snapshot of the T-state that has just been executed.
///
/// `Cpu8080Cycle::tick` returns the externally visible pins for that state and
/// then advances the core to the next T-state, so `t_state()` reports what the
/// next call will execute.
#[derive(Clone, Copy, Debug, PartialEq, Eq, Structural)]
pub struct TickTrace {
    pub machine_cycle: MachineCycle,
    pub t_state: TState,
    pub pins: Cpu8080Pins,
    pub opcode: Option<u8>,
    pub instruction_complete: bool,
    pub reset: bool,
    pub fault: Option<Cpu8080CycleFault>,
    pub total_t_states: u64,
    pub instruction_t_states: u32,
}

/// The complete state of the cycle engine, as a mathematical value.
pub struct CycleState {
    pub registers: Registers,
    pub pins: Cpu8080Pins,
    pub machine_cycle: MachineCycle,
    pub t_state: TState,
    pub opcode: Option<u8>,
    pub instruction: Instruction,
    pub inte: bool,
    pub total_t_states: u64,
    pub completed_instructions: u64,
    pub current_instruction_t_states: u32,
    pub last_instruction_t_states: Option<u32>,
    pub reset_asserted: bool,
    pub fault: Option<Cpu8080CycleFault>,
}

pub struct Cpu8080Cycle {
    registers: Registers,
    pins: Cpu8080Pins,
    machine_cycle: MachineCycle,
    t_state: TState,
    opcode: Option<u8>,
    instruction: Instruction,
    inte: bool,
    total_t_states: u64,
    completed_instructions: u64,
    current_instruction_t_states: u32,
    last_instruction_t_states: Option<u32>,
    reset_asserted: bool,
    fault: Option<Cpu8080CycleFault>,
}

impl View for Cpu8080Cycle {
    type V = CycleState;

    closed spec fn view(&self) -> CycleState {
        CycleState {
            registers: self.registers,
            pins: self.pins,
            machine_cycle: self.machine_cycle,
            t_state: self.t_state,
            opcode: self.opcode,
            instruction: self.instruction,
            inte: self.inte,
            total_t_states: self.total_t_states,
            completed_instructions: self.completed_instructions,
            current_instruction_t_states: self.current_instruction_t_states,
            last_instruction_t_states: self.last_instruction_t_states,
            reset_asserted: self.reset_asserted,
            fault: self.fault,
        }
    }
}

/// `x + 1`, saturating at the type's maximum.
pub open spec fn sat_inc_u64(x: u64) -> u64 {
    if x < u64::MAX { (x + 1) as u64 } else { x }
}

pub open spec fn sat_inc_u32(x: u32) -> u32 {
    if x < u32::MAX { (x + 1) as u32 } else { x }
}

/// States the engine can be in: an opcode fetch in one of its T-states, with
/// a fault only ever recorded at the execution state T4.
pub open spec fn spec_wf(s: CycleState) -> bool {
    &&& s.machine_cycle == MachineCycle::InstructionFetch
    &&& (s.t_state == TState::T1 || s.t_state == TState::T2 || s.t_state == TState::Tw
        || s.t_state == TState::T3 || s.t_state == TState::T4)
    &&& (s.fault is Some ==> s.t_state == TState::T4)
}

/// The state of a freshly constructed core.
pub open spec fn spec_new_state() -> CycleState {
    CycleState {
        registers: spec_default_registers(),
        pins: spec_idle_pins(),
        machine_cycle: MachineCycle::InstructionFetch,
        t_state: TState::T1,
        opcode: None,
        instruction: Instruction::Nop,
        inte: false,
        total_t_states: 0,
        completed_instructions: 0,
        current_instruction_t_states: 0,
        last_instruction_t_states: None,
        reset_asserted: false,
        fault: None,
    }
}

/// State after the asynchronous RESET input: PC is zero, interrupts are
/// disabled and the core restarts an opcode fetch at T1. General-purpose
/// registers and the T-state/instruction counters are kept.
pub open spec fn spec_apply_reset(s: CycleState) -> CycleState {
    CycleState {
        registers: Registers { pc: 0, ..s.registers },
        inte: false,
        pins: spec_idle_pins(),
        machine_cycle: MachineCycle::InstructionFetch,
        t_state: TState::T1,
        opcode: None,
        instruction: Instruction::Nop,
        current_instruction_t_states: 0,
        last_instruction_t_states: None,
        reset_asserted: true,
        fault: None,
        ..s
    }
}

/// Package pins driven during `t`: T1 places PC and the fetch status word on
/// the buses with SYNC, T2/TW assert DBIN (TW also WAIT), T3/T4 drive nothing.
pub open spec fn spec_drive_pins(s: CycleState, t: TState) -> Cpu8080Pins {
    let base = Cpu8080Pins { inte: s.inte, hlda: false, wr_n: true, ..s.pins };
    match t {
        TState::T1 => Cpu8080Pins {
            address: Some(s.registers.pc),
            data_out: spec_status_word(s.machine_cycle),
            sync: true,
            dbin: false,
            wait: false,
            ..base
        },
        TState::T2 => Cpu8080Pins { data_out: None, sync: false, dbin: true, wait: false, ..base },
        TState::Tw => Cpu8080Pins { data_out: None, sync: false, dbin: true, wait: true, ..base },
        _ => Cpu8080Pins { data_out: None, sync: false, dbin: false, wait: false, ..base },
    }
}

/// One T-state of the engine: the next state and the trace of the T-state
/// just executed.
pub open spec fn spec_tick(s: CycleState, inputs: Cpu8080Inputs) -> (CycleState, TickTrace) {
    if inputs.reset {
        let r = spec_apply_reset(s);
        (
            r,
            TickTrace {
                machine_cycle: r.machine_cycle,
                t_state: r.t_state,
                pins: r.pins,
                opcode: None,
                instruction_complete: false,
                reset: true,
                fault: None,
                total_t_states: r.total_t_states,
                instruction_t_states: 0,
            },
        )
    } else if s.fault is Some {
        let r = CycleState { reset_asserted: false, ..s };
        (
            r,
            TickTrace {
                machine_cycle: s.machine_cycle,
                t_state: s.t_state,
                pins: s.pins,
                opcode: s.opcode,
                instruction_complete: false,
                reset: false,
                fault: s.fault,
                total_t_states: s.total_t_states,
                instruction_t_states: s.current_instruction_t_states,
            },
        )
    } else {
        let t = s.t_state;
        let fetch_start = s.machine_cycle == MachineCycle::InstructionFetch && t == TState::T1;
        let s1 = CycleState {
            reset_asserted: false,
            opcode: if fetch_start { None } else { s.opcode },
            instruction: if fetch_start { Instruction::Nop } else { s.instruction },
            ..s
        };
        let s2 = CycleState {
            pins: spec_drive_pins(s1, t),
            total_t_states: sat_inc_u64(s1.total_t_states),
            current_instruction_t_states: sat_inc_u32(s1.current_instruction_t_states),
            ..s1
        };
        let elapsed = s2.current_instruction_t_states;
        let (s3, complete, fault) = match t {
            TState::T1 => (CycleState { t_state: TState::T2, ..s2 }, false, None),
            TState::T2 | TState::Tw => (
                CycleState { t_state: if inputs.ready { TState::T3 } else { TState::Tw }, ..s2 },
                false,
                None,
            ),
            TState::T3 => (
                CycleState {
                    opcode: Some(inputs.data_in),
                    instruction: spec_decode(inputs.data_in),
                    registers: Registers {
                        pc: ((s2.registers.pc + 1) % 0x10000) as u16,
                        ..s2.registers
                    },
                    t_state: TState::T4,
                    ..s2
                },
                false,
                None,
            ),
            _ => match s2.instruction {
                Instruction::Nop => (
                    CycleState {
                        completed_instructions: sat_inc_u64(s2.completed_instructions),
                        last_instruction_t_states: Some(elapsed),
                        current_instruction_t_states: 0,
                        machine_cycle: MachineCycle::InstructionFetch,
                        t_state: TState::T1,
                        ..s2
                    },
                    true,
                    None,
                ),
                _ => {
                    let f = Cpu8080CycleFault::UnsupportedOpcode(
                        match s2.opcode {
                            Some(op) => op,
                            None => 0,
                        },
                    );
                    (CycleState { fault: Some(f), ..s2 }, false, Some(f))
                },
            },
        };
        (
            s3,
            TickTrace {
                machine_cycle: s.machine_cycle,
                t_state: t,
                pins: s3.pins,
                opcode: s3.opcode,
                instruction_complete: complete,
                reset: false,
                fault,
                total_t_states: s3.total_t_states,
                instruction_t_states: elapsed,
            },
        )
    }
}

impl Cpu8080Cycle {
    /// The engine states reachable through the public operations.
    pub closed spec fn wf(&self) -> bool {
        spec_wf(self@) && (self.instruction is Nop || self.opcode is Some || self.t_state
            != TState::T4)
    }

    pub fn new() -> (r: Self)
        ensures
            r@ == spec_new_state(),
            r.wf(),
    {
        Cpu8080Cycle {
            registers: Registers::default(),
            pins: Cpu8080Pins::default(),
            machine_cycle: MachineCycle::InstructionFetch,
            t_state: TState::T1,
            opcode: None,
            instruction: Instruction::Nop,
            inte: false,
            total_t_states: 0,
            completed_instructions: 0,
            current_instruction_t_states: 0,
            last_instruction_t_states: None,
            reset_asserted: false,
            fault: None,
        }
    }

    pub fn registers(&self) -> (r: Registers)
        ensures
            r == self@.registers,
    {
        self.registers
    }

    /// Seed programmer-visible state for isolated tests. Call this only at an
    /// instruction boundary.
    pub fn set_registers(&mut self, registers: Registers)
        requires
            old(self).wf(),
        ensures
            final(self)@ == (CycleState { registers, ..old(self)@ }),
            final(self).wf(),
    {
        self.registers = registers;
    }

    pub fn pins(&self) -> (r: Cpu8080Pins)
        ensures
            r == self@.pins,
    {
        self.pins
    }

    pub fn machine_cycle(&self) -> (r: MachineCycle)
        ensures
            r == self@.machine_cycle,
    {
        self.machine_cycle
    }

    pub fn t_state(&self) -> (r: TState)
        ensures
            r == self@.t_state,
    {
        self.t_state
    }

    pub fn total_t_states(&self) -> (r: u64)
        ensures
            r == self@.total_t_states,
    {
        self.total_t_states
    }

    pub fn completed_instructions(&self) -> (r: u64)
        ensures
            r == self@.completed_instructions,
    {
        self.completed_instructions
    }

    pub fn last_instruction_t_states(&self) -> (r: Option<u32>)
        ensures
            r == self@.last_instruction_t_states,
    {
        self.last_instruction_t_states
    }

    pub fn interrupts_enabled(&self) -> (r: bool)
        ensures
            r == self@.inte,
    {
        self.inte
    }

    pub fn fault(&self) -> (r: Option<Cpu8080CycleFault>)
        ensures
            r == self@.fault,
    {
        self.fault
    }

    /// Seed the undefined processor state that exists immediately after power
    /// is applied (registers and the interrupt-enable flip-flop), before any
    /// T-state has run.
    pub fn initialize_power_on_state(&mut self, registers: Registers, inte: bool)
        requires
            old(self).wf(),
            old(self)@.total_t_states == 0,
            old(self)@.completed_instructions == 0,
        ensures
            final(self)@ == (CycleState {
                registers,
                inte,
                pins: Cpu8080Pins { inte, ..old(self)@.pins },
                ..old(self)@
            }),
            final(self).wf(),
    {
        self.registers = registers;
        self.inte = inte;
        self.pins.inte = inte;
    }

    /// Advance exactly one Intel 8080 T-state.
    pub fn tick(&mut self, inputs: Cpu8080Inputs) -> (trace: TickTrace)
        requires
            old(self).wf(),
        ensures
            (final(self)@, trace) == spec_tick(old(self)@, inputs),
            final(self).wf(),
    {
        if inputs.reset {
            self.apply_reset();
            return TickTrace {
                machine_cycle: self.machine_cycle,
                t_state: self.t_state,
                pins: self.pins,
                opcode: None,
                instruction_complete: false,
                reset: true,
                fault: None,
                total_t_states: self.total_t_states,
                instruction_t_states: 0,
            };
        }
        if self.reset_asserted {
            // RESET is asynchronous. Once it is released the next clocked
            // state starts a fresh M1/T1 fetch from address 0000h.
            self.reset_asserted = false;
        }
        if let Some(fault) = self.fault {
            return TickTrace {
                machine_cycle: self.machine_cycle,
                t_state: self.t_state,
                pins: self.pins,
                opcode: self.opcode,
                instruction_complete: false,
                reset: false,
                fault: Some(fault),
                total_t_states: self.total_t_states,
                instruction_t_states: self.current_instruction_t_states,
            };
        }
        let machine_cycle = self.machine_cycle;
        let t_state = self.t_state;
        if machine_cycle == MachineCycle::InstructionFetch && t_state == TState::T1 {
            self.opcode = None;
            self.instruction = Instruction::Nop;
        }
        self.drive_pins_for_t_state(t_state);
        self.total_t_states = if self.total_t_states < u64::MAX {
            self.total_t_states + 1
        } else {
            self.total_t_states
        };
        self.current_instruction_t_states = if self.current_instruction_t_states < u32::MAX {
            self.current_instruction_t_states + 1
        } else {
            self.current_instruction_t_states
        };
        let instruction_t_states = self.current_instruction_t_states;
        let mut instruction_complete = false;
        let mut fault = None;
        match t_state {
            TState::T1 => {
                self.t_state = TState::T2;
            },
            TState::T2 | TState::Tw => {
                self.t_state = if inputs.ready { TState::T3 } else { TState::Tw };
            },
            TState::T3 => {
                // DBIN falls at the T3 boundary while the incoming byte is
                // latched into IR; PC advances past the fetched opcode.
                self.opcode = Some(inputs.data_in);
                self.instruction = decode(inputs.data_in);
                self.registers.pc = ((self.registers.pc as u32 + 1) % 0x10000) as u16;
                self.t_state = TState::T4;
            },
            _ => {
                match self.instruction {
                    Instruction::Nop => {
                        instruction_complete = true;
                        self.completed_instructions = if self.completed_instructions < u64::MAX {
                            self.completed_instructions + 1
                        } else {
                            self.completed_instructions
                        };
                        self.last_instruction_t_states = Some(self.current_instruction_t_states);
                        self.current_instruction_t_states = 0;
                        self.machine_cycle = MachineCycle::InstructionFetch;
                        self.t_state = TState::T1;
                    },
                    _ => {
                        let opcode = match self.opcode {
                            Some(op) => op,
                            None => 0,
                        };
                        let unsupported = Cpu8080CycleFault::UnsupportedOpcode(opcode);
                        self.fault = Some(unsupported);
                        fault = Some(unsupported);
                    },
                }
            },
        }
        TickTrace {
            machine_cycle,
            t_state,
            pins: self.pins,
            opcode: self.opcode,
            instruction_complete,
            reset: false,
            fault,
            total_t_states: self.total_t_states,
            instruction_t_states,
        }
    }

    fn apply_reset(&mut self)
        ensures
            final(self)@ == spec_apply_reset(old(self)@),
    {
        // General-purpose registers are intentionally not cleared: their
        // post-reset contents are not architecturally guaranteed.
        self.registers.pc = 0;
        self.inte = false;
        self.pins = Cpu8080Pins::default();
        self.machine_cycle = MachineCycle::InstructionFetch;
        self.t_state = TState::T1;
        self.opcode = None;
        self.instruction = Instruction::Nop;
        self.current_instruction_t_states = 0;
        self.last_instruction_t_states = None;
        self.reset_asserted = true;
        self.fault = None;
    }

    fn drive_pins_for_t_state(&mut self, t_state: TState)
        ensures
            final(self)@ == (CycleState { pins: spec_drive_pins(old(self)@, t_state), ..old(self)@ }),
    {
        self.pins.inte = self.inte;
        self.pins.hlda = false;
        self.pins.wr_n = true;
        match t_state {
            TState::T1 => {
                self.pins.address = Some(self.registers.pc);
                self.pins.data_out = self.machine_cycle.status_word();
                self.pins.sync = true;
                self.pins.dbin = false;
                self.pins.wait = false;
            },
            TState::T2 => {
                self.pins.data_out = None;
                self.pins.sync = false;
                self.pins.dbin = true;
                self.pins.wait = false;
            },
            TState::Tw => {
                self.pins.data_out = None;
                self.pins.sync = false;
                self.pins.dbin = true;
                self.pins.wait = true;
            },
            _ => {
                self.pins.data_out = None;
                self.pins.sync = false;
                self.pins.dbin = false;
                self.pins.wait = false;
            },
        }
    }
}

impl Default for Cpu8080Cycle {
    fn default() -> (r: Self)
        ensures
            r@ == spec_new_state(),
            r.wf(),
    {
        Cpu8080Cycle::new()
    }
}

/// A NOP fetched at a clean instruction boundary with READY high takes
/// exactly four T-states (T1..T4), advances PC by one, leaves every other
/// register unchanged and returns to T1 of the next fetch.
pub proof fn lemma_nop_is_four_t_states(s0: CycleState, other_data: u8, nop: u8)
    requires
        spec_wf(s0),
        s0.t_state == TState::T1,
        (s0.fault is None),
        s0.current_instruction_t_states == 0,
        s0.completed_instructions < u64::MAX,
        s0.total_t_states < u64::MAX - 4,
        spec_decode(nop) == Instruction::Nop,
    ensures
        ({
            let ready = |data: u8| Cpu8080Inputs { data_in: data, ready: true, interrupt: false, hold: false, reset: false };
            let (s1, t1) = spec_tick(s0, ready(other_data));
            let (s2, t2) = spec_tick(s1, ready(other_data));
            let (s3, t3) = spec_tick(s2, ready(nop));
            let (s4, t4) = spec_tick(s3, ready(other_data));
            &&& !t1.instruction_complete && !t2.instruction_complete && !t3.instruction_complete
            &&& t4.instruction_complete
            &&& t4.instruction_t_states == 4
            &&& s4.last_instruction_t_states == Some(4u32)
            &&& s4.t_state == TState::T1
            &&& s4.total_t_states == s0.total_t_states + 4
            &&& s4.completed_instructions == s0.completed_instructions + 1
            &&& s4.registers == Registers { pc: ((s0.registers.pc + 1) % 0x10000) as u16, ..s0.registers }
            &&& t1.pins.address == Some(s0.registers.pc)
            &&& t1.pins.data_out == Some(0xA2u8)
            &&& t1.pins.sync
            &&& t2.pins.dbin
            &&& t3.opcode == Some(nop)
        }),
{
}

/// READY low during T2 or TW keeps the processor in TW with WAIT asserted
/// and DBIN held, without consuming the data bus or changing registers.
pub proof fn lemma_ready_low_inserts_wait(s: CycleState, inputs: Cpu8080Inputs)
    requires
        spec_wf(s),
        (s.fault is None),
        s.t_state == TState::T2 || s.t_state == TState::Tw,
        !inputs.reset,
        !inputs.ready,
    ensures
        spec_tick(s, inputs).0.t_state == TState::Tw,
        spec_tick(s, inputs).0.registers == s.registers,
        spec_tick(s, inputs).0.opcode == s.opcode,
        spec_tick(s, inputs).1.pins.dbin,
        s.t_state == TState::Tw ==> spec_tick(s, inputs).1.pins.wait,
{
}

/// RESET restarts execution at address zero with interrupts disabled, while
/// every general-purpose register, SP and the flags keep their contents.
pub proof fn lemma_reset_preserves_general_registers(s: CycleState, inputs: Cpu8080Inputs)
    requires
        inputs.reset,
    ensures
        spec_tick(s, inputs).0.registers == (Registers { pc: 0, ..s.registers }),
        !spec_tick(s, inputs).0.inte,
        spec_tick(s, inputs).0.t_state == TState::T1,
        (spec_tick(s, inputs).0.fault is None),
        spec_tick(s, inputs).0.pins == spec_idle_pins(),
        spec_tick(s, inputs).1.reset,
{
}

/// Once the core has faulted, every clock without RESET leaves the machine
/// state (registers, counters, pins) untouched and reports the same fault.
pub proof fn lemma_fault_is_sticky(s: CycleState, inputs: Cpu8080Inputs)
    requires
        (s.fault is Some),
        !inputs.reset,
    ensures
        spec_tick(s, inputs).0 == (CycleState { reset_asserted: false, ..s }),
        spec_tick(s, inputs).1.fault == s.fault,
        !spec_tick(s, inputs).1.instruction_complete,
{
}

/// Every clocked T-state of a running (non-faulted) core counts exactly one
/// T-state, up to saturation.
pub proof fn lemma_tick_counts_one_t_state(s: CycleState, inputs: Cpu8080Inputs)
    requires
        spec_wf(s),
        (s.fault is None),
        !inputs.reset,
    ensures
        spec_tick(s, inputs).0.total_t_states == sat_inc_u64(s.total_t_states),
        spec_tick(s, inputs).1.total_t_states == sat_inc_u64(s.total_t_states),
{
}

/// Any opcode other than the NOP encodings stops at T4 with an explicit
/// fault naming that opcode instead of completing.
pub proof fn lemma_non_nop_opcode_faults(s: CycleState, inputs: Cpu8080Inputs, opcode: u8)
    requires
        spec_wf(s),
        (s.fault is None),
        s.t_state == TState::T4,
        s.opcode == Some(opcode),
        s.instruction == spec_decode(opcode),
        spec_decode(opcode) != Instruction::Nop,
        !inputs.reset,
    ensures
        spec_tick(s, inputs).0.fault == Some(Cpu8080CycleFault::UnsupportedOpcode(opcode)),
        spec_tick(s, inputs).1.fault == Some(Cpu8080CycleFault::UnsupportedOpcode(opcode)),
        !spec_tick(s, inputs).1.instruction_complete,
        spec_tick(s, inputs).0.completed_instructions == s.completed_instructions,
{
}

} // verus!
