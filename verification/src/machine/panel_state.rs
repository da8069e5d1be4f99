//! The backplane state the front panel watches: the S-100 signals as the
//! CPU board and the panel drive them, and the lamp duty counted since the
//! last freeze.

use vstd::prelude::*;
use crate::machine::panel_bus::{
    BusOwner, S100Signals, STATUS_INSTRUCTION_FETCH, lemma_fetch_status_lines, spec_apply_status, spec_assert_reset,
    spec_common_mask, spec_cpu_cycle_lines, spec_cpu_t_state, spec_cycle_data, spec_default_signals,
    spec_deposit, spec_packed, spec_power_on, spec_recompute_ready, spec_release_reset, spec_set_ready,
};
use crate::machine::panel_duty::{
    PanelLampIntegrator, counter, spec_cleared, spec_integrator_wf, spec_sampled, spec_two_phase_sampled,
};

verus! {

/// The backplane signals and the lamp duty gathered since the last freeze.
pub struct S100BusState {
    pub signals: S100Signals,
    pub lamps: PanelLampIntegrator,
}

impl S100BusState {
    /// The lamp duty counters and total weight.
    pub open spec fn duty(&self) -> (Seq<u64>, u64) {
        self.lamps@
    }

    pub open spec fn wf(&self) -> bool {
        spec_integrator_wf(self.duty())
    }
}

impl S100Signals {
    fn recomputed_ready(self) -> (r: S100Signals)
        ensures
            r == spec_recompute_ready(self),
    {
        S100Signals { ready: self.front_panel_ready && self.memory_ready, ..self }
    }

    fn with_ready(self, ready: bool) -> (r: S100Signals)
        ensures
            r == spec_set_ready(self, ready),
    {
        S100Signals {
            front_panel_ready: ready,
            memory_ready: true,
            ready,
            wait: !ready && !self.reset,
            ..self
        }
    }

    fn with_cycle_data(self, data: u8, reads: bool, writes: bool) -> (r: S100Signals)
        ensures
            r == spec_cycle_data(self, data, reads, writes),
    {
        S100Signals {
            cpu_data: if reads || writes {
                Some(data)
            } else {
                None
            },
            data_in: if reads {
                Some(data)
            } else {
                None
            },
            data_out: if !reads && writes {
                Some(data)
            } else {
                None
            },
            panel_data: if reads {
                data
            } else {
                self.panel_data
            },
            ..self
        }
    }

    fn with_cpu_cycle_lines(self, address: u16, protected: bool, inte: bool, ready: bool, wait: bool) -> (r:
        S100Signals)
        ensures
            r == spec_cpu_cycle_lines(self, address, protected, inte, ready, wait),
    {
        S100Signals {
            reset: false,
            inte,
            ready,
            wait,
            hlda: false,
            owner: BusOwner::Cpu,
            address,
            prot: protected,
            ..self
        }
    }
    fn with_status(self, word: u8) -> (r: S100Signals)
        ensures
            r == spec_apply_status(self, word),
    {
        S100Signals {
            memr: word & 0x80 != 0,
            inp: word & 0x40 != 0,
            m1: word & 0x20 != 0,
            out: word & 0x10 != 0,
            hlta: word & 0x08 != 0,
            stack: word & 0x04 != 0,
            wo: word & 0x02 != 0,
            int_ack: word & 0x01 != 0,
            ..self
        }
    }
}

impl S100BusState {
    pub fn new() -> (r: Self)
        ensures
            r.signals == spec_default_signals(),
            spec_cleared(r.duty()),
    {
        S100BusState { signals: S100Signals::default(), lamps: PanelLampIntegrator::new() }
    }

    pub fn signals(&self) -> (r: S100Signals)
        ensures
            r == self.signals,
    {
        self.signals
    }

    /// Weight sampled since the last freeze.
    pub fn total_weight(&self) -> (r: u64)
        ensures
            r == self.duty().1,
    {
        self.lamps.total_weight()
    }

    /// Weight during which packed lamp line `packed_bit` was on.
    pub fn duty_count(&self, packed_bit: u64) -> (r: u64)
        requires
            self.wf(),
            packed_bit < 64,
        ensures
            r == counter(self.duty().0, packed_bit as nat),
    {
        self.lamps.packed_count(packed_bit)
    }

    pub fn power_off(&mut self)
        requires
            old(self).wf(),
        ensures
            final(self).signals == spec_default_signals(),
            spec_cleared(final(self).duty()),
    {
        self.signals = S100Signals::default();
        self.lamps.clear_activity();
    }

    pub fn set_inte(&mut self, enabled: bool)
        ensures
            final(self).signals == (S100Signals { inte: enabled, ..old(self).signals }),
            final(self).duty() == old(self).duty(),
    {
        self.signals = S100Signals { inte: enabled, ..self.signals };
    }

    pub fn set_run(&mut self, run: bool)
        ensures
            final(self).signals == (S100Signals { run, ..old(self).signals }),
            final(self).duty() == old(self).duty(),
    {
        self.signals = S100Signals { run, ..self.signals };
    }

    pub fn set_ready(&mut self, ready: bool)
        ensures
            final(self).signals == spec_set_ready(old(self).signals, ready),
            final(self).duty() == old(self).duty(),
    {
        self.signals = self.signals.with_ready(ready);
    }

    /// READY is wired from the front panel and the memory boards together.
    pub fn set_ready_input(&mut self, ready: bool)
        ensures
            final(self).signals == spec_recompute_ready(
                S100Signals { front_panel_ready: ready, ..old(self).signals },
            ),
            final(self).duty() == old(self).duty(),
    {
        self.signals = S100Signals { front_panel_ready: ready, ..self.signals }.recomputed_ready();
    }

    pub fn set_memory_ready_input(&mut self, ready: bool)
        ensures
            final(self).signals == spec_recompute_ready(
                S100Signals { memory_ready: ready, ..old(self).signals },
            ),
            final(self).duty() == old(self).duty(),
    {
        self.signals = S100Signals { memory_ready: ready, ..self.signals }.recomputed_ready();
    }

    pub fn set_interrupt_request(&mut self, asserted: bool)
        ensures
            final(self).signals == (S100Signals { interrupt: asserted, ..old(self).signals }),
            final(self).duty() == old(self).duty(),
    {
        self.signals = S100Signals { interrupt: asserted, ..self.signals };
    }

    /// Dropping HOLD also drops the acknowledge.
    pub fn set_hold(&mut self, hold: bool)
        ensures
            final(self).signals == (S100Signals {
                hold,
                hlda: if hold {
                    old(self).signals.hlda
                } else {
                    false
                },
                ..old(self).signals
            }),
            final(self).duty() == old(self).duty(),
    {
        self.signals = S100Signals {
            hold,
            hlda: if hold {
                self.signals.hlda
            } else {
                false
            },
            ..self.signals
        };
    }

    pub fn set_hlda(&mut self, ack: bool)
        ensures
            final(self).signals == (S100Signals { hlda: ack, ..old(self).signals }),
            final(self).duty() == old(self).duty(),
    {
        self.signals = S100Signals { hlda: ack, ..self.signals };
    }

    pub fn set_ext_clear(&mut self, asserted: bool)
        ensures
            final(self).signals == (S100Signals { ext_clear: asserted, ..old(self).signals }),
            final(self).duty() == old(self).duty(),
    {
        self.signals = S100Signals { ext_clear: asserted, ..self.signals };
    }

    /// The clock and strobe lines the CPU board drives at one clock edge;
    /// CLOC follows PHI1 high and PHI2 low.
    pub fn drive_cpu_board_edge(&mut self, phi1: bool, phi2: bool, psync: bool, pdbin: bool, pwr_n: bool)
        ensures
            final(self).signals == (S100Signals {
                phi1: Some(phi1),
                phi2: Some(phi2),
                cloc: if phi1 {
                    Some(true)
                } else if phi2 {
                    Some(false)
                } else {
                    old(self).signals.cloc
                },
                psync,
                pdbin,
                pwr_n,
                ..old(self).signals
            }),
            final(self).duty() == old(self).duty(),
    {
        self.signals = S100Signals {
            phi1: Some(phi1),
            phi2: Some(phi2),
            cloc: if phi1 {
                Some(true)
            } else if phi2 {
                Some(false)
            } else {
                self.signals.cloc
            },
            psync,
            pdbin,
            pwr_n,
            ..self.signals
        };
    }

    /// The 8212 status latch takes the status word.
    pub fn latch_cpu_status(&mut self, word: u8)
        ensures
            final(self).signals == spec_apply_status(old(self).signals, word),
            final(self).duty() == old(self).duty(),
    {
        self.signals = self.signals.with_status(word);
    }

    /// A whole machine cycle at once, its status latched from the start.
    pub fn drive_reconstructed_cpu_cycle(
        &mut self,
        address: u16,
        data: u8,
        status_word: u8,
        t_states: u32,
        reads: bool,
        writes: bool,
        protected: bool,
        inte: bool,
        ready: bool,
        wait: bool,
    )
        requires
            old(self).wf(),
        ensures
            ({
                let s = old(self).signals;
                let latched = spec_apply_status(
                    spec_cpu_cycle_lines(s, address, protected, inte, ready, wait),
                    status_word,
                );
                let rest_data = if reads {
                    data
                } else {
                    s.panel_data
                };
                &&& final(self).signals == spec_cycle_data(latched, data, reads, writes)
                &&& spec_two_phase_sampled(
                    old(self).duty(),
                    final(self).duty(),
                    spec_common_mask(latched) | ((s.panel_data as u64) << 16u64),
                    spec_common_mask(latched) | ((rest_data as u64) << 16u64),
                    t_states as u64,
                )
            }),
    {
        let first = self.signals.panel_data;
        let latched = self.signals.with_cpu_cycle_lines(address, protected, inte, ready, wait).with_status(
            status_word,
        );
        let common = (address as u64) | ((latched.lamp_mask() as u64) << 24u64);
        let final_data = if reads {
            data
        } else {
            first
        };
        self.lamps.sample_reconstructed_cycle(common, first, final_data, t_states, reads);
        self.signals = latched.with_cycle_data(data, reads, writes);
    }

    /// A whole machine cycle at once, its first T-state showing the status
    /// from before the 8212 latches the new one.
    pub fn drive_cycle_full_reconstructed_cpu_cycle(
        &mut self,
        address: u16,
        data: u8,
        status_word: u8,
        t_states: u32,
        reads: bool,
        writes: bool,
        protected: bool,
        inte: bool,
        ready: bool,
        wait: bool,
    )
        requires
            old(self).wf(),
        ensures
            ({
                let s = old(self).signals;
                let lines = spec_cpu_cycle_lines(s, address, protected, inte, ready, wait);
                let latched = spec_apply_status(lines, status_word);
                let rest_data = if reads {
                    data
                } else {
                    s.panel_data
                };
                &&& final(self).signals == spec_cycle_data(latched, data, reads, writes)
                &&& spec_two_phase_sampled(
                    old(self).duty(),
                    final(self).duty(),
                    spec_common_mask(lines) | ((s.panel_data as u64) << 16u64),
                    spec_common_mask(latched) | ((rest_data as u64) << 16u64),
                    t_states as u64,
                )
            }),
    {
        let first = self.signals.panel_data;
        let lines = self.signals.with_cpu_cycle_lines(address, protected, inte, ready, wait);
        let first_common = (address as u64) | ((lines.lamp_mask() as u64) << 24u64);
        let latched = lines.with_status(status_word);
        let latched_common = (address as u64) | ((latched.lamp_mask() as u64) << 24u64);
        let final_data = if reads {
            data
        } else {
            first
        };
        self.lamps.sample_reconstructed_cycle_with_latched_status(
            first_common,
            latched_common,
            first,
            final_data,
            t_states,
            reads,
        );
        self.signals = latched.with_cycle_data(data, reads, writes);
    }

    /// Internal T-states: the CPU drives no data, and the lamps keep showing
    /// the latched status.
    pub fn drive_cycle_full_internal_t_states(&mut self, t_states: u32, inte: bool, ready: bool, wait: bool)
        requires
            old(self).wf(),
        ensures
            t_states == 0 ==> final(self).signals == old(self).signals && final(self).duty() == old(
                self,
            ).duty(),
            t_states > 0 ==> ({
                let s = S100Signals {
                    reset: false,
                    inte,
                    ready,
                    wait,
                    hlda: false,
                    owner: BusOwner::Cpu,
                    cpu_data: None,
                    data_in: None,
                    data_out: None,
                    ..old(self).signals
                };
                &&& final(self).signals == s
                &&& spec_sampled(old(self).duty(), final(self).duty(), spec_packed(s), t_states as u64)
            }),
    {
        if t_states == 0 {
            return ;
        }
        let s = S100Signals {
            reset: false,
            inte,
            ready,
            wait,
            hlda: false,
            owner: BusOwner::Cpu,
            cpu_data: None,
            data_in: None,
            data_out: None,
            ..self.signals
        };
        self.signals = s;
        let packed = s.packed_lamp_activity();
        self.lamps.sample(packed, t_states);
    }

    /// One T-state from the CPU board; it is counted once in the lamp duty.
    pub fn drive_cpu_t_state(
        &mut self,
        address: Option<u16>,
        cpu_data: Option<u8>,
        data_in: Option<u8>,
        data_out: Option<u8>,
        status_word: Option<u8>,
        protected: bool,
        inte: bool,
        ready: bool,
        wait: bool,
        hlda: bool,
    )
        requires
            old(self).wf(),
        ensures
            final(self).signals == spec_cpu_t_state(
                old(self).signals,
                address,
                cpu_data,
                data_in,
                data_out,
                status_word,
                protected,
                inte,
                ready,
                wait,
                hlda,
            ),
            spec_sampled(old(self).duty(), final(self).duty(), spec_packed(final(self).signals), 1),
    {
        let old_signals = self.signals;
        let panel_data = match data_in {
            Some(d) => d,
            None => old_signals.panel_data,
        };
        let s = if hlda {
            S100Signals {
                reset: false,
                inte,
                ready,
                wait,
                hlda,
                cpu_data: None,
                data_in: None,
                data_out: None,
                panel_data,
                owner: BusOwner::NoOwner,
                prot: false,
                memr: false,
                inp: false,
                m1: false,
                out: false,
                hlta: false,
                stack: false,
                wo: false,
                int_ack: false,
                ..old_signals
            }
        } else {
            let (address_now, prot_now) = match address {
                Some(a) => (a, protected),
                None => (old_signals.address, old_signals.prot),
            };
            let driven = S100Signals {
                reset: false,
                inte,
                ready,
                wait,
                hlda,
                cpu_data,
                data_in,
                data_out,
                panel_data,
                owner: BusOwner::Cpu,
                address: address_now,
                prot: prot_now,
                ..old_signals
            };
            match status_word {
                Some(word) => driven.with_status(word),
                None => driven,
            }
        };
        self.signals = s;
        let packed = s.packed_lamp_activity();
        self.lamps.sample(packed, 1);
    }

    pub fn assert_front_panel_reset(&mut self, run: bool)
        requires
            old(self).wf(),
        ensures
            final(self).signals == spec_assert_reset(old(self).signals, run),
            spec_cleared(final(self).duty()),
    {
        self.signals = S100Signals {
            reset: true,
            owner: BusOwner::FrontPanel,
            address: 0xffff,
            data_in: Some(0xff),
            data_out: None,
            cpu_data: None,
            panel_data: 0xff,
            inte: false,
            prot: false,
            psync: false,
            pdbin: false,
            pwr_n: true,
            memr: false,
            inp: false,
            m1: false,
            out: false,
            hlta: false,
            stack: false,
            wo: false,
            int_ack: false,
            run,
            front_panel_ready: run,
            memory_ready: true,
            ready: run,
            wait: false,
            hlda: false,
            ..self.signals
        };
        self.lamps.clear_activity();
    }

    pub fn release_front_panel_reset(&mut self, address: u16, data: u8, protected: bool, inte: bool, run: bool)
        requires
            old(self).wf(),
        ensures
            final(self).signals == spec_release_reset(old(self).signals, address, data, protected, inte, run),
            spec_cleared(final(self).duty()),
    {
        let fetch = STATUS_INSTRUCTION_FETCH;
        proof {
            lemma_fetch_status_lines();
        }
        self.signals = S100Signals {
            reset: false,
            owner: BusOwner::Cpu,
            address,
            data_in: Some(data),
            data_out: None,
            cpu_data: if !run {
                Some(data)
            } else {
                None
            },
            panel_data: data,
            prot: protected,
            inte,
            run,
            psync: false,
            pdbin: !run,
            pwr_n: true,
            memr: true && fetch & 0x80 != 0,
            inp: true && fetch & 0x40 != 0,
            m1: true && fetch & 0x20 != 0,
            out: true && fetch & 0x10 != 0,
            hlta: true && fetch & 0x08 != 0,
            stack: true && fetch & 0x04 != 0,
            wo: true && fetch & 0x02 != 0,
            int_ack: true && fetch & 0x01 != 0,
            front_panel_ready: run,
            memory_ready: true,
            ready: run,
            wait: !run,
            hlda: false,
            ..self.signals
        };
        self.lamps.clear_activity();
    }

    pub fn drive_power_on_state(&mut self, address: u16, data: u8, protected: bool, inte: bool, run: bool)
        requires
            old(self).wf(),
        ensures
            final(self).signals == spec_power_on(old(self).signals, address, data, protected, inte, run),
            spec_cleared(final(self).duty()),
    {
        let fetch = STATUS_INSTRUCTION_FETCH;
        proof {
            lemma_fetch_status_lines();
        }
        self.signals = S100Signals {
            reset: false,
            owner: BusOwner::Cpu,
            address,
            data_in: Some(data),
            data_out: None,
            cpu_data: if !run {
                Some(data)
            } else {
                None
            },
            panel_data: data,
            prot: protected,
            inte,
            run,
            psync: false,
            pdbin: !run,
            pwr_n: true,
            memr: !run && fetch & 0x80 != 0,
            inp: !run && fetch & 0x40 != 0,
            m1: !run && fetch & 0x20 != 0,
            out: !run && fetch & 0x10 != 0,
            hlta: !run && fetch & 0x08 != 0,
            stack: !run && fetch & 0x04 != 0,
            wo: !run && fetch & 0x02 != 0,
            int_ack: !run && fetch & 0x01 != 0,
            front_panel_ready: run,
            memory_ready: true,
            ready: run,
            wait: !run,
            hlda: self.signals.hlda,
            ..self.signals
        };
        self.lamps.clear_activity();
    }

    pub fn drive_front_panel_deposit(&mut self, address: u16, data: u8, protected: bool, inte: bool)
        requires
            old(self).wf(),
        ensures
            final(self).signals == spec_deposit(old(self).signals, address, data, protected, inte),
            spec_cleared(final(self).duty()),
    {
        self.signals = S100Signals {
            reset: false,
            owner: BusOwner::FrontPanel,
            address,
            cpu_data: Some(data),
            data_in: None,
            data_out: Some(data),
            prot: protected,
            inte,
            psync: false,
            pdbin: false,
            pwr_n: true,
            memr: false,
            inp: false,
            m1: false,
            out: false,
            hlta: false,
            stack: false,
            wo: false,
            int_ack: false,
            front_panel_ready: false,
            memory_ready: true,
            ready: false,
            wait: true,
            ..self.signals
        };
        self.lamps.clear_activity();
    }

    pub fn refresh_protect(&mut self, protected: bool)
        ensures
            final(self).signals == (S100Signals { prot: protected, ..old(self).signals }),
            final(self).duty() == old(self).duty(),
    {
        self.signals = S100Signals { prot: protected, ..self.signals };
    }

    /// Starts a new duty interval from the present signals.
    pub fn freeze(&mut self)
        requires
            old(self).wf(),
        ensures
            final(self).signals == old(self).signals,
            spec_cleared(final(self).duty()),
    {
        self.lamps.clear_activity();
    }
}

impl Default for S100BusState {
    fn default() -> (r: Self)
        ensures
            r.signals == spec_default_signals(),
            spec_cleared(r.duty()),
    {
        S100BusState::new()
    }
}

} // verus!
