//! Instruction and T-state meter for CP/M CPU diagnostics.
//!
//! A diagnostic `.COM` program starts at 0100h and ends by jumping to the
//! warm-boot vector at 0000h. The real BDOS body is replaced in the counts by
//! the reference stub: a `CALL 5` plus `JMP` costs two instructions and
//! 20 T-states however long the installed BDOS routine actually runs, and the
//! final warm-boot `JMP 0` costs one instruction and 10 T-states.

use vstd::prelude::*;
use crate::machine::fd400::sat_add;

verus! {

/// What a finished diagnostic run reports.
#[derive(Clone, Debug)]
pub struct CpuDiagnosticResult {
    pub name: String,
    pub instructions: u64,
    pub t_states: u64,
    pub expected_instructions: Option<u64>,
    pub expected_t_states: Option<u64>,
}

/// A diagnostic result as mathematical values.
pub struct CpuDiagnosticResultModel {
    pub name: Seq<char>,
    pub instructions: u64,
    pub t_states: u64,
    pub expected_instructions: Option<u64>,
    pub expected_t_states: Option<u64>,
}

impl View for CpuDiagnosticResult {
    type V = CpuDiagnosticResultModel;

    open spec fn view(&self) -> CpuDiagnosticResultModel {
        CpuDiagnosticResultModel {
            name: self.name@,
            instructions: self.instructions,
            t_states: self.t_states,
            expected_instructions: self.expected_instructions,
            expected_t_states: self.expected_t_states,
        }
    }
}

/// A running meter as mathematical values. The BDOS window is the half-open
/// address range `bdos_start..bdos_end`.
pub struct CpuDiagnosticMeterModel {
    pub name: Seq<char>,
    pub bdos_start: u16,
    pub bdos_end: u16,
    pub expected_instructions: Option<u64>,
    pub expected_t_states: Option<u64>,
    pub started: bool,
    pub instructions: u64,
    pub t_states: u64,
}

/// The meter slot and the last unclaimed result.
pub struct CpuDiagnosticsModel {
    pub meter: Option<CpuDiagnosticMeterModel>,
    pub result: Option<CpuDiagnosticResultModel>,
}

/// `a + b` on 16 bits, held at FFFFh instead of wrapping.
pub open spec fn sat_add16(a: u16, b: u16) -> u16 {
    if a + b > u16::MAX {
        u16::MAX
    } else {
        (a + b) as u16
    }
}

/// A meter armed for the program `name`, waiting for its first instruction at
/// 0100h. Only the low 16 bits of `bdos_len` count, and the window ends at
/// FFFFh at the latest.
pub open spec fn spec_new_meter(
    name: Seq<char>,
    bdos_start: u16,
    bdos_len: usize,
    expected_instructions: Option<u64>,
    expected_t_states: Option<u64>,
) -> CpuDiagnosticMeterModel {
    CpuDiagnosticMeterModel {
        name,
        bdos_start,
        bdos_end: sat_add16(bdos_start, (bdos_len % 0x10000) as u16),
        expected_instructions,
        expected_t_states,
        started: false,
        instructions: 0,
        t_states: 0,
    }
}

/// The meter after one completed instruction at `address` that took
/// `t_states`, and whether that instruction ended the run.
pub open spec fn spec_record(m: CpuDiagnosticMeterModel, address: u16, t_states: u32) -> (
    CpuDiagnosticMeterModel,
    bool,
) {
    if !m.started {
        if address == 0x0100 {
            (CpuDiagnosticMeterModel { started: true, instructions: 1, t_states: t_states as u64, ..m }, false)
        } else {
            (m, false)
        }
    } else if address == 0x0005 {
        (
            CpuDiagnosticMeterModel {
                instructions: sat_add(m.instructions, 2),
                t_states: sat_add(m.t_states, 20),
                ..m
            },
            false,
        )
    } else if address == 0x0000 {
        (
            CpuDiagnosticMeterModel {
                instructions: sat_add(m.instructions, 1),
                t_states: sat_add(m.t_states, 10),
                ..m
            },
            true,
        )
    } else if m.bdos_start <= address && address < m.bdos_end {
        (m, false)
    } else {
        (
            CpuDiagnosticMeterModel {
                instructions: sat_add(m.instructions, 1),
                t_states: sat_add(m.t_states, t_states as int),
                ..m
            },
            false,
        )
    }
}

/// The result a meter reports when its run ends.
pub open spec fn spec_complete(m: CpuDiagnosticMeterModel) -> CpuDiagnosticResultModel {
    CpuDiagnosticResultModel {
        name: m.name,
        instructions: m.instructions,
        t_states: m.t_states,
        expected_instructions: m.expected_instructions,
        expected_t_states: m.expected_t_states,
    }
}

/// The slot after one completed instruction: an idle slot stays idle; a run
/// that ends moves its result out and frees the slot.
pub open spec fn spec_record_diagnostics(d: CpuDiagnosticsModel, address: u16, t_states: u32) -> CpuDiagnosticsModel {
    match d.meter {
        None => d,
        Some(m) => {
            let (next, done) = spec_record(m, address, t_states);
            if done {
                CpuDiagnosticsModel { meter: None, result: Some(spec_complete(next)) }
            } else {
                CpuDiagnosticsModel { meter: Some(next), result: d.result }
            }
        },
    }
}

struct CpuDiagnosticMeter {
    name: String,
    bdos_start: u16,
    bdos_end: u16,
    expected_instructions: Option<u64>,
    expected_t_states: Option<u64>,
    started: bool,
    instructions: u64,
    t_states: u64,
}

impl View for CpuDiagnosticMeter {
    type V = CpuDiagnosticMeterModel;

    closed spec fn view(&self) -> CpuDiagnosticMeterModel {
        CpuDiagnosticMeterModel {
            name: self.name@,
            bdos_start: self.bdos_start,
            bdos_end: self.bdos_end,
            expected_instructions: self.expected_instructions,
            expected_t_states: self.expected_t_states,
            started: self.started,
            instructions: self.instructions,
            t_states: self.t_states,
        }
    }
}

impl CpuDiagnosticMeter {
    fn new(
        name: String,
        bdos_start: u16,
        bdos_len: usize,
        expected_instructions: Option<u64>,
        expected_t_states: Option<u64>,
    ) -> (r: Self)
        ensures
            r@ == spec_new_meter(name@, bdos_start, bdos_len, expected_instructions, expected_t_states),
    {
        let low: u16 = (bdos_len % 0x10000) as u16;
        CpuDiagnosticMeter {
            name,
            bdos_start,
            bdos_end: bdos_start.saturating_add(low),
            expected_instructions,
            expected_t_states,
            started: false,
            instructions: 0,
            t_states: 0,
        }
    }

    fn complete(&self) -> (r: CpuDiagnosticResult)
        ensures
            r@ == spec_complete(self@),
    {
        CpuDiagnosticResult {
            name: self.name.clone(),
            instructions: self.instructions,
            t_states: self.t_states,
            expected_instructions: self.expected_instructions,
            expected_t_states: self.expected_t_states,
        }
    }

    fn record_instruction(&mut self, address: u16, t_states: u32) -> (done: bool)
        ensures
            (final(self)@, done) == spec_record(old(self)@, address, t_states),
    {
        if !self.started {
            if address == 0x0100 {
                self.started = true;
                self.instructions = 1;
                self.t_states = t_states as u64;
            }
            return false;
        }
        if address == 0x0005 {
            self.instructions = self.instructions.saturating_add(2);
            self.t_states = self.t_states.saturating_add(20);
            return false;
        }
        if address == 0x0000 {
            self.instructions = self.instructions.saturating_add(1);
            self.t_states = self.t_states.saturating_add(10);
            true
        } else if address >= self.bdos_start && address < self.bdos_end {
            false
        } else {
            self.instructions = self.instructions.saturating_add(1);
            self.t_states = self.t_states.saturating_add(t_states as u64);
            false
        }
    }
}

/// The diagnostic meter slot of the Altair bus and the result it last
/// produced.
pub struct CpuDiagnostics {
    meter: Option<CpuDiagnosticMeter>,
    result: Option<CpuDiagnosticResult>,
}

pub open spec fn option_result_model(r: Option<CpuDiagnosticResult>) -> Option<CpuDiagnosticResultModel> {
    match r {
        None => None,
        Some(x) => Some(x@),
    }
}

impl View for CpuDiagnostics {
    type V = CpuDiagnosticsModel;

    closed spec fn view(&self) -> CpuDiagnosticsModel {
        CpuDiagnosticsModel {
            meter: match self.meter {
                None => None,
                Some(m) => Some(m@),
            },
            result: option_result_model(self.result),
        }
    }
}

impl CpuDiagnostics {
    pub fn new() -> (r: Self)
        ensures
            r@.meter is None,
            r@.result is None,
    {
        CpuDiagnostics { meter: None, result: None }
    }

    /// Arms a fresh meter for `name`, dropping any earlier run and any
    /// unclaimed result.
    pub fn begin_cpu_diagnostic_meter(
        &mut self,
        name: String,
        bdos_start: u16,
        bdos_len: usize,
        expected_instructions: Option<u64>,
        expected_t_states: Option<u64>,
    )
        ensures
            final(self)@.meter == Some(
                spec_new_meter(name@, bdos_start, bdos_len, expected_instructions, expected_t_states),
            ),
            final(self)@.result is None,
    {
        self.result = None;
        self.meter = Some(
            CpuDiagnosticMeter::new(name, bdos_start, bdos_len, expected_instructions, expected_t_states),
        );
    }

    /// Stops metering and forgets any unclaimed result.
    pub fn cancel_cpu_diagnostic_meter(&mut self)
        ensures
            final(self)@.meter is None,
            final(self)@.result is None,
    {
        self.meter = None;
        self.result = None;
    }

    /// Hands out the finished result once.
    pub fn take_cpu_diagnostic_result(&mut self) -> (r: Option<CpuDiagnosticResult>)
        ensures
            option_result_model(r) == old(self)@.result,
            final(self)@.meter == old(self)@.meter,
            final(self)@.result is None,
    {
        self.result.take()
    }

    /// Accounts one completed instruction fetched at `address`.
    pub fn record_cpu_diagnostic_instruction(&mut self, address: u16, t_states: u32)
        ensures
            final(self)@ == spec_record_diagnostics(old(self)@, address, t_states),
    {
        let mut meter = match self.meter.take() {
            Some(m) => m,
            None => return ,
        };
        let done = meter.record_instruction(address, t_states);
        if done {
            self.result = Some(meter.complete());
        } else {
            self.meter = Some(meter);
        }
    }
}

/// Nothing is counted before the program's first instruction at 0100h, and
/// nothing ends the run before it started.
pub proof fn lemma_nothing_counts_before_start(m: CpuDiagnosticMeterModel, address: u16, t_states: u32)
    requires
        !m.started,
        address != 0x0100,
    ensures
        spec_record(m, address, t_states) == (m, false),
{
}

/// Inside a started run, instructions in the BDOS window other than the
/// entry vector and warm boot leave the counts untouched: the installed BDOS
/// body costs nothing beyond the fixed stub charge.
pub proof fn lemma_bdos_body_is_free(m: CpuDiagnosticMeterModel, address: u16, t_states: u32)
    requires
        m.started,
        address != 0x0005,
        address != 0x0000,
        m.bdos_start <= address < m.bdos_end,
    ensures
        spec_record(m, address, t_states) == (m, false),
{
}

/// A run ends exactly when a started meter sees the warm-boot vector.
pub proof fn lemma_run_ends_only_at_warm_boot(m: CpuDiagnosticMeterModel, address: u16, t_states: u32)
    ensures
        spec_record(m, address, t_states).1 <==> (m.started && address == 0x0000),
{
}

} // verus!
