//! Debugger execution control: execute breakpoints, a one-shot run-to target
//! and memory watchpoints, with the resume rules that let execution continue
//! past the breakpoint it stopped on.

use std::collections::{BTreeMap, BTreeSet};
use vstd::prelude::*;
use vstd::string::*;
use crate::text::{push_hex2, push_hex4, spec_hex2, spec_hex4};
use crate::trace8080::InstructionEffect8080;

verus! {

broadcast use vstd::std_specs::btree::group_btree_axioms, vstd::laws_cmp::group_laws_cmp;

#[derive(Clone, Copy, Debug, PartialEq, Eq, Structural)]
pub enum MemoryWatchAccess {
    Read,
    Write,
    ReadWrite,
}

pub open spec fn spec_reads(a: MemoryWatchAccess) -> bool {
    a == MemoryWatchAccess::Read || a == MemoryWatchAccess::ReadWrite
}

pub open spec fn spec_writes(a: MemoryWatchAccess) -> bool {
    a == MemoryWatchAccess::Write || a == MemoryWatchAccess::ReadWrite
}

pub open spec fn spec_watch_label(a: MemoryWatchAccess) -> Seq<char> {
    match a {
        MemoryWatchAccess::Read => "READ"@,
        MemoryWatchAccess::Write => "WRITE"@,
        MemoryWatchAccess::ReadWrite => "READ/WRITE"@,
    }
}

impl MemoryWatchAccess {
    pub fn reads(self) -> (r: bool)
        ensures
            r == spec_reads(self),
    {
        match self {
            MemoryWatchAccess::Read => true,
            MemoryWatchAccess::Write => false,
            MemoryWatchAccess::ReadWrite => true,
        }
    }

    pub fn writes(self) -> (r: bool)
        ensures
            r == spec_writes(self),
    {
        match self {
            MemoryWatchAccess::Read => false,
            MemoryWatchAccess::Write => true,
            MemoryWatchAccess::ReadWrite => true,
        }
    }

    pub fn label(self) -> (r: &'static str)
        ensures
            r@ == spec_watch_label(self),
    {
        match self {
            MemoryWatchAccess::Read => "READ",
            MemoryWatchAccess::Write => "WRITE",
            MemoryWatchAccess::ReadWrite => "READ/WRITE",
        }
    }
}

#[derive(Clone, Copy, Debug, PartialEq, Eq, Structural)]
pub enum DebugStopReason {
    ExecuteBreakpoint(u16),
    RunTo(u16),
    MemoryReadWatchpoint { instruction_pc: u16, address: u16, value: u8 },
    MemoryWriteWatchpoint { instruction_pc: u16, address: u16, value: u8 },
}

pub open spec fn spec_stop_label(r: DebugStopReason) -> Seq<char> {
    match r {
        DebugStopReason::ExecuteBreakpoint(address) => "execute breakpoint at $"@ + spec_hex4(
            address,
        ),
        DebugStopReason::RunTo(address) => "run-to target reached at $"@ + spec_hex4(address),
        DebugStopReason::MemoryReadWatchpoint { instruction_pc, address, value } =>
            "memory READ watchpoint at $"@ + spec_hex4(address) + ": $"@ + spec_hex2(value)
            + " read by instruction at $"@ + spec_hex4(instruction_pc),
        DebugStopReason::MemoryWriteWatchpoint { instruction_pc, address, value } =>
            "memory WRITE watchpoint at $"@ + spec_hex4(address) + ": $"@ + spec_hex2(value)
            + " written by instruction at $"@ + spec_hex4(instruction_pc),
    }
}

impl DebugStopReason {
    pub fn label(self) -> (r: String)
        ensures
            r@ == spec_stop_label(self),
    {
        match self {
            DebugStopReason::ExecuteBreakpoint(address) => {
                let mut s = String::from_str("execute breakpoint at $");
                push_hex4(&mut s, address);
                s
            },
            DebugStopReason::RunTo(address) => {
                let mut s = String::from_str("run-to target reached at $");
                push_hex4(&mut s, address);
                s
            },
            DebugStopReason::MemoryReadWatchpoint { instruction_pc, address, value } => {
                let mut s = String::from_str("memory READ watchpoint at $");
                push_hex4(&mut s, address);
                s.append(": $");
                push_hex2(&mut s, value);
                s.append(" read by instruction at $");
                push_hex4(&mut s, instruction_pc);
                s
            },
            DebugStopReason::MemoryWriteWatchpoint { instruction_pc, address, value } => {
                let mut s = String::from_str("memory WRITE watchpoint at $");
                push_hex4(&mut s, address);
                s.append(": $");
                push_hex2(&mut s, value);
                s.append(" written by instruction at $");
                push_hex4(&mut s, instruction_pc);
                s
            },
        }
    }
}

/// The debugger control state as mathematical values.
pub struct DebugControlView {
    pub breakpoints: Set<u16>,
    pub watchpoints: Map<u16, MemoryWatchAccess>,
    pub run_to: Option<u16>,
    pub resume_skip_once: Option<u16>,
    pub stop_reason: Option<DebugStopReason>,
}

#[derive(Debug)]
pub struct DebugExecutionControl {
    breakpoints: BTreeSet<u16>,
    watchpoints: BTreeMap<u16, MemoryWatchAccess>,
    run_to: Option<u16>,
    resume_skip_once: Option<u16>,
    stop_reason: Option<DebugStopReason>,
}

impl View for DebugExecutionControl {
    type V = DebugControlView;

    closed spec fn view(&self) -> DebugControlView {
        DebugControlView {
            breakpoints: self.breakpoints@,
            watchpoints: self.watchpoints@,
            run_to: self.run_to,
            resume_skip_once: self.resume_skip_once,
            stop_reason: self.stop_reason,
        }
    }
}

/// The state of a freshly created controller: nothing armed.
pub open spec fn spec_empty_control() -> DebugControlView {
    DebugControlView {
        breakpoints: Set::empty(),
        watchpoints: Map::empty(),
        run_to: None,
        resume_skip_once: None,
        stop_reason: None,
    }
}

/// The watchpoint stop (if any) that one memory effect of the instruction at
/// `pc` triggers.
pub open spec fn spec_effect_stop(
    watchpoints: Map<u16, MemoryWatchAccess>,
    pc: u16,
    effect: InstructionEffect8080,
) -> Option<DebugStopReason> {
    match effect {
        InstructionEffect8080::MemoryRead { address, value } | InstructionEffect8080::StackRead {
            address,
            value,
        } => if watchpoints.contains_key(address) && spec_reads(watchpoints[address]) {
            Some(DebugStopReason::MemoryReadWatchpoint { instruction_pc: pc, address, value })
        } else {
            None
        },
        InstructionEffect8080::MemoryWrite { address, value } | InstructionEffect8080::StackWrite {
            address,
            value,
        } => if watchpoints.contains_key(address) && spec_writes(watchpoints[address]) {
            Some(DebugStopReason::MemoryWriteWatchpoint { instruction_pc: pc, address, value })
        } else {
            None
        },
    }
}

/// The first watchpoint stop among `effects`, in order.
pub open spec fn spec_first_stop(
    watchpoints: Map<u16, MemoryWatchAccess>,
    pc: u16,
    effects: Seq<InstructionEffect8080>,
) -> Option<DebugStopReason>
    decreases effects.len(),
{
    if effects.len() == 0 {
        None
    } else {
        match spec_effect_stop(watchpoints, pc, effects[0]) {
            Some(r) => Some(r),
            None => spec_first_stop(watchpoints, pc, effects.drop_first()),
        }
    }
}

/// Controller state after `prepare_resume(pc)`.
pub open spec fn spec_prepare_resume(v: DebugControlView, pc: u16) -> DebugControlView {
    DebugControlView {
        resume_skip_once: if v.stop_reason == Some(DebugStopReason::ExecuteBreakpoint(pc)) {
            Some(pc)
        } else {
            None
        },
        stop_reason: None,
        ..v
    }
}

/// Controller state after `prepare_manual_step()`.
pub open spec fn spec_prepare_manual_step(v: DebugControlView) -> DebugControlView {
    DebugControlView { run_to: None, resume_skip_once: None, stop_reason: None, ..v }
}

/// Controller state and stop decision of `stop_before(pc)`.
pub open spec fn spec_stop_before(v: DebugControlView, pc: u16) -> (DebugControlView, Option<
    DebugStopReason,
>) {
    if v.resume_skip_once == Some(pc) {
        (DebugControlView { resume_skip_once: None, ..v }, None)
    } else if v.run_to == Some(pc) {
        let r = Some(DebugStopReason::RunTo(pc));
        (DebugControlView { run_to: None, stop_reason: r, ..v }, r)
    } else if v.breakpoints.contains(pc) {
        let r = Some(DebugStopReason::ExecuteBreakpoint(pc));
        (DebugControlView { stop_reason: r, ..v }, r)
    } else {
        (v, None)
    }
}

/// Strictly increasing: sorted with no duplicates.
pub open spec fn spec_strictly_increasing(s: Seq<u16>) -> bool {
    forall|i: int, j: int| 0 <= i < j < s.len() ==> s[i] < s[j]
}

impl DebugExecutionControl {
    pub fn new() -> (r: Self)
        ensures
            r@ == spec_empty_control(),
    {
        DebugExecutionControl {
            breakpoints: BTreeSet::new(),
            watchpoints: BTreeMap::new(),
            run_to: None,
            resume_skip_once: None,
            stop_reason: None,
        }
    }

    /// Whether any breakpoint, watchpoint or run-to target is armed.
    pub fn active(&self) -> (r: bool)
        ensures
            r == (!self@.breakpoints.is_empty() || !self@.watchpoints.is_empty()
                || self@.run_to is Some),
    {
        !self.breakpoints.is_empty() || !self.watchpoints.is_empty() || self.run_to.is_some()
    }

    /// The execute breakpoints in increasing address order.
    pub fn breakpoints(&self) -> (r: Vec<u16>)
        ensures
            r@.to_set() == self@.breakpoints,
            spec_strictly_increasing(r@),
    {
        let mut r: Vec<u16> = Vec::new();
        let mut address: u32 = 0;
        while address <= 0xffff
            invariant
                address <= 0x10000,
                forall|a: u16| #[trigger] r@.contains(a) <==> (a < address && self@.breakpoints.contains(a)),
                spec_strictly_increasing(r@),
                forall|i: int| 0 <= i < r@.len() ==> r@[i] < address,
            decreases 0x10000 - address,
        {
            let a = address as u16;
            let ghost before = r@;
            if self.breakpoints.contains(&a) {
                r.push(a);
            }
            proof {
                assert forall|b: u16| #[trigger] r@.contains(b) <==> (b < address + 1
                    && self@.breakpoints.contains(b)) by {
                    if r@.contains(b) {
                        let k = choose|k: int| 0 <= k < r@.len() && r@[k] == b;
                        if k < before.len() {
                            assert(before.contains(b));
                        }
                    }
                    if b == a && self@.breakpoints.contains(b) {
                        assert(r@[before.len() as int] == b);
                    }
                    if b < address && self@.breakpoints.contains(b) {
                        assert(before.contains(b));
                        let k = choose|k: int| 0 <= k < before.len() && before[k] == b;
                        assert(r@[k] == b);
                    }
                }
            }
            address = address + 1;
        }
        proof {
            assert(r@.to_set() =~= self@.breakpoints);
        }
        r
    }

    pub fn set_breakpoint(&mut self, address: u16, enabled: bool)
        ensures
            final(self)@ == (DebugControlView {
                breakpoints: if enabled {
                    old(self)@.breakpoints.insert(address)
                } else {
                    old(self)@.breakpoints.remove(address)
                },
                ..old(self)@
            }),
    {
        if enabled {
            self.breakpoints.insert(address);
        } else {
            self.breakpoints.remove(&address);
        }
    }

    pub fn clear_breakpoints(&mut self)
        ensures
            final(self)@ == (DebugControlView { breakpoints: Set::empty(), ..old(self)@ }),
    {
        self.breakpoints.clear();
    }

    /// The memory watchpoints in increasing address order.
    pub fn watchpoints(&self) -> (r: Vec<(u16, MemoryWatchAccess)>)
        ensures
            forall|a: u16, w: MemoryWatchAccess| #[trigger] r@.contains((a, w)) <==> (
                self@.watchpoints.contains_key(a) && self@.watchpoints[a] == w),
            forall|i: int, j: int| 0 <= i < j < r@.len() ==> r@[i].0 < r@[j].0,
    {
        let mut r: Vec<(u16, MemoryWatchAccess)> = Vec::new();
        let mut address: u32 = 0;
        while address <= 0xffff
            invariant
                address <= 0x10000,
                forall|a: u16, w: MemoryWatchAccess| #[trigger] r@.contains((a, w)) <==> (a < address
                    && self@.watchpoints.contains_key(a) && self@.watchpoints[a] == w),
                forall|i: int, j: int| 0 <= i < j < r@.len() ==> r@[i].0 < r@[j].0,
                forall|i: int| 0 <= i < r@.len() ==> r@[i].0 < address,
            decreases 0x10000 - address,
        {
            let a = address as u16;
            match self.watchpoints.get(&a) {
                Some(access) => {
                    let entry = (a, *access);
                    let ghost before = r@;
                    r.push(entry);
                    proof {
                        assert forall|b: u16, w: MemoryWatchAccess| #[trigger] r@.contains((b, w)) <==> (b
                            < address + 1 && self@.watchpoints.contains_key(b) && self@.watchpoints[b]
                            == w) by {
                            if r@.contains((b, w)) {
                                let k = choose|k: int| 0 <= k < r@.len() && r@[k] == (b, w);
                                if k < before.len() {
                                    assert(before.contains((b, w)));
                                }
                            }
                            if b == a && self@.watchpoints.contains_key(b) && self@.watchpoints[b] == w {
                                assert(r@[before.len() as int] == (b, w));
                            }
                            if b < address && self@.watchpoints.contains_key(b) && self@.watchpoints[b] == w {
                                assert(before.contains((b, w)));
                                let k = choose|k: int| 0 <= k < before.len() && before[k] == (b, w);
                                assert(r@[k] == (b, w));
                            }
                        }
                    }
                },
                None => {},
            }
            address = address + 1;
        }
        r
    }

    pub fn set_watchpoint(&mut self, address: u16, access: Option<MemoryWatchAccess>)
        ensures
            final(self)@ == (DebugControlView {
                watchpoints: match access {
                    Some(a) => old(self)@.watchpoints.insert(address, a),
                    None => old(self)@.watchpoints.remove(address),
                },
                ..old(self)@
            }),
    {
        match access {
            Some(access) => {
                self.watchpoints.insert(address, access);
            },
            None => {
                self.watchpoints.remove(&address);
            },
        }
    }

    pub fn clear_watchpoints(&mut self)
        ensures
            final(self)@ == (DebugControlView { watchpoints: Map::empty(), ..old(self)@ }),
    {
        self.watchpoints.clear();
    }

    pub fn has_watchpoints(&self) -> (r: bool)
        ensures
            r == !self@.watchpoints.is_empty(),
    {
        !self.watchpoints.is_empty()
    }

    /// Arms a one-shot run-to target. The previous stop reason is kept until
    /// `prepare_resume` consumes it, so a run-to started while stopped on a
    /// breakpoint still executes that instruction once.
    pub fn set_run_to(&mut self, address: u16)
        ensures
            final(self)@ == (DebugControlView { run_to: Some(address), ..old(self)@ }),
    {
        self.run_to = Some(address);
    }

    pub fn cancel_run_to(&mut self)
        ensures
            final(self)@ == (DebugControlView { run_to: None, ..old(self)@ }),
    {
        self.run_to = None;
    }

    pub fn run_to(&self) -> (r: Option<u16>)
        ensures
            r == self@.run_to,
    {
        self.run_to
    }

    pub fn stop_reason(&self) -> (r: Option<DebugStopReason>)
        ensures
            r == self@.stop_reason,
    {
        self.stop_reason
    }

    pub fn clear_transient(&mut self)
        ensures
            final(self)@ == (DebugControlView {
                run_to: None,
                resume_skip_once: None,
                stop_reason: None,
                ..old(self)@
            }),
    {
        self.run_to = None;
        self.resume_skip_once = None;
        self.stop_reason = None;
    }

    /// A manual single-step is not a RUN resume: stale stop/run state is
    /// cleared without arming a future breakpoint skip.
    pub fn prepare_manual_step(&mut self)
        ensures
            final(self)@ == spec_prepare_manual_step(old(self)@),
    {
        self.run_to = None;
        self.resume_skip_once = None;
        self.stop_reason = None;
    }

    /// Resuming after an execute breakpoint at `pc` executes that instruction
    /// once; any other resume leaves no skip armed.
    pub fn prepare_resume(&mut self, pc: u16)
        ensures
            final(self)@ == spec_prepare_resume(old(self)@, pc),
    {
        self.resume_skip_once = match self.stop_reason {
            Some(DebugStopReason::ExecuteBreakpoint(address)) => {
                if address == pc {
                    Some(pc)
                } else {
                    None
                }
            },
            _ => None,
        };
        self.stop_reason = None;
    }

    /// Called at an instruction boundary before fetching the opcode at `pc`:
    /// an armed skip at `pc` is consumed first, then a run-to target at `pc`
    /// (one-shot), then a persistent breakpoint.
    pub fn stop_before(&mut self, pc: u16) -> (r: Option<DebugStopReason>)
        ensures
            (final(self)@, r) == spec_stop_before(old(self)@, pc),
    {
        if self.resume_skip_once == Some(pc) {
            self.resume_skip_once = None;
            return None;
        }
        if self.run_to == Some(pc) {
            self.run_to = None;
            let reason = DebugStopReason::RunTo(pc);
            self.stop_reason = Some(reason);
            return Some(reason);
        }
        if self.breakpoints.contains(&pc) {
            let reason = DebugStopReason::ExecuteBreakpoint(pc);
            self.stop_reason = Some(reason);
            return Some(reason);
        }
        None
    }

    /// Called after a guest instruction at `instruction_pc` completed with the
    /// given memory effects; the first effect that matches a watchpoint of
    /// its direction stops execution and cancels any run-to target.
    pub fn stop_after_effects(
        &mut self,
        instruction_pc: u16,
        effects: &[InstructionEffect8080],
    ) -> (r: Option<DebugStopReason>)
        ensures
            r == spec_first_stop(old(self)@.watchpoints, instruction_pc, effects@),
            r is Some ==> final(self)@ == (DebugControlView {
                stop_reason: r,
                run_to: None,
                ..old(self)@
            }),
            r is None ==> final(self)@ == old(self)@,
    {
        let mut i: usize = 0;
        assert(effects@.skip(0) =~= effects@);
        while i < effects.len()
            invariant
                i <= effects@.len(),
                self@ == old(self)@,
                spec_first_stop(self@.watchpoints, instruction_pc, effects@) == spec_first_stop(
                    self@.watchpoints,
                    instruction_pc,
                    effects@.skip(i as int),
                ),
            decreases effects.len() - i,
        {
            let reason = self.effect_stop(instruction_pc, effects[i]);
            proof {
                assert(effects@.skip(i as int)[0] == effects@[i as int]);
                assert(effects@.skip(i as int).drop_first() =~= effects@.skip(i + 1));
            }
            if let Some(reason) = reason {
                self.stop_reason = Some(reason);
                self.run_to = None;
                return Some(reason);
            }
            i = i + 1;
        }
        proof {
            assert(effects@.skip(i as int).len() == 0);
        }
        None
    }

    fn effect_stop(&self, pc: u16, effect: InstructionEffect8080) -> (r: Option<DebugStopReason>)
        ensures
            r == spec_effect_stop(self@.watchpoints, pc, effect),
    {
        match effect {
            InstructionEffect8080::MemoryRead { address, value }
            | InstructionEffect8080::StackRead { address, value } => {
                match self.watchpoints.get(&address) {
                    Some(access) => {
                        if access.reads() {
                            Some(
                                DebugStopReason::MemoryReadWatchpoint {
                                    instruction_pc: pc,
                                    address,
                                    value,
                                },
                            )
                        } else {
                            None
                        }
                    },
                    None => None,
                }
            },
            InstructionEffect8080::MemoryWrite { address, value }
            | InstructionEffect8080::StackWrite { address, value } => {
                match self.watchpoints.get(&address) {
                    Some(access) => {
                        if access.writes() {
                            Some(
                                DebugStopReason::MemoryWriteWatchpoint {
                                    instruction_pc: pc,
                                    address,
                                    value,
                                },
                            )
                        } else {
                            None
                        }
                    },
                    None => None,
                }
            },
        }
    }
}

impl Default for DebugExecutionControl {
    fn default() -> (r: Self)
        ensures
            r@ == spec_empty_control(),
    {
        DebugExecutionControl::new()
    }
}

/// Resuming from an execute breakpoint at `pc` lets the instruction there run
/// exactly once: the next boundary at `pc` does not stop, the one after stops
/// on the still-installed breakpoint again.
pub proof fn lemma_breakpoint_skips_once_after_resume(v: DebugControlView, pc: u16)
    requires
        v.breakpoints.contains(pc),
        v.stop_reason == Some(DebugStopReason::ExecuteBreakpoint(pc)),
        v.run_to != Some(pc),
    ensures
        ({
            let v1 = spec_prepare_resume(v, pc);
            let (v2, r2) = spec_stop_before(v1, pc);
            let (v3, r3) = spec_stop_before(v2, pc);
            &&& r2 is None
            &&& r3 == Some(DebugStopReason::ExecuteBreakpoint(pc))
            &&& v3.breakpoints == v.breakpoints
        }),
{
}

/// A fresh RUN (not resuming from a breakpoint at this PC) still stops before
/// an installed breakpoint at the current PC.
pub proof fn lemma_fresh_run_stops_on_current_breakpoint(v: DebugControlView, pc: u16)
    requires
        v.breakpoints.contains(pc),
        v.stop_reason != Some(DebugStopReason::ExecuteBreakpoint(pc)),
        v.run_to != Some(pc),
    ensures
        spec_stop_before(spec_prepare_resume(v, pc), pc).1 == Some(
            DebugStopReason::ExecuteBreakpoint(pc),
        ),
{
}

/// A manual single-step never leaves a breakpoint skip armed, so the next
/// boundary at a breakpoint stops.
pub proof fn lemma_manual_step_arms_no_skip(v: DebugControlView, pc: u16)
    requires
        v.breakpoints.contains(pc),
    ensures
        spec_prepare_manual_step(v).resume_skip_once is None,
        spec_prepare_manual_step(v).stop_reason is None,
        spec_stop_before(spec_prepare_manual_step(v), pc).1 == Some(
            DebugStopReason::ExecuteBreakpoint(pc),
        ),
{
}

/// A run-to target is one-shot and takes precedence over a breakpoint at the
/// same address; once reached it is disarmed.
pub proof fn lemma_run_to_is_one_shot(v: DebugControlView, pc: u16)
    requires
        v.run_to == Some(pc),
        v.resume_skip_once != Some(pc),
    ensures
        spec_stop_before(v, pc).1 == Some(DebugStopReason::RunTo(pc)),
        spec_stop_before(v, pc).0.run_to is None,
{
}

/// Watchpoints are direction-sensitive: a read never trips a write-only
/// watchpoint and a write never trips a read-only one.
pub proof fn lemma_watch_direction_is_respected(
    w: Map<u16, MemoryWatchAccess>,
    pc: u16,
    address: u16,
    value: u8,
)
    ensures
        w.contains_key(address) && w[address] == MemoryWatchAccess::Write ==> spec_effect_stop(
            w,
            pc,
            InstructionEffect8080::MemoryRead { address, value },
        ) is None && spec_effect_stop(w, pc, InstructionEffect8080::StackRead { address, value })
            is None,
        w.contains_key(address) && w[address] == MemoryWatchAccess::Read ==> spec_effect_stop(
            w,
            pc,
            InstructionEffect8080::MemoryWrite { address, value },
        ) is None && spec_effect_stop(w, pc, InstructionEffect8080::StackWrite { address, value })
            is None,
        !w.contains_key(address) ==> spec_effect_stop(
            w,
            pc,
            InstructionEffect8080::MemoryWrite { address, value },
        ) is None && spec_effect_stop(w, pc, InstructionEffect8080::MemoryRead { address, value })
            is None,
{
}


/// Stack accesses (PUSH, POP, CALL, RET, XTHL) trip watchpoints exactly as
/// data accesses do: a read of an address watched for reads (READ or
/// READ/WRITE) stops with a read-watchpoint report of that instruction,
/// address and value, a write of an address watched for writes stops with a
/// write-watchpoint report, and an access the watchpoint does not cover lets
/// the following effects decide.
pub proof fn lemma_stack_accesses_trip_watchpoints(
    watchpoints: Map<u16, MemoryWatchAccess>,
    pc: u16,
    address: u16,
    value: u8,
    rest: Seq<InstructionEffect8080>,
)
    ensures
        ({
            let stack_read = seq![InstructionEffect8080::StackRead { address, value }] + rest;
            let data_read = seq![InstructionEffect8080::MemoryRead { address, value }] + rest;
            let stack_write = seq![InstructionEffect8080::StackWrite { address, value }] + rest;
            let data_write = seq![InstructionEffect8080::MemoryWrite { address, value }] + rest;
            let watched_read = watchpoints.contains_key(address) && (watchpoints[address] == MemoryWatchAccess::Read
                || watchpoints[address] == MemoryWatchAccess::ReadWrite);
            let watched_write = watchpoints.contains_key(address) && (watchpoints[address] == MemoryWatchAccess::Write
                || watchpoints[address] == MemoryWatchAccess::ReadWrite);
            &&& spec_first_stop(watchpoints, pc, stack_read) == spec_first_stop(watchpoints, pc, data_read)
            &&& spec_first_stop(watchpoints, pc, stack_write) == spec_first_stop(watchpoints, pc, data_write)
            &&& watched_read ==> spec_first_stop(watchpoints, pc, stack_read) == Some(
                DebugStopReason::MemoryReadWatchpoint { instruction_pc: pc, address, value },
            )
            &&& !watched_read ==> spec_first_stop(watchpoints, pc, stack_read) == spec_first_stop(watchpoints, pc, rest)
            &&& watched_write ==> spec_first_stop(watchpoints, pc, stack_write) == Some(
                DebugStopReason::MemoryWriteWatchpoint { instruction_pc: pc, address, value },
            )
            &&& !watched_write ==> spec_first_stop(watchpoints, pc, stack_write) == spec_first_stop(watchpoints, pc, rest)
        }),
{
    let stack_read = seq![InstructionEffect8080::StackRead { address, value }] + rest;
    let data_read = seq![InstructionEffect8080::MemoryRead { address, value }] + rest;
    let stack_write = seq![InstructionEffect8080::StackWrite { address, value }] + rest;
    let data_write = seq![InstructionEffect8080::MemoryWrite { address, value }] + rest;
    assert(stack_read.drop_first() =~= rest);
    assert(data_read.drop_first() =~= rest);
    assert(stack_write.drop_first() =~= rest);
    assert(data_write.drop_first() =~= rest);
    assert(stack_read[0] == InstructionEffect8080::StackRead { address, value });
    assert(data_read[0] == InstructionEffect8080::MemoryRead { address, value });
    assert(stack_write[0] == InstructionEffect8080::StackWrite { address, value });
    assert(data_write[0] == InstructionEffect8080::MemoryWrite { address, value });
}

} // verus!
