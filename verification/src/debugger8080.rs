//! Debugger analysis over guest memory: decoding the instruction at an
//! address and recognising a simple backward loop around the current PC.
//!
//! Guest memory is given as one entry per address (`None` where no memory
//! answers); addresses past the end of the slice read as `None`.

use vstd::prelude::*;
use vstd::string::*;
use crate::decoder8080::{
    decode_8080, spec_decode_8080, spec_condition_evaluate, spec_condition_description,
    lemma_every_opcode_has_structured_metadata, Condition, ControlFlow, DecodedInstruction,
    DecodedView,
};

verus! {

#[derive(Clone, Debug, PartialEq, Eq)]
pub struct InstructionAt {
    pub address: u16,
    pub bytes: [u8; 3],
    pub decoded: DecodedInstruction,
}

pub struct InstructionAtView {
    pub address: u16,
    pub bytes: Seq<u8>,
    pub decoded: DecodedView,
}

impl View for InstructionAt {
    type V = InstructionAtView;

    open spec fn view(&self) -> InstructionAtView {
        InstructionAtView { address: self.address, bytes: self.bytes@, decoded: self.decoded@ }
    }
}

/// The address following an instruction, if it does not run past 0xFFFF.
pub open spec fn spec_next_address(i: InstructionAtView) -> Option<u16> {
    if i.address + i.decoded.length <= 0xffff {
        Some((i.address + i.decoded.length) as u16)
    } else {
        None
    }
}

impl InstructionAt {
    pub fn next_address(&self) -> (r: Option<u16>)
        ensures
            r == spec_next_address(self@),
    {
        self.address.checked_add(self.decoded.length as u16)
    }
}

#[derive(Clone, Debug, PartialEq, Eq)]
pub struct SimpleLoop {
    pub start: u16,
    pub back_edge: u16,
    pub condition: Option<Condition>,
    pub branch_taken_now: bool,
    pub instructions: Vec<InstructionAt>,
}

pub struct SimpleLoopView {
    pub start: u16,
    pub back_edge: u16,
    pub condition: Option<Condition>,
    pub branch_taken_now: bool,
    pub instructions: Seq<InstructionAtView>,
}

pub open spec fn instruction_views(v: Seq<InstructionAt>) -> Seq<InstructionAtView> {
    v.map_values(|i: InstructionAt| i@)
}

impl View for SimpleLoop {
    type V = SimpleLoopView;

    open spec fn view(&self) -> SimpleLoopView {
        SimpleLoopView {
            start: self.start,
            back_edge: self.back_edge,
            condition: self.condition,
            branch_taken_now: self.branch_taken_now,
            instructions: instruction_views(self.instructions@),
        }
    }
}

pub open spec fn spec_exit_description(c: Option<Condition>) -> Seq<char> {
    match c {
        Some(condition) => "repeat while "@ + spec_condition_description(condition)
            + " is true; exit when it becomes false"@,
        None => "unconditional backward jump; no structural exit in this loop"@,
    }
}

impl SimpleLoop {
    pub fn exit_description(&self) -> (r: String)
        ensures
            r@ == spec_exit_description(self.condition),
    {
        match self.condition {
            Some(condition) => {
                let mut s = String::from_str("repeat while ");
                s.append(condition.description());
                s.append(" is true; exit when it becomes false");
                s
            },
            None => String::from_str("unconditional backward jump; no structural exit in this loop"),
        }
    }
}

/// The byte at `address`, or `None` where no memory answers.
pub open spec fn spec_read(memory: Seq<Option<u8>>, address: int) -> Option<u8> {
    if 0 <= address < memory.len() {
        memory[address]
    } else {
        None
    }
}

pub open spec fn or_zero(b: Option<u8>) -> u8 {
    match b {
        Some(v) => v,
        None => 0,
    }
}

/// The instruction at `address`, provided the opcode and every operand byte
/// it needs are readable (and do not wrap past 0xFFFF).
#[verifier::opaque]
pub open spec fn spec_decode_at(memory: Seq<Option<u8>>, address: u16) -> Option<InstructionAtView> {
    match spec_read(memory, address as int) {
        None => None,
        Some(opcode) => {
            let b1 = or_zero(spec_read(memory, (address + 1) % 0x10000));
            let b2 = or_zero(spec_read(memory, (address + 2) % 0x10000));
            let d = spec_decode_8080(opcode, b1, b2);
            if d.length >= 2 && (address == 0xffff || spec_read(memory, address + 1) is None) {
                None
            } else if d.length >= 3 && (address >= 0xfffe || spec_read(memory, address + 2) is None) {
                None
            } else {
                Some(InstructionAtView { address, bytes: seq![opcode, b1, b2], decoded: d })
            }
        },
    }
}

fn read(memory: &[Option<u8>], address: u16) -> (r: Option<u8>)
    ensures
        r == spec_read(memory@, address as int),
{
    if (address as usize) < memory.len() {
        memory[address as usize]
    } else {
        None
    }
}

fn unwrap_or_zero(b: Option<u8>) -> (r: u8)
    ensures
        r == or_zero(b),
{
    match b {
        Some(v) => v,
        None => 0,
    }
}

pub fn decode_at(memory: &[Option<u8>], address: u16) -> (r: Option<InstructionAt>)
    ensures
        match r {
            Some(i) => spec_decode_at(memory@, address) == Some(i@),
            None => spec_decode_at(memory@, address) is None,
        },
{
    proof {
        reveal(spec_decode_at);
    }
    let opcode = match read(memory, address) {
        Some(op) => op,
        None => return None,
    };
    let b1 = unwrap_or_zero(read(memory, ((address as u32 + 1) % 0x10000) as u16));
    let b2 = unwrap_or_zero(read(memory, ((address as u32 + 2) % 0x10000) as u16));
    let decoded = decode_8080(opcode, b1, b2);
    if decoded.length >= 2 {
        if address == 0xffff {
            return None;
        }
        if read(memory, address + 1).is_none() {
            return None;
        }
    }
    if decoded.length >= 3 {
        if address >= 0xfffe {
            return None;
        }
        if read(memory, address + 2).is_none() {
            return None;
        }
    }
    let r = InstructionAt { address, bytes: [opcode, b1, b2], decoded };
    assert(r@.bytes =~= seq![opcode, b1, b2]);
    Some(r)
}

pub open spec fn spec_taken_now(condition: Option<Condition>, flags: u8) -> bool {
    match condition {
        None => true,
        Some(c) => spec_condition_evaluate(c, flags),
    }
}

/// Linear decoding from `cursor` towards the back edge, at most `fuel`
/// instructions: succeeds only if it lands exactly on a direct JMP/Jcc at
/// `back_edge` targeting `start` with no other control transfer on the way,
/// and `pc` is one of the instruction boundaries.
pub open spec fn spec_verify_steps(
    memory: Seq<Option<u8>>,
    start: u16,
    back_edge: u16,
    pc: u16,
    flags: u8,
    cursor: u16,
    seen: bool,
    instructions: Seq<InstructionAtView>,
    fuel: nat,
) -> Option<SimpleLoopView>
    decreases fuel,
{
    if fuel == 0 {
        None
    } else {
        match spec_decode_at(memory, cursor) {
            None => None,
            Some(i) => {
                let seen2 = seen || cursor == pc;
                if cursor == back_edge {
                    match i.decoded.control_flow {
                        ControlFlow::Jump { target, condition } => if target == start && seen2 {
                            Some(
                                SimpleLoopView {
                                    start,
                                    back_edge,
                                    condition,
                                    branch_taken_now: spec_taken_now(condition, flags),
                                    instructions: instructions.push(i),
                                },
                            )
                        } else {
                            None
                        },
                        _ => None,
                    }
                } else if !(i.decoded.control_flow is Linear) {
                    None
                } else {
                    match spec_next_address(i) {
                        None => None,
                        Some(next) => if next <= cursor || next > back_edge {
                            None
                        } else {
                            spec_verify_steps(
                                memory,
                                start,
                                back_edge,
                                pc,
                                flags,
                                next,
                                seen2,
                                instructions.push(i),
                                (fuel - 1) as nat,
                            )
                        },
                    }
                }
            },
        }
    }
}

pub open spec fn spec_verify_loop(
    memory: Seq<Option<u8>>,
    start: u16,
    back_edge: u16,
    pc: u16,
    flags: u8,
) -> Option<SimpleLoopView> {
    spec_verify_steps(memory, start, back_edge, pc, flags, start, false, Seq::empty(), 256)
}

proof fn lemma_verify_steps_shape(
    memory: Seq<Option<u8>>,
    start: u16,
    back_edge: u16,
    pc: u16,
    flags: u8,
    cursor: u16,
    seen: bool,
    instructions: Seq<InstructionAtView>,
    fuel: nat,
)
    ensures
        match spec_verify_steps(memory, start, back_edge, pc, flags, cursor, seen, instructions, fuel) {
            Some(l) => l.start == start && l.back_edge == back_edge && cursor <= back_edge,
            None => true,
        },
    decreases fuel,
{
    if fuel > 0 {
        match spec_decode_at(memory, cursor) {
            None => {},
            Some(i) => {
                if cursor != back_edge && i.decoded.control_flow is Linear {
                    match spec_next_address(i) {
                        None => {},
                        Some(next) => {
                            if !(next <= cursor || next > back_edge) {
                                lemma_verify_steps_shape(
                                    memory,
                                    start,
                                    back_edge,
                                    pc,
                                    flags,
                                    next,
                                    seen || cursor == pc,
                                    instructions.push(i),
                                    (fuel - 1) as nat,
                                );
                            }
                        },
                    }
                }
            },
        }
    }
}

fn verify_loop_from(
    memory: &[Option<u8>],
    start: u16,
    back_edge: u16,
    pc: u16,
    flags: u8,
) -> (r: Option<SimpleLoop>)
    ensures
        match r {
            Some(l) => spec_verify_loop(memory@, start, back_edge, pc, flags) == Some(l@),
            None => spec_verify_loop(memory@, start, back_edge, pc, flags) is None,
        },
{
    let mut cursor = start;
    let mut pc_is_instruction_boundary = false;
    let mut instructions: Vec<InstructionAt> = Vec::new();
    let mut step: usize = 0;
    assert(instruction_views(instructions@) =~= Seq::<InstructionAtView>::empty());
    while step < 256
        invariant
            step <= 256,
            spec_verify_loop(memory@, start, back_edge, pc, flags) == spec_verify_steps(
                memory@,
                start,
                back_edge,
                pc,
                flags,
                cursor,
                pc_is_instruction_boundary,
                instruction_views(instructions@),
                (256 - step) as nat,
            ),
        decreases 256 - step,
    {
        let instruction = match decode_at(memory, cursor) {
            Some(i) => i,
            None => return None,
        };
        if cursor == pc {
            pc_is_instruction_boundary = true;
        }
        if cursor == back_edge {
            let (target, condition) = match instruction.decoded.control_flow {
                ControlFlow::Jump { target, condition } => (target, condition),
                _ => return None,
            };
            if target != start {
                return None;
            }
            let branch_taken_now = match condition {
                None => true,
                Some(c) => c.evaluate(flags),
            };
            let ghost before = instructions@;
            instructions.push(instruction);
            proof {
                assert(instruction_views(instructions@) =~= instruction_views(before).push(
                    instruction@,
                ));
            }
            if !pc_is_instruction_boundary {
                return None;
            }
            return Some(SimpleLoop { start, back_edge, condition, branch_taken_now, instructions });
        }
        match instruction.decoded.control_flow {
            ControlFlow::Linear => {},
            _ => return None,
        }
        let next = match instruction.next_address() {
            Some(n) => n,
            None => return None,
        };
        if next <= cursor || next > back_edge {
            return None;
        }
        let ghost before = instructions@;
        instructions.push(instruction);
        proof {
            assert(instruction_views(instructions@) =~= instruction_views(before).push(
                instruction@,
            ));
        }
        cursor = next;
        step = step + 1;
    }
    None
}

pub open spec fn opt_loop_view(o: Option<SimpleLoop>) -> Option<SimpleLoopView> {
    match o {
        Some(l) => Some(l@),
        None => None,
    }
}

/// Span of a loop body in bytes (back-edge address minus start).
pub open spec fn spec_span(l: SimpleLoopView) -> int {
    l.back_edge - l.start
}

/// The loop (if any) whose back edge is the direct backward jump decoded at
/// `candidate`.
pub open spec fn spec_candidate_loop(
    memory: Seq<Option<u8>>,
    pc: u16,
    flags: u8,
    candidate: u16,
) -> Option<SimpleLoopView> {
    match spec_decode_at(memory, candidate) {
        Some(i) => match i.decoded.control_flow {
            ControlFlow::Jump { target, .. } => if target < candidate && target <= pc {
                spec_verify_loop(memory, target, candidate, pc, flags)
            } else {
                None
            },
            _ => None,
        },
        None => None,
    }
}

/// Keeps the tighter of two loops; the earlier one wins a tie.
pub open spec fn spec_prefer(found: SimpleLoopView, best: Option<SimpleLoopView>) -> Option<
    SimpleLoopView,
> {
    match best {
        None => Some(found),
        Some(b) => if spec_span(found) < spec_span(b) {
            Some(found)
        } else {
            best
        },
    }
}

/// Scans back-edge candidates from `candidate` up to `end` (inclusive, and
/// never past 0xFFFF), keeping the tightest verified loop.
pub open spec fn spec_scan(
    memory: Seq<Option<u8>>,
    pc: u16,
    flags: u8,
    candidate: u16,
    end: u16,
    best: Option<SimpleLoopView>,
) -> Option<SimpleLoopView>
    decreases 0x10000 - candidate,
{
    let best2 = match spec_candidate_loop(memory, pc, flags, candidate) {
        Some(f) => spec_prefer(f, best),
        None => best,
    };
    if candidate == end || candidate == 0xffff {
        best2
    } else {
        spec_scan(memory, pc, flags, (candidate + 1) as u16, end, best2)
    }
}

/// The tightest simple loop whose body contains `pc`, searching back edges in
/// the 256 bytes following `pc`.
pub open spec fn spec_detect_simple_backward_loop(
    memory: Seq<Option<u8>>,
    pc: u16,
    flags: u8,
) -> Option<SimpleLoopView> {
    let end = if pc + 0x0100 <= 0xffff { (pc + 0x0100) as u16 } else { 0xffffu16 };
    spec_scan(memory, pc, flags, pc, end, None)
}

/// Detect a high-confidence simple loop containing the current PC: a direct
/// backward JMP/Jcc at most 256 bytes ahead whose target is at or before PC,
/// from which linear decoding lands exactly on the branch with PC on an
/// instruction boundary. The tightest such loop is reported.
pub fn detect_simple_backward_loop(memory: &[Option<u8>], pc: u16, flags: u8) -> (r: Option<
    SimpleLoop,
>)
    ensures
        match r {
            Some(l) => spec_detect_simple_backward_loop(memory@, pc, flags) == Some(l@),
            None => spec_detect_simple_backward_loop(memory@, pc, flags) is None,
        },
{
    let search_end = pc.saturating_add(0x0100);
    let mut best: Option<SimpleLoop> = None;
    let mut candidate = pc;
    loop
        invariant_except_break
            pc <= candidate <= search_end,
            search_end == (if pc + 0x0100 <= 0xffff { (pc + 0x0100) as u16 } else { 0xffffu16 }),
            spec_detect_simple_backward_loop(memory@, pc, flags) == spec_scan(
                memory@,
                pc,
                flags,
                candidate,
                search_end,
                opt_loop_view(best),
            ),
        invariant
            best is Some ==> best.unwrap().start <= best.unwrap().back_edge,
        ensures
            spec_detect_simple_backward_loop(memory@, pc, flags) == opt_loop_view(best),
        decreases 0x10000 - candidate,
    {
        if let Some(instruction) = decode_at(memory, candidate) {
            if let ControlFlow::Jump { target, .. } = instruction.decoded.control_flow {
                if target < candidate && target <= pc {
                    let found = verify_loop_from(memory, target, candidate, pc, flags);
                    proof {
                        lemma_verify_steps_shape(memory@, target, candidate, pc, flags, target, false, Seq::empty(), 256);
                    }
                    if let Some(found) = found {
                        let replace = match &best {
                            None => true,
                            Some(current) => found.back_edge - found.start < current.back_edge
                                - current.start,
                        };
                        if replace {
                            best = Some(found);
                        }
                    }
                }
            }
        }
        if candidate == search_end || candidate == u16::MAX {
            break;
        }
        candidate = candidate + 1;
    }
    best
}

/// Last back-edge address searched: 256 bytes past `pc`, held at 0xFFFF.
pub open spec fn spec_search_end(pc: u16) -> u16 {
    if pc + 0x0100 <= 0xffff {
        (pc + 0x0100) as u16
    } else {
        0xffffu16
    }
}

/// `i` is what decoding memory at `i.address` gives.
#[verifier::opaque]
pub open spec fn spec_decodes_as(memory: Seq<Option<u8>>, i: InstructionAtView) -> bool {
    spec_decode_at(memory, i.address) == Some(i)
}

proof fn lemma_decodes_as_length(memory: Seq<Option<u8>>, x: InstructionAtView)
    requires
        spec_decodes_as(memory, x),
    ensures
        1 <= x.decoded.length <= 3,
{
    reveal(spec_decodes_as);
    reveal(spec_decode_at);
    lemma_every_opcode_has_structured_metadata(x.bytes[0], x.bytes[1], x.bytes[2]);
}

proof fn lemma_decode_at_decodes_as(memory: Seq<Option<u8>>, a: u16)
    ensures
        spec_decode_at(memory, a) matches Some(i) ==> i.address == a && spec_decodes_as(memory, i),
{
    reveal(spec_decodes_as);
    reveal(spec_decode_at);
}

proof fn lemma_decodes_as_decode_at(memory: Seq<Option<u8>>, x: InstructionAtView)
    requires
        spec_decodes_as(memory, x),
    ensures
        spec_decode_at(memory, x.address) == Some(x),
{
    reveal(spec_decodes_as);
}

/// `x` is linear and falls through to `y`.
pub open spec fn spec_falls_through(x: InstructionAtView, y: InstructionAtView) -> bool {
    x.decoded.control_flow is Linear && spec_next_address(x) == Some(y.address)
}

/// A straight run of instructions: each decodes at its own address, and each
/// but the last is linear and falls through to the address of the next.
pub open spec fn spec_linear_chain(memory: Seq<Option<u8>>, s: Seq<InstructionAtView>) -> bool {
    &&& forall|i: int| 0 <= i < s.len() ==> spec_decodes_as(memory, #[trigger] s[i])
    &&& forall|i: int, j: int| 0 <= i < s.len() - 1 && j == i + 1 ==> #[trigger] spec_falls_through(s[i], s[j])
}

/// A simple backward loop around `pc`: at most 256 instructions decoded
/// linearly from `start` land exactly on a direct JMP/Jcc at `back_edge`
/// (above `start`) that jumps back to `start`, with `pc` on one of the
/// instruction boundaries; `branch_taken_now` tells whether the branch is
/// taken with `flags`.
pub open spec fn spec_is_simple_loop(memory: Seq<Option<u8>>, pc: u16, flags: u8, l: SimpleLoopView) -> bool {
    let s = l.instructions;
    &&& 0 < s.len() <= 256
    &&& l.start < l.back_edge
    &&& spec_linear_chain(memory, s)
    &&& s[0].address == l.start
    &&& s.last().address == l.back_edge
    &&& s.last().decoded.control_flow == (ControlFlow::Jump { target: l.start, condition: l.condition })
    &&& exists|k: int| 0 <= k < s.len() && (#[trigger] s[k]).address == pc
    &&& l.branch_taken_now == spec_taken_now(l.condition, flags)
}

/// `a` is at least as tight as `b`: a shorter span, or the same span with a
/// back edge no later.
pub open spec fn spec_no_worse(a: SimpleLoopView, b: SimpleLoopView) -> bool {
    spec_span(a) < spec_span(b) || (spec_span(a) == spec_span(b) && a.back_edge <= b.back_edge)
}

/// Along a linear chain the addresses strictly increase.
proof fn lemma_chain_increasing(memory: Seq<Option<u8>>, s: Seq<InstructionAtView>, i: int, j: int)
    requires
        spec_linear_chain(memory, s),
        0 <= i < j < s.len(),
    ensures
        s[i].address < s[j].address,
    decreases j - i,
{
    let x = s[j - 1];
    assert(spec_decodes_as(memory, x));
    lemma_decodes_as_length(memory, x);
    assert(spec_falls_through(s[j - 1], s[j]));
    if i < j - 1 {
        lemma_chain_increasing(memory, s, i, j - 1);
    }
}

/// A simple loop runs from its start through `pc` to its back edge.
proof fn lemma_simple_loop_bounds(memory: Seq<Option<u8>>, pc: u16, flags: u8, l: SimpleLoopView)
    requires
        spec_is_simple_loop(memory, pc, flags, l),
    ensures
        l.start <= pc <= l.back_edge,
{
    let s = l.instructions;
    let k = choose|k: int| 0 <= k < s.len() && (#[trigger] s[k]).address == pc;
    if 0 < k {
        lemma_chain_increasing(memory, s, 0, k);
    }
    if k < s.len() - 1 {
        lemma_chain_increasing(memory, s, k, s.len() - 1);
    }
}

/// Appending an instruction that decodes where the chain falls through to
/// keeps it a chain.
proof fn lemma_chain_push(memory: Seq<Option<u8>>, s: Seq<InstructionAtView>, x: InstructionAtView)
    requires
        spec_linear_chain(memory, s),
        spec_decodes_as(memory, x),
        s.len() > 0 ==> spec_falls_through(s.last(), x),
    ensures
        spec_linear_chain(memory, s.push(x)),
{
    let s2 = s.push(x);
    assert forall|i: int| 0 <= i < s2.len() implies spec_decodes_as(memory, #[trigger] s2[i]) by {
        if i < s.len() {
            assert(s2[i] == s[i]);
        }
    }
    assert forall|i: int, j: int| 0 <= i < s2.len() - 1 && j == i + 1 implies #[trigger] spec_falls_through(s2[i], s2[j]) by {
        assert(s2[i] == s[i]);
        if j < s.len() {
            assert(s2[j] == s[j]);
            assert(spec_falls_through(s[i], s[j]));
        }
    }
}

/// What linear verification accepts is a simple loop with the asked start
/// and back edge.
#[verifier::rlimit(30)]
proof fn lemma_verify_steps_sound(
    memory: Seq<Option<u8>>,
    start: u16,
    back_edge: u16,
    pc: u16,
    flags: u8,
    cursor: u16,
    seen: bool,
    instructions: Seq<InstructionAtView>,
    fuel: nat,
)
    requires
        start < back_edge,
        spec_linear_chain(memory, instructions),
        instructions.len() + fuel <= 256,
        instructions.len() == 0 ==> cursor == start,
        instructions.len() > 0 ==> instructions[0].address == start && instructions.last().decoded.control_flow is Linear
            && spec_next_address(instructions.last()) == Some(cursor),
        seen <==> exists|k: int| 0 <= k < instructions.len() && (#[trigger] instructions[k]).address == pc,
    ensures
        match spec_verify_steps(memory, start, back_edge, pc, flags, cursor, seen, instructions, fuel) {
            Some(l) => l.start == start && l.back_edge == back_edge && spec_is_simple_loop(memory, pc, flags, l),
            None => true,
        },
    decreases fuel,
{
    if fuel > 0 {
        lemma_decode_at_decodes_as(memory, cursor);
        match spec_decode_at(memory, cursor) {
            None => {},
            Some(i) => {
                let seen2 = seen || cursor == pc;
                let s2 = instructions.push(i);
                lemma_chain_push(memory, instructions, i);
                assert(s2.last() == i);
                assert(instructions.len() > 0 ==> s2[0] == instructions[0]);
                assert(seen2 <==> exists|k: int| 0 <= k < s2.len() && (#[trigger] s2[k]).address == pc) by {
                    if seen {
                        let k = choose|k: int| 0 <= k < instructions.len() && (#[trigger] instructions[k]).address == pc;
                        assert(s2[k] == instructions[k]);
                    }
                    if cursor == pc {
                        assert(s2[s2.len() - 1] == i);
                    }
                    if exists|k: int| 0 <= k < s2.len() && (#[trigger] s2[k]).address == pc {
                        let k = choose|k: int| 0 <= k < s2.len() && (#[trigger] s2[k]).address == pc;
                        if k < instructions.len() {
                            assert(s2[k] == instructions[k]);
                        }
                    }
                }
                if cursor != back_edge && i.decoded.control_flow is Linear {
                    match spec_next_address(i) {
                        None => {},
                        Some(next) => {
                            if !(next <= cursor || next > back_edge) {
                                lemma_verify_steps_sound(
                                    memory,
                                    start,
                                    back_edge,
                                    pc,
                                    flags,
                                    next,
                                    seen2,
                                    s2,
                                    (fuel - 1) as nat,
                                );
                            }
                        },
                    }
                }
            },
        }
    }
}

/// Linear verification finds every simple loop: started anywhere along the
/// loop, with the instructions before it, it gives back that loop.
#[verifier::rlimit(30)]
proof fn lemma_verify_steps_complete(memory: Seq<Option<u8>>, pc: u16, flags: u8, l: SimpleLoopView, j: int)
    requires
        spec_is_simple_loop(memory, pc, flags, l),
        0 <= j < l.instructions.len(),
    ensures
        spec_verify_steps(
            memory,
            l.start,
            l.back_edge,
            pc,
            flags,
            l.instructions[j].address,
            exists|k: int| 0 <= k < j && (#[trigger] l.instructions[k]).address == pc,
            l.instructions.subrange(0, j),
            (256 - j) as nat,
        ) == Some(l),
    decreases l.instructions.len() - j,
{
    let s = l.instructions;
    let n = s.len() as int;
    let x = s[j];
    let seen = exists|k: int| 0 <= k < j && (#[trigger] s[k]).address == pc;
    let seen2 = seen || x.address == pc;
    assert(spec_decodes_as(memory, x));
    lemma_decodes_as_decode_at(memory, x);
    assert(seen2 <==> exists|k: int| 0 <= k < j + 1 && (#[trigger] s[k]).address == pc);
    assert(s.subrange(0, j).push(x) =~= s.subrange(0, j + 1));
    if j == n - 1 {
        let w = choose|k: int| 0 <= k < s.len() && (#[trigger] s[k]).address == pc;
        assert(seen2);
        assert(s.subrange(0, j + 1) =~= s);
    } else {
        lemma_chain_increasing(memory, s, j, n - 1);
        lemma_chain_increasing(memory, s, j, j + 1);
        assert(spec_falls_through(s[j], s[j + 1]));
        if j + 1 < n - 1 {
            lemma_chain_increasing(memory, s, j + 1, n - 1);
        }
        lemma_verify_steps_complete(memory, pc, flags, l, j + 1);
    }
}

/// The back edge of a simple loop is a scanned candidate that yields exactly
/// that loop.
proof fn lemma_candidate_finds_loop(memory: Seq<Option<u8>>, pc: u16, flags: u8, l: SimpleLoopView)
    requires
        spec_is_simple_loop(memory, pc, flags, l),
    ensures
        spec_candidate_loop(memory, pc, flags, l.back_edge) == Some(l),
{
    let s = l.instructions;
    assert(spec_decodes_as(memory, s[s.len() - 1]));
    lemma_decodes_as_decode_at(memory, s[s.len() - 1]);
    lemma_simple_loop_bounds(memory, pc, flags, l);
    lemma_verify_steps_complete(memory, pc, flags, l, 0);
    assert(s.subrange(0, 0) =~= Seq::<InstructionAtView>::empty());
}

/// What a scanned candidate yields is a simple loop whose back edge is that
/// candidate.
proof fn lemma_candidate_sound(memory: Seq<Option<u8>>, pc: u16, flags: u8, candidate: u16)
    ensures
        match spec_candidate_loop(memory, pc, flags, candidate) {
            Some(l) => l.back_edge == candidate && spec_is_simple_loop(memory, pc, flags, l),
            None => true,
        },
{
    match spec_decode_at(memory, candidate) {
        Some(i) => match i.decoded.control_flow {
            ControlFlow::Jump { target, .. } => if target < candidate && target <= pc {
                lemma_verify_steps_sound(memory, target, candidate, pc, flags, target, false, Seq::empty(), 256);
            },
            _ => {},
        },
        None => {},
    }
}

/// One step of the candidate scan keeps a simple loop at least as tight as
/// the best so far and as the loop found at this candidate.
proof fn lemma_prefer(memory: Seq<Option<u8>>, pc: u16, flags: u8, candidate: u16, best: Option<SimpleLoopView>)
    requires
        best is Some ==> spec_is_simple_loop(memory, pc, flags, best.unwrap()) && pc <= best.unwrap().back_edge
            < candidate,
    ensures
        ({
            let best2 = match spec_candidate_loop(memory, pc, flags, candidate) {
                Some(f) => spec_prefer(f, best),
                None => best,
            };
            &&& best2 is Some ==> spec_is_simple_loop(memory, pc, flags, best2.unwrap()) && pc <= best2.unwrap().back_edge
                <= candidate
            &&& best is Some ==> best2 is Some && spec_no_worse(best2.unwrap(), best.unwrap())
            &&& spec_candidate_loop(memory, pc, flags, candidate) matches Some(f) ==> best2 is Some && spec_no_worse(
                best2.unwrap(),
                f,
            )
        }),
{
    lemma_candidate_sound(memory, pc, flags, candidate);
    match spec_candidate_loop(memory, pc, flags, candidate) {
        Some(f) => lemma_simple_loop_bounds(memory, pc, flags, f),
        None => {},
    }
}

proof fn lemma_scan(
    memory: Seq<Option<u8>>,
    pc: u16,
    flags: u8,
    candidate: u16,
    end: u16,
    best: Option<SimpleLoopView>,
    other: SimpleLoopView,
)
    requires
        pc <= candidate <= end,
        best is Some ==> spec_is_simple_loop(memory, pc, flags, best.unwrap()) && pc <= best.unwrap().back_edge
            < candidate,
    ensures
        ({
            let r = spec_scan(memory, pc, flags, candidate, end, best);
            &&& r is Some ==> spec_is_simple_loop(memory, pc, flags, r.unwrap()) && pc <= r.unwrap().back_edge <= end
            &&& best is Some ==> r is Some && spec_no_worse(r.unwrap(), best.unwrap())
            &&& spec_is_simple_loop(memory, pc, flags, other) && candidate <= other.back_edge <= end ==> r is Some
                && spec_no_worse(r.unwrap(), other)
        }),
    decreases 0x10000 - candidate,
{
    lemma_prefer(memory, pc, flags, candidate, best);
    if spec_is_simple_loop(memory, pc, flags, other) && other.back_edge == candidate {
        lemma_candidate_finds_loop(memory, pc, flags, other);
    }
    let best2 = match spec_candidate_loop(memory, pc, flags, candidate) {
        Some(f) => spec_prefer(f, best),
        None => best,
    };
    if !(candidate == end || candidate == 0xffff) {
        lemma_scan(memory, pc, flags, (candidate + 1) as u16, end, best2, other);
    }
}

/// What the loop detector reports is a simple loop around `pc` (see
/// `spec_is_simple_loop`) whose back edge lies in the 256 bytes from `pc` on.
pub proof fn lemma_detected_loop_is_simple(memory: Seq<Option<u8>>, pc: u16, flags: u8)
    ensures
        match spec_detect_simple_backward_loop(memory, pc, flags) {
            Some(l) => spec_is_simple_loop(memory, pc, flags, l) && l.start <= pc <= l.back_edge
                <= spec_search_end(pc),
            None => true,
        },
{
    lemma_scan(memory, pc, flags, pc, spec_search_end(pc), None, spec_detect_simple_backward_loop(memory, pc, flags).unwrap());
    match spec_detect_simple_backward_loop(memory, pc, flags) {
        Some(l) => lemma_simple_loop_bounds(memory, pc, flags, l),
        None => {},
    }
}

/// The loop detector misses no loop and reports the tightest: whenever a
/// simple loop around `pc` has its back edge in the searched window, the
/// detector reports a loop, with a span no longer than that one's, and on
/// equal spans a back edge no later.
pub proof fn lemma_detected_loop_is_tightest(memory: Seq<Option<u8>>, pc: u16, flags: u8, other: SimpleLoopView)
    requires
        spec_is_simple_loop(memory, pc, flags, other),
        pc <= other.back_edge <= spec_search_end(pc),
    ensures
        spec_detect_simple_backward_loop(memory, pc, flags) is Some,
        spec_no_worse(spec_detect_simple_backward_loop(memory, pc, flags).unwrap(), other),
{
    lemma_scan(memory, pc, flags, pc, spec_search_end(pc), None, other);
}

} // verus!
