//! Electrical duty of the front-panel lamps.
//!
//! Every CPU-board sample adds its weight (in T-states) to a counter for each
//! lamp line that was on. The 64 counters are kept bit-sliced: plane `p`
//! holds bit `p` of every counter, so adding a weight to all lines of a mask
//! is a ripple-carry add across whole words. A counter divided by the total
//! weight is the lamp's duty over the interval.

use vstd::prelude::*;
use vstd::arithmetic::div_mod::{lemma_div_denominator, lemma_mod_breakdown};

verus! {

/// One counter per packed lamp line, one plane per counter bit.
pub const DUTY_COUNTER_PLANES: usize = 64;

/// 2 to the `n`.
pub open spec fn p2(n: nat) -> nat
    decreases n,
{
    if n == 0 {
        1
    } else {
        2 * p2((n - 1) as nat)
    }
}

/// Whether bit `b` of `x` is set.
pub open spec fn bit_set(x: u64, b: nat) -> bool {
    b < 64 && x & (1u64 << (b as u64)) != 0
}

/// `amount` where bit `b` of `x` is set, else nothing.
pub open spec fn if_bit(x: u64, b: nat, amount: nat) -> nat {
    if bit_set(x, b) {
        amount
    } else {
        0
    }
}

/// The value of counter `b` held in the first `n` planes.
pub open spec fn lane(planes: Seq<u64>, b: nat, n: nat) -> nat
    decreases n,
{
    if n == 0 {
        0
    } else {
        lane(planes, b, (n - 1) as nat) + if_bit(planes[n - 1], b, p2((n - 1) as nat))
    }
}

/// Counter `b` of a set of planes.
pub open spec fn counter(planes: Seq<u64>, b: nat) -> nat {
    lane(planes, b, DUTY_COUNTER_PLANES as nat)
}

/// Each counter of the mask gains `weight`; the others stay.
pub open spec fn spec_counters_added(before: Seq<u64>, after: Seq<u64>, mask: u64, weight: nat) -> bool {
    forall|b: nat| b < 64 ==> #[trigger] counter(after, b) == counter(before, b) + if_bit(mask, b, weight)
}

/// The counters never exceed the total weight, so no counter can overflow.
pub open spec fn spec_integrator_wf(v: (Seq<u64>, u64)) -> bool {
    &&& v.0.len() == DUTY_COUNTER_PLANES
    &&& forall|b: nat| b < 64 ==> #[trigger] counter(v.0, b) <= v.1
}

/// `after` is `before` with one sample of `weight` T-states of `packed`
/// counted (as much of the weight as the total can still hold).
pub open spec fn spec_sampled(before: (Seq<u64>, u64), after: (Seq<u64>, u64), packed: u64, weight: u64) -> bool {
    &&& spec_integrator_wf(after)
    &&& after.1 == before.1 + spec_accepted(before.1, weight)
    &&& spec_counters_added(before.0, after.0, packed, spec_accepted(before.1, weight))
}

/// `after` is `before` with one machine cycle counted: its first T-state
/// showing `first_mask`, the rest showing `rest_mask`.
pub open spec fn spec_two_phase_sampled(
    before: (Seq<u64>, u64),
    after: (Seq<u64>, u64),
    first_mask: u64,
    rest_mask: u64,
    t_states: u64,
) -> bool {
    let accepted = spec_accepted(before.1, t_states);
    &&& spec_integrator_wf(after)
    &&& after.1 == before.1 + accepted
    &&& accepted > 0 ==> forall|b: nat|
        b < 64 ==> #[trigger] counter(after.0, b) == counter(before.0, b) + if_bit(first_mask, b, 1)
            + if_bit(rest_mask, b, (accepted - 1) as nat)
    &&& accepted == 0 ==> after == before
}

/// All counters and the total are zero.
pub open spec fn spec_cleared(v: (Seq<u64>, u64)) -> bool {
    &&& spec_integrator_wf(v)
    &&& v.1 == 0
    &&& forall|b: nat| b < 64 ==> #[trigger] counter(v.0, b) == 0
}

/// The weight a sample can still add before the total saturates.
pub open spec fn spec_accepted(total: u64, requested: u64) -> nat {
    if requested < u64::MAX - total {
        requested as nat
    } else {
        (u64::MAX - total) as nat
    }
}

proof fn lemma_p2_positive(n: nat)
    ensures
        p2(n) >= 1,
    decreases n,
{
    if n > 0 {
        lemma_p2_positive((n - 1) as nat);
    }
}

proof fn lemma_p2_is_shift(n: u64)
    requires
        n < 64,
    ensures
        p2(n as nat) == (1u64 << n) as nat,
    decreases n,
{
    if n == 0 {
        assert((1u64 << 0u64) == 1) by (bit_vector);
    } else {
        lemma_p2_is_shift((n - 1) as u64);
        assert(0 < n < 64 ==> (1u64 << n) == 2 * (1u64 << ((n - 1) as u64))) by (bit_vector);
    }
}

proof fn lemma_p2_64()
    ensures
        p2(64) == u64::MAX + 1,
{
    lemma_p2_is_shift(63);
    assert((1u64 << 63u64) == 0x8000_0000_0000_0000u64) by (bit_vector);
}

proof fn lemma_lane_bound(planes: Seq<u64>, b: nat, n: nat)
    ensures
        lane(planes, b, n) < p2(n),
    decreases n,
{
    if n > 0 {
        lemma_lane_bound(planes, b, (n - 1) as nat);
    }
}

proof fn lemma_lane_zero(planes: Seq<u64>, b: nat, n: nat)
    requires
        n <= planes.len(),
        forall|j: int| 0 <= j < planes.len() ==> planes[j] == 0,
    ensures
        lane(planes, b, n) == 0,
    decreases n,
{
    if n > 0 {
        lemma_lane_zero(planes, b, (n - 1) as nat);
        lemma_bits_of_xor_and(0, 0, b);
    }
}

/// Changing one plane changes each counter only by that plane's bit.
proof fn lemma_lane_update(planes: Seq<u64>, p: nat, v: u64, b: nat, n: nat)
    requires
        p < planes.len(),
        n <= planes.len(),
    ensures
        p < n ==> lane(planes.update(p as int, v), b, n) + if_bit(planes[p as int], b, p2(p)) == lane(
            planes,
            b,
            n,
        ) + if_bit(v, b, p2(p)),
        p >= n ==> lane(planes.update(p as int, v), b, n) == lane(planes, b, n),
    decreases n,
{
    if n > 0 {
        lemma_lane_update(planes, p, v, b, (n - 1) as nat);
        assert(planes.update(p as int, v)[n - 1] == if n - 1 == p {
            v
        } else {
            planes[n - 1]
        });
    }
}

proof fn lemma_bits_of_xor_and(x: u64, y: u64, b: nat)
    ensures
        bit_set(x ^ y, b) == (bit_set(x, b) != bit_set(y, b)),
        bit_set(x & y, b) == (bit_set(x, b) && bit_set(y, b)),
        !bit_set(0, b),
{
    if b < 64 {
        let s = b as u64;
        assert(s < 64 ==> (((x ^ y) & (1u64 << s) != 0) == ((x & (1u64 << s) != 0) != (y & (1u64
            << s) != 0)))) by (bit_vector);
        assert(s < 64 ==> (((x & y) & (1u64 << s) != 0) == ((x & (1u64 << s) != 0) && (y & (1u64
            << s) != 0)))) by (bit_vector);
        assert((0u64 & (1u64 << s)) == 0) by (bit_vector);
    }
}

/// One step of the ripple-carry add in one lane: the plane takes the sum
/// bit, and the carry moves one plane up with twice the weight.
proof fn lemma_ripple_step(before: Seq<u64>, plane: nat, c: u64, b: nat)
    requires
        plane < 64,
        before.len() == 64,
    ensures
        counter(before.update(plane as int, before[plane as int] ^ c), b) + if_bit(
            before[plane as int] & c,
            b,
            p2(plane + 1),
        ) == counter(before, b) + if_bit(c, b, p2(plane)),
{
    lemma_lane_update(before, plane, before[plane as int] ^ c, b, 64);
    lemma_bits_of_xor_and(before[plane as int], c, b);
    assert(p2(plane + 1) == 2 * p2(plane));
}

/// The bit-sliced duty counters and the total weight sampled.
pub struct PanelLampIntegrator {
    on_count_planes: Vec<u64>,
    total_weight: u64,
}

impl View for PanelLampIntegrator {
    /// (counter planes, total weight)
    type V = (Seq<u64>, u64);

    closed spec fn view(&self) -> (Seq<u64>, u64) {
        (self.on_count_planes@, self.total_weight)
    }
}

impl PanelLampIntegrator {
    pub fn new() -> (r: Self)
        ensures
            spec_cleared(r@),
    {
        let mut planes: Vec<u64> = Vec::new();
        while planes.len() < DUTY_COUNTER_PLANES
            invariant
                planes@.len() <= DUTY_COUNTER_PLANES,
                forall|i: int| 0 <= i < planes@.len() ==> planes@[i] == 0,
            decreases DUTY_COUNTER_PLANES - planes@.len(),
        {
            planes.push(0);
        }
        let r = PanelLampIntegrator { on_count_planes: planes, total_weight: 0 };
        assert forall|b: nat| b < 64 implies #[trigger] counter(r@.0, b) == 0 by {
            lemma_lane_zero(r@.0, b, 64);
        }
        r
    }

    pub fn total_weight(&self) -> (r: u64)
        ensures
            r == self@.1,
    {
        self.total_weight
    }

    /// Adds `2^plane` to each counter named by `carry`, rippling the carry up
    /// through the planes.
    fn add_mask_at_plane(&mut self, carry: u64, plane: usize)
        requires
            old(self)@.0.len() == DUTY_COUNTER_PLANES,
            plane <= DUTY_COUNTER_PLANES,
            forall|b: nat|
                b < 64 ==> #[trigger] counter(old(self)@.0, b) + if_bit(carry, b, p2(plane as nat)) < p2(64),
        ensures
            final(self)@.0.len() == DUTY_COUNTER_PLANES,
            final(self)@.1 == old(self)@.1,
            spec_counters_added(old(self)@.0, final(self)@.0, carry, p2(plane as nat)),
    {
        let ghost start = self.on_count_planes@;
        let ghost carry0 = carry;
        let ghost plane0 = plane;
        let mut carry = carry;
        let mut plane = plane;
        while carry != 0 && plane < DUTY_COUNTER_PLANES
            invariant
                self.on_count_planes@.len() == DUTY_COUNTER_PLANES,
                self.total_weight == old(self)@.1,
                plane <= DUTY_COUNTER_PLANES,
                start == old(self)@.0,
                forall|b: nat|
                    b < 64 ==> #[trigger] counter(start, b) + if_bit(carry0, b, p2(plane0 as nat)) < p2(64),
                forall|b: nat|
                    b < 64 ==> #[trigger] counter(self.on_count_planes@, b) + if_bit(carry, b, p2(plane as nat))
                        == counter(start, b) + if_bit(carry0, b, p2(plane0 as nat)),
            decreases DUTY_COUNTER_PLANES - plane,
        {
            let ghost before = self.on_count_planes@;
            let ghost carry_before = carry;
            let old_plane = self.on_count_planes[plane];
            let next = old_plane & carry;
            self.on_count_planes.set(plane, old_plane ^ carry);
            proof {
                assert forall|b: nat|
                    b < 64 implies #[trigger] counter(self.on_count_planes@, b) + if_bit(
                        next,
                        b,
                        p2((plane + 1) as nat),
                    ) == counter(start, b) + if_bit(carry0, b, p2(plane0 as nat)) by {
                    lemma_ripple_step(before, plane as nat, carry_before, b);
                }
            }
            carry = next;
            plane = plane + 1;
        }
        proof {
            assert forall|b: nat|
                b < 64 implies #[trigger] counter(self.on_count_planes@, b) == counter(start, b) + if_bit(
                    carry0,
                    b,
                    p2(plane0 as nat),
                ) by {
                lemma_bits_of_xor_and(carry, carry, b);
            }
        }
    }

    /// Adds `weight` to each counter named by `mask`, one set bit of the
    /// weight at a time.
    fn add_weighted_mask(&mut self, mask: u64, weight: u64)
        requires
            old(self)@.0.len() == DUTY_COUNTER_PLANES,
            forall|b: nat| b < 64 ==> #[trigger] counter(old(self)@.0, b) + if_bit(mask, b, weight as nat) < p2(64),
        ensures
            final(self)@.0.len() == DUTY_COUNTER_PLANES,
            final(self)@.1 == old(self)@.1,
            spec_counters_added(old(self)@.0, final(self)@.0, mask, weight as nat),
    {
        let ghost start = self.on_count_planes@;
        let ghost w = weight as nat;
        let mut remaining = weight;
        let mut plane: usize = 0;
        proof {
            lemma_p2_64();
            assert(w % p2(0) == 0 && w / p2(0) == w) by {
                assert(p2(0) == 1);
            }
        }
        while remaining != 0
            invariant
                self.on_count_planes@.len() == DUTY_COUNTER_PLANES,
                self.total_weight == old(self)@.1,
                start == old(self)@.0,
                w == weight,
                plane <= 64,
                p2(64) == u64::MAX + 1,
                remaining == w / p2(plane as nat),
                forall|b: nat| b < 64 ==> #[trigger] counter(start, b) + if_bit(mask, b, w) < p2(64),
                forall|b: nat|
                    b < 64 ==> #[trigger] counter(self.on_count_planes@, b) == counter(start, b) + if_bit(
                        mask,
                        b,
                        w % p2(plane as nat),
                    ),
            decreases remaining,
        {
            let ghost before = self.on_count_planes@;
            let ghost pp = p2(plane as nat);
            proof {
                lemma_p2_positive(plane as nat);
                assert(w % pp + remaining * pp == w) by (nonlinear_arith)
                    requires
                        remaining == w / pp,
                        pp > 0,
                ;
                assert(w % pp + pp <= w) by (nonlinear_arith)
                    requires
                        w % pp + remaining * pp == w,
                        remaining >= 1,
                        pp > 0,
                ;
                if plane == 64 {
                    assert(false);
                }
            }
            assert(remaining & 1u64 == remaining % 2) by (bit_vector);
            let low = remaining & 1;
            if low != 0 {
                proof {
                    assert forall|b: nat|
                        b < 64 implies #[trigger] counter(self.on_count_planes@, b) + if_bit(mask, b, pp) < p2(
                            64,
                        ) by {
                        assert(counter(start, b) + if_bit(mask, b, w) < p2(64));
                    }
                }
                self.add_mask_at_plane(mask, plane);
            }
            proof {
                lemma_div_denominator(w as int, pp as int, 2);
                lemma_mod_breakdown(w as int, pp as int, 2);
                assert(p2((plane + 1) as nat) == pp * 2);
                let m_old = w % pp;
                let m_new = w % p2((plane + 1) as nat);
                assert(m_new == pp * (remaining % 2) + m_old);
                if low != 0 {
                    assert(remaining % 2 == 1);
                    assert(m_new == m_old + pp);
                } else {
                    assert(remaining % 2 == 0);
                    assert(pp * (remaining % 2) == 0) by (nonlinear_arith)
                        requires
                            remaining % 2 == 0,
                    ;
                    assert(m_new == m_old);
                }
                assert forall|b: nat|
                    b < 64 implies #[trigger] counter(self.on_count_planes@, b) == counter(start, b) + if_bit(
                        mask,
                        b,
                        m_new,
                    ) by {
                    assert(counter(before, b) == counter(start, b) + if_bit(mask, b, m_old));
                }
            }
            assert((remaining >> 1u64) == remaining / 2) by (bit_vector);
            remaining = remaining >> 1;
            plane = plane + 1;
        }
        proof {
            lemma_p2_positive(plane as nat);
            assert(w % p2(plane as nat) == w) by (nonlinear_arith)
                requires
                    0 == w / p2(plane as nat),
                    p2(plane as nat) > 0,
            ;
        }
    }

    /// Counts `weight` T-states of one packed lamp state; weight beyond what
    /// the total can still hold is dropped.
    pub fn sample(&mut self, packed: u64, weight: u32)
        requires
            spec_integrator_wf(old(self)@),
        ensures
            spec_sampled(old(self)@, final(self)@, packed, weight as u64),
    {
        let requested = weight as u64;
        let room = u64::MAX - self.total_weight;
        let accepted = if requested < room {
            requested
        } else {
            room
        };
        if accepted == 0 {
            return ;
        }
        let ghost start = self.on_count_planes@;
        proof {
            lemma_p2_64();
            assert forall|b: nat| b < 64 implies #[trigger] counter(self.on_count_planes@, b) + if_bit(
                packed,
                b,
                accepted as nat,
            ) < p2(64) by {
                assert(counter(start, b) <= self.total_weight);
            }
        }
        self.add_weighted_mask(packed, accepted);
        self.total_weight = self.total_weight + accepted;
        proof {
            assert forall|b: nat| b < 64 implies #[trigger] counter(self.on_count_planes@, b) <= self.total_weight by {
                assert(counter(start, b) <= old(self)@.1);
            }
        }
    }

    /// Counts one machine cycle of `t_states`: its first T-state shows
    /// `first_mask` and the rest show `rest_mask`.
    pub fn sample_two_phase(&mut self, first_mask: u64, rest_mask: u64, t_states: u32)
        requires
            spec_integrator_wf(old(self)@),
        ensures
            spec_two_phase_sampled(old(self)@, final(self)@, first_mask, rest_mask, t_states as u64),
    {
        let requested = t_states as u64;
        let room = u64::MAX - self.total_weight;
        let accepted = if requested < room {
            requested
        } else {
            room
        };
        if accepted == 0 {
            return ;
        }
        proof {
            lemma_p2_64();
        }
        let ghost start = self.on_count_planes@;
        if first_mask == rest_mask {
            proof {
                assert forall|b: nat| b < 64 implies #[trigger] counter(self.on_count_planes@, b) + if_bit(
                    first_mask,
                    b,
                    accepted as nat,
                ) < p2(64) by {
                    assert(counter(start, b) <= self.total_weight);
                }
            }
            self.add_weighted_mask(first_mask, accepted);
        } else {
            proof {
                assert forall|b: nat| b < 64 implies #[trigger] counter(self.on_count_planes@, b) + if_bit(
                    first_mask,
                    b,
                    1,
                ) < p2(64) by {
                    assert(counter(start, b) <= self.total_weight);
                }
            }
            self.add_weighted_mask(first_mask, 1);
            let ghost mid = self.on_count_planes@;
            if accepted > 1 {
                proof {
                    assert forall|b: nat| b < 64 implies #[trigger] counter(self.on_count_planes@, b) + if_bit(
                        rest_mask,
                        b,
                        (accepted - 1) as nat,
                    ) < p2(64) by {
                        assert(counter(start, b) <= self.total_weight);
                        assert(counter(mid, b) == counter(start, b) + if_bit(first_mask, b, 1));
                    }
                }
                self.add_weighted_mask(rest_mask, accepted - 1);
            }
            proof {
                assert forall|b: nat| b < 64 implies #[trigger] counter(self.on_count_planes@, b) == counter(
                    start,
                    b,
                ) + if_bit(first_mask, b, 1) + if_bit(rest_mask, b, (accepted - 1) as nat) by {
                    assert(counter(mid, b) == counter(start, b) + if_bit(first_mask, b, 1));
                }
            }
        }
        self.total_weight = self.total_weight + accepted;
        proof {
            assert forall|b: nat| b < 64 implies #[trigger] counter(self.on_count_planes@, b) <= self.total_weight by {
                assert(counter(start, b) <= old(self)@.1);
            }
        }
    }

    /// One reconstructed machine cycle: its first T-state shows the bus as
    /// it was before the status latch (`first_common`) with the old panel
    /// data; the rest show the latched status and, when the cycle reads, the
    /// data read.
    pub fn sample_reconstructed_cycle_with_latched_status(
        &mut self,
        first_common_mask: u64,
        latched_common_mask: u64,
        first_panel_data: u8,
        final_panel_data: u8,
        t_states: u32,
        data_changes_after_t1: bool,
    )
        requires
            spec_integrator_wf(old(self)@),
        ensures
            spec_two_phase_sampled(
                old(self)@,
                final(self)@,
                first_common_mask | ((first_panel_data as u64) << 16u64),
                latched_common_mask | (((if data_changes_after_t1 {
                    final_panel_data
                } else {
                    first_panel_data
                }) as u64) << 16u64),
                t_states as u64,
            ),
    {
        let rest_panel_data = if data_changes_after_t1 {
            final_panel_data
        } else {
            first_panel_data
        };
        let first_mask = first_common_mask | ((first_panel_data as u64) << 16u64);
        let rest_mask = latched_common_mask | ((rest_panel_data as u64) << 16u64);
        self.sample_two_phase(first_mask, rest_mask, t_states);
    }

    /// A reconstructed machine cycle whose status is the same throughout.
    pub fn sample_reconstructed_cycle(
        &mut self,
        common_mask: u64,
        first_panel_data: u8,
        final_panel_data: u8,
        t_states: u32,
        data_changes_after_t1: bool,
    )
        requires
            spec_integrator_wf(old(self)@),
        ensures
            spec_two_phase_sampled(
                old(self)@,
                final(self)@,
                common_mask | ((first_panel_data as u64) << 16u64),
                common_mask | (((if data_changes_after_t1 {
                    final_panel_data
                } else {
                    first_panel_data
                }) as u64) << 16u64),
                t_states as u64,
            ),
    {
        self.sample_reconstructed_cycle_with_latched_status(
            common_mask,
            common_mask,
            first_panel_data,
            final_panel_data,
            t_states,
            data_changes_after_t1,
        );
    }

    /// Weight during which packed line `packed_bit` was on.
    pub fn packed_count(&self, packed_bit: u64) -> (r: u64)
        requires
            self@.0.len() == DUTY_COUNTER_PLANES,
            packed_bit < 64,
        ensures
            r == counter(self@.0, packed_bit as nat),
    {
        let mask = 1u64 << packed_bit;
        let mut value: u64 = 0;
        let mut plane: usize = 0;
        while plane < DUTY_COUNTER_PLANES
            invariant
                self.on_count_planes@.len() == DUTY_COUNTER_PLANES,
                plane <= DUTY_COUNTER_PLANES,
                packed_bit < 64,
                mask == 1u64 << packed_bit,
                value == lane(self.on_count_planes@, packed_bit as nat, plane as nat),
            decreases DUTY_COUNTER_PLANES - plane,
        {
            let bits = self.on_count_planes[plane];
            proof {
                lemma_lane_bound(self.on_count_planes@, packed_bit as nat, plane as nat);
                lemma_p2_is_shift(plane as u64);
            }
            if bits & mask != 0 {
                let p = plane as u64;
                assert(p < 64 && value < (1u64 << p) ==> value | (1u64 << p) == value + (1u64 << p))
                    by (bit_vector);
                value = value | (1u64 << p);
            }
            plane = plane + 1;
        }
        value
    }

    /// Forgets the interval: all counters and the total return to zero.
    pub fn clear_activity(&mut self)
        requires
            old(self)@.0.len() == DUTY_COUNTER_PLANES,
        ensures
            spec_cleared(final(self)@),
    {
        let mut i: usize = 0;
        while i < DUTY_COUNTER_PLANES
            invariant
                self.on_count_planes@.len() == DUTY_COUNTER_PLANES,
                i <= DUTY_COUNTER_PLANES,
                forall|j: int| 0 <= j < i ==> self.on_count_planes@[j] == 0,
            decreases DUTY_COUNTER_PLANES - i,
        {
            self.on_count_planes.set(i, 0);
            i = i + 1;
        }
        self.total_weight = 0;
        proof {
            assert forall|b: nat| b < 64 implies #[trigger] counter(self.on_count_planes@, b) == 0 by {
                lemma_lane_zero(self.on_count_planes@, b, 64);
            }
        }
    }
}

impl Default for PanelLampIntegrator {
    fn default() -> (r: Self)
        ensures
            spec_cleared(r@),
    {
        PanelLampIntegrator::new()
    }
}

/// Duty does not depend on the order of samples: two samples counted either
/// way round leave every counter and the total the same.
pub proof fn lemma_duty_is_sample_order_invariant(
    start: Seq<u64>,
    ab: Seq<u64>,
    ba: Seq<u64>,
    mid_a: Seq<u64>,
    mid_b: Seq<u64>,
    a: u64,
    wa: nat,
    b_mask: u64,
    wb: nat,
)
    requires
        spec_counters_added(start, mid_a, a, wa),
        spec_counters_added(mid_a, ab, b_mask, wb),
        spec_counters_added(start, mid_b, b_mask, wb),
        spec_counters_added(mid_b, ba, a, wa),
    ensures
        forall|b: nat| b < 64 ==> #[trigger] counter(ab, b) == counter(ba, b),
{
    assert forall|b: nat| b < 64 implies #[trigger] counter(ab, b) == counter(ba, b) by {
        assert(counter(mid_a, b) == counter(start, b) + if_bit(a, b, wa));
        assert(counter(mid_b, b) == counter(start, b) + if_bit(b_mask, b, wb));
    }
}

} // verus!
