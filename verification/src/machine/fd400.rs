//! Pertec FD-400 mechanics, its physical read stream, and the MITS disk units
//! that carry it.
//!
//! Time is supplied explicitly by the caller, so an idle drive is derived from
//! a query rather than advanced by a polling loop. The fixed-point unit is one
//! sixth of a microsecond: one Altair 2 MHz T-state is exactly three units, a
//! 360 RPM revolution is exactly 1,000,000 units, and one of 32 hard sectors
//! is exactly 31,250 units.
//!
//! Base timings: 360 RPM, 32 hard sectors plus index, 77 tracks, 10 ms
//! track-to-track access, 40 ms Head Status after a head load or after a step
//! with the head loaded, and a 30 us Sector True window.

use vstd::prelude::*;
use crate::machine::fd400_media::{
    HardSectored8InchMedia, MediaView, HARD_SECTORS_PER_TRACK, PHYSICAL_BYTES_PER_SECTOR,
    spec_physical_byte,
};

verus! {

pub const TIME_UNITS_PER_MICROSECOND: u64 = 6;
pub const TIME_UNITS_PER_8080_T_STATE: u64 = 3;
pub const REVOLUTION_TIME_UNITS: u64 = 1_000_000;
pub const SECTORS_PER_REVOLUTION: u64 = 32;
pub const SECTOR_TIME_UNITS: u64 = 31_250;
pub const SECTOR_TRUE_TIME_UNITS: u64 = 180;
pub const TRACK_TO_TRACK_TIME_UNITS: u64 = 60_000;
pub const HEAD_STATUS_DELAY_UNITS: u64 = 240_000;
pub const TRACK_COUNT: u8 = 77;
pub const LAST_TRACK: u8 = 76;
pub const MAX_DRIVES: usize = 16;

/// Read data begins 140 us after Sector True.
pub const READ_DATA_START_UNITS: u64 = 840;
/// Each further physical byte follows 32 us later.
pub const READ_BYTE_INTERVAL_UNITS: u64 = 192;
pub const LAST_PHYSICAL_BYTE: usize = 136;
pub const LAST_PHYSICAL_BYTE_DUE_UNITS: u64 = 26_952;

pub open spec fn sat_add(a: u64, b: int) -> u64 {
    if a + b > u64::MAX {
        u64::MAX
    } else {
        (a + b) as u64
    }
}

pub open spec fn sat_sub(a: u64, b: u64) -> u64 {
    if a >= b {
        (a - b) as u64
    } else {
        0
    }
}

pub open spec fn sat_mul(a: u64, b: u64) -> u64 {
    if a * b > u64::MAX {
        u64::MAX
    } else {
        (a * b) as u64
    }
}

pub(crate) fn saturating_mul_u64(a: u64, b: u64) -> (r: u64)
    ensures
        r == sat_mul(a, b),
{
    match a.checked_mul(b) {
        Some(p) => p,
        None => u64::MAX,
    }
}

/// A point on the drive's virtual time line, in sixths of a microsecond.
#[derive(Clone, Copy, Debug, PartialEq, Eq, Structural)]
pub struct Fd400Time(pub u64);

impl Fd400Time {
    pub fn zero() -> (r: Self)
        ensures
            r.0 == 0,
    {
        Fd400Time(0)
    }

    pub fn from_units(units: u64) -> (r: Self)
        ensures
            r.0 == units,
    {
        Fd400Time(units)
    }

    pub fn from_microseconds(microseconds: u64) -> (r: Self)
        ensures
            r.0 == sat_mul(microseconds, TIME_UNITS_PER_MICROSECOND),
    {
        Fd400Time(saturating_mul_u64(microseconds, TIME_UNITS_PER_MICROSECOND))
    }

    pub fn from_8080_t_states(t_states: u64) -> (r: Self)
        ensures
            r.0 == sat_mul(t_states, TIME_UNITS_PER_8080_T_STATE),
    {
        Fd400Time(saturating_mul_u64(t_states, TIME_UNITS_PER_8080_T_STATE))
    }

    pub fn units(self) -> (r: u64)
        ensures
            r == self.0,
    {
        self.0
    }

    pub fn saturating_add(self, delta: u64) -> (r: Self)
        ensures
            r.0 == sat_add(self.0, delta as int),
    {
        Fd400Time(self.0.saturating_add(delta))
    }

    pub fn saturating_duration_since(self, earlier: Self) -> (r: u64)
        ensures
            r == sat_sub(self.0, earlier.0),
    {
        self.0.saturating_sub(earlier.0)
    }
}

#[derive(Clone, Copy, Debug, PartialEq, Eq, Structural)]
pub struct Fd400RotationSnapshot {
    /// Complete revolutions since the rotation epoch.
    pub revolution: u64,
    /// Angular offset from the index reference, in time units.
    pub revolution_offset_units: u64,
    /// Current hard sector, 0 through 31.
    pub sector: u8,
    /// Offset from the beginning of the current sector.
    pub sector_offset_units: u64,
    /// Controller Sector True window at the hard-sector boundary.
    pub sector_true: bool,
}

#[derive(Clone, Copy, Debug, PartialEq, Eq, Structural)]
pub enum Fd400StepDirection {
    In,
    Out,
}

#[derive(Clone, Copy, Debug, PartialEq, Eq, Structural)]
struct PendingStep {
    complete_at: Fd400Time,
    target_track: u8,
}

#[derive(Clone, Copy, Debug, PartialEq, Eq, Structural)]
pub struct Fd400MechanicalSnapshot {
    pub powered: bool,
    pub door_open: bool,
    pub motor_on: bool,
    pub track: u8,
    pub track_zero: bool,
    pub head_loaded: bool,
    pub head_status: bool,
    pub step_command_allowed: bool,
    pub rotation: Fd400RotationSnapshot,
}

/// The drive's state as mathematical values; times are in units.
pub struct Fd400Model {
    pub powered: bool,
    pub door_open: bool,
    pub motor_commanded_on: bool,
    pub rotation_epoch: u64,
    pub rotation_revolution_base: u64,
    pub rotation_offset_base: u64,
    pub track: u8,
    /// Completion time and target track of a seek in flight.
    pub pending_step: Option<(u64, u8)>,
    pub next_step_allowed_at: u64,
    pub head_commanded_loaded: bool,
    pub head_ready_at: Option<u64>,
    pub media: Option<MediaView>,
}

#[derive(Debug)]
pub struct PertecFd400 {
    powered: bool,
    door_open: bool,
    motor_commanded_on: bool,
    rotation_epoch: Fd400Time,
    rotation_revolution_base: u64,
    rotation_offset_base: u64,
    track: u8,
    pending_step: Option<PendingStep>,
    next_step_allowed_at: Fd400Time,
    head_commanded_loaded: bool,
    head_ready_at: Option<Fd400Time>,
    media: Option<HardSectored8InchMedia>,
}

impl View for PertecFd400 {
    type V = Fd400Model;

    closed spec fn view(&self) -> Fd400Model {
        Fd400Model {
            powered: self.powered,
            door_open: self.door_open,
            motor_commanded_on: self.motor_commanded_on,
            rotation_epoch: self.rotation_epoch.0,
            rotation_revolution_base: self.rotation_revolution_base,
            rotation_offset_base: self.rotation_offset_base,
            track: self.track,
            pending_step: match self.pending_step {
                Some(p) => Some((p.complete_at.0, p.target_track)),
                None => None,
            },
            next_step_allowed_at: self.next_step_allowed_at.0,
            head_commanded_loaded: self.head_commanded_loaded,
            head_ready_at: match self.head_ready_at {
                Some(t) => Some(t.0),
                None => None,
            },
            media: match self.media {
                Some(m) => Some(m@),
                None => None,
            },
        }
    }
}

/// A drive fresh from the factory: unpowered, door open, head at track 0.
pub open spec fn spec_fd400_initial() -> Fd400Model {
    Fd400Model {
        powered: false,
        door_open: true,
        motor_commanded_on: false,
        rotation_epoch: 0,
        rotation_revolution_base: 0,
        rotation_offset_base: 0,
        track: 0,
        pending_step: None,
        next_step_allowed_at: 0,
        head_commanded_loaded: false,
        head_ready_at: None,
        media: None,
    }
}

pub open spec fn spec_spindle_rotating(m: Fd400Model) -> bool {
    m.powered && m.motor_commanded_on
}

/// Angular position at `now`: the captured base plus the time the spindle
/// has turned since the epoch (none while it is stopped).
pub open spec fn spec_rotation(m: Fd400Model, now: u64) -> Fd400RotationSnapshot {
    let elapsed: u64 = if spec_spindle_rotating(m) {
        sat_sub(now, m.rotation_epoch)
    } else {
        0
    };
    let accumulated = sat_add(m.rotation_offset_base, elapsed as int);
    let offset = (accumulated % REVOLUTION_TIME_UNITS) as u64;
    let sector_offset = (offset % SECTOR_TIME_UNITS) as u64;
    Fd400RotationSnapshot {
        revolution: sat_add(m.rotation_revolution_base, (accumulated / REVOLUTION_TIME_UNITS) as int),
        revolution_offset_units: offset,
        sector: (offset / SECTOR_TIME_UNITS) as u8,
        sector_offset_units: sector_offset,
        sector_true: sector_offset < SECTOR_TRUE_TIME_UNITS,
    }
}

/// Folds the rotation up to `now` into the base and restarts the epoch there.
pub open spec fn spec_capture(m: Fd400Model, now: u64) -> Fd400Model {
    let r = spec_rotation(m, now);
    Fd400Model {
        rotation_epoch: now,
        rotation_revolution_base: r.revolution,
        rotation_offset_base: r.revolution_offset_units,
        ..m
    }
}

/// A seek whose completion time has come lands on its target track.
pub open spec fn spec_settle(m: Fd400Model, now: u64) -> Fd400Model {
    match m.pending_step {
        Some(p) => if p.0 <= now {
            Fd400Model { track: p.1, pending_step: None, ..m }
        } else {
            m
        },
        None => m,
    }
}

pub open spec fn spec_head_status(m: Fd400Model, now: u64) -> bool {
    &&& m.powered
    &&& m.head_commanded_loaded
    &&& match m.head_ready_at {
        Some(t) => now >= t,
        None => false,
    }
}

pub open spec fn spec_mechanical_snapshot(m: Fd400Model, now: u64) -> Fd400MechanicalSnapshot {
    let s = spec_settle(m, now);
    Fd400MechanicalSnapshot {
        powered: s.powered,
        door_open: s.door_open,
        motor_on: spec_spindle_rotating(s),
        track: s.track,
        track_zero: s.track == 0,
        head_loaded: s.head_commanded_loaded,
        head_status: spec_head_status(s, now),
        step_command_allowed: s.powered && s.pending_step is None && now >= s.next_step_allowed_at,
        rotation: spec_rotation(s, now),
    }
}

pub open spec fn spec_set_power(m: Fd400Model, powered: bool, now: u64) -> Fd400Model {
    if m.powered == powered {
        m
    } else if powered {
        Fd400Model { powered: true, ..spec_capture(m, now) }
    } else {
        Fd400Model {
            powered: false,
            pending_step: None,
            head_commanded_loaded: false,
            head_ready_at: None,
            ..spec_capture(m, now)
        }
    }
}

pub open spec fn spec_set_motor_on(m: Fd400Model, on: bool, now: u64) -> Fd400Model {
    if m.motor_commanded_on == on {
        m
    } else {
        Fd400Model { motor_commanded_on: on, ..spec_capture(m, now) }
    }
}

pub open spec fn spec_set_head_loaded(m: Fd400Model, loaded: bool, now: u64) -> Fd400Model {
    if !loaded {
        Fd400Model { head_commanded_loaded: false, head_ready_at: None, ..m }
    } else if !m.powered {
        m
    } else {
        let ready = sat_add(now, HEAD_STATUS_DELAY_UNITS as int);
        Fd400Model {
            head_commanded_loaded: true,
            head_ready_at: Some(ready),
            next_step_allowed_at: if m.next_step_allowed_at >= ready {
                m.next_step_allowed_at
            } else {
                ready
            },
            ..m
        }
    }
}

/// The track one step away, clamped to the two mechanical stops.
pub open spec fn spec_step_target(track: u8, direction: Fd400StepDirection) -> u8 {
    match direction {
        Fd400StepDirection::In => if track >= LAST_TRACK {
            LAST_TRACK
        } else {
            (track + 1) as u8
        },
        Fd400StepDirection::Out => if track == 0 {
            0
        } else {
            (track - 1) as u8
        },
    }
}

/// A step is accepted only by a powered drive with no seek in flight once
/// the previous step and head settling have elapsed.
pub open spec fn spec_step(m: Fd400Model, direction: Fd400StepDirection, now: u64) -> (
    Fd400Model,
    bool,
) {
    let s = spec_settle(m, now);
    if !s.powered || s.pending_step is Some || now < s.next_step_allowed_at {
        (s, false)
    } else {
        let complete_at = sat_add(now, TRACK_TO_TRACK_TIME_UNITS as int);
        (
            Fd400Model {
                pending_step: Some((complete_at, spec_step_target(s.track, direction))),
                next_step_allowed_at: complete_at,
                head_ready_at: if s.head_commanded_loaded {
                    Some(sat_add(now, HEAD_STATUS_DELAY_UNITS as int))
                } else {
                    s.head_ready_at
                },
                ..s
            },
            true,
        )
    }
}

/// The head never rests, nor is sent, beyond the last track.
pub open spec fn spec_track_in_range(m: Fd400Model) -> bool {
    &&& m.track <= LAST_TRACK
    &&& match m.pending_step {
        Some(p) => p.1 <= LAST_TRACK,
        None => true,
    }
}

pub open spec fn spec_media_byte(m: Fd400Model, track: u8, sector: u8, offset: int) -> Option<u8> {
    match m.media {
        Some(v) => spec_physical_byte(v.bytes, track, sector, offset),
        None => None,
    }
}

/// Where in the byte stream the rotation stands: the revolution and sector of
/// the newest byte that has passed the head, its offset in the sector, and
/// how long ago it passed.
pub open spec fn spec_read_position(r: Fd400RotationSnapshot) -> Option<(u64, u8, int, int)> {
    if r.sector_offset_units >= READ_DATA_START_UNITS {
        let elapsed = r.sector_offset_units - READ_DATA_START_UNITS;
        let byte_offset = if elapsed / (READ_BYTE_INTERVAL_UNITS as int) >= LAST_PHYSICAL_BYTE {
            LAST_PHYSICAL_BYTE as int
        } else {
            elapsed / (READ_BYTE_INTERVAL_UNITS as int)
        };
        Some(
            (
                r.revolution,
                r.sector,
                byte_offset,
                r.sector_offset_units - (READ_DATA_START_UNITS + byte_offset
                    * READ_BYTE_INTERVAL_UNITS),
            ),
        )
    } else if r.revolution == 0 && r.sector == 0 {
        None
    } else {
        let age = r.sector_offset_units + SECTOR_TIME_UNITS - LAST_PHYSICAL_BYTE_DUE_UNITS;
        if r.sector == 0 {
            Some(((r.revolution - 1) as u64, (HARD_SECTORS_PER_TRACK - 1) as u8, LAST_PHYSICAL_BYTE as int, age))
        } else {
            Some((r.revolution, (r.sector - 1) as u8, LAST_PHYSICAL_BYTE as int, age))
        }
    }
}

/// The position of a byte in the endless stream under the head.
pub open spec fn spec_read_generation(revolution: u64, sector: u8, byte_offset: int) -> u64 {
    sat_add(
        sat_mul(
            sat_add(sat_mul(revolution, HARD_SECTORS_PER_TRACK as u64), sector as int),
            PHYSICAL_BYTES_PER_SECTOR as u64,
        ),
        byte_offset,
    )
}

/// The newest physical byte that has reached the read electronics by `now`,
/// with its stream generation: none while the spindle is stopped or the head
/// unloaded, before the head settled, or when the sector's record lacks the
/// SYNC bit in D7 of its first byte.
pub open spec fn spec_read_event(m: Fd400Model, now: u64) -> Option<(u64, u8)> {
    let s = spec_settle(m, now);
    if !spec_spindle_rotating(s) || !s.head_commanded_loaded {
        None
    } else {
        match s.head_ready_at {
            None => None,
            Some(ready) => match spec_read_position(spec_rotation(s, now)) {
                None => None,
                Some(p) => if sat_sub(now, p.3 as u64) < ready {
                    None
                } else {
                    match spec_media_byte(s, s.track, p.1, 0) {
                        None => None,
                        Some(first) => if first & 0x80 == 0 {
                            None
                        } else {
                            match spec_media_byte(s, s.track, p.1, p.2) {
                                None => None,
                                Some(b) => Some((spec_read_generation(p.0, p.1, p.2), b)),
                            }
                        },
                    }
                },
            },
        }
    }
}

/// Observing the drive never changes what a later observation reports: one
/// large jump in time gives the same snapshot and read event as any series
/// of earlier observations.
pub proof fn lemma_observation_is_incremental(m: Fd400Model, earlier: u64, later: u64)
    requires
        earlier <= later,
    ensures
        spec_settle(spec_settle(m, earlier), later) == spec_settle(m, later),
        spec_mechanical_snapshot(spec_settle(m, earlier), later) == spec_mechanical_snapshot(m, later),
        spec_read_event(spec_settle(m, earlier), later) == spec_read_event(m, later),
{
}

/// A turning spindle comes back to the same angle, sector and Sector True
/// state one revolution (1,000,000 units) later, with the revolution count
/// one higher.
pub proof fn lemma_rotation_is_periodic(m: Fd400Model, now: u64)
    requires
        spec_spindle_rotating(m),
        m.rotation_epoch <= now,
        now + REVOLUTION_TIME_UNITS <= u64::MAX,
        m.rotation_offset_base + (now - m.rotation_epoch) + REVOLUTION_TIME_UNITS <= u64::MAX,
        m.rotation_revolution_base + (m.rotation_offset_base + (now - m.rotation_epoch))
            / (REVOLUTION_TIME_UNITS as int) + 1 <= u64::MAX,
    ensures
        ({
            let a = spec_rotation(m, now);
            let b = spec_rotation(m, (now + REVOLUTION_TIME_UNITS) as u64);
            &&& b.revolution == a.revolution + 1
            &&& b.revolution_offset_units == a.revolution_offset_units
            &&& b.sector == a.sector
            &&& b.sector_offset_units == a.sector_offset_units
            &&& b.sector_true == a.sector_true
        }),
{
    let x: int = m.rotation_offset_base + (now - m.rotation_epoch);
    let r = REVOLUTION_TIME_UNITS as int;
    vstd::arithmetic::div_mod::lemma_mod_add_multiples_vanish(x, r);
    vstd::arithmetic::div_mod::lemma_div_plus_one(x, r);
    assert((r + x) == x + r);
}

/// The 40 ms head-load deadline: after a powered drive is told to load its
/// head at `at`, Head Status is reported exactly from `at` + 40 ms on.
pub proof fn lemma_head_status_waits_for_load_delay(m: Fd400Model, at: u64, now: u64)
    requires
        m.powered,
        at + HEAD_STATUS_DELAY_UNITS <= u64::MAX,
    ensures
        spec_mechanical_snapshot(spec_set_head_loaded(m, true, at), now).head_status <==> now >= at
            + HEAD_STATUS_DELAY_UNITS,
{
}

/// An accepted step lands on the neighbouring track exactly 10 ms later, and
/// with the head loaded Head Status drops until 40 ms after the step.
pub proof fn lemma_step_completes_after_track_to_track_time(
    m: Fd400Model,
    direction: Fd400StepDirection,
    at: u64,
    now: u64,
)
    requires
        spec_step(m, direction, at).1,
        at + HEAD_STATUS_DELAY_UNITS <= u64::MAX,
        at <= now,
    ensures
        ({
            let before = spec_settle(m, at);
            let after = spec_mechanical_snapshot(spec_step(m, direction, at).0, now);
            &&& after.track == if now >= at + TRACK_TO_TRACK_TIME_UNITS {
                spec_step_target(before.track, direction)
            } else {
                before.track
            }
            &&& after.step_command_allowed <==> now >= at + TRACK_TO_TRACK_TIME_UNITS
            &&& before.head_commanded_loaded ==> (after.head_status <==> now >= at
                + HEAD_STATUS_DELAY_UNITS)
        }),
{
}

/// The head never rests beyond the last track nor below track 0, whatever
/// the drive is told to do.
pub proof fn lemma_track_stays_in_range(
    m: Fd400Model,
    direction: Fd400StepDirection,
    flag: bool,
    now: u64,
)
    requires
        spec_track_in_range(m),
    ensures
        spec_track_in_range(spec_settle(m, now)),
        spec_track_in_range(spec_step(m, direction, now).0),
        spec_track_in_range(spec_set_power(m, flag, now)),
        spec_track_in_range(spec_set_motor_on(m, flag, now)),
        spec_track_in_range(spec_set_head_loaded(m, flag, now)),
        spec_mechanical_snapshot(m, now).track <= LAST_TRACK,
        spec_track_in_range(spec_fd400_initial()),
{
}

/// The read stream has no gaps: each byte of a sector follows the previous
/// one, the first byte of a sector follows the last byte of the previous
/// sector, and sector 0 follows sector 31 of the previous revolution.
pub proof fn lemma_read_stream_is_contiguous(revolution: u64, sector: u8, byte_offset: int)
    requires
        sector < HARD_SECTORS_PER_TRACK,
        0 <= byte_offset < LAST_PHYSICAL_BYTE,
        (revolution + 2) * (HARD_SECTORS_PER_TRACK as int) * (PHYSICAL_BYTES_PER_SECTOR as int)
            <= u64::MAX,
    ensures
        spec_read_generation(revolution, sector, byte_offset + 1) == spec_read_generation(
            revolution,
            sector,
            byte_offset,
        ) + 1,
        sector + 1 < HARD_SECTORS_PER_TRACK ==> spec_read_generation(revolution, (sector + 1) as u8, 0)
            == spec_read_generation(revolution, sector, LAST_PHYSICAL_BYTE as int) + 1,
        spec_read_generation((revolution + 1) as u64, 0, 0) == spec_read_generation(
            revolution,
            (HARD_SECTORS_PER_TRACK - 1) as u8,
            LAST_PHYSICAL_BYTE as int,
        ) + 1,
{
    assert((revolution + 1) * 32 * 137 <= (revolution + 2) * 32 * 137) by (nonlinear_arith);
    assert(((revolution * 32 + sector) * 137 + 137) <= (revolution + 1) * 32 * 137)
        by (nonlinear_arith)
        requires
            sector < 32,
    ;
    assert((revolution + 1) * 32 * 137 == (revolution * 32 + 31) * 137 + 137) by (nonlinear_arith);
    assert(((revolution * 32 + sector) + 1) * 137 == (revolution * 32 + sector) * 137 + 137)
        by (nonlinear_arith);
}

/// An accepted step sends the head to the neighbouring track: one track
/// further in for an In step and one further out for an Out step, except at
/// the stops (an In step on the last track, an Out step on track 0), where
/// the head stays. Once the step time has passed the head rests there.
pub proof fn lemma_step_moves_one_track(m: Fd400Model, direction: Fd400StepDirection, now: u64, later: u64)
    requires
        spec_step(m, direction, now).1,
    ensures
        ({
            let t = spec_settle(m, now).track as int;
            let next = spec_step(m, direction, now).0;
            let target = next.pending_step.unwrap().1 as int;
            &&& next.pending_step is Some
            &&& direction == Fd400StepDirection::In && t < LAST_TRACK ==> target == t + 1
            &&& direction == Fd400StepDirection::Out && t > 0 ==> target == t - 1
            &&& direction == Fd400StepDirection::In && t == LAST_TRACK ==> target == t
            &&& direction == Fd400StepDirection::Out && t == 0 ==> target == t
            &&& later >= next.pending_step.unwrap().0 ==> spec_settle(next, later).track == target
        }),
{
}

/// Stepping In and then Out (or Out and then In) away from the stops returns
/// the head to the track it started on.
pub proof fn lemma_step_in_then_out_returns(track: u8)
    ensures
        track < LAST_TRACK ==> spec_step_target(spec_step_target(track, Fd400StepDirection::In), Fd400StepDirection::Out)
            == track,
        0 < track <= LAST_TRACK ==> spec_step_target(spec_step_target(track, Fd400StepDirection::Out), Fd400StepDirection::In)
            == track,
{
}

/// When byte `k` of a sector is due at the read electronics: 140 us after
/// the sector starts, then one byte every 32 us.
pub open spec fn spec_read_byte_due(k: int) -> int {
    READ_DATA_START_UNITS + k * READ_BYTE_INTERVAL_UNITS
}

/// The drive is turning with its head loaded and settled on a track: no seek
/// is under way and the head has been ready for at least one sector time
/// before `sector_start`.
pub open spec fn spec_steady_reading(m: Fd400Model, sector_start: u64) -> bool {
    &&& spec_spindle_rotating(m)
    &&& m.head_commanded_loaded
    &&& m.pending_step is None
    &&& match m.head_ready_at {
        Some(ready) => ready + SECTOR_TIME_UNITS <= sector_start,
        None => false,
    }
}

/// The sector under the head carries the SYNC bit in D7 of its first byte.
pub open spec fn spec_sector_synced(m: Fd400Model, sector: u8) -> bool {
    match spec_media_byte(m, m.track, sector, 0) {
        Some(first) => first & 0x80 != 0,
        None => false,
    }
}

/// `sector_start` is a moment at which a sector begins under the head, and
/// the rotation count does not saturate before `until`.
pub open spec fn spec_sector_starts_at(m: Fd400Model, sector_start: u64, until: int) -> bool {
    &&& m.rotation_epoch <= sector_start <= until <= u64::MAX
    &&& m.rotation_offset_base + (until - m.rotation_epoch) <= u64::MAX
    &&& m.rotation_revolution_base + (m.rotation_offset_base + (until - m.rotation_epoch))
        / (REVOLUTION_TIME_UNITS as int) <= u64::MAX
    &&& spec_rotation(m, sector_start).sector_offset_units == 0
}

/// Within one sector time of a sector start the rotation stays in that
/// sector, and the sector offset is exactly the time since its start.
proof fn lemma_rotation_within_sector(m: Fd400Model, sector_start: u64, d: int)
    requires
        spec_spindle_rotating(m),
        0 <= d < SECTOR_TIME_UNITS,
        spec_sector_starts_at(m, sector_start, sector_start + d),
    ensures
        ({
            let r0 = spec_rotation(m, sector_start);
            let r = spec_rotation(m, (sector_start + d) as u64);
            &&& r.revolution == r0.revolution
            &&& r.sector == r0.sector
            &&& r0.sector < HARD_SECTORS_PER_TRACK
            &&& r.sector_offset_units == d
        }),
{
    let big_r = REVOLUTION_TIME_UNITS as int;
    let st = SECTOR_TIME_UNITS as int;
    let acc0: int = m.rotation_offset_base + (sector_start - m.rotation_epoch);
    let acc1: int = acc0 + d;
    let q = acc0 / big_r;
    let o = acc0 % big_r;
    vstd::arithmetic::div_mod::lemma_fundamental_div_mod(acc0, big_r);
    let sec = o / st;
    vstd::arithmetic::div_mod::lemma_fundamental_div_mod(o, st);
    assert(o % st == 0);
    assert(0 <= sec < 32) by (nonlinear_arith)
        requires
            o == st * sec + o % st,
            0 <= o < big_r,
            st == 31_250,
            big_r == 1_000_000,
    ;
    assert(o + d < big_r) by (nonlinear_arith)
        requires
            o == st * sec,
            sec < 32,
            d < st,
            st == 31_250,
            big_r == 1_000_000,
    ;
    vstd::arithmetic::div_mod::lemma_fundamental_div_mod_converse(acc1, big_r, q, o + d);
    vstd::arithmetic::div_mod::lemma_fundamental_div_mod_converse(o + d, st, sec, d);
}

/// The read stream inside one sector: from the sector start, the newest byte
/// at the read electronics is byte `k` from 140 us + `k` x 32 us on (byte 136,
/// the last, until the sector ends). Throughout each such window the drive
/// reports the same event, whose generation counts the bytes of the endless
/// stream, so every change of event raises the generation by exactly one.
pub proof fn lemma_read_event_follows_140_then_32_us(m: Fd400Model, sector_start: u64, k: int, d: int)
    requires
        spec_steady_reading(m, sector_start),
        spec_sector_starts_at(m, sector_start, sector_start + d),
        spec_sector_synced(m, spec_rotation(m, sector_start).sector),
        spec_media_byte(m, m.track, spec_rotation(m, sector_start).sector, k) is Some,
        0 <= k <= LAST_PHYSICAL_BYTE,
        spec_read_byte_due(k) <= d < SECTOR_TIME_UNITS,
        k < LAST_PHYSICAL_BYTE ==> d < spec_read_byte_due(k + 1),
    ensures
        ({
            let r0 = spec_rotation(m, sector_start);
            &&& spec_read_event(m, (sector_start + d) as u64) == Some(
                (
                    spec_read_generation(r0.revolution, r0.sector, k),
                    spec_media_byte(m, m.track, r0.sector, k).unwrap(),
                ),
            )
            &&& (k < LAST_PHYSICAL_BYTE && (r0.revolution + 2) * (HARD_SECTORS_PER_TRACK as int)
                * (PHYSICAL_BYTES_PER_SECTOR as int) <= u64::MAX) ==> spec_read_generation(
                r0.revolution,
                r0.sector,
                k + 1,
            ) == spec_read_generation(r0.revolution, r0.sector, k) + 1
        }),
{
    lemma_rotation_within_sector(m, sector_start, d);
    let r0 = spec_rotation(m, sector_start);
    let r = spec_rotation(m, (sector_start + d) as u64);
    let elapsed = d - READ_DATA_START_UNITS;
    if k < LAST_PHYSICAL_BYTE {
        vstd::arithmetic::div_mod::lemma_fundamental_div_mod_converse(
            elapsed,
            READ_BYTE_INTERVAL_UNITS as int,
            k,
            elapsed - k * READ_BYTE_INTERVAL_UNITS,
        );
    } else {
        assert(elapsed / (READ_BYTE_INTERVAL_UNITS as int) >= LAST_PHYSICAL_BYTE) by {
            vstd::arithmetic::div_mod::lemma_fundamental_div_mod(elapsed, READ_BYTE_INTERVAL_UNITS as int);
            assert(elapsed >= 136 * 192);
            assert(elapsed / 192 >= 136) by (nonlinear_arith)
                requires
                    elapsed == 192 * (elapsed / 192) + elapsed % 192,
                    0 <= elapsed % 192 < 192,
                    elapsed >= 136 * 192,
            ;
        }
    }
    assert(spec_read_position(r) == Some(
        (r0.revolution, r0.sector, k, d - spec_read_byte_due(k)),
    ));
    if k < LAST_PHYSICAL_BYTE && (r0.revolution + 2) * (HARD_SECTORS_PER_TRACK as int)
        * (PHYSICAL_BYTES_PER_SECTOR as int) <= u64::MAX {
        lemma_read_stream_is_contiguous(r0.revolution, r0.sector, k);
    }
}

/// Before the first byte of a sector is due (the first 140 us), the drive
/// still reports the last byte of the previous sector, or of the last sector
/// of the previous revolution; only the very first sector has none before it.
pub proof fn lemma_read_event_before_first_byte(m: Fd400Model, sector_start: u64, d: int)
    requires
        spec_steady_reading(m, sector_start),
        spec_sector_starts_at(m, sector_start, sector_start + d),
        0 <= d < READ_DATA_START_UNITS,
    ensures
        ({
            let r0 = spec_rotation(m, sector_start);
            let prev_rev: u64 = if r0.sector == 0 { (r0.revolution - 1) as u64 } else { r0.revolution };
            let prev_sector: u8 = if r0.sector == 0 {
                (HARD_SECTORS_PER_TRACK - 1) as u8
            } else {
                (r0.sector - 1) as u8
            };
            &&& r0.revolution == 0 && r0.sector == 0 ==> spec_read_event(m, (sector_start + d) as u64) is None
            &&& !(r0.revolution == 0 && r0.sector == 0) && spec_sector_synced(m, prev_sector)
                && spec_media_byte(m, m.track, prev_sector, LAST_PHYSICAL_BYTE as int) is Some
                ==> spec_read_event(m, (sector_start + d) as u64) == Some(
                (
                    spec_read_generation(prev_rev, prev_sector, LAST_PHYSICAL_BYTE as int),
                    spec_media_byte(m, m.track, prev_sector, LAST_PHYSICAL_BYTE as int).unwrap(),
                ),
            )
        }),
{
    lemma_rotation_within_sector(m, sector_start, d);
}

impl PertecFd400 {
    pub fn new() -> (r: Self)
        ensures
            r@ == spec_fd400_initial(),
    {
        PertecFd400 {
            powered: false,
            door_open: true,
            motor_commanded_on: false,
            rotation_epoch: Fd400Time(0),
            rotation_revolution_base: 0,
            rotation_offset_base: 0,
            track: 0,
            pending_step: None,
            next_step_allowed_at: Fd400Time(0),
            head_commanded_loaded: false,
            head_ready_at: None,
            media: None,
        }
    }

    pub fn power_on(&self) -> (r: bool)
        ensures
            r == self@.powered,
    {
        self.powered
    }

    pub fn door_open(&self) -> (r: bool)
        ensures
            r == self@.door_open,
    {
        self.door_open
    }

    fn spindle_rotating(&self) -> (r: bool)
        ensures
            r == spec_spindle_rotating(self@),
    {
        self.powered && self.motor_commanded_on
    }

    fn rotation_snapshot_without_settle(&self, now: Fd400Time) -> (r: Fd400RotationSnapshot)
        ensures
            r == spec_rotation(self@, now.0),
    {
        let elapsed = if self.spindle_rotating() {
            now.saturating_duration_since(self.rotation_epoch)
        } else {
            0
        };
        let accumulated = self.rotation_offset_base.saturating_add(elapsed);
        let revolution = self.rotation_revolution_base.saturating_add(
            accumulated / REVOLUTION_TIME_UNITS,
        );
        let revolution_offset_units = accumulated % REVOLUTION_TIME_UNITS;
        assert(revolution_offset_units / SECTOR_TIME_UNITS < 32) by (nonlinear_arith)
            requires
                revolution_offset_units < 1_000_000,
        ;
        let sector = (revolution_offset_units / SECTOR_TIME_UNITS) as u8;
        let sector_offset_units = revolution_offset_units % SECTOR_TIME_UNITS;
        Fd400RotationSnapshot {
            revolution,
            revolution_offset_units,
            sector,
            sector_offset_units,
            sector_true: sector_offset_units < SECTOR_TRUE_TIME_UNITS,
        }
    }

    fn capture_rotation_at(&mut self, now: Fd400Time)
        ensures
            final(self)@ == spec_capture(old(self)@, now.0),
    {
        let snapshot = self.rotation_snapshot_without_settle(now);
        self.rotation_revolution_base = snapshot.revolution;
        self.rotation_offset_base = snapshot.revolution_offset_units;
        self.rotation_epoch = now;
    }

    /// Switching drive power off also abandons a seek and unloads the head.
    pub fn set_power(&mut self, powered: bool, now: Fd400Time)
        ensures
            final(self)@ == spec_set_power(old(self)@, powered, now.0),
    {
        if self.powered == powered {
            return ;
        }
        self.capture_rotation_at(now);
        self.powered = powered;
        if !powered {
            self.pending_step = None;
            self.head_commanded_loaded = false;
            self.head_ready_at = None;
        }
    }

    pub fn set_door_open(&mut self, open: bool)
        ensures
            final(self)@ == (Fd400Model { door_open: open, ..old(self)@ }),
    {
        self.door_open = open;
    }

    pub fn set_motor_on(&mut self, on: bool, now: Fd400Time)
        ensures
            final(self)@ == spec_set_motor_on(old(self)@, on, now.0),
    {
        if self.motor_commanded_on == on {
            return ;
        }
        self.capture_rotation_at(now);
        self.motor_commanded_on = on;
    }

    /// Loading the head starts the 40 ms Head Status delay and holds off
    /// stepping for as long; an unpowered drive ignores a load command.
    pub fn set_head_loaded(&mut self, loaded: bool, now: Fd400Time)
        ensures
            final(self)@ == spec_set_head_loaded(old(self)@, loaded, now.0),
    {
        if !loaded {
            self.head_commanded_loaded = false;
            self.head_ready_at = None;
            return ;
        }
        if !self.powered {
            return ;
        }
        let ready = now.saturating_add(HEAD_STATUS_DELAY_UNITS);
        self.head_commanded_loaded = true;
        self.head_ready_at = Some(ready);
        if self.next_step_allowed_at.0 < ready.0 {
            self.next_step_allowed_at = ready;
        }
    }

    fn settle_step(&mut self, now: Fd400Time)
        ensures
            final(self)@ == spec_settle(old(self)@, now.0),
    {
        match self.pending_step {
            Some(pending) => {
                if pending.complete_at.0 <= now.0 {
                    self.track = pending.target_track;
                    self.pending_step = None;
                }
            },
            None => {},
        }
    }

    /// Requests one track step; reports whether the drive accepted it.
    pub fn step(&mut self, direction: Fd400StepDirection, now: Fd400Time) -> (r: bool)
        ensures
            (final(self)@, r) == spec_step(old(self)@, direction, now.0),
    {
        self.settle_step(now);
        if !self.powered || self.pending_step.is_some() || now.0 < self.next_step_allowed_at.0 {
            return false;
        }
        let target_track = match direction {
            Fd400StepDirection::In => {
                let next = self.track.saturating_add(1);
                if next < LAST_TRACK {
                    next
                } else {
                    LAST_TRACK
                }
            },
            Fd400StepDirection::Out => self.track.saturating_sub(1),
        };
        let complete_at = now.saturating_add(TRACK_TO_TRACK_TIME_UNITS);
        self.pending_step = Some(PendingStep { complete_at, target_track });
        self.next_step_allowed_at = complete_at;
        if self.head_commanded_loaded {
            self.head_ready_at = Some(now.saturating_add(HEAD_STATUS_DELAY_UNITS));
        }
        true
    }

    /// The drive as its sensors report it at `now`; a seek due by then has
    /// completed.
    pub fn snapshot(&mut self, now: Fd400Time) -> (r: Fd400MechanicalSnapshot)
        ensures
            final(self)@ == spec_settle(old(self)@, now.0),
            r == spec_mechanical_snapshot(old(self)@, now.0),
    {
        self.settle_step(now);
        let head_status = self.powered && self.head_commanded_loaded && match self.head_ready_at {
            Some(ready_at) => now.0 >= ready_at.0,
            None => false,
        };
        Fd400MechanicalSnapshot {
            powered: self.powered,
            door_open: self.door_open,
            motor_on: self.spindle_rotating(),
            track: self.track,
            track_zero: self.track == 0,
            head_loaded: self.head_commanded_loaded,
            head_status,
            step_command_allowed: self.powered && self.pending_step.is_none() && now.0
                >= self.next_step_allowed_at.0,
            rotation: self.rotation_snapshot_without_settle(now),
        }
    }

    /// Puts a medium in the drive; a drive that already holds one hands the
    /// new medium back.
    pub fn insert_media(&mut self, media: HardSectored8InchMedia) -> (r: Result<
        (),
        HardSectored8InchMedia,
    >)
        ensures
            old(self)@.media is None ==> r is Ok && final(self)@ == (Fd400Model {
                media: Some(media@),
                ..old(self)@
            }),
            old(self)@.media is Some ==> r is Err && r->Err_0@ == media@ && final(self)@
                == old(self)@,
    {
        if self.media.is_some() {
            return Err(media);
        }
        self.media = Some(media);
        Ok(())
    }

    /// Takes the medium out of the drive.
    pub fn eject_media(&mut self) -> (r: Option<HardSectored8InchMedia>)
        ensures
            match old(self)@.media {
                Some(v) => r is Some && r.unwrap()@ == v,
                None => r is None,
            },
            final(self)@ == (Fd400Model { media: None, ..old(self)@ }),
    {
        self.media.take()
    }

    pub fn physical_media_byte(&self, track: u8, sector: u8, offset: usize) -> (r: Option<u8>)
        ensures
            r == spec_media_byte(self@, track, sector, offset as int),
    {
        match &self.media {
            Some(m) => m.physical_byte(track, sector, offset),
            None => None,
        }
    }

    /// The newest physical byte that could have reached the controller read
    /// electronics by `now`, with its stream generation. Read data begins
    /// 140 us after Sector True and then advances every 32 us; a large time
    /// jump resolves directly to the latest byte.
    pub fn latest_read_byte_event(&mut self, now: Fd400Time) -> (r: Option<(u64, u8)>)
        ensures
            final(self)@ == spec_settle(old(self)@, now.0),
            r == spec_read_event(old(self)@, now.0),
    {
        self.settle_step(now);
        if !self.spindle_rotating() || !self.head_commanded_loaded {
            return None;
        }
        let head_ready_at = match self.head_ready_at {
            Some(t) => t,
            None => return None,
        };
        let rotation = self.rotation_snapshot_without_settle(now);
        let ghost position = spec_read_position(rotation);
        assert(rotation.sector_offset_units < SECTOR_TIME_UNITS);
        let revolution: u64;
        let sector: u8;
        let byte_offset: usize;
        let age_units: u64;
        if rotation.sector_offset_units >= READ_DATA_START_UNITS {
            let elapsed = rotation.sector_offset_units - READ_DATA_START_UNITS;
            let q = elapsed / READ_BYTE_INTERVAL_UNITS;
            assert(q * 192 <= elapsed) by (nonlinear_arith)
                requires
                    q == elapsed / 192,
            ;
            byte_offset = if q >= LAST_PHYSICAL_BYTE as u64 {
                LAST_PHYSICAL_BYTE
            } else {
                q as usize
            };
            let due_offset = READ_DATA_START_UNITS + byte_offset as u64 * READ_BYTE_INTERVAL_UNITS;
            revolution = rotation.revolution;
            sector = rotation.sector;
            age_units = rotation.sector_offset_units - due_offset;
        } else {
            if rotation.revolution == 0 && rotation.sector == 0 {
                return None;
            }
            if rotation.sector == 0 {
                revolution = rotation.revolution - 1;
                sector = HARD_SECTORS_PER_TRACK - 1;
            } else {
                revolution = rotation.revolution;
                sector = rotation.sector - 1;
            }
            byte_offset = LAST_PHYSICAL_BYTE;
            age_units = rotation.sector_offset_units + SECTOR_TIME_UNITS - LAST_PHYSICAL_BYTE_DUE_UNITS;
        }
        assert(position == Some((revolution, sector, byte_offset as int, age_units as int)));
        let due_at = now.0.saturating_sub(age_units);
        if due_at < head_ready_at.0 {
            return None;
        }
        // The record synchronizes the controller only when its first byte
        // carries the SYNC bit in D7.
        let first = match self.physical_media_byte(self.track, sector, 0) {
            Some(b) => b,
            None => return None,
        };
        if first & 0x80 == 0 {
            return None;
        }
        let byte = match self.physical_media_byte(self.track, sector, byte_offset) {
            Some(b) => b,
            None => return None,
        };
        let sector_ordinal = saturating_mul_u64(revolution, HARD_SECTORS_PER_TRACK as u64).saturating_add(
            sector as u64,
        );
        let generation = saturating_mul_u64(sector_ordinal, PHYSICAL_BYTES_PER_SECTOR as u64).saturating_add(
            byte_offset as u64,
        );
        Some((generation, byte))
    }
}

/// The address a MITS disk unit answers to on the controller cable.
#[derive(Debug)]
pub struct MitsDiskBuffer {
    address: u8,
}

impl MitsDiskBuffer {
    /// Only the sixteen drive addresses exist.
    pub fn new(address: u8) -> (r: Option<Self>)
        ensures
            (address as int) < MAX_DRIVES <==> r is Some,
            r is Some ==> r.unwrap().spec_address() == address,
    {
        if (address as usize) < MAX_DRIVES {
            Some(MitsDiskBuffer { address })
        } else {
            None
        }
    }

    pub closed spec fn spec_address(&self) -> u8 {
        self.address
    }

    pub fn address(&self) -> (r: u8)
        ensures
            r == self.spec_address(),
    {
        self.address
    }
}

/// A disk unit as mathematical values.
pub struct MitsDiskUnitModel {
    pub address: u8,
    pub cable_connected: bool,
    pub drive: Fd400Model,
}

/// One MITS disk unit: address buffer, cable, and FD-400 drive.
#[derive(Debug)]
pub struct MitsDiskUnit {
    buffer: MitsDiskBuffer,
    cable_connected: bool,
    drive: PertecFd400,
}

impl View for MitsDiskUnit {
    type V = MitsDiskUnitModel;

    closed spec fn view(&self) -> MitsDiskUnitModel {
        MitsDiskUnitModel {
            address: self.buffer.address,
            cable_connected: self.cable_connected,
            drive: self.drive@,
        }
    }
}

/// Open door, drive power off, or an absent cable each keep Disk Control
/// from being enabled.
pub open spec fn spec_selectable(u: MitsDiskUnitModel) -> bool {
    u.cable_connected && u.drive.powered && !u.drive.door_open
}

impl MitsDiskUnit {
    pub fn new(address: u8) -> (r: Option<Self>)
        ensures
            (address as int) < MAX_DRIVES <==> r is Some,
            r is Some ==> r.unwrap()@ == (MitsDiskUnitModel {
                address,
                cable_connected: true,
                drive: spec_fd400_initial(),
            }),
    {
        let buffer = match MitsDiskBuffer::new(address) {
            Some(b) => b,
            None => return None,
        };
        Some(MitsDiskUnit { buffer, cable_connected: true, drive: PertecFd400::new() })
    }

    pub fn address(&self) -> (r: u8)
        ensures
            r == self@.address,
    {
        self.buffer.address()
    }

    pub fn set_cable_connected(&mut self, connected: bool)
        ensures
            final(self)@ == (MitsDiskUnitModel { cable_connected: connected, ..old(self)@ }),
    {
        self.cable_connected = connected;
    }

    pub fn drive(&self) -> (r: &PertecFd400)
        ensures
            r@ == self@.drive,
    {
        &self.drive
    }

    pub fn drive_mut(&mut self) -> (r: &mut PertecFd400)
        ensures
            r@ == old(self)@.drive,
            final(self)@ == (MitsDiskUnitModel { drive: final(r)@, ..old(self)@ }),
    {
        &mut self.drive
    }

    pub fn selectable(&self) -> (r: bool)
        ensures
            r == spec_selectable(self@),
    {
        self.cable_connected && self.drive.power_on() && !self.drive.door_open()
    }
}

/// The external disk cable with a slot for each of the sixteen unit addresses.
#[derive(Debug)]
pub struct Mits88DiskCableBus {
    units: Vec<Option<MitsDiskUnit>>,
}

pub open spec fn spec_unit_model(u: Option<MitsDiskUnit>) -> Option<MitsDiskUnitModel> {
    match u {
        Some(unit) => Some(unit@),
        None => None,
    }
}

impl View for Mits88DiskCableBus {
    type V = Seq<Option<MitsDiskUnitModel>>;

    closed spec fn view(&self) -> Seq<Option<MitsDiskUnitModel>> {
        self.units@.map_values(|u: Option<MitsDiskUnit>| spec_unit_model(u))
    }
}

pub open spec fn spec_drive_available(units: Seq<Option<MitsDiskUnitModel>>, address: u8) -> bool {
    (address as int) < units.len() && match units[address as int] {
        Some(u) => spec_selectable(u),
        None => false,
    }
}

impl Mits88DiskCableBus {
    pub closed spec fn wf(&self) -> bool {
        self.units@.len() == MAX_DRIVES
    }

    pub fn new() -> (r: Self)
        ensures
            r.wf(),
            r@ == Seq::new(MAX_DRIVES as nat, |i: int| None::<MitsDiskUnitModel>),
    {
        let mut units: Vec<Option<MitsDiskUnit>> = Vec::new();
        while units.len() < MAX_DRIVES
            invariant
                units@.len() <= MAX_DRIVES,
                forall|i: int| 0 <= i < units@.len() ==> units@[i] is None,
            decreases MAX_DRIVES - units@.len(),
        {
            units.push(None);
        }
        let r = Mits88DiskCableBus { units };
        assert(r@ =~= Seq::new(MAX_DRIVES as nat, |i: int| None::<MitsDiskUnitModel>));
        r
    }

    /// Plugs a unit into the slot of its address; the unit that was there
    /// comes back.
    pub fn install(&mut self, unit: MitsDiskUnit) -> (r: Option<MitsDiskUnit>)
        requires
            old(self).wf(),
            (unit@.address as int) < MAX_DRIVES,
        ensures
            final(self).wf(),
            spec_unit_model(r) == old(self)@[unit@.address as int],
            final(self)@ == old(self)@.update(unit@.address as int, Some(unit@)),
    {
        let index = unit.address() as usize;
        let mut slot = Some(unit);
        let ghost old_units = self.units@;
        std::mem::swap(&mut slot, &mut self.units[index]);
        proof {
            assert(self.units@ =~= old_units.update(index as int, Some(unit)));
        }
        assert(self@ =~= old(self)@.update(unit@.address as int, Some(unit@)));
        slot
    }

    pub fn remove(&mut self, address: u8) -> (r: Option<MitsDiskUnit>)
        requires
            old(self).wf(),
        ensures
            final(self).wf(),
            (address as int) < MAX_DRIVES ==> spec_unit_model(r) == old(self)@[address as int]
                && final(self)@ == old(self)@.update(address as int, None),
            (address as int) >= MAX_DRIVES ==> r is None && final(self)@ == old(self)@,
    {
        if address as usize >= self.units.len() {
            return None;
        }
        let index = address as usize;
        let mut slot: Option<MitsDiskUnit> = None;
        let ghost old_units = self.units@;
        std::mem::swap(&mut slot, &mut self.units[index]);
        proof {
            assert(self.units@ =~= old_units.update(index as int, None));
        }
        assert(self@ =~= old(self)@.update(address as int, None));
        slot
    }

    pub fn drive_available(&self, address: u8) -> (r: bool)
        ensures
            r == spec_drive_available(self@, address),
    {
        if address as usize >= self.units.len() {
            return false;
        }
        match &self.units[address as usize] {
            Some(unit) => unit.selectable(),
            None => false,
        }
    }

    pub fn unit(&self, address: u8) -> (r: Option<&MitsDiskUnit>)
        ensures
            (address as int) < self@.len() ==> spec_unit_model(
                match r {
                    Some(u) => Some(*u),
                    None => None,
                },
            ) == self@[address as int],
            (address as int) >= self@.len() ==> r is None,
    {
        if address as usize >= self.units.len() {
            return None;
        }
        self.units[address as usize].as_ref()
    }

    pub fn unit_mut(&mut self, address: u8) -> (r: Option<&mut MitsDiskUnit>)
        requires
            old(self).wf(),
        ensures
            (address as int) < MAX_DRIVES && old(self)@[address as int] is Some ==> r is Some
                && r.unwrap()@ == old(self)@[address as int].unwrap() && final(self).wf()
                && final(self)@ == old(self)@.update(address as int, Some(final(r.unwrap())@)),
            !((address as int) < MAX_DRIVES && old(self)@[address as int] is Some) ==> r is None
                && final(self)@ == old(self)@ && final(self).wf(),
    {
        if address as usize >= self.units.len() {
            return None;
        }
        let index = address as usize;
        self.units[index].as_mut()
    }
}

} // verus!
