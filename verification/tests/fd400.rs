use rustair::machine::fd400::{
    Fd400StepDirection, Fd400Time, Mits88DiskCableBus, MitsDiskBuffer, MitsDiskUnit, PertecFd400,
    LAST_TRACK, REVOLUTION_TIME_UNITS, SECTOR_TIME_UNITS,
};

#[test]
fn fixed_point_time_exactly_represents_altair_t_states_rotation_and_sectors() {
    assert_eq!(Fd400Time::from_8080_t_states(1).units(), 3);
    assert_eq!(Fd400Time::from_microseconds(1).units(), 6);
    assert_eq!(REVOLUTION_TIME_UNITS, 1_000_000);
    assert_eq!(SECTOR_TIME_UNITS, 31_250);
    assert_eq!(REVOLUTION_TIME_UNITS / SECTOR_TIME_UNITS, 32);
}

#[test]
fn rotation_is_epoch_derived_and_advances_without_cpu_execution() {
    let mut drive = PertecFd400::new();
    let t0 = Fd400Time::zero();
    drive.set_power(true, t0);
    drive.set_motor_on(true, t0);

    let at_start = drive.snapshot(t0);
    assert_eq!(at_start.rotation.sector, 0);
    assert!(at_start.rotation.sector_true);

    let sector_1 = drive.snapshot(Fd400Time::from_units(SECTOR_TIME_UNITS));
    assert_eq!(sector_1.rotation.sector, 1);
    assert_eq!(sector_1.rotation.sector_offset_units, 0);

    let one_rev = drive.snapshot(Fd400Time::from_units(REVOLUTION_TIME_UNITS));
    assert_eq!(one_rev.rotation.revolution, 1);
    assert_eq!(one_rev.rotation.sector, 0);
    assert_eq!(one_rev.rotation.revolution_offset_units, 0);
}

#[test]
fn large_rotation_jump_matches_incremental_observation() {
    let mut incremental = PertecFd400::new();
    let mut jumped = PertecFd400::new();
    incremental.set_power(true, Fd400Time::zero());
    incremental.set_motor_on(true, Fd400Time::zero());
    jumped.set_power(true, Fd400Time::zero());
    jumped.set_motor_on(true, Fd400Time::zero());

    let target_units = REVOLUTION_TIME_UNITS * 1_000 + SECTOR_TIME_UNITS * 17 + 123;
    let mut t = 0;
    while t < target_units {
        t = (t + SECTOR_TIME_UNITS).min(target_units);
        let _ = incremental.snapshot(Fd400Time::from_units(t));
    }
    assert_eq!(
        incremental.snapshot(Fd400Time::from_units(target_units)),
        jumped.snapshot(Fd400Time::from_units(target_units))
    );
}

#[test]
fn head_status_obeys_forty_millisecond_load_deadline() {
    let mut drive = PertecFd400::new();
    drive.set_power(true, Fd400Time::zero());
    drive.set_head_loaded(true, Fd400Time::zero());

    assert!(!drive.snapshot(Fd400Time::from_microseconds(39_999)).head_status);
    assert!(drive.snapshot(Fd400Time::from_microseconds(40_000)).head_status);
}

#[test]
fn step_completes_at_ten_ms_and_head_status_waits_forty_ms() {
    let mut drive = PertecFd400::new();
    let loaded_at = Fd400Time::zero();
    drive.set_power(true, loaded_at);
    drive.set_head_loaded(true, loaded_at);
    let step_at = Fd400Time::from_microseconds(40_000);
    assert!(drive.snapshot(step_at).head_status);
    assert!(drive.step(Fd400StepDirection::In, step_at));

    assert_eq!(drive.snapshot(Fd400Time::from_microseconds(49_999)).track, 0);
    let completed = drive.snapshot(Fd400Time::from_microseconds(50_000));
    assert_eq!(completed.track, 1);
    assert!(completed.step_command_allowed);
    assert!(!completed.head_status);

    assert!(drive.snapshot(Fd400Time::from_microseconds(80_000)).head_status);
}

#[test]
fn track_limits_never_underflow_or_exceed_seventy_six() {
    let mut drive = PertecFd400::new();
    drive.set_power(true, Fd400Time::zero());
    assert!(drive.step(Fd400StepDirection::Out, Fd400Time::zero()));
    assert_eq!(drive.snapshot(Fd400Time::from_microseconds(10_000)).track, 0);

    // Walk the head in to the last track, one 10 ms step at a time.
    let mut at = 10_000;
    for _ in 0..LAST_TRACK {
        assert!(drive.step(Fd400StepDirection::In, Fd400Time::from_microseconds(at)));
        at += 10_000;
    }
    assert_eq!(drive.snapshot(Fd400Time::from_microseconds(at)).track, LAST_TRACK);

    assert!(drive.step(Fd400StepDirection::In, Fd400Time::from_microseconds(at)));
    assert_eq!(
        drive.snapshot(Fd400Time::from_microseconds(at + 10_000)).track,
        LAST_TRACK
    );
}

#[test]
fn drive_selection_requires_cable_power_and_closed_door() {
    let mut bus = Mits88DiskCableBus::new();
    let mut unit = MitsDiskUnit::new(3).unwrap();
    assert!(!unit.selectable());
    unit.drive_mut().set_power(true, Fd400Time::zero());
    assert!(!unit.selectable());
    unit.drive_mut().set_door_open(false);
    assert!(unit.selectable());
    unit.set_cable_connected(false);
    assert!(!unit.selectable());
    unit.set_cable_connected(true);
    bus.install(unit);
    assert!(bus.drive_available(3));
    assert!(!bus.drive_available(2));
}

#[test]
fn sixteen_idle_units_require_no_time_advance_loop() {
    let mut bus = Mits88DiskCableBus::new();
    for address in 0..16 {
        let mut unit = MitsDiskUnit::new(address).unwrap();
        unit.drive_mut().set_power(true, Fd400Time::zero());
        unit.drive_mut().set_door_open(false);
        unit.drive_mut().set_motor_on(true, Fd400Time::zero());
        bus.install(unit);
    }

    // Time is not pushed through every drive. A single selected drive derives
    // its state directly from the supplied absolute virtual timestamp.
    let now = Fd400Time::from_units(REVOLUTION_TIME_UNITS * 50_000 + 777);
    let snapshot = bus.unit_mut(15).unwrap().drive_mut().snapshot(now);
    assert_eq!(snapshot.rotation.revolution, 50_000);
    assert!(bus.drive_available(0));
    assert!(bus.drive_available(15));
}

#[test]
fn only_sixteen_drive_addresses_exist() {
    assert!(MitsDiskBuffer::new(15).is_some());
    assert!(MitsDiskBuffer::new(16).is_none());
    assert_eq!(MitsDiskBuffer::new(9).unwrap().address(), 9);
    assert!(MitsDiskUnit::new(16).is_none());
    let mut bus = Mits88DiskCableBus::new();
    assert!(bus.remove(3).is_none());
    assert!(bus.install(MitsDiskUnit::new(3).unwrap()).is_none());
    assert!(bus.install(MitsDiskUnit::new(3).unwrap()).is_some());
    assert_eq!(bus.unit(3).unwrap().address(), 3);
    assert!(bus.remove(3).is_some());
    assert!(bus.unit(3).is_none());
    assert!(bus.unit_mut(200).is_none());
}

#[test]
fn power_off_abandons_the_seek_and_unloads_the_head() {
    let mut drive = PertecFd400::new();
    drive.set_power(true, Fd400Time::zero());
    drive.set_head_loaded(true, Fd400Time::zero());
    let at = Fd400Time::from_microseconds(40_000);
    assert!(drive.step(Fd400StepDirection::In, at));
    drive.set_power(false, Fd400Time::from_microseconds(45_000));
    let snap = drive.snapshot(Fd400Time::from_microseconds(100_000));
    assert_eq!(snap.track, 0);
    assert!(!snap.head_loaded);
    assert!(!snap.head_status);
    assert!(!snap.step_command_allowed);
    assert!(!drive.step(Fd400StepDirection::In, Fd400Time::from_microseconds(100_000)));
}

#[test]
fn a_stopped_spindle_holds_its_angle() {
    let mut drive = PertecFd400::new();
    drive.set_power(true, Fd400Time::zero());
    drive.set_motor_on(true, Fd400Time::zero());
    drive.set_motor_on(false, Fd400Time::from_units(SECTOR_TIME_UNITS * 3 + 5));
    let snap = drive.snapshot(Fd400Time::from_units(REVOLUTION_TIME_UNITS * 7));
    assert!(!snap.motor_on);
    assert_eq!(snap.rotation.revolution, 0);
    assert_eq!(snap.rotation.sector, 3);
    assert_eq!(snap.rotation.sector_offset_units, 5);
    assert!(snap.rotation.sector_true);
}
