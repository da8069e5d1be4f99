use rustair::machine::panel_bus::{BusOwner, S100Signals, LAMP_M1, LAMP_MEMR, LAMP_WO, PACKED_LAMP_SHIFT};
use rustair::machine::panel_duty::PanelLampIntegrator;
use rustair::machine::panel_state::S100BusState;

fn lamp_bit(lamp: usize) -> u64 {
    (PACKED_LAMP_SHIFT + lamp) as u64
}

fn all_counts(i: &PanelLampIntegrator) -> Vec<u64> {
    (0..64).map(|bit| i.packed_count(bit)).collect()
}

fn all_bus_counts(b: &S100BusState) -> Vec<u64> {
    (0..64).map(|bit| b.duty_count(bit)).collect()
}

#[test]
fn duty_counts_the_entire_interval() {
    let mut i = PanelLampIntegrator::default();
    let off = S100Signals::default();
    let mut on = off;
    on.memr = true;
    i.sample(off.packed_lamp_activity(), 40_000);
    i.sample(on.packed_lamp_activity(), 40_000);
    assert_eq!(i.total_weight(), 80_000);
    assert_eq!(i.packed_count(lamp_bit(LAMP_MEMR)), 40_000);
    assert_eq!(
        i.packed_count(lamp_bit(LAMP_MEMR)) as f32 / i.total_weight() as f32,
        0.5
    );
    i.clear_activity();
    assert_eq!(i.total_weight(), 0);
}

#[test]
fn duty_is_sample_order_invariant() {
    let off = S100Signals::default();
    let mut on = off;
    on.m1 = true;
    let mut f = PanelLampIntegrator::default();
    f.sample(on.packed_lamp_activity(), 3);
    f.sample(off.packed_lamp_activity(), 7);
    let mut r = PanelLampIntegrator::default();
    r.sample(off.packed_lamp_activity(), 7);
    r.sample(on.packed_lamp_activity(), 3);
    assert_eq!(all_counts(&f), all_counts(&r));
    assert_eq!(f.total_weight(), r.total_weight());
    assert_eq!(f.packed_count(lamp_bit(LAMP_M1)), 3);
    assert_eq!(f.packed_count(lamp_bit(LAMP_M1)) as f32 / f.total_weight() as f32, 0.3);
}

#[test]
fn bit_sliced_counters_add_large_weights_exactly() {
    let mut i = PanelLampIntegrator::default();
    i.sample(0x8000_0000_0000_0001, u32::MAX);
    i.sample(0x0000_0000_0000_0003, 12_345);
    assert_eq!(i.packed_count(0), u32::MAX as u64 + 12_345);
    assert_eq!(i.packed_count(1), 12_345);
    assert_eq!(i.packed_count(63), u32::MAX as u64);
    assert_eq!(i.packed_count(2), 0);
    assert_eq!(i.total_weight(), u32::MAX as u64 + 12_345);
    i.sample(0xffff_ffff_ffff_ffff, 0);
    assert_eq!(i.total_weight(), u32::MAX as u64 + 12_345);
}

#[test]
fn reconstructed_cycle_matches_expanded_fetch_duty() {
    let mut e = S100BusState::default();
    let mut p = S100BusState::default();
    for b in [&mut e, &mut p] {
        b.release_front_panel_reset(0, 0x5a, false, false, true);
        b.lamps.clear_activity();
    }
    e.drive_cpu_t_state(Some(1), Some(0xa2), None, Some(0xa2), Some(0xa2), false, false, true, false, false);
    for _ in 0..3 {
        e.drive_cpu_t_state(Some(1), Some(0x33), Some(0x33), None, None, false, false, true, false, false);
    }
    p.drive_reconstructed_cpu_cycle(1, 0x33, 0xa2, 4, true, false, false, false, true, false);
    assert_eq!(p.total_weight(), e.total_weight());
    assert_eq!(all_bus_counts(&p), all_bus_counts(&e));
    assert_eq!(p.signals().address, e.signals().address);
    assert_eq!(p.signals().panel_data, e.signals().panel_data);
    assert_eq!(p.signals().lamp_mask(), e.signals().lamp_mask());
}

#[test]
fn cycle_full_weighted_cycle_matches_expanded_8212_latch_delay() {
    let mut e = S100BusState::default();
    let mut p = S100BusState::default();
    for b in [&mut e, &mut p] {
        b.release_front_panel_reset(0, 0x5a, false, false, true);
        b.lamps.clear_activity();
    }
    e.drive_cpu_t_state(Some(0x1234), Some(0x82), None, Some(0x82), None, false, false, true, false, false);
    e.drive_cpu_t_state(None, Some(0x33), Some(0x33), None, Some(0x82), false, false, true, false, false);
    e.drive_cpu_t_state(None, Some(0x33), Some(0x33), None, None, false, false, true, false, false);
    p.drive_cycle_full_reconstructed_cpu_cycle(0x1234, 0x33, 0x82, 3, true, false, false, false, true, false);
    assert_eq!(p.total_weight(), e.total_weight());
    assert_eq!(all_bus_counts(&p), all_bus_counts(&e));
    assert_eq!(p.signals().address, e.signals().address);
    assert_eq!(p.signals().panel_data, e.signals().panel_data);
    assert_eq!(p.signals().lamp_mask(), e.signals().lamp_mask());
}

#[test]
fn cpu_board_edge_lines_are_first_class_backplane_state() {
    let mut b = S100BusState::default();
    b.drive_cpu_board_edge(true, false, true, false, true);
    let s = b.signals();
    assert_eq!(s.phi1, Some(true));
    assert_eq!(s.cloc, Some(true));
    b.drive_cpu_board_edge(false, true, false, true, true);
    let s = b.signals();
    assert_eq!(s.phi2, Some(true));
    assert_eq!(s.cloc, Some(false));
}

#[test]
fn status_latch_changes_only_when_cpu_board_clocks_it() {
    let mut b = S100BusState::default();
    b.drive_cpu_t_state(Some(0x1234), Some(0xa2), None, Some(0xa2), None, false, false, true, false, false);
    assert!(!b.signals().m1);
    b.latch_cpu_status(0xa2);
    assert!(b.signals().m1 && b.signals().memr && b.signals().wo);
}

#[test]
fn intel_status_and_read_data_keep_cpu_di_do_domains_distinct() {
    let mut b = S100BusState::default();
    b.drive_cpu_t_state(Some(0x1234), Some(0xa2), None, Some(0xa2), Some(0xa2), false, false, true, false, false);
    assert_eq!(b.signals().panel_data, 0);
    b.drive_cpu_t_state(Some(0x1234), Some(0x56), Some(0x56), None, None, false, false, true, false, false);
    assert_eq!(b.signals().panel_data, 0x56);
}

#[test]
fn write_data_uses_do_and_does_not_replace_front_panel_di_value() {
    let mut b = S100BusState::default();
    b.drive_cpu_t_state(Some(0x0100), Some(0x5a), Some(0x5a), None, Some(0x82), false, false, true, false, false);
    b.drive_cpu_t_state(Some(0x1234), Some(0xaa), None, Some(0xaa), Some(0x00), false, false, true, false, false);
    assert_eq!(b.signals().panel_data, 0x5a);
}

#[test]
fn t_state_path_samples_once_and_preserves_latched_status_on_internal_states() {
    let mut b = S100BusState::default();
    b.drive_cpu_t_state(Some(0x1234), Some(0xa2), None, Some(0xa2), Some(0xa2), false, false, true, false, false);
    assert_eq!(b.total_weight(), 1);
    b.drive_cpu_t_state(None, None, None, None, None, false, false, true, false, false);
    assert_eq!(b.total_weight(), 2);
    assert_eq!(b.signals().address, 0x1234);
}

#[test]
fn hold_ack_releases_cpu_bus_and_clears_status_without_faking_panel_data() {
    let mut b = S100BusState::default();
    b.drive_cpu_t_state(Some(0x4567), Some(0x6c), Some(0x6c), None, Some(0x82), false, false, true, false, false);
    b.drive_cpu_t_state(None, None, None, None, None, false, false, true, false, true);
    let s = b.signals();
    assert_eq!(s.owner, BusOwner::NoOwner);
    assert_eq!(s.panel_data, 0x6c);
    assert!(s.hlda);
}

#[test]
fn front_panel_reset_is_not_reported_as_cpu_package_bus_drive() {
    let mut b = S100BusState::default();
    b.assert_front_panel_reset(false);
    let s = b.signals();
    assert_eq!(s.owner, BusOwner::FrontPanel);
    assert_eq!(s.address, 0xffff);
    assert!(s.reset);
}

#[test]
fn interrupt_request_and_acknowledge_are_distinct_lines() {
    let mut b = S100BusState::default();
    b.set_interrupt_request(true);
    b.drive_cpu_t_state(Some(0x0100), Some(0x23), None, Some(0x23), Some(0x23), false, false, true, false, false);
    assert!(b.signals().interrupt && b.signals().int_ack);
}

#[test]
fn stopped_power_on_is_a_cpu_fetch_wait_with_memory_on_di() {
    let mut b = S100BusState::default();
    b.drive_power_on_state(0x4321, 0xa5, false, false, false);
    let s = b.signals();
    assert!(s.memr && s.m1 && s.wo && s.wait);
    assert!(!s.ready);
}

#[test]
fn reset_preserves_run_latch_and_changes_ready_on_release() {
    let mut b = S100BusState::default();
    b.set_run(true);
    b.assert_front_panel_reset(true);
    b.release_front_panel_reset(0, 0xa5, false, false, true);
    assert!(b.signals().run && b.signals().ready && !b.signals().wait);
}

#[test]
fn front_panel_deposit_drives_cpu_d_and_do_without_overwriting_di_display() {
    let mut b = S100BusState::default();
    b.release_front_panel_reset(0x0100, 0x33, false, false, false);
    b.drive_front_panel_deposit(0x0100, 0xa5, false, false);
    let s = b.signals();
    assert_eq!(s.data_out, Some(0xa5));
    assert_eq!(s.panel_data, 0x33);
}

#[test]
fn front_panel_data_lamps_follow_di_not_cpu_status_or_do() {
    let mut b = S100BusState::default();
    b.drive_power_on_state(0, 0x3c, false, false, false);
    b.drive_cpu_t_state(Some(0), Some(0xa2), None, Some(0xa2), Some(0xa2), false, false, true, false, false);
    assert_eq!(b.signals().panel_data, 0x3c);
    b.drive_cpu_t_state(Some(0), Some(0x7e), Some(0x7e), None, None, false, false, true, false, false);
    assert_eq!(b.signals().panel_data, 0x7e);
}

#[test]
fn external_data_bus_is_released_during_hold_acknowledge() {
    let mut b = S100BusState::default();
    b.drive_cpu_t_state(Some(0x1234), Some(0xa2), None, Some(0xa2), Some(0xa2), false, false, true, false, false);
    b.drive_cpu_t_state(None, None, None, None, None, false, false, true, false, true);
    let s = b.signals();
    assert_eq!(s.cpu_data, None);
    assert_eq!(s.owner, BusOwner::NoOwner);
}

#[test]
fn memory_ready_is_wired_with_front_panel_ready() {
    let mut b = S100BusState::default();
    b.set_ready_input(true);
    assert!(b.signals().ready);
    b.set_memory_ready_input(false);
    assert!(!b.signals().ready);
    b.set_memory_ready_input(true);
    assert!(b.signals().ready);
}

#[test]
fn run_latch_keeps_prdy_released_while_reset_is_held() {
    let mut b = S100BusState::default();
    b.assert_front_panel_reset(true);
    let s = b.signals();
    assert!(s.reset && s.run && s.ready && !s.wait);
}

#[test]
fn stopped_latch_keeps_prdy_low_while_reset_is_held() {
    let mut b = S100BusState::default();
    b.assert_front_panel_reset(false);
    let s = b.signals();
    assert!(s.reset && !s.run && !s.ready && !s.wait);
}

#[test]
fn lamp_states_follow_panel_order_and_the_packed_word() {
    let mut s = S100Signals::default();
    s.memr = true;
    s.wo = true;
    s.address = 0x8001;
    s.panel_data = 0x42;
    let lamps = s.lamp_states();
    assert!(lamps[LAMP_MEMR] && lamps[LAMP_WO]);
    assert_eq!(lamps.iter().filter(|on| **on).count(), 2);
    assert_eq!(s.lamp_mask(), (1 << LAMP_MEMR) | (1 << LAMP_WO));
    assert_eq!(
        s.packed_lamp_activity(),
        0x8001 | (0x42 << 16) | ((((1 << LAMP_MEMR) | (1 << LAMP_WO)) as u64) << 24)
    );
}

#[test]
fn hold_release_drops_acknowledge_and_power_off_clears_everything() {
    let mut b = S100BusState::default();
    b.set_hold(true);
    b.set_hlda(true);
    b.set_hold(true);
    assert!(b.signals().hlda);
    b.set_hold(false);
    assert!(!b.signals().hold && !b.signals().hlda);
    b.drive_cycle_full_internal_t_states(5, true, true, false);
    assert_eq!(b.total_weight(), 5);
    b.power_off();
    assert_eq!(b.total_weight(), 0);
    assert!(!b.signals().inte);
    assert_eq!(b.signals().owner, BusOwner::NoOwner);
}
