use rustair::machine::dcdd_write::Board2WriteElectronics;
use rustair::machine::fd400::Fd400Time;

fn times() -> (Fd400Time, Fd400Time, Fd400Time) {
    let sector_start = Fd400Time::from_microseconds(1_000);
    let write_enable = Fd400Time::from_microseconds(1_020);
    let sector_end = Fd400Time::from_microseconds(6_208);
    (sector_start, write_enable, sector_end)
}

#[test]
fn trim_erase_and_first_enwd_follow_their_distinct_documented_origins() {
    let (sector_start, write_enable, sector_end) = times();
    let mut write = Board2WriteElectronics::new();
    write.begin(write_enable, sector_start, sector_end);

    assert!(!write.trim_erase_active(Fd400Time::from_microseconds(1_219)));
    assert!(write.trim_erase_active(Fd400Time::from_microseconds(1_220)));
    assert!(!write.enwd(Fd400Time::from_microseconds(1_279)));
    assert!(write.enwd(Fd400Time::from_microseconds(1_280)));
}

#[test]
fn output_clears_enwd_only_until_the_next_32_us_opportunity() {
    let (sector_start, write_enable, sector_end) = times();
    let mut write = Board2WriteElectronics::new();
    write.begin(write_enable, sector_start, sector_end);

    let first_at = Fd400Time::from_microseconds(1_280);
    let first = write.consume_data(first_at, 0x81).unwrap();
    assert_eq!(first.generation, 0);
    assert_eq!(first.physical_data_offset, Some(0));
    assert!(!write.enwd(first_at));
    assert!(!write.enwd(Fd400Time::from_microseconds(1_311)));
    assert!(write.enwd(Fd400Time::from_microseconds(1_312)));
}

#[test]
fn large_time_jump_resolves_directly_to_the_current_write_generation() {
    let (sector_start, write_enable, sector_end) = times();
    let mut write = Board2WriteElectronics::new();
    write.begin(write_enable, sector_start, sector_end);

    let now = Fd400Time::from_microseconds(1_280 + 73 * 32);
    let accepted = write.consume_data(now, 0x5a).unwrap();
    assert_eq!(accepted.generation, 73);
    assert_eq!(accepted.physical_data_offset, Some(73));
}

#[test]
fn documented_138th_byte_switches_to_fill_and_suppresses_further_enwd() {
    let (sector_start, write_enable, sector_end) = times();
    let mut write = Board2WriteElectronics::new();
    write.begin(write_enable, sector_start, sector_end);

    let fill_at = Fd400Time::from_microseconds(1_280 + 137 * 32);
    assert!(write.enwd(fill_at));
    let fill = write.consume_data(fill_at, 0x00).unwrap();
    assert_eq!(fill.generation, 137);
    assert_eq!(fill.physical_data_offset, None);
    assert!(fill.fill_to_sector_end);
    assert!(!write.enwd(Fd400Time::from_microseconds(5_900)));
}

#[test]
fn write_disables_at_sector_end_but_trim_erase_holds_move_head_475_us_longer() {
    let (sector_start, write_enable, sector_end) = times();
    let mut write = Board2WriteElectronics::new();
    write.begin(write_enable, sector_start, sector_end);

    assert!(write.write_active(Fd400Time::from_microseconds(6_207)));
    assert!(!write.write_active(sector_end));
    assert!(write.move_head_inhibited(sector_end));
    assert!(write.trim_erase_active(Fd400Time::from_microseconds(6_682)));
    assert!(!write.trim_erase_active(Fd400Time::from_microseconds(6_683)));
    assert!(!write.move_head_inhibited(Fd400Time::from_microseconds(6_683)));
}

#[test]
fn an_idle_write_board_raises_nothing_and_accepts_nothing() {
    let mut write = Board2WriteElectronics::new();
    let now = Fd400Time::from_microseconds(1_280);
    assert!(!write.enwd(now));
    assert!(!write.write_active(now));
    assert!(!write.trim_erase_active(now));
    assert!(!write.move_head_inhibited(now));
    assert_eq!(write.consume_data(now, 0x42), None);
}

#[test]
fn a_second_output_in_the_same_opportunity_is_refused() {
    let (sector_start, write_enable, sector_end) = times();
    let mut write = Board2WriteElectronics::new();
    write.begin(write_enable, sector_start, sector_end);
    let at = Fd400Time::from_microseconds(1_300);
    assert!(write.consume_data(at, 0x01).is_some());
    assert_eq!(write.consume_data(at, 0x02), None);
}
