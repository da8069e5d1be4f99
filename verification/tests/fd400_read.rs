use rustair::machine::fd400::{
    Fd400Time, PertecFd400, LAST_PHYSICAL_BYTE, READ_BYTE_INTERVAL_UNITS, READ_DATA_START_UNITS,
    SECTOR_TIME_UNITS,
};
use rustair::machine::fd400_media::{
    HardSectored8InchMedia, HARD_SECTORED_TRACKS, HARD_SECTORS_PER_TRACK,
    PHYSICAL_BYTES_PER_SECTOR, PHYSICAL_MEDIA_BYTES,
};

fn readable_media() -> HardSectored8InchMedia {
    let mut bytes = vec![0u8; PHYSICAL_MEDIA_BYTES];
    for track in 0..HARD_SECTORED_TRACKS {
        for sector in 0..HARD_SECTORS_PER_TRACK {
            let base = (track as usize * HARD_SECTORS_PER_TRACK as usize + sector as usize)
                * PHYSICAL_BYTES_PER_SECTOR;
            bytes[base] = 0x80 | ((track.wrapping_add(sector)) & 0x7f);
            for offset in 1..PHYSICAL_BYTES_PER_SECTOR {
                bytes[base + offset] = track
                    .wrapping_mul(17)
                    .wrapping_add(sector.wrapping_mul(5))
                    .wrapping_add(offset as u8);
            }
        }
    }
    HardSectored8InchMedia::from_physical_bytes(bytes, true).unwrap()
}

fn readable_drive() -> PertecFd400 {
    let mut drive = PertecFd400::new();
    drive.insert_media(readable_media()).unwrap();
    drive.set_power(true, Fd400Time::zero());
    drive.set_motor_on(true, Fd400Time::zero());
    drive.set_head_loaded(true, Fd400Time::zero());
    drive.set_door_open(false);
    drive
}

fn expected_byte(track: u8, sector: u8, offset: usize) -> u8 {
    if offset == 0 {
        0x80 | ((track.wrapping_add(sector)) & 0x7f)
    } else {
        track
            .wrapping_mul(17)
            .wrapping_add(sector.wrapping_mul(5))
            .wrapping_add(offset as u8)
    }
}

#[test]
fn read_stream_waits_for_head_ready_then_catches_the_next_physical_byte() {
    let mut drive = readable_drive();
    let just_before_next_byte = Fd400Time::from_units(240_133);
    assert_eq!(drive.latest_read_byte_event(just_before_next_byte), None);

    let next_byte = Fd400Time::from_units(240_134);
    let event = drive.latest_read_byte_event(next_byte).unwrap();
    assert_eq!(event.1, expected_byte(0, 7, 107));
}

#[test]
fn read_stream_switches_at_140_us_then_every_32_us() {
    let mut drive = readable_drive();
    let sector_8 = 8 * SECTOR_TIME_UNITS;

    let before_first = drive
        .latest_read_byte_event(Fd400Time::from_units(sector_8 + READ_DATA_START_UNITS - 1))
        .unwrap();
    assert_eq!(before_first.1, expected_byte(0, 7, LAST_PHYSICAL_BYTE));

    let first = drive
        .latest_read_byte_event(Fd400Time::from_units(sector_8 + READ_DATA_START_UNITS))
        .unwrap();
    assert_eq!(first.1, expected_byte(0, 8, 0));
    assert!(first.0 > before_first.0);

    let before_second = drive
        .latest_read_byte_event(Fd400Time::from_units(
            sector_8 + READ_DATA_START_UNITS + READ_BYTE_INTERVAL_UNITS - 1,
        ))
        .unwrap();
    assert_eq!(before_second, first);

    let second = drive
        .latest_read_byte_event(Fd400Time::from_units(
            sector_8 + READ_DATA_START_UNITS + READ_BYTE_INTERVAL_UNITS,
        ))
        .unwrap();
    assert_eq!(second.1, expected_byte(0, 8, 1));
    assert_eq!(second.0, first.0 + 1);
}

#[test]
fn read_stream_large_jump_resolves_to_last_byte_before_next_sector_sync() {
    let mut drive = readable_drive();
    let sector_9 = 9 * SECTOR_TIME_UNITS;
    let event = drive
        .latest_read_byte_event(Fd400Time::from_units(sector_9 + READ_DATA_START_UNITS - 1))
        .unwrap();
    assert_eq!(event.1, expected_byte(0, 8, LAST_PHYSICAL_BYTE));

    let next = drive
        .latest_read_byte_event(Fd400Time::from_units(sector_9 + READ_DATA_START_UNITS))
        .unwrap();
    assert_eq!(next.1, expected_byte(0, 9, 0));
    assert_eq!(next.0, event.0 + 1);
}

#[test]
fn a_record_without_the_sync_bit_does_not_create_a_read_event() {
    let mut media = readable_media().into_physical_bytes();
    let sector_8 = 8usize * PHYSICAL_BYTES_PER_SECTOR;
    media[sector_8] &= 0x7f;
    let media = HardSectored8InchMedia::from_physical_bytes(media, true).unwrap();

    let mut drive = PertecFd400::new();
    drive.insert_media(media).unwrap();
    drive.set_power(true, Fd400Time::zero());
    drive.set_motor_on(true, Fd400Time::zero());
    drive.set_head_loaded(true, Fd400Time::zero());
    drive.set_door_open(false);

    let now = Fd400Time::from_units(8 * SECTOR_TIME_UNITS + READ_DATA_START_UNITS + 500);
    assert_eq!(drive.latest_read_byte_event(now), None);
}

#[test]
fn an_empty_or_unloaded_drive_reads_nothing() {
    let mut empty = PertecFd400::new();
    empty.set_power(true, Fd400Time::zero());
    empty.set_motor_on(true, Fd400Time::zero());
    empty.set_head_loaded(true, Fd400Time::zero());
    assert_eq!(empty.latest_read_byte_event(Fd400Time::from_units(500_000)), None);

    let mut unloaded = readable_drive();
    unloaded.set_head_loaded(false, Fd400Time::zero());
    assert_eq!(unloaded.latest_read_byte_event(Fd400Time::from_units(500_000)), None);
}

#[test]
fn a_second_medium_is_handed_back() {
    let mut drive = readable_drive();
    assert!(drive.insert_media(readable_media()).is_err());
    assert!(drive.eject_media().is_some());
    assert!(drive.eject_media().is_none());
    assert_eq!(drive.physical_media_byte(0, 0, 0), None);
}
