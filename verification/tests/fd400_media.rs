use rustair::machine::fd400_media::{
    HardSectored8InchGeometry, HardSectored8InchMedia, HardSectoredMediaSizeError,
    HardSectoredMediaWriteError, PHYSICAL_MEDIA_BYTES,
};

fn patterned_media(write_protected: bool) -> HardSectored8InchMedia {
    let bytes = (0..PHYSICAL_MEDIA_BYTES)
        .map(|index| (index & 0xff) as u8)
        .collect();
    HardSectored8InchMedia::from_physical_bytes(bytes, write_protected).unwrap()
}

#[test]
fn fd400_physical_geometry_is_exact_and_self_consistent() {
    let geometry = HardSectored8InchGeometry::mits_fd400();
    assert_eq!(geometry.tracks, 77);
    assert_eq!(geometry.sectors_per_track, 32);
    assert_eq!(geometry.physical_bytes_per_sector, 137);
    assert_eq!(geometry.total_bytes(), 337_568);
    assert_eq!(geometry.total_bytes(), PHYSICAL_MEDIA_BYTES);
}

#[test]
fn raw_physical_media_requires_the_exact_geometry_size() {
    for actual in [PHYSICAL_MEDIA_BYTES - 1, PHYSICAL_MEDIA_BYTES + 1] {
        let error =
            HardSectored8InchMedia::from_physical_bytes(vec![0; actual], false).unwrap_err();
        assert_eq!(
            error,
            HardSectoredMediaSizeError {
                expected: PHYSICAL_MEDIA_BYTES,
                actual,
            }
        );
    }
    assert!(
        HardSectored8InchMedia::from_physical_bytes(vec![0; PHYSICAL_MEDIA_BYTES], false).is_ok()
    );
}

#[test]
fn physical_byte_addressing_is_track_sector_and_byte_exact() {
    let media = patterned_media(true);
    for (track, sector, byte) in [(0, 0, 0), (0, 31, 136), (1, 0, 0), (76, 31, 136)] {
        let absolute = ((track as usize * 32 + sector as usize) * 137) + byte;
        assert_eq!(
            media.physical_byte(track, sector, byte),
            Some((absolute & 0xff) as u8)
        );
    }
    assert_eq!(media.physical_byte(77, 0, 0), None);
    assert_eq!(media.physical_byte(0, 32, 0), None);
    assert_eq!(media.physical_byte(0, 0, 137), None);
}

#[test]
fn writable_media_mutates_only_the_requested_physical_byte() {
    let mut media = patterned_media(false);
    let before_left = media.physical_byte(12, 7, 45).unwrap();
    let before_right = media.physical_byte(12, 7, 47).unwrap();

    assert_eq!(media.write_physical_byte(12, 7, 46, 0xa5), Ok(()));
    assert_eq!(media.physical_byte(12, 7, 45), Some(before_left));
    assert_eq!(media.physical_byte(12, 7, 46), Some(0xa5));
    assert_eq!(media.physical_byte(12, 7, 47), Some(before_right));
}

#[test]
fn write_protect_rejects_mutation_and_preserves_all_physical_bytes() {
    let mut media = patterned_media(true);
    let before = media.physical_bytes().to_vec();
    assert_eq!(
        media.write_physical_byte(12, 7, 46, 0xa5),
        Err(HardSectoredMediaWriteError::WriteProtected)
    );
    assert_eq!(media.physical_bytes(), before.as_slice());
}

#[test]
fn invalid_physical_write_address_is_rejected_without_adjacent_mutation() {
    let mut media = patterned_media(false);
    let before = media.physical_bytes().to_vec();
    for (track, sector, offset) in [(77, 0, 0), (0, 32, 0), (0, 0, 137)] {
        assert_eq!(
            media.write_physical_byte(track, sector, offset, 0x5a),
            Err(HardSectoredMediaWriteError::InvalidPhysicalAddress {
                track,
                sector,
                offset,
            })
        );
    }
    assert_eq!(media.physical_bytes(), before.as_slice());
}

#[test]
fn write_protect_is_medium_metadata_not_encoded_into_physical_bytes() {
    let writable = patterned_media(false);
    let protected = patterned_media(true);
    assert!(!writable.write_protected());
    assert!(protected.write_protected());
    assert_eq!(
        writable.physical_sector(12, 7),
        protected.physical_sector(12, 7)
    );
}

#[test]
fn ejectable_medium_round_trips_all_physical_bytes_without_host_metadata() {
    let bytes = (0..PHYSICAL_MEDIA_BYTES)
        .map(|index| ((index * 17) & 0xff) as u8)
        .collect::<Vec<_>>();
    let media = HardSectored8InchMedia::from_physical_bytes(bytes.clone(), false).unwrap();
    assert_eq!(media.geometry(), HardSectored8InchGeometry::mits_fd400());
    assert_eq!(media.into_physical_bytes(), bytes);
}

#[test]
fn physical_sector_is_the_137_bytes_of_that_sector() {
    let media = patterned_media(false);
    let sector = media.physical_sector(1, 2).unwrap();
    assert_eq!(sector.len(), 137);
    let start = (32 + 2) * 137;
    assert_eq!(sector[0], (start & 0xff) as u8);
    assert_eq!(sector[136], ((start + 136) & 0xff) as u8);
    assert_eq!(media.physical_sector(77, 0), None);
    assert_eq!(media.physical_sector(0, 32), None);
}
