use rustair::machine::dcdd_read::Board1ReadElectronics;

#[test]
fn unread_bytes_are_overwritten_by_the_newest_physical_event() {
    let mut read = Board1ReadElectronics::new(0x5a);
    assert!(!read.nrda());
    assert_eq!(read.data_latch(), 0x5a);

    read.observe_event(Some((10, 0x81)));
    read.observe_event(Some((11, 0x22)));
    read.observe_event(Some((12, 0x33)));
    assert!(read.nrda());
    assert_eq!(read.data_latch(), 0x33);
}

#[test]
fn data_in_clears_nrda_without_rearming_on_the_same_generation() {
    let mut read = Board1ReadElectronics::new(0x00);
    read.observe_event(Some((42, 0xa5)));
    assert!(read.nrda());
    assert_eq!(read.consume_data(), 0xa5);
    assert!(!read.nrda());

    read.observe_event(Some((42, 0xa5)));
    assert!(!read.nrda(), "the same physical byte cannot arrive twice");

    read.observe_event(Some((43, 0x19)));
    assert!(read.nrda());
    assert_eq!(read.data_latch(), 0x19);
}

#[test]
fn no_event_leaves_the_latch_and_nrda_untouched() {
    let mut read = Board1ReadElectronics::new(0x11);
    read.observe_event(None);
    assert!(!read.nrda());
    assert_eq!(read.data_latch(), 0x11);
    assert_eq!(read.consume_data(), 0x11);
}
