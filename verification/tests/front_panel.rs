use rustair::machine::front_panel::FrontPanelController;

#[test]
fn sense_switch_input_reads_the_upper_eight_switches() {
    let mut panel = FrontPanelController::default();
    assert_eq!(panel.input(), 0);
    panel.toggle_switch(15);
    panel.toggle_switch(8);
    panel.toggle_switch(3);
    assert_eq!(panel.switches(), 0x8108);
    assert_eq!(panel.input(), 0x81);
    panel.toggle_switch(15);
    assert_eq!(panel.input(), 0x01);
    panel.toggle_switch(16);
    assert_eq!(panel.switches(), 0x0108);
}

#[test]
fn address_latch_is_set_and_reset() {
    let mut panel = FrontPanelController::new();
    panel.set_address_latch(0x1234);
    assert_eq!(panel.address_latch(), 0x1234);
    assert_eq!(panel.reset_address(), 0);
    assert_eq!(panel.address_latch(), 0);
}
