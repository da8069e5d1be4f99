use rustair::config::{SioElectricalLevel, SioInterface};
use rustair::machine::sio_interface::{connector_outputs, decode_input, encode_output};

#[test]
fn sio_a_inverts_between_ttl_and_rs232_levels() {
    assert_eq!(encode_output(SioInterface::Rs232A, true), SioElectricalLevel::Rs232Negative);
    assert_eq!(encode_output(SioInterface::Rs232A, false), SioElectricalLevel::Rs232Positive);
    assert_eq!(decode_input(SioInterface::Rs232A, SioElectricalLevel::Rs232Negative), Some(true));
    assert_eq!(decode_input(SioInterface::Rs232A, SioElectricalLevel::Rs232Positive), Some(false));
}

#[test]
fn sio_b_is_non_inverting_ttl() {
    assert_eq!(encode_output(SioInterface::TtlB, true), SioElectricalLevel::TtlHigh);
    assert_eq!(encode_output(SioInterface::TtlB, false), SioElectricalLevel::TtlLow);
    assert_eq!(decode_input(SioInterface::TtlB, SioElectricalLevel::TtlHigh), Some(true));
    assert_eq!(decode_input(SioInterface::TtlB, SioElectricalLevel::TtlLow), Some(false));
}

#[test]
fn sio_c_high_logic_conducts_current_loop_and_input_is_non_inverting() {
    assert_eq!(encode_output(SioInterface::TtyC, true), SioElectricalLevel::CurrentLoopConducting);
    assert_eq!(encode_output(SioInterface::TtyC, false), SioElectricalLevel::CurrentLoopOpen);
    assert_eq!(decode_input(SioInterface::TtyC, SioElectricalLevel::CurrentLoopConducting), Some(true));
    assert_eq!(decode_input(SioInterface::TtyC, SioElectricalLevel::CurrentLoopOpen), Some(false));
}

#[test]
fn wrong_electrical_family_is_rejected_not_coerced() {
    assert_eq!(decode_input(SioInterface::Rs232A, SioElectricalLevel::TtlHigh), None);
    assert_eq!(decode_input(SioInterface::TtlB, SioElectricalLevel::Rs232Negative), None);
    assert_eq!(decode_input(SioInterface::TtyC, SioElectricalLevel::TtlLow), None);
}

#[test]
fn connector_outputs_encode_each_line_through_the_fitted_interface() {
    let out = connector_outputs(SioInterface::Rs232A, true, false, true);
    assert_eq!(out.stso, SioElectricalLevel::Rs232Negative);
    assert_eq!(out.sbin, SioElectricalLevel::Rs232Positive);
    assert_eq!(out.sbot, SioElectricalLevel::Rs232Negative);
}
