//! The 88-SIO line interfaces between the board's TTL logic and its external
//! connector.
//!
//! - A (RS-232): an internal TTL HIGH becomes a negative RS-232 level and LOW
//!   becomes a positive one; the level shifter inverts.
//! - B (TTL): non-inverting buffers.
//! - C (current loop): an internal HIGH makes the output transistor conduct;
//!   LOW leaves the loop open. Inputs are non-inverting: current present is
//!   HIGH (mark).

use vstd::prelude::*;
use crate::config::{SioConnectorOutputs, SioElectricalLevel, SioInterface};

verus! {

pub open spec fn spec_encode_output(interface: SioInterface, ttl_high: bool) -> SioElectricalLevel {
    match interface {
        SioInterface::Rs232A => if ttl_high {
            SioElectricalLevel::Rs232Negative
        } else {
            SioElectricalLevel::Rs232Positive
        },
        SioInterface::TtlB => if ttl_high {
            SioElectricalLevel::TtlHigh
        } else {
            SioElectricalLevel::TtlLow
        },
        SioInterface::TtyC => if ttl_high {
            SioElectricalLevel::CurrentLoopConducting
        } else {
            SioElectricalLevel::CurrentLoopOpen
        },
    }
}

/// Converts one board-internal TTL output to the selected interface.
pub fn encode_output(interface: SioInterface, ttl_high: bool) -> (r: SioElectricalLevel)
    ensures
        r == spec_encode_output(interface, ttl_high),
{
    match (interface, ttl_high) {
        (SioInterface::Rs232A, true) => SioElectricalLevel::Rs232Negative,
        (SioInterface::Rs232A, false) => SioElectricalLevel::Rs232Positive,
        (SioInterface::TtlB, true) => SioElectricalLevel::TtlHigh,
        (SioInterface::TtlB, false) => SioElectricalLevel::TtlLow,
        (SioInterface::TtyC, true) => SioElectricalLevel::CurrentLoopConducting,
        (SioInterface::TtyC, false) => SioElectricalLevel::CurrentLoopOpen,
    }
}

/// Converts a connector input back to the board's TTL logic. A level from
/// another electrical family than the fitted interface is refused, not
/// coerced: the result is `None` exactly when no TTL level encodes to it.
pub fn decode_input(interface: SioInterface, level: SioElectricalLevel) -> (r: Option<bool>)
    ensures
        match r {
            Some(high) => spec_encode_output(interface, high) == level,
            None => forall|high: bool| spec_encode_output(interface, high) != level,
        },
{
    match (interface, level) {
        (SioInterface::Rs232A, SioElectricalLevel::Rs232Positive) => Some(false),
        (SioInterface::Rs232A, SioElectricalLevel::Rs232Negative) => Some(true),
        (SioInterface::TtlB, SioElectricalLevel::TtlLow) => Some(false),
        (SioInterface::TtlB, SioElectricalLevel::TtlHigh) => Some(true),
        (SioInterface::TtyC, SioElectricalLevel::CurrentLoopOpen) => Some(false),
        (SioInterface::TtyC, SioElectricalLevel::CurrentLoopConducting) => Some(true),
        _ => None,
    }
}

/// The three connector outputs for the board's TSO, BIN and BOT lines.
pub fn connector_outputs(interface: SioInterface, tso_high: bool, bin_high: bool, bot_high: bool) -> (r:
    SioConnectorOutputs)
    ensures
        r.stso == spec_encode_output(interface, tso_high),
        r.sbin == spec_encode_output(interface, bin_high),
        r.sbot == spec_encode_output(interface, bot_high),
{
    SioConnectorOutputs {
        stso: encode_output(interface, tso_high),
        sbin: encode_output(interface, bin_high),
        sbot: encode_output(interface, bot_high),
    }
}

/// A level sent out through an interface and read back through the same
/// interface gives back the same TTL level: decoding undoes encoding.
pub proof fn lemma_decode_undoes_encode(interface: SioInterface, ttl_high: bool)
    ensures
        forall|high: bool|
            spec_encode_output(interface, high) == spec_encode_output(interface, ttl_high) ==> high
                == ttl_high,
{
}

} // verus!
