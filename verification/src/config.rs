//! Hardware configuration of the serial boards: which card is installed and
//! how its straps, baud rate, word format and line interface are set.

use vstd::prelude::*;

verus! {

/// The serial card installed in the chassis.
#[derive(Clone, Copy, Debug, PartialEq, Eq, Structural)]
pub enum SerialBoard {
    Sio88,
    TwoSio88,
}

impl Default for SerialBoard {
    /// The single-channel 88-SIO is the default card.
    fn default() -> (r: Self)
        ensures
            r == SerialBoard::Sio88,
    {
        SerialBoard::Sio88
    }
}

/// 88-SIO board revision: where the ready flags sit in the status word.
#[derive(Clone, Copy, Debug, PartialEq, Eq, Structural)]
pub enum SioRevision {
    Rev0,
    Rev1,
}

/// The physical line interface fitted to an 88-SIO: A is RS-232, B is TTL,
/// C is the 20 mA teletype current loop.
#[derive(Clone, Copy, Debug, PartialEq, Eq, Structural)]
pub enum SioInterface {
    Rs232A,
    TtlB,
    TtyC,
}

/// A level on one wire of the board's external connector.
#[derive(Clone, Copy, Debug, PartialEq, Eq, Structural)]
pub enum SioElectricalLevel {
    Rs232Positive,
    Rs232Negative,
    TtlHigh,
    TtlLow,
    CurrentLoopConducting,
    CurrentLoopOpen,
}

/// The three board outputs on the external connector.
#[derive(Clone, Copy, Debug, PartialEq, Eq, Structural)]
pub struct SioConnectorOutputs {
    pub stso: SioElectricalLevel,
    pub sbin: SioElectricalLevel,
    pub sbot: SioElectricalLevel,
}

/// Serial bit rate of the 88-SIO baud strap; never zero.
#[derive(Clone, Copy, Debug, PartialEq, Eq, Structural)]
pub struct SioBaudRate {
    baud: u32,
}

impl Default for SioBaudRate {
    /// The default strap: 110 baud for the teletype.
    fn default() -> (r: Self)
        ensures
            r.spec_baud() == 110,
            r.wf(),
    {
        SioBaudRate { baud: 110 }
    }
}

impl SioBaudRate {
    pub closed spec fn spec_baud(self) -> u32 {
        self.baud
    }

    pub closed spec fn wf(self) -> bool {
        self.baud > 0
    }

    /// A bit rate of zero cannot be strapped.
    pub fn try_new(baud: u32) -> (r: Option<Self>)
        ensures
            baud > 0 <==> r is Some,
            r is Some ==> r.unwrap().spec_baud() == baud && r.unwrap().wf(),
    {
        if baud == 0 {
            None
        } else {
            Some(SioBaudRate { baud })
        }
    }

    pub fn baud(self) -> (r: u32)
        ensures
            r == self.spec_baud(),
    {
        self.baud
    }
}

#[derive(Clone, Copy, Debug, PartialEq, Eq, Structural)]
pub enum SioDataBits {
    Five,
    Six,
    Seven,
    Eight,
}

pub open spec fn spec_data_bits(d: SioDataBits) -> u8 {
    match d {
        SioDataBits::Five => 5,
        SioDataBits::Six => 6,
        SioDataBits::Seven => 7,
        SioDataBits::Eight => 8,
    }
}

impl SioDataBits {
    pub fn bits(self) -> (r: u8)
        ensures
            r == spec_data_bits(self),
    {
        match self {
            SioDataBits::Five => 5,
            SioDataBits::Six => 6,
            SioDataBits::Seven => 7,
            SioDataBits::Eight => 8,
        }
    }
}

#[derive(Clone, Copy, Debug, PartialEq, Eq, Structural)]
pub enum SioParity {
    NoParity,
    Even,
    Odd,
}

#[derive(Clone, Copy, Debug, PartialEq, Eq, Structural)]
pub enum SioStopBits {
    One,
    Two,
}

/// Character format strapped on the UART.
#[derive(Clone, Copy, Debug, PartialEq, Eq, Structural)]
pub struct SioWordFormat {
    pub data_bits: SioDataBits,
    pub parity: SioParity,
    pub stop_bits: SioStopBits,
}

/// Bits on the line for one character: start bit, data bits, parity bit if
/// any, stop bits.
pub open spec fn spec_frame_bits(f: SioWordFormat) -> u8 {
    (1 + spec_data_bits(f.data_bits) + (if f.parity == SioParity::NoParity {
        0int
    } else {
        1int
    }) + (if f.stop_bits == SioStopBits::One {
        1int
    } else {
        2int
    })) as u8
}

impl Default for SioWordFormat {
    /// The teletype format: eight data bits, no parity, two stop bits.
    fn default() -> (r: Self)
        ensures
            r == (SioWordFormat {
                data_bits: SioDataBits::Eight,
                parity: SioParity::NoParity,
                stop_bits: SioStopBits::Two,
            }),
    {
        SioWordFormat {
            data_bits: SioDataBits::Eight,
            parity: SioParity::NoParity,
            stop_bits: SioStopBits::Two,
        }
    }
}

impl SioWordFormat {
    pub fn frame_bits(self) -> (r: u8)
        ensures
            r == spec_frame_bits(self),
            7 <= r <= 12,
    {
        let parity: u8 = match self.parity {
            SioParity::NoParity => 0,
            _ => 1,
        };
        let stop: u8 = match self.stop_bits {
            SioStopBits::One => 1,
            SioStopBits::Two => 2,
        };
        1 + self.data_bits.bits() + parity + stop
    }
}

/// Everything strapped on one 88-SIO card.
#[derive(Clone, Copy, Debug, PartialEq, Eq, Structural)]
pub struct SioHardwareConfig {
    pub revision: SioRevision,
    pub baud: SioBaudRate,
    pub format: SioWordFormat,
    pub interface: SioInterface,
}

impl Default for SioHardwareConfig {
    /// A Rev 1 card with the teletype current-loop interface at 110 baud, 8N2.
    fn default() -> (r: Self)
        ensures
            r.revision == SioRevision::Rev1,
            r.baud.spec_baud() == 110,
            r.baud.wf(),
            r.format == (SioWordFormat {
                data_bits: SioDataBits::Eight,
                parity: SioParity::NoParity,
                stop_bits: SioStopBits::Two,
            }),
            r.interface == SioInterface::TtyC,
    {
        SioHardwareConfig {
            revision: SioRevision::Rev1,
            baud: SioBaudRate::default(),
            format: SioWordFormat::default(),
            interface: SioInterface::TtyC,
        }
    }
}

} // verus!
