//! The external serial cables between the installed MITS interface and the
//! host-side endpoints. Each emulated physical serial port has at most one
//! attached endpoint.

use vstd::prelude::*;
use crate::config::{SerialBoard, SioInterface};

verus! {

#[derive(Clone, Copy, Debug, PartialEq, Eq, Structural)]
pub enum SerialDevice {
    InternalAsr33,
    TextTerminal,
    ExternalTcp,
    ExternalCom,
}

pub open spec fn spec_supports_sio_interface(device: SerialDevice, interface: SioInterface) -> bool {
    match device {
        SerialDevice::InternalAsr33 => interface == SioInterface::TtyC,
        SerialDevice::ExternalCom => interface == SioInterface::Rs232A,
        SerialDevice::TextTerminal | SerialDevice::ExternalTcp => true,
    }
}

impl SerialDevice {
    /// Whether this endpoint can occupy the connector of the selected 88-SIO
    /// interface without an unconfigured level converter: the built-in ASR-33
    /// is a direct current-loop endpoint and needs C, an external COM port is
    /// an RS-232 link and needs A, and the text terminal and raw TCP peers are
    /// virtual and match any interface.
    pub fn supports_sio_interface(self, interface: SioInterface) -> (r: bool)
        ensures
            r == spec_supports_sio_interface(self, interface),
    {
        match self {
            SerialDevice::InternalAsr33 => matches!(interface, SioInterface::TtyC),
            SerialDevice::ExternalCom => matches!(interface, SioInterface::Rs232A),
            SerialDevice::TextTerminal | SerialDevice::ExternalTcp => true,
        }
    }

    pub fn sio_requirement_label(self) -> (r: &'static str)
        ensures
            r@ == match self {
                SerialDevice::InternalAsr33 => "direct ASR-33 cable requires 88-SIO C current loop"@,
                SerialDevice::ExternalCom => "External COM direct cable requires 88-SIO A RS-232"@,
                SerialDevice::TextTerminal => "virtual terminal matches the selected 88-SIO A/B/C interface"@,
                SerialDevice::ExternalTcp => "virtual TCP peer matches the selected 88-SIO A/B/C interface"@,
            },
    {
        match self {
            SerialDevice::InternalAsr33 => "direct ASR-33 cable requires 88-SIO C current loop",
            SerialDevice::ExternalCom => "External COM direct cable requires 88-SIO A RS-232",
            SerialDevice::TextTerminal => "virtual terminal matches the selected 88-SIO A/B/C interface",
            SerialDevice::ExternalTcp => "virtual TCP peer matches the selected 88-SIO A/B/C interface",
        }
    }
}

#[derive(Clone, Copy, Debug, PartialEq, Eq, Structural)]
pub enum SerialConnection {
    Disconnected,
    Port0,
    Port1,
}

impl SerialConnection {
    pub fn is_connected(self) -> (r: bool)
        ensures
            r == (self != SerialConnection::Disconnected),
    {
        !matches!(self, SerialConnection::Disconnected)
    }
}

/// Where each endpoint's cable is plugged.
pub struct SerialRouterView {
    pub asr33: SerialConnection,
    pub text_terminal: SerialConnection,
    pub external_tcp: SerialConnection,
    pub external_com: SerialConnection,
}

pub struct SerialRouter {
    asr33: SerialConnection,
    text_terminal: SerialConnection,
    external_tcp: SerialConnection,
    external_com: SerialConnection,
}

impl View for SerialRouter {
    type V = SerialRouterView;

    closed spec fn view(&self) -> SerialRouterView {
        SerialRouterView {
            asr33: self.asr33,
            text_terminal: self.text_terminal,
            external_tcp: self.external_tcp,
            external_com: self.external_com,
        }
    }
}

pub open spec fn spec_connection(r: SerialRouterView, device: SerialDevice) -> SerialConnection {
    match device {
        SerialDevice::InternalAsr33 => r.asr33,
        SerialDevice::TextTerminal => r.text_terminal,
        SerialDevice::ExternalTcp => r.external_tcp,
        SerialDevice::ExternalCom => r.external_com,
    }
}

pub open spec fn spec_set_connection(r: SerialRouterView, device: SerialDevice, c: SerialConnection) -> SerialRouterView {
    match device {
        SerialDevice::InternalAsr33 => SerialRouterView { asr33: c, ..r },
        SerialDevice::TextTerminal => SerialRouterView { text_terminal: c, ..r },
        SerialDevice::ExternalTcp => SerialRouterView { external_tcp: c, ..r },
        SerialDevice::ExternalCom => SerialRouterView { external_com: c, ..r },
    }
}

/// The endpoint plugged into a port, looked up in a fixed order.
pub open spec fn spec_device_on(r: SerialRouterView, c: SerialConnection) -> Option<SerialDevice> {
    if c == SerialConnection::Disconnected {
        None
    } else if r.asr33 == c {
        Some(SerialDevice::InternalAsr33)
    } else if r.text_terminal == c {
        Some(SerialDevice::TextTerminal)
    } else if r.external_tcp == c {
        Some(SerialDevice::ExternalTcp)
    } else if r.external_com == c {
        Some(SerialDevice::ExternalCom)
    } else {
        None
    }
}

/// Plugging an endpoint into an occupied port first unplugs the endpoint
/// that was there, as moving a single cable would.
pub open spec fn spec_connect(r: SerialRouterView, device: SerialDevice, c: SerialConnection) -> (
    SerialRouterView,
    Option<SerialDevice>,
) {
    let displaced = match spec_device_on(r, c) {
        Some(current) => if current != device {
            Some(current)
        } else {
            None
        },
        None => None,
    };
    let unplugged = match displaced {
        Some(current) => spec_set_connection(r, current, SerialConnection::Disconnected),
        None => r,
    };
    (spec_set_connection(unplugged, device, c), displaced)
}

pub open spec fn spec_reset_for_board(board: SerialBoard) -> SerialRouterView {
    SerialRouterView {
        asr33: SerialConnection::Port0,
        text_terminal: match board {
            SerialBoard::Sio88 => SerialConnection::Disconnected,
            SerialBoard::TwoSio88 => SerialConnection::Port1,
        },
        external_tcp: SerialConnection::Disconnected,
        external_com: SerialConnection::Disconnected,
    }
}

/// No two endpoints share a physical port.
pub open spec fn spec_ports_exclusive(r: SerialRouterView) -> bool {
    forall|a: SerialDevice, b: SerialDevice|
        a != b && #[trigger] spec_connection(r, a) == #[trigger] spec_connection(r, b) ==> spec_connection(r, a)
            == SerialConnection::Disconnected
}

impl SerialRouter {
    /// Out of the box only the internal ASR-33 is cabled, to port 0.
    pub fn new() -> (r: Self)
        ensures
            r@ == spec_reset_for_board(SerialBoard::Sio88),
    {
        SerialRouter {
            asr33: SerialConnection::Port0,
            text_terminal: SerialConnection::Disconnected,
            external_tcp: SerialConnection::Disconnected,
            external_com: SerialConnection::Disconnected,
        }
    }

    pub fn connection(&self, device: SerialDevice) -> (r: SerialConnection)
        ensures
            r == spec_connection(self@, device),
    {
        match device {
            SerialDevice::InternalAsr33 => self.asr33,
            SerialDevice::TextTerminal => self.text_terminal,
            SerialDevice::ExternalTcp => self.external_tcp,
            SerialDevice::ExternalCom => self.external_com,
        }
    }

    pub fn device_on(&self, connection: SerialConnection) -> (r: Option<SerialDevice>)
        ensures
            r == spec_device_on(self@, connection),
    {
        if connection == SerialConnection::Disconnected {
            return None;
        }
        if self.asr33 == connection {
            Some(SerialDevice::InternalAsr33)
        } else if self.text_terminal == connection {
            Some(SerialDevice::TextTerminal)
        } else if self.external_tcp == connection {
            Some(SerialDevice::ExternalTcp)
        } else if self.external_com == connection {
            Some(SerialDevice::ExternalCom)
        } else {
            None
        }
    }

    fn set_connection(&mut self, device: SerialDevice, connection: SerialConnection)
        ensures
            final(self)@ == spec_set_connection(old(self)@, device, connection),
    {
        match device {
            SerialDevice::InternalAsr33 => self.asr33 = connection,
            SerialDevice::TextTerminal => self.text_terminal = connection,
            SerialDevice::ExternalTcp => self.external_tcp = connection,
            SerialDevice::ExternalCom => self.external_com = connection,
        }
    }

    /// Connects an endpoint to a port and returns the endpoint it displaced.
    pub fn connect(&mut self, device: SerialDevice, connection: SerialConnection) -> (r: Option<
        SerialDevice,
    >)
        ensures
            (final(self)@, r) == spec_connect(old(self)@, device, connection),
    {
        let displaced = if connection != SerialConnection::Disconnected {
            match self.device_on(connection) {
                Some(current) => if current != device {
                    Some(current)
                } else {
                    None
                },
                None => None,
            }
        } else {
            None
        };
        match displaced {
            Some(current) => self.set_connection(current, SerialConnection::Disconnected),
            None => {},
        }
        self.set_connection(device, connection);
        displaced
    }

    /// Replacing the serial board replaces its cabling: TCP and COM start
    /// unplugged, the ASR-33 goes to port 0, and on the 88-2SIO the text
    /// terminal takes port 1.
    pub fn reset_for_board(&mut self, board: SerialBoard)
        ensures
            final(self)@ == spec_reset_for_board(board),
    {
        self.external_tcp = SerialConnection::Disconnected;
        self.external_com = SerialConnection::Disconnected;
        match board {
            SerialBoard::Sio88 => {
                self.asr33 = SerialConnection::Port0;
                self.text_terminal = SerialConnection::Disconnected;
            },
            SerialBoard::TwoSio88 => {
                self.asr33 = SerialConnection::Port0;
                self.text_terminal = SerialConnection::Port1;
            },
        }
    }
}

impl Default for SerialRouter {
    fn default() -> (r: Self)
        ensures
            r@ == spec_reset_for_board(SerialBoard::Sio88),
    {
        SerialRouter::new()
    }
}

proof fn lemma_device_on_finds_the_plugged_endpoint(r: SerialRouterView, c: SerialConnection, x: SerialDevice)
    requires
        c != SerialConnection::Disconnected,
    ensures
        spec_device_on(r, c) matches Some(z) ==> spec_connection(r, z) == c,
        spec_device_on(r, c) is None ==> spec_connection(r, x) != c,
{
}

proof fn lemma_connection_after_connect(r: SerialRouterView, device: SerialDevice, c: SerialConnection, x: SerialDevice)
    ensures
        spec_connection(spec_connect(r, device, c).0, x) == if x == device {
            c
        } else if spec_connect(r, device, c).1 == Some(x) {
            SerialConnection::Disconnected
        } else {
            spec_connection(r, x)
        },
{
}

/// Each physical port carries at most one cable: the wirings the router
/// starts from have this property and connecting an endpoint keeps it. The
/// endpoint lands where it was plugged, and a port it was plugged into
/// reports it.
pub proof fn lemma_connect_keeps_ports_exclusive(
    r: SerialRouterView,
    device: SerialDevice,
    c: SerialConnection,
    board: SerialBoard,
)
    requires
        spec_ports_exclusive(r),
    ensures
        spec_ports_exclusive(spec_connect(r, device, c).0),
        spec_connection(spec_connect(r, device, c).0, device) == c,
        c != SerialConnection::Disconnected ==> spec_device_on(spec_connect(r, device, c).0, c) == Some(
            device,
        ),
        spec_ports_exclusive(spec_reset_for_board(board)),
{
    let after = spec_connect(r, device, c).0;
    let displaced = spec_connect(r, device, c).1;
    lemma_connection_after_connect(r, device, c, device);
    assert forall|a: SerialDevice, b: SerialDevice|
        a != b && #[trigger] spec_connection(after, a) == #[trigger] spec_connection(after, b)
            implies spec_connection(after, a) == SerialConnection::Disconnected by {
        lemma_connection_after_connect(r, device, c, a);
        lemma_connection_after_connect(r, device, c, b);
        if c != SerialConnection::Disconnected {
            lemma_device_on_finds_the_plugged_endpoint(r, c, a);
            lemma_device_on_finds_the_plugged_endpoint(r, c, b);
            match spec_device_on(r, c) {
                Some(z) => {
                    assert(spec_connection(r, z) == spec_connection(r, a) ==> z == a
                        || spec_connection(r, a) == SerialConnection::Disconnected);
                    assert(spec_connection(r, z) == spec_connection(r, b) ==> z == b
                        || spec_connection(r, b) == SerialConnection::Disconnected);
                    assert(spec_connection(r, z) == spec_connection(r, device) ==> z == device
                        || spec_connection(r, device) == SerialConnection::Disconnected);
                },
                None => {},
            }
        }
        assert(spec_connection(r, a) == spec_connection(r, b) ==> spec_connection(r, a)
            == SerialConnection::Disconnected);
    }
    if c != SerialConnection::Disconnected {
        assert forall|x: SerialDevice| x != device implies spec_connection(after, x) != c by {
            assert(spec_connection(after, x) == spec_connection(after, device) ==> spec_connection(after, x)
                == SerialConnection::Disconnected);
        }
        lemma_connection_after_connect(r, device, c, SerialDevice::InternalAsr33);
        lemma_connection_after_connect(r, device, c, SerialDevice::TextTerminal);
        lemma_connection_after_connect(r, device, c, SerialDevice::ExternalTcp);
        lemma_connection_after_connect(r, device, c, SerialDevice::ExternalCom);
        assert(spec_connection(after, SerialDevice::InternalAsr33) == after.asr33);
        assert(spec_connection(after, SerialDevice::TextTerminal) == after.text_terminal);
        assert(spec_connection(after, SerialDevice::ExternalTcp) == after.external_tcp);
        assert(spec_connection(after, SerialDevice::ExternalCom) == after.external_com);
    }
    let fresh = spec_reset_for_board(board);
    assert forall|a: SerialDevice, b: SerialDevice|
        a != b && #[trigger] spec_connection(fresh, a) == #[trigger] spec_connection(fresh, b)
            implies spec_connection(fresh, a) == SerialConnection::Disconnected by {
    }
}

} // verus!
