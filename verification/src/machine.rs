//! MITS Altair board models: serial interface cards and the disk drive and
//! controller timing.

pub mod two_sio;
pub mod fd400_media;
pub mod fd400;
pub mod dcdd_read;
pub mod dcdd_write;
pub mod sio;
pub mod sio_interface;
pub mod io_trace;
pub mod front_panel;
pub mod cpu_board;
pub mod panel_duty;
pub mod panel_bus;
pub mod panel_state;
pub mod cpu_diagnostic;
