//! Host-side serial plumbing that carries no I/O itself.

pub mod serial_router;
pub mod com_link;
pub mod tcp_link;
