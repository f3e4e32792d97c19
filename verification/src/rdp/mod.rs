//! RDP: what the connection sequence tells of client and server, for the
//! log.

pub mod log;
pub mod parser;
pub mod rdp;
pub mod windows;
