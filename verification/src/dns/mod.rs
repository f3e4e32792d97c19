//! DNS over datagram and stream transports.

pub mod dns;
pub mod lemmas;
pub mod log;
pub mod lua;
pub mod parser;
