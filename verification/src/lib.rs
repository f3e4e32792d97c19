//! Application-layer protocol inspection: per-flow parsers for DNS, the FTP
//! data-channel commands and NFSv4 over SunRPC, and the log records of NFS
//! and RDP transactions.

pub mod bytes;
pub mod dns;
pub mod ftp;
pub mod json;
pub mod nfs;
pub mod rdp;
pub mod stream;
