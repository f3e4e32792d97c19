//! NFSv4 over SunRPC: dissection of COMPOUND calls and replies, and the
//! transactions and file transfers that they make up.

pub mod filetracker;
pub mod lemmas;
pub mod log;
pub mod nfs;
pub mod nfs4;
pub mod nfs4_records;
pub mod rpc_records;
pub mod types;
pub mod xdr;
