//! SunRPC calls and replies as the framing layer hands them on, and the
//! RPCSEC_GSS integrity wrapper.

use vstd::prelude::*;

use crate::nfs::xdr::{read_u32, spec_has, spec_u32, take};

verus! {

/// `AUTH_UNIX` credentials.
#[derive(Debug, PartialEq, Eq, Clone, Copy)]
pub struct RpcRequestCredsUnix<'a> {
    pub stamp: u32,
    pub machine_name_len: u32,
    pub machine_name_buf: &'a [u8],
    pub uid: u32,
    pub gid: u32,
}

/// `RPCSEC_GSS` credentials.
#[derive(Debug, PartialEq, Eq, Clone, Copy)]
pub struct RpcRequestCredsGssApi<'a> {
    pub version: u32,
    pub procedure: u32,
    pub seq_num: u32,
    pub service: u32,
    pub ctx: &'a [u8],
}

/// The credentials of a call, by flavor.
#[derive(Debug, PartialEq, Eq, Clone, Copy)]
pub enum RpcRequestCreds<'a> {
    Unix(RpcRequestCredsUnix<'a>),
    GssApi(RpcRequestCredsGssApi<'a>),
    Unknown(&'a [u8]),
}

/// What starts every RPC message.
#[derive(Debug, PartialEq, Eq, Clone, Copy, Structural)]
pub struct RpcPacketHeader {
    pub frag_is_last: bool,
    pub frag_len: u32,
    pub xid: u32,
    pub msgtype: u32,
}

/// An RPC call.
#[derive(Debug, PartialEq, Eq, Clone, Copy)]
pub struct RpcPacket<'a> {
    pub hdr: RpcPacketHeader,
    pub rpcver: u32,
    pub program: u32,
    pub progver: u32,
    pub procedure: u32,
    pub creds_flavor: u32,
    pub creds_len: u32,
    pub creds: RpcRequestCreds<'a>,
    pub verifier_flavor: u32,
    pub verifier_len: u32,
    pub verifier: &'a [u8],
    pub prog_data: &'a [u8],
}

/// An RPC reply.
#[derive(Debug, PartialEq, Eq, Clone, Copy)]
pub struct RpcReplyPacket<'a> {
    pub hdr: RpcPacketHeader,
    pub verifier_flavor: u32,
    pub verifier_len: u32,
    pub verifier: Option<&'a [u8]>,
    pub reply_state: u32,
    pub accept_state: u32,
    pub prog_data: &'a [u8],
}

/// The body of a call or reply under RPCSEC_GSS integrity protection.
#[derive(Debug, PartialEq, Eq, Clone, Copy)]
pub struct RpcGssApiIntegrity<'a> {
    pub seq_num: u32,
    pub data: &'a [u8],
}

/// What the integrity wrapper in `s` holds: behind a length of at least
/// four and a sequence number, the wrapped data, which with the sequence
/// number makes up the length. Gives the sequence number and the data.
pub open spec fn spec_gssapi_integrity(s: Seq<u8>) -> Option<(u32, Seq<u8>)> {
    if spec_has(s, 0, 8) && spec_u32(s, 0) >= 4 && spec_has(s, 8, spec_u32(s, 0) - 4) {
        Some((spec_u32(s, 4), s.subrange(8, 4 + spec_u32(s, 0))))
    } else {
        None
    }
}

/// Takes the RPCSEC_GSS integrity wrapper off `input`.
pub fn parse_rpc_gssapi_integrity<'a>(input: &'a [u8]) -> (r: Option<RpcGssApiIntegrity<'a>>)
    ensures
        match spec_gssapi_integrity(input@) {
            Some((seq_num, data)) => r.is_some() && r.unwrap().seq_num == seq_num
                && r.unwrap().data@ == data,
            None => r.is_none(),
        },
{
    let len = match read_u32(input, 0) {
        Some(v) => v,
        None => {
            return None;
        },
    };
    let seq_num = match read_u32(input, 4) {
        Some(v) => v,
        None => {
            return None;
        },
    };
    if len < 4 {
        return None;
    }
    match take(input, 8, (len - 4) as usize) {
        Some(data) => Some(RpcGssApiIntegrity { seq_num, data }),
        None => None,
    }
}

} // verus!
