//! RDP transactions.

use vstd::prelude::*;

use crate::rdp::parser::{
    McsConnectRequest, McsConnectResponse, X224ConnectionConfirm, X224ConnectionRequest,
};

verus! {

/// A certificate as the server sent it, DER encoded.
#[derive(Debug, PartialEq, Eq)]
pub struct CertificateBlob {
    pub data: Vec<u8>,
}

/// What a transaction holds, by the step of the connection sequence.
#[derive(Debug, PartialEq, Eq)]
pub enum RdpTransactionItem {
    X224ConnectionRequest(X224ConnectionRequest),
    X224ConnectionConfirm(X224ConnectionConfirm),
    McsConnectRequest(McsConnectRequest),
    McsConnectResponse(McsConnectResponse),
    TlsCertificateChain(Vec<CertificateBlob>),
}

/// One step of the connection sequence, as surfaced to the host.
#[derive(Debug, PartialEq, Eq)]
pub struct RdpTransaction {
    pub id: u64,
    pub item: RdpTransactionItem,
}

} // verus!
