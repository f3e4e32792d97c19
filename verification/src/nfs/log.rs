//! Log records of NFS and RPC transactions.

use vstd::prelude::*;
use vstd::string::StringSliceAdditionalSpecFns;

use crate::json::{
    hex_text, spec_hex_text, spec_set, Json, JsonObject, LeafView, ValueView,
};
use crate::nfs::nfs::{
    NFSState, NFSTransaction, NFSTransactionTypeData, StateView, TransactionView, TypeDataView,
};
use crate::nfs::types::{
    nfs3_procedure_string, nfs3_status_string, nfs4_procedure_string, rpc_auth_type_string,
    rpc_status_string, spec_nfs3_procedure_string, spec_nfs3_status_string,
    spec_nfs4_procedure_string, spec_rpc_auth_type_string, spec_rpc_status_string,
    NFSPROC3_GETATTR, NFSPROC3_READ, NFSPROC3_RENAME, NFSPROC3_WRITE, RPCAUTH_UNIX,
};

verus! {

/// The CRC-32 of `bytes` with the IEEE polynomial, as `crc` computes it.
pub uninterp spec fn spec_crc32_ieee(bytes: Seq<u8>) -> u32;

/// Whether the transaction is left out of the log: GETATTR of the versions
/// up to three is.
pub open spec fn spec_logging_is_filtered(state: StateView, tx: TransactionView) -> bool {
    state.nfs_version <= 3 && tx.procedure == NFSPROC3_GETATTR
}

/// Tells whether the transaction is left out of the log: one if it is,
/// else zero.
pub fn rs_nfs_tx_logging_is_filtered(state: &NFSState, tx: &NFSTransaction) -> (r: u8)
    ensures
        r == (if spec_logging_is_filtered(state@, tx@) {
            1u8
        } else {
            0u8
        }),
{
    if state.nfs_version <= 3 && tx.procedure == NFSPROC3_GETATTR {
        return 1;
    }
    0
}

/// The object that tells a rename: the old name and the new one, which is
/// empty where the transaction holds none.
pub open spec fn spec_rename_object(tx: TransactionView) -> Seq<(Seq<u8>, LeafView)> {
    let js = spec_set(Seq::empty(), "from".spec_bytes(), LeafView::String(tx.file_name));
    spec_set(
        js,
        "to".spec_bytes(),
        LeafView::String(
            match tx.type_data {
                Some(TypeDataView::RENAME(name)) => name,
                _ => Seq::empty(),
            },
        ),
    )
}

/// Builds the object that tells a rename.
pub fn nfs_rename_object(tx: &NFSTransaction) -> (js: JsonObject)
    ensures
        js@ == spec_rename_object(tx@),
{
    let mut js = JsonObject::object();
    js.set_string("from", tx.file_name.as_slice());
    match &tx.type_data {
        Some(NFSTransactionTypeData::RENAME(x)) => {
            js.set_string("to", x.as_slice());
        },
        _ => {
            let none: Vec<u8> = Vec::new();
            js.set_string("to", none.as_slice());
        },
    }
    js
}

/// The object that tells who made a call with `AUTH_UNIX` credentials.
pub open spec fn spec_creds_object(tx: TransactionView) -> Seq<(Seq<u8>, LeafView)> {
    let js = spec_set(
        Seq::empty(),
        "machine_name".spec_bytes(),
        LeafView::String(tx.request_machine_name),
    );
    let js = spec_set(js, "uid".spec_bytes(), LeafView::Integer(tx.request_uid as u64));
    spec_set(js, "gid".spec_bytes(), LeafView::Integer(tx.request_gid as u64))
}

/// Builds the object that tells who made a call.
pub fn nfs_creds_object(tx: &NFSTransaction) -> (js: JsonObject)
    ensures
        js@ == spec_creds_object(tx@),
{
    let mut js = JsonObject::object();
    js.set_string("machine_name", tx.request_machine_name.as_slice());
    js.set_integer("uid", tx.request_uid as u64);
    js.set_integer("gid", tx.request_gid as u64);
    js
}

/// The object that tells where a file transfer stands: whether this is its
/// first and its last chunk and, for a file transaction, the call seen
/// last and the number of chunks.
pub open spec fn spec_file_object(tx: TransactionView) -> Seq<(Seq<u8>, LeafView)> {
    let js = spec_set(Seq::empty(), "first".spec_bytes(), LeafView::Bool(tx.is_first));
    let js = spec_set(js, "last".spec_bytes(), LeafView::Bool(tx.is_last));
    match tx.file() {
        Some(tdf) => spec_set(
            spec_set(js, "last_xid".spec_bytes(), LeafView::Integer(tdf.file_last_xid as u64)),
            "chunks".spec_bytes(),
            LeafView::Integer(tdf.chunk_count as u64),
        ),
        None => js,
    }
}

/// Builds the object that tells where a file transfer stands.
pub fn nfs_file_object(tx: &NFSTransaction) -> (js: JsonObject)
    ensures
        js@ == spec_file_object(tx@),
{
    let mut js = JsonObject::object();
    js.set_boolean("first", tx.is_first);
    js.set_boolean("last", tx.is_last);
    if let Some(NFSTransactionTypeData::FILE(tdf)) = &tx.type_data {
        js.set_integer("last_xid", tdf.file_last_xid as u64);
        js.set_integer("chunks", tdf.chunk_count as u64);
    }
    js
}

/// Computes the CRC-32 of a file handle with `crc::crc32::checksum_ieee`.
///
/// Trusted: the result is the checksum that the crate computes, which
/// depends on the octets alone.
#[verifier::external_body]
fn nfs_handle2crc(bytes: &Vec<u8>) -> (c: u32)
    ensures
        c == spec_crc32_ieee(bytes@),
{
    crc::crc32::checksum_ieee(bytes)
}

/// The name of the procedure of a transaction, in the version of the
/// flow.
pub open spec fn spec_procedure_string(state: StateView, tx: TransactionView) -> Seq<u8> {
    if state.nfs_version < 4 {
        spec_nfs3_procedure_string(tx.procedure)
    } else {
        spec_nfs4_procedure_string(tx.procedure)
    }
}

/// What every record of an NFS transaction starts with: version,
/// procedure and file name, the hash `hhash` of the file handle in base
/// sixteen unless the handle is empty, the identifier and whether this is a
/// file transaction.
pub open spec fn spec_common_header(state: StateView, tx: TransactionView, hhash: u32) -> Seq<
    (Seq<u8>, ValueView),
> {
    let js = spec_set(
        Seq::empty(),
        "version".spec_bytes(),
        ValueView::Leaf(LeafView::Integer(state.nfs_version as u64)),
    );
    let js = spec_set(
        js,
        "procedure".spec_bytes(),
        ValueView::Leaf(LeafView::String(spec_procedure_string(state, tx))),
    );
    let js = spec_set(js, "filename".spec_bytes(), ValueView::Leaf(LeafView::String(tx.file_name)));
    let js = if tx.file_handle.len() > 0 {
        spec_set(
            js,
            "hhash".spec_bytes(),
            ValueView::Leaf(LeafView::String(spec_hex_text(hhash as nat))),
        )
    } else {
        js
    };
    let js = spec_set(js, "id".spec_bytes(), ValueView::Leaf(LeafView::Integer(tx.id)));
    spec_set(js, "file_tx".spec_bytes(), ValueView::Leaf(LeafView::Bool(tx.is_file_tx)))
}

/// Builds what every record of an NFS transaction starts with, given the
/// hash of the file handle.
pub fn nfs_common_header_hashed(state: &NFSState, tx: &NFSTransaction, hhash: u32) -> (js: Json)
    ensures
        js@ == spec_common_header(state@, tx@, hhash),
{
    let mut js = Json::object();
    js.set_integer("version", state.nfs_version as u64);
    let proc_string = if state.nfs_version < 4 {
        nfs3_procedure_string(tx.procedure)
    } else {
        nfs4_procedure_string(tx.procedure)
    };
    js.set_string("procedure", proc_string.as_slice());
    js.set_string("filename", tx.file_name.as_slice());
    if tx.file_handle.len() > 0 {
        let s = hex_text(hhash as u64);
        js.set_string("hhash", s.as_slice());
    }
    js.set_integer("id", tx.id);
    js.set_boolean("file_tx", tx.is_file_tx);
    js
}

/// Builds what every record of an NFS transaction starts with; the hash is
/// the CRC-32 of the file handle.
pub fn nfs_common_header(state: &NFSState, tx: &NFSTransaction) -> (js: Json)
    ensures
        js@ == spec_common_header(state@, tx@, spec_crc32_ieee(tx@.file_handle)),
{
    if tx.file_handle.len() > 0 {
        let c = nfs_handle2crc(&tx.file_handle);
        nfs_common_header_hashed(state, tx, c)
    } else {
        nfs_common_header_hashed(state, tx, 0)
    }
}

/// The record of the request of a transaction.
pub open spec fn spec_log_json_request(state: StateView, tx: TransactionView, hhash: u32) -> Seq<
    (Seq<u8>, ValueView),
> {
    spec_set(
        spec_common_header(state, tx, hhash),
        "type".spec_bytes(),
        ValueView::Leaf(LeafView::String("request".spec_bytes())),
    )
}

/// Builds the record of the request of a transaction.
pub fn rs_nfs_log_json_request(state: &NFSState, tx: &NFSTransaction) -> (js: Json)
    ensures
        js@ == spec_log_json_request(state@, tx@, spec_crc32_ieee(tx@.file_handle)),
{
    let mut js = nfs_common_header(state, tx);
    js.set_string("type", "request".as_bytes());
    js
}

/// The record of the response of a transaction: the header, the status,
/// and for READ, WRITE and RENAME of the versions up to three the object
/// that tells more.
pub open spec fn spec_log_json_response(state: StateView, tx: TransactionView, hhash: u32) -> Seq<
    (Seq<u8>, ValueView),
> {
    let js = spec_set(
        spec_common_header(state, tx, hhash),
        "type".spec_bytes(),
        ValueView::Leaf(LeafView::String("response".spec_bytes())),
    );
    let js = spec_set(
        js,
        "status".spec_bytes(),
        ValueView::Leaf(LeafView::String(spec_nfs3_status_string(tx.nfs_response_status))),
    );
    if state.nfs_version <= 3 && tx.procedure == NFSPROC3_READ {
        spec_set(js, "read".spec_bytes(), ValueView::Object(spec_file_object(tx)))
    } else if state.nfs_version <= 3 && tx.procedure == NFSPROC3_WRITE {
        spec_set(js, "write".spec_bytes(), ValueView::Object(spec_file_object(tx)))
    } else if state.nfs_version <= 3 && tx.procedure == NFSPROC3_RENAME {
        spec_set(js, "rename".spec_bytes(), ValueView::Object(spec_rename_object(tx)))
    } else {
        js
    }
}

/// Builds the record of the response of a transaction.
pub fn rs_nfs_log_json_response(state: &NFSState, tx: &NFSTransaction) -> (js: Json)
    ensures
        js@ == spec_log_json_response(state@, tx@, spec_crc32_ieee(tx@.file_handle)),
{
    let mut js = nfs_common_header(state, tx);
    js.set_string("type", "response".as_bytes());
    let status = nfs3_status_string(tx.nfs_response_status);
    js.set_string("status", status.as_slice());
    if state.nfs_version <= 3 {
        if tx.procedure == NFSPROC3_READ {
            let read_js = nfs_file_object(tx);
            js.set("read", read_js);
        } else if tx.procedure == NFSPROC3_WRITE {
            let write_js = nfs_file_object(tx);
            js.set("write", write_js);
        } else if tx.procedure == NFSPROC3_RENAME {
            let rename_js = nfs_rename_object(tx);
            js.set("rename", rename_js);
        }
    }
    js
}

/// The record of the RPC reply of a transaction: the call, the status, the
/// authentication flavor and, for `AUTH_UNIX`, who made the call.
pub open spec fn spec_rpc_log_json_response(tx: TransactionView) -> Seq<(Seq<u8>, ValueView)> {
    let js = spec_set(
        Seq::empty(),
        "xid".spec_bytes(),
        ValueView::Leaf(LeafView::Integer(tx.xid as u64)),
    );
    let js = spec_set(
        js,
        "status".spec_bytes(),
        ValueView::Leaf(LeafView::String(spec_rpc_status_string(tx.rpc_response_status))),
    );
    let js = spec_set(
        js,
        "auth_type".spec_bytes(),
        ValueView::Leaf(LeafView::String(spec_rpc_auth_type_string(tx.auth_type))),
    );
    if tx.auth_type == RPCAUTH_UNIX {
        spec_set(js, "creds".spec_bytes(), ValueView::Object(spec_creds_object(tx)))
    } else {
        js
    }
}

/// Builds the record of the RPC reply of a transaction.
pub fn rs_rpc_log_json_response(tx: &NFSTransaction) -> (js: Json)
    ensures
        js@ == spec_rpc_log_json_response(tx@),
{
    let mut js = Json::object();
    js.set_integer("xid", tx.xid as u64);
    let status = rpc_status_string(tx.rpc_response_status);
    js.set_string("status", status.as_slice());
    let auth = rpc_auth_type_string(tx.auth_type);
    js.set_string("auth_type", auth.as_slice());
    if tx.auth_type == RPCAUTH_UNIX {
        let creds_js = nfs_creds_object(tx);
        js.set("creds", creds_js);
    }
    js
}

} // verus!
