//! Numbers of the RPC and NFSv4 protocols.

use vstd::prelude::*;
use vstd::string::StringSliceAdditionalSpecFns;

use crate::json::{decimal_text, spec_decimal_text, text};

verus! {

pub const RPCAUTH_NULL: u32 = 0;

pub const RPCAUTH_UNIX: u32 = 1;

pub const RPCAUTH_SHORT: u32 = 2;

pub const RPCAUTH_DH: u32 = 3;

pub const RPCAUTH_KRB: u32 = 4;

pub const RPCAUTH_RPCSEC_GSS: u32 = 6;

/// RPCSEC_GSS procedure that carries data.
pub const RPCSEC_GSS_DATA: u32 = 0;

/// RPCSEC_GSS procedure that sets a context up.
pub const RPCSEC_GSS_INIT: u32 = 1;

/// RPCSEC_GSS service that wraps the call in an integrity header.
pub const RPCSEC_GSS_SVC_INTEGRITY: u32 = 2;

pub const NFS4_OK: u32 = 0;

/// `stable_how` of a WRITE that is on stable storage when it returns.
pub const NFS4_FILE_SYNC: u32 = 2;

/// The GETATTR procedure of NFSv3.
pub const NFSPROC3_GETATTR: u32 = 1;

/// The WRITE procedure of NFSv3.
pub const NFSPROC3_WRITE: u32 = 7;

/// The RENAME procedure of NFSv3.
pub const NFSPROC3_RENAME: u32 = 14;

/// The READ procedure of NFSv3.
pub const NFSPROC3_READ: u32 = 6;

pub const NFSPROC4_NULL: u32 = 0;

pub const NFSPROC4_COMPOUND: u32 = 1;

pub const NFSPROC4_ACCESS: u32 = 3;

pub const NFSPROC4_CLOSE: u32 = 4;

pub const NFSPROC4_COMMIT: u32 = 5;

pub const NFSPROC4_CREATE: u32 = 6;

pub const NFSPROC4_DELEGPURGE: u32 = 7;

pub const NFSPROC4_DELEGRETURN: u32 = 8;

pub const NFSPROC4_GETATTR: u32 = 9;

pub const NFSPROC4_GETFH: u32 = 10;

pub const NFSPROC4_LINK: u32 = 11;

pub const NFSPROC4_LOCK: u32 = 12;

pub const NFSPROC4_LOCKT: u32 = 13;

pub const NFSPROC4_LOCKU: u32 = 14;

pub const NFSPROC4_LOOKUP: u32 = 15;

pub const NFSPROC4_LOOKUPP: u32 = 16;

pub const NFSPROC4_NVERIFY: u32 = 17;

pub const NFSPROC4_OPEN: u32 = 18;

pub const NFSPROC4_OPENATTR: u32 = 19;

pub const NFSPROC4_OPEN_CONFIRM: u32 = 20;

pub const NFSPROC4_OPEN_DOWNGRADE: u32 = 21;

pub const NFSPROC4_PUTFH: u32 = 22;

pub const NFSPROC4_PUTPUBFH: u32 = 23;

pub const NFSPROC4_PUTROOTFH: u32 = 24;

pub const NFSPROC4_READ: u32 = 25;

pub const NFSPROC4_READDIR: u32 = 26;

pub const NFSPROC4_READLINK: u32 = 27;

pub const NFSPROC4_REMOVE: u32 = 28;

pub const NFSPROC4_RENAME: u32 = 29;

pub const NFSPROC4_RENEW: u32 = 30;

pub const NFSPROC4_RESTOREFH: u32 = 31;

pub const NFSPROC4_SAVEFH: u32 = 32;

pub const NFSPROC4_SECINFO: u32 = 33;

pub const NFSPROC4_SETATTR: u32 = 34;

pub const NFSPROC4_SETCLIENTID: u32 = 35;

pub const NFSPROC4_SETCLIENTID_CONFIRM: u32 = 36;

pub const NFSPROC4_VERIFY: u32 = 37;

pub const NFSPROC4_WRITE: u32 = 38;

pub const NFSPROC4_RELEASE_LOCKOWNER: u32 = 39;

pub const NFSPROC4_ILLEGAL: u32 = 10044;

/// The name of the NFSv3 procedure `code`, where it has one.
pub open spec fn spec_nfs3_procedure_name(code: u32) -> Option<&'static str> {
    match code {
        0 => Some("NULL"),
        1 => Some("GETATTR"),
        2 => Some("SETATTR"),
        3 => Some("LOOKUP"),
        4 => Some("ACCESS"),
        5 => Some("READLINK"),
        6 => Some("READ"),
        7 => Some("WRITE"),
        8 => Some("CREATE"),
        9 => Some("MKDIR"),
        10 => Some("SYMLINK"),
        11 => Some("MKNOD"),
        12 => Some("REMOVE"),
        13 => Some("RMDIR"),
        14 => Some("RENAME"),
        15 => Some("LINK"),
        16 => Some("READDIR"),
        17 => Some("READDIRPLUS"),
        18 => Some("FSSTAT"),
        19 => Some("FSINFO"),
        20 => Some("PATHCONF"),
        21 => Some("COMMIT"),
        _ => None,
    }
}

/// The name of the NFSv3 procedure `code`, where it has one.
pub fn nfs3_procedure_name(code: u32) -> (name: Option<&'static str>)
    ensures
        name == spec_nfs3_procedure_name(code),
{
    match code {
        0 => Some("NULL"),
        1 => Some("GETATTR"),
        2 => Some("SETATTR"),
        3 => Some("LOOKUP"),
        4 => Some("ACCESS"),
        5 => Some("READLINK"),
        6 => Some("READ"),
        7 => Some("WRITE"),
        8 => Some("CREATE"),
        9 => Some("MKDIR"),
        10 => Some("SYMLINK"),
        11 => Some("MKNOD"),
        12 => Some("REMOVE"),
        13 => Some("RMDIR"),
        14 => Some("RENAME"),
        15 => Some("LINK"),
        16 => Some("READDIR"),
        17 => Some("READDIRPLUS"),
        18 => Some("FSSTAT"),
        19 => Some("FSINFO"),
        20 => Some("PATHCONF"),
        21 => Some("COMMIT"),
        _ => None,
    }
}

/// The text that stands for the NFSv3 procedure `code` in a log record: its name, or
/// the number in base ten where it has none.
pub open spec fn spec_nfs3_procedure_string(code: u32) -> Seq<u8> {
    match spec_nfs3_procedure_name(code) {
        Some(name) => name.spec_bytes(),
        None => spec_decimal_text(code as nat),
    }
}

/// The text that stands for the NFSv3 procedure `code` in a log record.
pub fn nfs3_procedure_string(code: u32) -> (r: Vec<u8>)
    ensures
        r@ == spec_nfs3_procedure_string(code),
{
    match nfs3_procedure_name(code) {
        Some(name) => text(name),
        None => decimal_text(code as u64),
    }
}

/// The name of the NFSv4 procedure or operation `code`, where it has one.
pub open spec fn spec_nfs4_procedure_name(code: u32) -> Option<&'static str> {
    match code {
        0 => Some("NULL"),
        1 => Some("COMPOUND"),
        3 => Some("ACCESS"),
        4 => Some("CLOSE"),
        5 => Some("COMMIT"),
        6 => Some("CREATE"),
        7 => Some("DELEGPURGE"),
        8 => Some("DELEGRETURN"),
        9 => Some("GETATTR"),
        10 => Some("GETFH"),
        11 => Some("LINK"),
        12 => Some("LOCK"),
        13 => Some("LOCKT"),
        14 => Some("LOCKU"),
        15 => Some("LOOKUP"),
        16 => Some("LOOKUPP"),
        17 => Some("NVERIFY"),
        18 => Some("OPEN"),
        19 => Some("OPENATTR"),
        20 => Some("OPEN_CONFIRM"),
        21 => Some("OPEN_DOWNGRADE"),
        22 => Some("PUTFH"),
        23 => Some("PUTPUBFH"),
        24 => Some("PUTROOTFH"),
        25 => Some("READ"),
        26 => Some("READDIR"),
        27 => Some("READLINK"),
        28 => Some("REMOVE"),
        29 => Some("RENAME"),
        30 => Some("RENEW"),
        31 => Some("RESTOREFH"),
        32 => Some("SAVEFH"),
        33 => Some("SECINFO"),
        34 => Some("SETATTR"),
        35 => Some("SETCLIENTID"),
        36 => Some("SETCLIENTID_CONFIRM"),
        37 => Some("VERIFY"),
        38 => Some("WRITE"),
        39 => Some("RELEASE_LOCKOWNER"),
        10044 => Some("ILLEGAL"),
        _ => None,
    }
}

/// The name of the NFSv4 procedure or operation `code`, where it has one.
pub fn nfs4_procedure_name(code: u32) -> (name: Option<&'static str>)
    ensures
        name == spec_nfs4_procedure_name(code),
{
    match code {
        0 => Some("NULL"),
        1 => Some("COMPOUND"),
        3 => Some("ACCESS"),
        4 => Some("CLOSE"),
        5 => Some("COMMIT"),
        6 => Some("CREATE"),
        7 => Some("DELEGPURGE"),
        8 => Some("DELEGRETURN"),
        9 => Some("GETATTR"),
        10 => Some("GETFH"),
        11 => Some("LINK"),
        12 => Some("LOCK"),
        13 => Some("LOCKT"),
        14 => Some("LOCKU"),
        15 => Some("LOOKUP"),
        16 => Some("LOOKUPP"),
        17 => Some("NVERIFY"),
        18 => Some("OPEN"),
        19 => Some("OPENATTR"),
        20 => Some("OPEN_CONFIRM"),
        21 => Some("OPEN_DOWNGRADE"),
        22 => Some("PUTFH"),
        23 => Some("PUTPUBFH"),
        24 => Some("PUTROOTFH"),
        25 => Some("READ"),
        26 => Some("READDIR"),
        27 => Some("READLINK"),
        28 => Some("REMOVE"),
        29 => Some("RENAME"),
        30 => Some("RENEW"),
        31 => Some("RESTOREFH"),
        32 => Some("SAVEFH"),
        33 => Some("SECINFO"),
        34 => Some("SETATTR"),
        35 => Some("SETCLIENTID"),
        36 => Some("SETCLIENTID_CONFIRM"),
        37 => Some("VERIFY"),
        38 => Some("WRITE"),
        39 => Some("RELEASE_LOCKOWNER"),
        10044 => Some("ILLEGAL"),
        _ => None,
    }
}

/// The text that stands for the NFSv4 procedure or operation `code` in a log record: its name, or
/// the number in base ten where it has none.
pub open spec fn spec_nfs4_procedure_string(code: u32) -> Seq<u8> {
    match spec_nfs4_procedure_name(code) {
        Some(name) => name.spec_bytes(),
        None => spec_decimal_text(code as nat),
    }
}

/// The text that stands for the NFSv4 procedure or operation `code` in a log record.
pub fn nfs4_procedure_string(code: u32) -> (r: Vec<u8>)
    ensures
        r@ == spec_nfs4_procedure_string(code),
{
    match nfs4_procedure_name(code) {
        Some(name) => text(name),
        None => decimal_text(code as u64),
    }
}

/// The name of the NFS status `code`, where it has one.
pub open spec fn spec_nfs3_status_name(code: u32) -> Option<&'static str> {
    match code {
        0 => Some("OK"),
        1 => Some("ERR_PERM"),
        2 => Some("ERR_NOENT"),
        5 => Some("ERR_IO"),
        6 => Some("ERR_NXIO"),
        13 => Some("ERR_ACCES"),
        17 => Some("ERR_EXIST"),
        18 => Some("ERR_XDEV"),
        19 => Some("ERR_NODEV"),
        20 => Some("ERR_NOTDIR"),
        21 => Some("ERR_ISDIR"),
        22 => Some("ERR_INVAL"),
        27 => Some("ERR_FBIG"),
        28 => Some("ERR_NOSPC"),
        30 => Some("ERR_ROFS"),
        31 => Some("ERR_MLINK"),
        63 => Some("ERR_NAMETOOLONG"),
        66 => Some("ERR_NOTEMPTY"),
        69 => Some("ERR_DQUOT"),
        70 => Some("ERR_STALE"),
        71 => Some("ERR_REMOTE"),
        10001 => Some("ERR_BADHANDLE"),
        10002 => Some("ERR_NOT_SYNC"),
        10003 => Some("ERR_BAD_COOKIE"),
        10004 => Some("ERR_NOTSUPP"),
        10005 => Some("ERR_TOOSMALL"),
        10006 => Some("ERR_SERVERFAULT"),
        10007 => Some("ERR_BADTYPE"),
        10008 => Some("ERR_JUKEBOX"),
        _ => None,
    }
}

/// The name of the NFS status `code`, where it has one.
pub fn nfs3_status_name(code: u32) -> (name: Option<&'static str>)
    ensures
        name == spec_nfs3_status_name(code),
{
    match code {
        0 => Some("OK"),
        1 => Some("ERR_PERM"),
        2 => Some("ERR_NOENT"),
        5 => Some("ERR_IO"),
        6 => Some("ERR_NXIO"),
        13 => Some("ERR_ACCES"),
        17 => Some("ERR_EXIST"),
        18 => Some("ERR_XDEV"),
        19 => Some("ERR_NODEV"),
        20 => Some("ERR_NOTDIR"),
        21 => Some("ERR_ISDIR"),
        22 => Some("ERR_INVAL"),
        27 => Some("ERR_FBIG"),
        28 => Some("ERR_NOSPC"),
        30 => Some("ERR_ROFS"),
        31 => Some("ERR_MLINK"),
        63 => Some("ERR_NAMETOOLONG"),
        66 => Some("ERR_NOTEMPTY"),
        69 => Some("ERR_DQUOT"),
        70 => Some("ERR_STALE"),
        71 => Some("ERR_REMOTE"),
        10001 => Some("ERR_BADHANDLE"),
        10002 => Some("ERR_NOT_SYNC"),
        10003 => Some("ERR_BAD_COOKIE"),
        10004 => Some("ERR_NOTSUPP"),
        10005 => Some("ERR_TOOSMALL"),
        10006 => Some("ERR_SERVERFAULT"),
        10007 => Some("ERR_BADTYPE"),
        10008 => Some("ERR_JUKEBOX"),
        _ => None,
    }
}

/// The text that stands for the NFS status `code` in a log record: its name, or
/// the number in base ten where it has none.
pub open spec fn spec_nfs3_status_string(code: u32) -> Seq<u8> {
    match spec_nfs3_status_name(code) {
        Some(name) => name.spec_bytes(),
        None => spec_decimal_text(code as nat),
    }
}

/// The text that stands for the NFS status `code` in a log record.
pub fn nfs3_status_string(code: u32) -> (r: Vec<u8>)
    ensures
        r@ == spec_nfs3_status_string(code),
{
    match nfs3_status_name(code) {
        Some(name) => text(name),
        None => decimal_text(code as u64),
    }
}

/// The name of the RPC reply status `code`, where it has one.
pub open spec fn spec_rpc_status_name(code: u32) -> Option<&'static str> {
    match code {
        0 => Some("ACCEPTED"),
        1 => Some("DENIED"),
        _ => None,
    }
}

/// The name of the RPC reply status `code`, where it has one.
pub fn rpc_status_name(code: u32) -> (name: Option<&'static str>)
    ensures
        name == spec_rpc_status_name(code),
{
    match code {
        0 => Some("ACCEPTED"),
        1 => Some("DENIED"),
        _ => None,
    }
}

/// The text that stands for the RPC reply status `code` in a log record: its name, or
/// the number in base ten where it has none.
pub open spec fn spec_rpc_status_string(code: u32) -> Seq<u8> {
    match spec_rpc_status_name(code) {
        Some(name) => name.spec_bytes(),
        None => spec_decimal_text(code as nat),
    }
}

/// The text that stands for the RPC reply status `code` in a log record.
pub fn rpc_status_string(code: u32) -> (r: Vec<u8>)
    ensures
        r@ == spec_rpc_status_string(code),
{
    match rpc_status_name(code) {
        Some(name) => text(name),
        None => decimal_text(code as u64),
    }
}

/// The name of the RPC authentication flavor `code`, where it has one.
pub open spec fn spec_rpc_auth_type_name(code: u32) -> Option<&'static str> {
    match code {
        0 => Some("NULL"),
        1 => Some("UNIX"),
        2 => Some("SHORT"),
        3 => Some("DH"),
        4 => Some("KRB"),
        6 => Some("RPCSEC_GSS"),
        _ => None,
    }
}

/// The name of the RPC authentication flavor `code`, where it has one.
pub fn rpc_auth_type_name(code: u32) -> (name: Option<&'static str>)
    ensures
        name == spec_rpc_auth_type_name(code),
{
    match code {
        0 => Some("NULL"),
        1 => Some("UNIX"),
        2 => Some("SHORT"),
        3 => Some("DH"),
        4 => Some("KRB"),
        6 => Some("RPCSEC_GSS"),
        _ => None,
    }
}

/// The text that stands for the RPC authentication flavor `code` in a log record: its name, or
/// the number in base ten where it has none.
pub open spec fn spec_rpc_auth_type_string(code: u32) -> Seq<u8> {
    match spec_rpc_auth_type_name(code) {
        Some(name) => name.spec_bytes(),
        None => spec_decimal_text(code as nat),
    }
}

/// The text that stands for the RPC authentication flavor `code` in a log record.
pub fn rpc_auth_type_string(code: u32) -> (r: Vec<u8>)
    ensures
        r@ == spec_rpc_auth_type_string(code),
{
    match rpc_auth_type_name(code) {
        Some(name) => text(name),
        None => decimal_text(code as u64),
    }
}

} // verus!
