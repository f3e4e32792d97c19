//! The operations of an NFSv4 COMPOUND call and of its reply, as they are
//! on the wire.

use vstd::prelude::*;

use crate::nfs::types::{
    NFS4_OK, NFSPROC4_ACCESS, NFSPROC4_CLOSE, NFSPROC4_COMMIT, NFSPROC4_CREATE, NFSPROC4_DELEGRETURN,
    NFSPROC4_GETATTR, NFSPROC4_GETFH, NFSPROC4_LOOKUP, NFSPROC4_OPEN, NFSPROC4_OPEN_CONFIRM,
    NFSPROC4_PUTFH, NFSPROC4_PUTROOTFH, NFSPROC4_READ, NFSPROC4_READDIR, NFSPROC4_REMOVE,
    NFSPROC4_RENAME, NFSPROC4_RENEW, NFSPROC4_SAVEFH, NFSPROC4_SETATTR, NFSPROC4_SETCLIENTID,
    NFSPROC4_SETCLIENTID_CONFIRM, NFSPROC4_WRITE,
};
use crate::nfs::xdr::{
    advance, read_opaque, read_u32, read_u64, spec_has, spec_opaque, spec_u32, spec_u64, take,
};

verus! {

/// The mask that the first two words of an attribute bitmap make up.
#[derive(Debug, PartialEq, Eq, Clone, Copy, Structural)]
pub struct Nfs4Attr {
    pub attr_mask: u64,
}

/// A state identifier: a sequence number and twelve opaque octets.
#[derive(Debug, PartialEq, Eq, Clone, Copy)]
pub struct Nfs4StateId<'a> {
    pub seqid: u32,
    pub data: &'a [u8],
}

/// A file handle.
#[derive(Debug, PartialEq, Eq, Clone, Copy)]
pub struct Nfs4Handle<'a> {
    pub len: u32,
    pub value: &'a [u8],
}

#[derive(Debug, PartialEq, Eq, Clone, Copy)]
pub struct Nfs4RequestSetClientId<'a> {
    pub client_id: &'a [u8],
    pub r_netid: &'a [u8],
    pub r_addr: &'a [u8],
}

#[derive(Debug, PartialEq, Eq, Clone, Copy)]
pub struct Nfs4RequestCreate<'a> {
    pub ftype4: u32,
    pub filename: &'a [u8],
    pub link_content: &'a [u8],
}

#[derive(Debug, PartialEq, Eq, Clone, Copy)]
pub struct Nfs4RequestOpen<'a> {
    pub open_type: u32,
    pub filename: &'a [u8],
}

#[derive(Debug, PartialEq, Eq, Clone, Copy)]
pub struct Nfs4RequestLookup<'a> {
    pub filename: &'a [u8],
}

#[derive(Debug, PartialEq, Eq, Clone, Copy)]
pub struct Nfs4RequestRename<'a> {
    pub oldname: &'a [u8],
    pub newname: &'a [u8],
}

#[derive(Debug, PartialEq, Eq, Clone, Copy)]
pub struct Nfs4RequestRead<'a> {
    pub stateid: Nfs4StateId<'a>,
    pub offset: u64,
    pub count: u32,
}

#[derive(Debug, PartialEq, Eq, Clone, Copy)]
pub struct Nfs4RequestWrite<'a> {
    pub stateid: Nfs4StateId<'a>,
    pub offset: u64,
    pub stable: u32,
    pub write_len: u32,
    pub data: &'a [u8],
}

/// One operation of a COMPOUND call.
#[derive(Debug, PartialEq, Eq, Clone, Copy)]
pub enum Nfs4RequestContent<'a> {
    PutFH(Nfs4Handle<'a>),
    GetFH,
    SaveFH,
    PutRootFH,
    ReadDir,
    Commit,
    Open(Nfs4RequestOpen<'a>),
    Lookup(Nfs4RequestLookup<'a>),
    Read(Nfs4RequestRead<'a>),
    Write(Nfs4RequestWrite<'a>),
    Close(Nfs4StateId<'a>),
    Rename(Nfs4RequestRename<'a>),
    Create(Nfs4RequestCreate<'a>),
    OpenConfirm(Nfs4StateId<'a>),
    Access(u32),
    GetAttr(Nfs4Attr),
    SetAttr(Nfs4StateId<'a>),
    Renew(u64),
    Remove(&'a [u8]),
    DelegReturn(Nfs4StateId<'a>),
    SetClientId(Nfs4RequestSetClientId<'a>),
    SetClientIdConfirm,
}

/// The operations of a COMPOUND call, in order.
#[derive(Debug)]
pub struct Nfs4RequestCompoundRecord<'a> {
    pub commands: Vec<Nfs4RequestContent<'a>>,
}

/// Mathematical value of a [`Nfs4StateId`].
pub struct StateIdView {
    pub seqid: u32,
    pub data: Seq<u8>,
}

/// Mathematical value of a [`Nfs4RequestWrite`].
pub struct RequestWriteView {
    pub stateid: StateIdView,
    pub offset: u64,
    pub stable: u32,
    pub write_len: u32,
    pub data: Seq<u8>,
}

/// Mathematical value of a [`Nfs4RequestContent`].
pub enum RequestContentView {
    PutFH(Seq<u8>),
    GetFH,
    SaveFH,
    PutRootFH,
    ReadDir,
    Commit,
    Open { open_type: u32, filename: Seq<u8> },
    Lookup(Seq<u8>),
    Read { stateid: StateIdView, offset: u64, count: u32 },
    Write(RequestWriteView),
    Close(StateIdView),
    Rename { oldname: Seq<u8>, newname: Seq<u8> },
    Create { ftype4: u32, filename: Seq<u8>, link_content: Seq<u8> },
    OpenConfirm(StateIdView),
    Access(u32),
    GetAttr(u64),
    SetAttr(StateIdView),
    Renew(u64),
    Remove(Seq<u8>),
    DelegReturn(StateIdView),
    SetClientId { client_id: Seq<u8>, r_netid: Seq<u8>, r_addr: Seq<u8> },
    SetClientIdConfirm,
}

impl<'a> View for Nfs4StateId<'a> {
    type V = StateIdView;

    open spec fn view(&self) -> StateIdView {
        StateIdView { seqid: self.seqid, data: self.data@ }
    }
}

impl<'a> View for Nfs4RequestWrite<'a> {
    type V = RequestWriteView;

    open spec fn view(&self) -> RequestWriteView {
        RequestWriteView {
            stateid: self.stateid@,
            offset: self.offset,
            stable: self.stable,
            write_len: self.write_len,
            data: self.data@,
        }
    }
}

impl<'a> View for Nfs4RequestContent<'a> {
    type V = RequestContentView;

    open spec fn view(&self) -> RequestContentView {
        match *self {
            Nfs4RequestContent::PutFH(h) => RequestContentView::PutFH(h.value@),
            Nfs4RequestContent::GetFH => RequestContentView::GetFH,
            Nfs4RequestContent::SaveFH => RequestContentView::SaveFH,
            Nfs4RequestContent::PutRootFH => RequestContentView::PutRootFH,
            Nfs4RequestContent::ReadDir => RequestContentView::ReadDir,
            Nfs4RequestContent::Commit => RequestContentView::Commit,
            Nfs4RequestContent::Open(o) => RequestContentView::Open {
                open_type: o.open_type,
                filename: o.filename@,
            },
            Nfs4RequestContent::Lookup(l) => RequestContentView::Lookup(l.filename@),
            Nfs4RequestContent::Read(r) => RequestContentView::Read {
                stateid: r.stateid@,
                offset: r.offset,
                count: r.count,
            },
            Nfs4RequestContent::Write(w) => RequestContentView::Write(w@),
            Nfs4RequestContent::Close(s) => RequestContentView::Close(s@),
            Nfs4RequestContent::Rename(r) => RequestContentView::Rename {
                oldname: r.oldname@,
                newname: r.newname@,
            },
            Nfs4RequestContent::Create(c) => RequestContentView::Create {
                ftype4: c.ftype4,
                filename: c.filename@,
                link_content: c.link_content@,
            },
            Nfs4RequestContent::OpenConfirm(s) => RequestContentView::OpenConfirm(s@),
            Nfs4RequestContent::Access(a) => RequestContentView::Access(a),
            Nfs4RequestContent::GetAttr(a) => RequestContentView::GetAttr(a.attr_mask),
            Nfs4RequestContent::SetAttr(s) => RequestContentView::SetAttr(s@),
            Nfs4RequestContent::Renew(r) => RequestContentView::Renew(r),
            Nfs4RequestContent::Remove(n) => RequestContentView::Remove(n@),
            Nfs4RequestContent::DelegReturn(s) => RequestContentView::DelegReturn(s@),
            Nfs4RequestContent::SetClientId(c) => RequestContentView::SetClientId {
                client_id: c.client_id@,
                r_netid: c.r_netid@,
                r_addr: c.r_addr@,
            },
            Nfs4RequestContent::SetClientIdConfirm => RequestContentView::SetClientIdConfirm,
        }
    }
}

/// The values of a list of operations, in order.
pub open spec fn requests_view(list: Seq<Nfs4RequestContent>) -> Seq<RequestContentView> {
    list.map_values(|c: Nfs4RequestContent| c@)
}

/// The state identifier at `pos` and the offset behind it.
pub open spec fn spec_stateid(s: Seq<u8>, pos: int) -> Option<(StateIdView, int)> {
    if spec_has(s, pos, 16) {
        Some((StateIdView { seqid: spec_u32(s, pos), data: s.subrange(pos + 4, pos + 16) }, pos + 16))
    } else {
        None
    }
}

/// The attribute bitmap at `pos`: a count and that many 32-bit words. Gives
/// the mask made of the first two words and the offset behind the bitmap.
pub open spec fn spec_bitmap(s: Seq<u8>, pos: int) -> Option<(u64, int)> {
    if spec_has(s, pos, 4) && spec_has(s, pos + 4, 4 * spec_u32(s, pos)) {
        let count = spec_u32(s, pos);
        let high = if count >= 1 {
            spec_u32(s, pos + 4)
        } else {
            0
        };
        let low = if count >= 2 {
            spec_u32(s, pos + 8)
        } else {
            0
        };
        Some(((high as int * 0x1_0000_0000 + low as int) as u64, pos + 4 + 4 * count))
    } else {
        None
    }
}

/// The attributes at `pos`: a bitmap and the opaque values that it
/// announces. Gives the mask and the offset behind the values.
pub open spec fn spec_fattr(s: Seq<u8>, pos: int) -> Option<(u64, int)> {
    match spec_bitmap(s, pos) {
        Some((mask, at)) => match spec_opaque(s, at) {
            Some((_, next)) => Some((mask, next)),
            None => None,
        },
        None => None,
    }
}

/// Reads the state identifier at `pos`.
pub fn nfs4_parse_stateid<'a>(input: &'a [u8], pos: usize) -> (r: Option<
    (Nfs4StateId<'a>, usize),
>)
    ensures
        match spec_stateid(input@, pos as int) {
            Some((id, next)) => r.is_some() && r.unwrap().0@ == id && r.unwrap().1 == next,
            None => r.is_none(),
        },
{
    let len = input.len();
    let seqid = match read_u32(input, pos) {
        Some(v) => v,
        None => {
            return None;
        },
    };
    match take(input, pos + 4, 12) {
        Some(data) => Some((Nfs4StateId { seqid, data }, pos + 16)),
        None => None,
    }
}

/// Reads the attribute bitmap at `pos`.
pub fn nfs4_parse_attrbits(input: &[u8], pos: usize) -> (r: Option<(Nfs4Attr, usize)>)
    ensures
        match spec_bitmap(input@, pos as int) {
            Some((mask, next)) => r.is_some() && r.unwrap().0.attr_mask == mask && r.unwrap().1
                == next,
            None => r.is_none(),
        },
        r.is_some() ==> pos + 4 <= r.unwrap().1 <= input@.len(),
{
    let len = input.len();
    let count = match read_u32(input, pos) {
        Some(v) => v,
        None => {
            return None;
        },
    };
    if ((len - pos - 4) as u64) < 4 * (count as u64) {
        return None;
    }
    let high: u32 = if count >= 1 {
        match read_u32(input, pos + 4) {
            Some(v) => v,
            None => 0,
        }
    } else {
        0
    };
    let low: u32 = if count >= 2 {
        match read_u32(input, pos + 8) {
            Some(v) => v,
            None => 0,
        }
    } else {
        0
    };
    Some(
        (
            Nfs4Attr { attr_mask: high as u64 * 0x1_0000_0000 + low as u64 },
            pos + 4 + 4 * (count as usize),
        ),
    )
}

/// Reads the attributes at `pos`: the bitmap and the values behind it.
pub fn nfs4_parse_attrs(input: &[u8], pos: usize) -> (r: Option<(Nfs4Attr, usize)>)
    ensures
        match spec_fattr(input@, pos as int) {
            Some((mask, next)) => r.is_some() && r.unwrap().0.attr_mask == mask && r.unwrap().1
                == next,
            None => r.is_none(),
        },
        r.is_some() ==> pos + 8 <= r.unwrap().1 <= input@.len(),
{
    match nfs4_parse_attrbits(input, pos) {
        Some((attr, at)) => match read_opaque(input, at) {
            Some((_, next)) => Some((attr, next)),
            None => None,
        },
        None => None,
    }
}

/// File type of a symbolic link, which CREATE gives a target.
pub const NF4LNK: u32 = 5;

/// File types of the two kinds of device, which CREATE gives device numbers.
pub const NF4BLK: u32 = 3;

pub const NF4CHR: u32 = 4;

/// `opentype4` of an OPEN that may create the file.
pub const OPEN4_CREATE: u32 = 1;

/// The offset behind the `createhow4` of an OPEN of type `open_type` whose
/// arguments go on at `pos`: nothing unless the OPEN creates, else the mode
/// and either attributes or an eight-octet verifier.
pub open spec fn spec_open_how(s: Seq<u8>, pos: int, open_type: u32) -> Option<int> {
    if open_type != OPEN4_CREATE {
        Some(pos)
    } else if !spec_has(s, pos, 4) {
        None
    } else if spec_u32(s, pos) == 0 || spec_u32(s, pos) == 1 {
        match spec_fattr(s, pos + 4) {
            Some((_, next)) => Some(next),
            None => None,
        }
    } else if spec_u32(s, pos) == 2 && spec_has(s, pos + 4, 8) {
        Some(pos + 12)
    } else {
        None
    }
}

/// The arguments of OPEN at `pos`: sequence number, share access and deny,
/// the owner, how to open, the kind of claim and the name.
pub open spec fn spec_req_open(s: Seq<u8>, pos: int) -> Option<(RequestContentView, int)> {
    if !spec_has(s, pos, 20) {
        None
    } else {
        match spec_opaque(s, pos + 20) {
            Some((_, at_type)) => if spec_has(s, at_type, 4) {
                match spec_open_how(s, at_type + 4, spec_u32(s, at_type)) {
                    Some(at_claim) => if spec_has(s, at_claim, 4) {
                        match spec_opaque(s, at_claim + 4) {
                            Some((filename, next)) => Some(
                                (
                                    RequestContentView::Open {
                                        open_type: spec_u32(s, at_type),
                                        filename,
                                    },
                                    next,
                                ),
                            ),
                            None => None,
                        }
                    } else {
                        None
                    },
                    None => None,
                }
            } else {
                None
            },
            None => None,
        }
    }
}

/// The arguments of CREATE at `pos`: the type, the link target or device
/// numbers that the type calls for, the name and the attributes.
pub open spec fn spec_req_create(s: Seq<u8>, pos: int) -> Option<(RequestContentView, int)> {
    if !spec_has(s, pos, 4) {
        None
    } else {
        let ftype4 = spec_u32(s, pos);
        let link = if ftype4 == NF4LNK {
            spec_opaque(s, pos + 4)
        } else if ftype4 == NF4BLK || ftype4 == NF4CHR {
            if spec_has(s, pos + 4, 8) {
                Some((Seq::<u8>::empty(), pos + 12))
            } else {
                None
            }
        } else {
            Some((Seq::<u8>::empty(), pos + 4))
        };
        match link {
            Some((link_content, at_name)) => match spec_opaque(s, at_name) {
                Some((filename, at_attrs)) => match spec_fattr(s, at_attrs) {
                    Some((_, next)) => Some(
                        (RequestContentView::Create { ftype4, filename, link_content }, next),
                    ),
                    None => None,
                },
                None => None,
            },
            None => None,
        }
    }
}

/// The arguments of SETCLIENTID at `pos`: a verifier, the client's
/// identifier, the callback program, network and address, and the callback
/// identifier.
pub open spec fn spec_req_setclientid(s: Seq<u8>, pos: int) -> Option<(RequestContentView, int)> {
    if !spec_has(s, pos, 8) {
        None
    } else {
        match spec_opaque(s, pos + 8) {
            Some((client_id, at_program)) => if spec_has(s, at_program, 4) {
                match spec_opaque(s, at_program + 4) {
                    Some((r_netid, at_addr)) => match spec_opaque(s, at_addr) {
                        Some((r_addr, at_ident)) => if spec_has(s, at_ident, 4) {
                            Some(
                                (
                                    RequestContentView::SetClientId { client_id, r_netid, r_addr },
                                    at_ident + 4,
                                ),
                            )
                        } else {
                            None
                        },
                        None => None,
                    },
                    None => None,
                }
            } else {
                None
            },
            None => None,
        }
    }
}

/// The arguments of WRITE at `pos`: state identifier, offset, how stable
/// the write is to be, and the data with its length.
pub open spec fn spec_req_write(s: Seq<u8>, pos: int) -> Option<(RequestContentView, int)> {
    match spec_stateid(s, pos) {
        Some((stateid, at)) => if spec_has(s, at, 12) {
            match spec_opaque(s, at + 12) {
                Some((data, next)) => Some(
                    (
                        RequestContentView::Write(
                            RequestWriteView {
                                stateid,
                                offset: spec_u64(s, at),
                                stable: spec_u32(s, at + 8),
                                write_len: spec_u32(s, at + 12),
                                data,
                            },
                        ),
                        next,
                    ),
                ),
                None => None,
            }
        } else {
            None
        },
        None => None,
    }
}

/// The arguments of an operation that are a state identifier and `extra`
/// further octets before or behind it.
pub open spec fn spec_req_stateid(s: Seq<u8>, pos: int, before: int, behind: int) -> Option<
    (StateIdView, int),
> {
    if !spec_has(s, pos, before) {
        None
    } else {
        match spec_stateid(s, pos + before) {
            Some((stateid, at)) => if spec_has(s, at, behind) {
                Some((stateid, at + behind))
            } else {
                None
            },
            None => None,
        }
    }
}

/// The operation of a COMPOUND call at `pos`, with the offset behind it: the
/// number of the operation and the arguments that belong to it. An
/// operation of another number has no decoding.
pub open spec fn spec_request_op(s: Seq<u8>, pos: int) -> Option<(RequestContentView, int)> {
    if !spec_has(s, pos, 4) {
        None
    } else {
        let op = spec_u32(s, pos);
        let at = pos + 4;
        if op == NFSPROC4_PUTFH {
            match spec_opaque(s, at) {
                Some((handle, next)) => Some((RequestContentView::PutFH(handle), next)),
                None => None,
            }
        } else if op == NFSPROC4_GETFH {
            Some((RequestContentView::GetFH, at))
        } else if op == NFSPROC4_SAVEFH {
            Some((RequestContentView::SaveFH, at))
        } else if op == NFSPROC4_PUTROOTFH {
            Some((RequestContentView::PutRootFH, at))
        } else if op == NFSPROC4_READDIR {
            if spec_has(s, at, 24) {
                match spec_bitmap(s, at + 24) {
                    Some((_, next)) => Some((RequestContentView::ReadDir, next)),
                    None => None,
                }
            } else {
                None
            }
        } else if op == NFSPROC4_COMMIT {
            if spec_has(s, at, 12) {
                Some((RequestContentView::Commit, at + 12))
            } else {
                None
            }
        } else if op == NFSPROC4_OPEN {
            spec_req_open(s, at)
        } else if op == NFSPROC4_LOOKUP {
            match spec_opaque(s, at) {
                Some((name, next)) => Some((RequestContentView::Lookup(name), next)),
                None => None,
            }
        } else if op == NFSPROC4_READ {
            match spec_req_stateid(s, at, 0, 12) {
                Some((stateid, next)) => Some(
                    (
                        RequestContentView::Read {
                            stateid,
                            offset: spec_u64(s, at + 16),
                            count: spec_u32(s, at + 24),
                        },
                        next,
                    ),
                ),
                None => None,
            }
        } else if op == NFSPROC4_WRITE {
            spec_req_write(s, at)
        } else if op == NFSPROC4_CLOSE {
            match spec_req_stateid(s, at, 4, 0) {
                Some((stateid, next)) => Some((RequestContentView::Close(stateid), next)),
                None => None,
            }
        } else if op == NFSPROC4_RENAME {
            match spec_opaque(s, at) {
                Some((oldname, at_new)) => match spec_opaque(s, at_new) {
                    Some((newname, next)) => Some(
                        (RequestContentView::Rename { oldname, newname }, next),
                    ),
                    None => None,
                },
                None => None,
            }
        } else if op == NFSPROC4_CREATE {
            spec_req_create(s, at)
        } else if op == NFSPROC4_OPEN_CONFIRM {
            match spec_req_stateid(s, at, 0, 4) {
                Some((stateid, next)) => Some((RequestContentView::OpenConfirm(stateid), next)),
                None => None,
            }
        } else if op == NFSPROC4_ACCESS {
            if spec_has(s, at, 4) {
                Some((RequestContentView::Access(spec_u32(s, at)), at + 4))
            } else {
                None
            }
        } else if op == NFSPROC4_GETATTR {
            match spec_bitmap(s, at) {
                Some((mask, next)) => Some((RequestContentView::GetAttr(mask), next)),
                None => None,
            }
        } else if op == NFSPROC4_SETATTR {
            match spec_stateid(s, at) {
                Some((stateid, at_attrs)) => match spec_fattr(s, at_attrs) {
                    Some((_, next)) => Some((RequestContentView::SetAttr(stateid), next)),
                    None => None,
                },
                None => None,
            }
        } else if op == NFSPROC4_RENEW {
            if spec_has(s, at, 8) {
                Some((RequestContentView::Renew(spec_u64(s, at)), at + 8))
            } else {
                None
            }
        } else if op == NFSPROC4_REMOVE {
            match spec_opaque(s, at) {
                Some((name, next)) => Some((RequestContentView::Remove(name), next)),
                None => None,
            }
        } else if op == NFSPROC4_DELEGRETURN {
            match spec_stateid(s, at) {
                Some((stateid, next)) => Some((RequestContentView::DelegReturn(stateid), next)),
                None => None,
            }
        } else if op == NFSPROC4_SETCLIENTID {
            spec_req_setclientid(s, at)
        } else if op == NFSPROC4_SETCLIENTID_CONFIRM {
            if spec_has(s, at, 16) {
                Some((RequestContentView::SetClientIdConfirm, at + 16))
            } else {
                None
            }
        } else {
            None
        }
    }
}

/// `count` further operations read from offset `pos`, behind those in
/// `done`.
pub open spec fn spec_request_ops_from(
    s: Seq<u8>,
    pos: int,
    count: nat,
    done: Seq<RequestContentView>,
) -> Option<(Seq<RequestContentView>, int)>
    decreases count,
{
    if count == 0 {
        Some((done, pos))
    } else {
        match spec_request_op(s, pos) {
            Some((op, next)) => spec_request_ops_from(s, next, (count - 1) as nat, done.push(op)),
            None => None,
        }
    }
}

/// The COMPOUND call that `s` encodes: a tag, the minor version, the number
/// of operations and the operations. What follows them is not looked at.
pub open spec fn spec_request_compound(s: Seq<u8>) -> Option<Seq<RequestContentView>> {
    match spec_opaque(s, 0) {
        Some((_, at)) => if spec_has(s, at, 8) {
            match spec_request_ops_from(s, at + 8, spec_u32(s, at + 4) as nat, Seq::empty()) {
                Some((ops, _)) => Some(ops),
                None => None,
            }
        } else {
            None
        },
        None => None,
    }
}

/// What a parser of one operation of a call returns.
pub open spec fn spec_request_parsed(
    r: Option<(Nfs4RequestContent, usize)>,
    expected: Option<(RequestContentView, int)>,
) -> bool {
    match expected {
        Some((op, next)) => r.is_some() && r.unwrap().0@ == op && r.unwrap().1 == next,
        None => r.is_none(),
    }
}

/// Passes over the `createhow4` of an OPEN, as [`spec_open_how`] says.
fn nfs4_req_open_how(input: &[u8], pos: usize, open_type: u32) -> (r: Option<usize>)
    requires
        pos <= input@.len(),
    ensures
        match spec_open_how(input@, pos as int, open_type) {
            Some(next) => r == Some(next as usize) && next <= input@.len(),
            None => r.is_none(),
        },
{
    let len = input.len();
    if open_type != OPEN4_CREATE {
        return Some(pos);
    }
    let mode = match read_u32(input, pos) {
        Some(v) => v,
        None => {
            return None;
        },
    };
    if mode == 0 || mode == 1 {
        match nfs4_parse_attrs(input, pos + 4) {
            Some((_, next)) => Some(next),
            None => None,
        }
    } else if mode == 2 {
        advance(input, pos + 4, 8)
    } else {
        None
    }
}

/// Parses the arguments of OPEN at `pos`.
fn nfs4_req_open<'a>(input: &'a [u8], pos: usize) -> (r: Option<(Nfs4RequestContent<'a>, usize)>)
    ensures
        spec_request_parsed(r, spec_req_open(input@, pos as int)),
{
    let len = input.len();
    let at_owner = match advance(input, pos, 20) {
        Some(at) => at,
        None => {
            return None;
        },
    };
    let at_type = match read_opaque(input, at_owner) {
        Some((_, at)) => at,
        None => {
            return None;
        },
    };
    let open_type = match read_u32(input, at_type) {
        Some(v) => v,
        None => {
            return None;
        },
    };
    let at_claim = match nfs4_req_open_how(input, at_type + 4, open_type) {
        Some(at) => at,
        None => {
            return None;
        },
    };
    let at_name = match advance(input, at_claim, 4) {
        Some(at) => at,
        None => {
            return None;
        },
    };
    match read_opaque(input, at_name) {
        Some((filename, next)) => Some(
            (Nfs4RequestContent::Open(Nfs4RequestOpen { open_type, filename }), next),
        ),
        None => None,
    }
}

/// Parses the arguments of CREATE at `pos`.
fn nfs4_req_create<'a>(input: &'a [u8], pos: usize) -> (r: Option<
    (Nfs4RequestContent<'a>, usize),
>)
    ensures
        spec_request_parsed(r, spec_req_create(input@, pos as int)),
{
    let len = input.len();
    let ftype4 = match read_u32(input, pos) {
        Some(v) => v,
        None => {
            return None;
        },
    };
    let empty = vstd::slice::slice_subrange(input, 0, 0);
    assert(empty@ =~= Seq::<u8>::empty());
    let (link_content, at_name) = if ftype4 == NF4LNK {
        match read_opaque(input, pos + 4) {
            Some(found) => found,
            None => {
                return None;
            },
        }
    } else if ftype4 == NF4BLK || ftype4 == NF4CHR {
        match advance(input, pos + 4, 8) {
            Some(at) => (empty, at),
            None => {
                return None;
            },
        }
    } else {
        (empty, pos + 4)
    };
    let (filename, at_attrs) = match read_opaque(input, at_name) {
        Some(found) => found,
        None => {
            return None;
        },
    };
    match nfs4_parse_attrs(input, at_attrs) {
        Some((_, next)) => Some(
            (
                Nfs4RequestContent::Create(Nfs4RequestCreate { ftype4, filename, link_content }),
                next,
            ),
        ),
        None => None,
    }
}

/// Parses the arguments of SETCLIENTID at `pos`.
fn nfs4_req_setclientid<'a>(input: &'a [u8], pos: usize) -> (r: Option<
    (Nfs4RequestContent<'a>, usize),
>)
    ensures
        spec_request_parsed(r, spec_req_setclientid(input@, pos as int)),
{
    let len = input.len();
    let at_id = match advance(input, pos, 8) {
        Some(at) => at,
        None => {
            return None;
        },
    };
    let (client_id, at_program) = match read_opaque(input, at_id) {
        Some(found) => found,
        None => {
            return None;
        },
    };
    let at_netid = match advance(input, at_program, 4) {
        Some(at) => at,
        None => {
            return None;
        },
    };
    let (r_netid, at_addr) = match read_opaque(input, at_netid) {
        Some(found) => found,
        None => {
            return None;
        },
    };
    let (r_addr, at_ident) = match read_opaque(input, at_addr) {
        Some(found) => found,
        None => {
            return None;
        },
    };
    match advance(input, at_ident, 4) {
        Some(next) => Some(
            (
                Nfs4RequestContent::SetClientId(
                    Nfs4RequestSetClientId { client_id, r_netid, r_addr },
                ),
                next,
            ),
        ),
        None => None,
    }
}

/// Parses the arguments of WRITE at `pos`.
fn nfs4_req_write<'a>(input: &'a [u8], pos: usize) -> (r: Option<(Nfs4RequestContent<'a>, usize)>)
    ensures
        spec_request_parsed(r, spec_req_write(input@, pos as int)),
{
    let len = input.len();
    let (stateid, at) = match nfs4_parse_stateid(input, pos) {
        Some(found) => found,
        None => {
            return None;
        },
    };
    let offset = match read_u64(input, at) {
        Some(v) => v,
        None => {
            return None;
        },
    };
    let stable = match read_u32(input, at + 8) {
        Some(v) => v,
        None => {
            return None;
        },
    };
    let write_len = match read_u32(input, at + 12) {
        Some(v) => v,
        None => {
            return None;
        },
    };
    match read_opaque(input, at + 12) {
        Some((data, next)) => Some(
            (
                Nfs4RequestContent::Write(
                    Nfs4RequestWrite { stateid, offset, stable, write_len, data },
                ),
                next,
            ),
        ),
        None => None,
    }
}

/// Reads a state identifier with `before` octets before it and `behind`
/// octets behind it, as [`spec_req_stateid`] says.
fn nfs4_req_stateid<'a>(input: &'a [u8], pos: usize, before: usize, behind: usize) -> (r: Option<
    (Nfs4StateId<'a>, usize),
>)
    ensures
        match spec_req_stateid(input@, pos as int, before as int, behind as int) {
            Some((id, next)) => r.is_some() && r.unwrap().0@ == id && r.unwrap().1 == next,
            None => r.is_none(),
        },
{
    let at = match advance(input, pos, before) {
        Some(at) => at,
        None => {
            return None;
        },
    };
    let (stateid, at) = match nfs4_parse_stateid(input, at) {
        Some(found) => found,
        None => {
            return None;
        },
    };
    match advance(input, at, behind) {
        Some(next) => Some((stateid, next)),
        None => None,
    }
}

/// Parses the operation of a COMPOUND call at `pos` and gives it with the
/// offset behind it; `None` where the octets are no operation that is
/// known.
pub fn parse_request_compound_command<'a>(input: &'a [u8], pos: usize) -> (r: Option<
    (Nfs4RequestContent<'a>, usize),
>)
    ensures
        spec_request_parsed(r, spec_request_op(input@, pos as int)),
        r.is_some() ==> pos + 4 <= r.unwrap().1,
{
    let len = input.len();
    let op = match read_u32(input, pos) {
        Some(v) => v,
        None => {
            return None;
        },
    };
    let at = pos + 4;
    if op == NFSPROC4_PUTFH {
        let len_at = read_u32(input, at);
        match read_opaque(input, at) {
            Some((value, next)) => Some(
                (
                    Nfs4RequestContent::PutFH(
                        Nfs4Handle {
                            len: match len_at {
                                Some(v) => v,
                                None => 0,
                            },
                            value,
                        },
                    ),
                    next,
                ),
            ),
            None => None,
        }
    } else if op == NFSPROC4_GETFH {
        Some((Nfs4RequestContent::GetFH, at))
    } else if op == NFSPROC4_SAVEFH {
        Some((Nfs4RequestContent::SaveFH, at))
    } else if op == NFSPROC4_PUTROOTFH {
        Some((Nfs4RequestContent::PutRootFH, at))
    } else if op == NFSPROC4_READDIR {
        match advance(input, at, 24) {
            Some(at_bits) => match nfs4_parse_attrbits(input, at_bits) {
                Some((_, next)) => Some((Nfs4RequestContent::ReadDir, next)),
                None => None,
            },
            None => None,
        }
    } else if op == NFSPROC4_COMMIT {
        match advance(input, at, 12) {
            Some(next) => Some((Nfs4RequestContent::Commit, next)),
            None => None,
        }
    } else if op == NFSPROC4_OPEN {
        nfs4_req_open(input, at)
    } else if op == NFSPROC4_LOOKUP {
        match read_opaque(input, at) {
            Some((filename, next)) => Some(
                (Nfs4RequestContent::Lookup(Nfs4RequestLookup { filename }), next),
            ),
            None => None,
        }
    } else if op == NFSPROC4_READ {
        match nfs4_req_stateid(input, at, 0, 12) {
            Some((stateid, next)) => {
                let offset = match read_u64(input, at + 16) {
                    Some(v) => v,
                    None => 0,
                };
                let count = match read_u32(input, at + 24) {
                    Some(v) => v,
                    None => 0,
                };
                Some((Nfs4RequestContent::Read(Nfs4RequestRead { stateid, offset, count }), next))
            },
            None => None,
        }
    } else if op == NFSPROC4_WRITE {
        nfs4_req_write(input, at)
    } else if op == NFSPROC4_CLOSE {
        match nfs4_req_stateid(input, at, 4, 0) {
            Some((stateid, next)) => Some((Nfs4RequestContent::Close(stateid), next)),
            None => None,
        }
    } else if op == NFSPROC4_RENAME {
        match read_opaque(input, at) {
            Some((oldname, at_new)) => match read_opaque(input, at_new) {
                Some((newname, next)) => Some(
                    (Nfs4RequestContent::Rename(Nfs4RequestRename { oldname, newname }), next),
                ),
                None => None,
            },
            None => None,
        }
    } else if op == NFSPROC4_CREATE {
        nfs4_req_create(input, at)
    } else if op == NFSPROC4_OPEN_CONFIRM {
        match nfs4_req_stateid(input, at, 0, 4) {
            Some((stateid, next)) => Some((Nfs4RequestContent::OpenConfirm(stateid), next)),
            None => None,
        }
    } else if op == NFSPROC4_ACCESS {
        match read_u32(input, at) {
            Some(access) => Some((Nfs4RequestContent::Access(access), at + 4)),
            None => None,
        }
    } else if op == NFSPROC4_GETATTR {
        match nfs4_parse_attrbits(input, at) {
            Some((attr, next)) => Some((Nfs4RequestContent::GetAttr(attr), next)),
            None => None,
        }
    } else if op == NFSPROC4_SETATTR {
        match nfs4_parse_stateid(input, at) {
            Some((stateid, at_attrs)) => match nfs4_parse_attrs(input, at_attrs) {
                Some((_, next)) => Some((Nfs4RequestContent::SetAttr(stateid), next)),
                None => None,
            },
            None => None,
        }
    } else if op == NFSPROC4_RENEW {
        match read_u64(input, at) {
            Some(client) => Some((Nfs4RequestContent::Renew(client), at + 8)),
            None => None,
        }
    } else if op == NFSPROC4_REMOVE {
        match read_opaque(input, at) {
            Some((name, next)) => Some((Nfs4RequestContent::Remove(name), next)),
            None => None,
        }
    } else if op == NFSPROC4_DELEGRETURN {
        match nfs4_parse_stateid(input, at) {
            Some((stateid, next)) => Some((Nfs4RequestContent::DelegReturn(stateid), next)),
            None => None,
        }
    } else if op == NFSPROC4_SETCLIENTID {
        nfs4_req_setclientid(input, at)
    } else if op == NFSPROC4_SETCLIENTID_CONFIRM {
        match advance(input, at, 16) {
            Some(next) => Some((Nfs4RequestContent::SetClientIdConfirm, next)),
            None => None,
        }
    } else {
        None
    }
}

/// Parses a COMPOUND call: the tag, the minor version, and as many
/// operations as the call announces.
pub fn parse_nfs4_request_compound<'a>(input: &'a [u8]) -> (r: Option<
    Nfs4RequestCompoundRecord<'a>,
>)
    ensures
        match spec_request_compound(input@) {
            Some(ops) => r.is_some() && requests_view(r.unwrap().commands@) == ops,
            None => r.is_none(),
        },
{
    let len = input.len();
    let at_version = match read_opaque(input, 0) {
        Some((_, at)) => at,
        None => {
            return None;
        },
    };
    let at_count = match advance(input, at_version, 4) {
        Some(at) => at,
        None => {
            return None;
        },
    };
    let count = match read_u32(input, at_count) {
        Some(v) => v,
        None => {
            return None;
        },
    };
    let mut commands: Vec<Nfs4RequestContent<'a>> = Vec::new();
    let mut at: usize = at_count + 4;
    let mut i: u32 = 0;
    assert(requests_view(commands@) =~= Seq::empty());
    while i < count
        invariant
            i <= count,
            spec_request_compound(input@) == (match spec_request_ops_from(
                input@,
                at_count + 4,
                count as nat,
                Seq::empty(),
            ) {
                Some((ops, _)) => Some(ops),
                None => None,
            }),
            spec_request_ops_from(input@, at_count + 4, count as nat, Seq::empty())
                == spec_request_ops_from(
                input@,
                at as int,
                (count - i) as nat,
                requests_view(commands@),
            ),
        decreases count - i,
    {
        match parse_request_compound_command(input, at) {
            Some((op, next)) => {
                assert(requests_view(commands@.push(op)) =~= requests_view(commands@).push(op@));
                commands.push(op);
                at = next;
            },
            None => {
                return None;
            },
        }
        i += 1;
    }
    Some(Nfs4RequestCompoundRecord { commands })
}

#[derive(Debug, PartialEq, Eq, Clone, Copy, Structural)]
pub struct Nfs4ResponseWrite {
    pub count: u32,
    pub committed: u32,
}

#[derive(Debug, PartialEq, Eq, Clone, Copy)]
pub struct Nfs4ResponseRead<'a> {
    pub eof: bool,
    pub count: u32,
    pub data: &'a [u8],
}

#[derive(Debug, PartialEq, Eq, Clone, Copy)]
pub struct Nfs4ResponseOpen<'a> {
    pub stateid: Nfs4StateId<'a>,
    pub result_flags: u32,
    pub delegation_type: u32,
}

#[derive(Debug, PartialEq, Eq, Clone, Copy, Structural)]
pub struct Nfs4ResponseAccess {
    pub supported_types: u32,
    pub access_rights: u32,
}

#[derive(Debug, PartialEq, Eq, Clone, Copy)]
pub struct Nfs4ResponseReaddirEntry<'a> {
    pub name: &'a [u8],
}

#[derive(Debug)]
pub struct Nfs4ResponseReaddir<'a> {
    pub eof: bool,
    pub listing: Vec<Nfs4ResponseReaddirEntry<'a>>,
}

/// One result of a COMPOUND reply: the status of the operation and, where
/// the operation succeeded and returns something, what it returns.
#[derive(Debug)]
pub enum Nfs4ResponseContent<'a> {
    PutFH(u32),
    PutRootFH(u32),
    GetFH(u32, Option<Nfs4Handle<'a>>),
    Lookup(u32),
    SaveFH(u32),
    Rename(u32),
    Write(u32, Option<Nfs4ResponseWrite>),
    Read(u32, Option<Nfs4ResponseRead<'a>>),
    Renew(u32),
    Open(u32, Option<Nfs4ResponseOpen<'a>>),
    OpenConfirm(u32, Option<Nfs4StateId<'a>>),
    Close(u32, Option<Nfs4StateId<'a>>),
    GetAttr(u32, Option<Nfs4Attr>),
    SetAttr(u32),
    Access(u32, Option<Nfs4ResponseAccess>),
    ReadDir(u32, Option<Nfs4ResponseReaddir<'a>>),
    Remove(u32),
    DelegReturn(u32),
    SetClientId(u32),
    SetClientIdConfirm(u32),
    Create(u32),
    Commit(u32),
}

/// The results of a COMPOUND reply, in order.
#[derive(Debug)]
pub struct Nfs4ResponseCompoundRecord<'a> {
    pub status: u32,
    pub commands: Vec<Nfs4ResponseContent<'a>>,
}

/// Mathematical value of a [`Nfs4ResponseRead`].
pub struct ResponseReadView {
    pub eof: bool,
    pub count: u32,
    pub data: Seq<u8>,
}

/// Mathematical value of a [`Nfs4ResponseOpen`].
pub struct ResponseOpenView {
    pub stateid: StateIdView,
    pub result_flags: u32,
    pub delegation_type: u32,
}

/// Mathematical value of a [`Nfs4ResponseReaddir`]: the names listed.
pub struct ResponseReaddirView {
    pub eof: bool,
    pub listing: Seq<Seq<u8>>,
}

/// Mathematical value of a [`Nfs4ResponseContent`].
pub enum ResponseContentView {
    PutFH(u32),
    PutRootFH(u32),
    GetFH(u32, Option<Seq<u8>>),
    Lookup(u32),
    SaveFH(u32),
    Rename(u32),
    Write(u32, Option<Nfs4ResponseWrite>),
    Read(u32, Option<ResponseReadView>),
    Renew(u32),
    Open(u32, Option<ResponseOpenView>),
    OpenConfirm(u32, Option<StateIdView>),
    Close(u32, Option<StateIdView>),
    GetAttr(u32, Option<u64>),
    SetAttr(u32),
    Access(u32, Option<Nfs4ResponseAccess>),
    ReadDir(u32, Option<ResponseReaddirView>),
    Remove(u32),
    DelegReturn(u32),
    SetClientId(u32),
    SetClientIdConfirm(u32),
    Create(u32),
    Commit(u32),
}

impl<'a> View for Nfs4ResponseRead<'a> {
    type V = ResponseReadView;

    open spec fn view(&self) -> ResponseReadView {
        ResponseReadView { eof: self.eof, count: self.count, data: self.data@ }
    }
}

impl<'a> View for Nfs4ResponseOpen<'a> {
    type V = ResponseOpenView;

    open spec fn view(&self) -> ResponseOpenView {
        ResponseOpenView {
            stateid: self.stateid@,
            result_flags: self.result_flags,
            delegation_type: self.delegation_type,
        }
    }
}

/// The names of a list of directory entries, in order.
pub open spec fn entries_view(list: Seq<Nfs4ResponseReaddirEntry>) -> Seq<Seq<u8>> {
    list.map_values(|e: Nfs4ResponseReaddirEntry| e.name@)
}

impl<'a> View for Nfs4ResponseReaddir<'a> {
    type V = ResponseReaddirView;

    open spec fn view(&self) -> ResponseReaddirView {
        ResponseReaddirView { eof: self.eof, listing: entries_view(self.listing@) }
    }
}

impl<'a> View for Nfs4ResponseContent<'a> {
    type V = ResponseContentView;

    open spec fn view(&self) -> ResponseContentView {
        match *self {
            Nfs4ResponseContent::PutFH(s) => ResponseContentView::PutFH(s),
            Nfs4ResponseContent::PutRootFH(s) => ResponseContentView::PutRootFH(s),
            Nfs4ResponseContent::GetFH(s, h) => ResponseContentView::GetFH(
                s,
                match h {
                    Some(h) => Some(h.value@),
                    None => None,
                },
            ),
            Nfs4ResponseContent::Lookup(s) => ResponseContentView::Lookup(s),
            Nfs4ResponseContent::SaveFH(s) => ResponseContentView::SaveFH(s),
            Nfs4ResponseContent::Rename(s) => ResponseContentView::Rename(s),
            Nfs4ResponseContent::Write(s, w) => ResponseContentView::Write(s, w),
            Nfs4ResponseContent::Read(s, r) => ResponseContentView::Read(
                s,
                match r {
                    Some(r) => Some(r@),
                    None => None,
                },
            ),
            Nfs4ResponseContent::Renew(s) => ResponseContentView::Renew(s),
            Nfs4ResponseContent::Open(s, o) => ResponseContentView::Open(
                s,
                match o {
                    Some(o) => Some(o@),
                    None => None,
                },
            ),
            Nfs4ResponseContent::OpenConfirm(s, i) => ResponseContentView::OpenConfirm(
                s,
                match i {
                    Some(i) => Some(i@),
                    None => None,
                },
            ),
            Nfs4ResponseContent::Close(s, i) => ResponseContentView::Close(
                s,
                match i {
                    Some(i) => Some(i@),
                    None => None,
                },
            ),
            Nfs4ResponseContent::GetAttr(s, a) => ResponseContentView::GetAttr(
                s,
                match a {
                    Some(a) => Some(a.attr_mask),
                    None => None,
                },
            ),
            Nfs4ResponseContent::SetAttr(s) => ResponseContentView::SetAttr(s),
            Nfs4ResponseContent::Access(s, a) => ResponseContentView::Access(s, a),
            Nfs4ResponseContent::ReadDir(s, d) => ResponseContentView::ReadDir(
                s,
                match d {
                    Some(d) => Some(d@),
                    None => None,
                },
            ),
            Nfs4ResponseContent::Remove(s) => ResponseContentView::Remove(s),
            Nfs4ResponseContent::DelegReturn(s) => ResponseContentView::DelegReturn(s),
            Nfs4ResponseContent::SetClientId(s) => ResponseContentView::SetClientId(s),
            Nfs4ResponseContent::SetClientIdConfirm(s) => ResponseContentView::SetClientIdConfirm(
                s,
            ),
            Nfs4ResponseContent::Create(s) => ResponseContentView::Create(s),
            Nfs4ResponseContent::Commit(s) => ResponseContentView::Commit(s),
        }
    }
}

/// The values of a list of results, in order.
pub open spec fn responses_view(list: Seq<Nfs4ResponseContent>) -> Seq<ResponseContentView> {
    list.map_values(|c: Nfs4ResponseContent| c@)
}

/// Status that SETCLIENTID gives where the identifier is in use; the reply
/// then names who uses it.
pub const NFS4ERR_CLID_INUSE: u32 = 10017;

/// Length of a `change_info4`: a flag and two 64-bit change counters.
pub const CHANGE_INFO_LEN: usize = 20;

/// The offset behind the delegation of an OPEN result of the kind
/// `delegation_type` that goes on at `pos`: nothing for none, a state
/// identifier, a recall flag and an access control entry for a read
/// delegation, and a space limit besides for a write delegation.
pub open spec fn spec_open_delegation(s: Seq<u8>, pos: int, delegation_type: u32) -> Option<int> {
    if delegation_type == 0 {
        Some(pos)
    } else if delegation_type == 1 || delegation_type == 2 {
        let fixed = if delegation_type == 1 {
            32int
        } else {
            44int
        };
        if spec_has(s, pos, fixed) {
            match spec_opaque(s, pos + fixed) {
                Some((_, next)) => Some(next),
                None => None,
            }
        } else {
            None
        }
    } else {
        None
    }
}

/// What a successful OPEN returns, at `pos`: state identifier, change
/// information, result flags, the attributes set and the delegation.
pub open spec fn spec_res_open(s: Seq<u8>, pos: int) -> Option<(ResponseOpenView, int)> {
    match spec_stateid(s, pos) {
        Some((stateid, at)) => if spec_has(s, at, 24) {
            match spec_bitmap(s, at + 24) {
                Some((_, at_kind)) => if spec_has(s, at_kind, 4) {
                    match spec_open_delegation(s, at_kind + 4, spec_u32(s, at_kind)) {
                        Some(next) => Some(
                            (
                                ResponseOpenView {
                                    stateid,
                                    result_flags: spec_u32(s, at + 20),
                                    delegation_type: spec_u32(s, at_kind),
                                },
                                next,
                            ),
                        ),
                        None => None,
                    }
                } else {
                    None
                },
                None => None,
            }
        } else {
            None
        },
        None => None,
    }
}

/// The entries of a directory listing from `pos` on, behind those whose
/// names are in `done`: each is announced by a non-zero word and holds a
/// cookie, a name and attributes; a zero word ends the list. Gives the
/// names and the offset behind the zero word.
pub open spec fn spec_dir_entries_from(s: Seq<u8>, pos: int, done: Seq<Seq<u8>>) -> Option<
    (Seq<Seq<u8>>, int),
>
    decreases s.len() - pos,
{
    if !spec_has(s, pos, 4) {
        None
    } else if spec_u32(s, pos) == 0 {
        Some((done, pos + 4))
    } else if !spec_has(s, pos + 4, 8) {
        None
    } else {
        match spec_opaque(s, pos + 12) {
            Some((name, at_attrs)) => match spec_fattr(s, at_attrs) {
                Some((_, next)) => if next > pos {
                    spec_dir_entries_from(s, next, done.push(name))
                } else {
                    None
                },
                None => None,
            },
            None => None,
        }
    }
}

/// What a successful READDIR returns, at `pos`: a verifier, the entries
/// and the flag that tells whether the listing is at its end.
pub open spec fn spec_res_readdir(s: Seq<u8>, pos: int) -> Option<(ResponseReaddirView, int)> {
    if !spec_has(s, pos, 8) {
        None
    } else {
        match spec_dir_entries_from(s, pos + 8, Seq::empty()) {
            Some((listing, at_eof)) => if spec_has(s, at_eof, 4) {
                Some((ResponseReaddirView { eof: spec_u32(s, at_eof) != 0, listing }, at_eof + 4))
            } else {
                None
            },
            None => None,
        }
    }
}

/// The result of an operation that returns `fixed` octets where it
/// succeeds and nothing where it fails.
pub open spec fn spec_res_fixed(s: Seq<u8>, pos: int, status: u32, fixed: int) -> Option<int> {
    if status != NFS4_OK {
        Some(pos)
    } else if spec_has(s, pos, fixed) {
        Some(pos + fixed)
    } else {
        None
    }
}

/// The result of an operation in a COMPOUND reply at `pos`, with the offset
/// behind it: the number of the operation, its status and what it returns.
/// A result of another operation has no decoding.
pub open spec fn spec_response_op(s: Seq<u8>, pos: int) -> Option<(ResponseContentView, int)> {
    if !spec_has(s, pos, 8) {
        None
    } else {
        let op = spec_u32(s, pos);
        let status = spec_u32(s, pos + 4);
        let at = pos + 8;
        let ok = status == NFS4_OK;
        if op == NFSPROC4_PUTFH {
            Some((ResponseContentView::PutFH(status), at))
        } else if op == NFSPROC4_PUTROOTFH {
            Some((ResponseContentView::PutRootFH(status), at))
        } else if op == NFSPROC4_LOOKUP {
            Some((ResponseContentView::Lookup(status), at))
        } else if op == NFSPROC4_SAVEFH {
            Some((ResponseContentView::SaveFH(status), at))
        } else if op == NFSPROC4_RENEW {
            Some((ResponseContentView::Renew(status), at))
        } else if op == NFSPROC4_DELEGRETURN {
            Some((ResponseContentView::DelegReturn(status), at))
        } else if op == NFSPROC4_SETCLIENTID_CONFIRM {
            Some((ResponseContentView::SetClientIdConfirm(status), at))
        } else if op == NFSPROC4_GETFH {
            if !ok {
                Some((ResponseContentView::GetFH(status, None), at))
            } else {
                match spec_opaque(s, at) {
                    Some((handle, next)) => Some(
                        (ResponseContentView::GetFH(status, Some(handle)), next),
                    ),
                    None => None,
                }
            }
        } else if op == NFSPROC4_RENAME {
            match spec_res_fixed(s, at, status, 40) {
                Some(next) => Some((ResponseContentView::Rename(status), next)),
                None => None,
            }
        } else if op == NFSPROC4_REMOVE {
            match spec_res_fixed(s, at, status, 20) {
                Some(next) => Some((ResponseContentView::Remove(status), next)),
                None => None,
            }
        } else if op == NFSPROC4_COMMIT {
            match spec_res_fixed(s, at, status, 8) {
                Some(next) => Some((ResponseContentView::Commit(status), next)),
                None => None,
            }
        } else if op == NFSPROC4_CREATE {
            if !ok {
                Some((ResponseContentView::Create(status), at))
            } else if spec_has(s, at, 20) {
                match spec_bitmap(s, at + 20) {
                    Some((_, next)) => Some((ResponseContentView::Create(status), next)),
                    None => None,
                }
            } else {
                None
            }
        } else if op == NFSPROC4_WRITE {
            if !ok {
                Some((ResponseContentView::Write(status, None), at))
            } else if spec_has(s, at, 16) {
                Some(
                    (
                        ResponseContentView::Write(
                            status,
                            Some(
                                Nfs4ResponseWrite {
                                    count: spec_u32(s, at),
                                    committed: spec_u32(s, at + 4),
                                },
                            ),
                        ),
                        at + 16,
                    ),
                )
            } else {
                None
            }
        } else if op == NFSPROC4_READ {
            if !ok {
                Some((ResponseContentView::Read(status, None), at))
            } else if spec_has(s, at, 4) {
                match spec_opaque(s, at + 4) {
                    Some((data, next)) => Some(
                        (
                            ResponseContentView::Read(
                                status,
                                Some(
                                    ResponseReadView {
                                        eof: spec_u32(s, at) != 0,
                                        count: spec_u32(s, at + 4),
                                        data,
                                    },
                                ),
                            ),
                            next,
                        ),
                    ),
                    None => None,
                }
            } else {
                None
            }
        } else if op == NFSPROC4_OPEN {
            if !ok {
                Some((ResponseContentView::Open(status, None), at))
            } else {
                match spec_res_open(s, at) {
                    Some((open, next)) => Some((ResponseContentView::Open(status, Some(open)), next)),
                    None => None,
                }
            }
        } else if op == NFSPROC4_OPEN_CONFIRM {
            if !ok {
                Some((ResponseContentView::OpenConfirm(status, None), at))
            } else {
                match spec_stateid(s, at) {
                    Some((id, next)) => Some(
                        (ResponseContentView::OpenConfirm(status, Some(id)), next),
                    ),
                    None => None,
                }
            }
        } else if op == NFSPROC4_CLOSE {
            if !ok {
                Some((ResponseContentView::Close(status, None), at))
            } else {
                match spec_stateid(s, at) {
                    Some((id, next)) => Some((ResponseContentView::Close(status, Some(id)), next)),
                    None => None,
                }
            }
        } else if op == NFSPROC4_GETATTR {
            if !ok {
                Some((ResponseContentView::GetAttr(status, None), at))
            } else {
                match spec_fattr(s, at) {
                    Some((mask, next)) => Some(
                        (ResponseContentView::GetAttr(status, Some(mask)), next),
                    ),
                    None => None,
                }
            }
        } else if op == NFSPROC4_SETATTR {
            match spec_bitmap(s, at) {
                Some((_, next)) => Some((ResponseContentView::SetAttr(status), next)),
                None => None,
            }
        } else if op == NFSPROC4_ACCESS {
            if !ok {
                Some((ResponseContentView::Access(status, None), at))
            } else if spec_has(s, at, 8) {
                Some(
                    (
                        ResponseContentView::Access(
                            status,
                            Some(
                                Nfs4ResponseAccess {
                                    supported_types: spec_u32(s, at),
                                    access_rights: spec_u32(s, at + 4),
                                },
                            ),
                        ),
                        at + 8,
                    ),
                )
            } else {
                None
            }
        } else if op == NFSPROC4_READDIR {
            if !ok {
                Some((ResponseContentView::ReadDir(status, None), at))
            } else {
                match spec_res_readdir(s, at) {
                    Some((dir, next)) => Some(
                        (ResponseContentView::ReadDir(status, Some(dir)), next),
                    ),
                    None => None,
                }
            }
        } else if op == NFSPROC4_SETCLIENTID {
            if ok {
                if spec_has(s, at, 16) {
                    Some((ResponseContentView::SetClientId(status), at + 16))
                } else {
                    None
                }
            } else if status == NFS4ERR_CLID_INUSE {
                match spec_opaque(s, at) {
                    Some((_, at_addr)) => match spec_opaque(s, at_addr) {
                        Some((_, next)) => Some((ResponseContentView::SetClientId(status), next)),
                        None => None,
                    },
                    None => None,
                }
            } else {
                Some((ResponseContentView::SetClientId(status), at))
            }
        } else {
            None
        }
    }
}

/// `count` further results read from offset `pos`, behind those in `done`.
pub open spec fn spec_response_ops_from(
    s: Seq<u8>,
    pos: int,
    count: nat,
    done: Seq<ResponseContentView>,
) -> Option<(Seq<ResponseContentView>, int)>
    decreases count,
{
    if count == 0 {
        Some((done, pos))
    } else {
        match spec_response_op(s, pos) {
            Some((op, next)) => spec_response_ops_from(
                s,
                next,
                (count - 1) as nat,
                done.push(op),
            ),
            None => None,
        }
    }
}

/// The COMPOUND reply that `s` encodes: the status, a tag, the number of
/// results and the results. What follows them is not looked at.
pub open spec fn spec_response_compound(s: Seq<u8>) -> Option<(u32, Seq<ResponseContentView>)> {
    if !spec_has(s, 0, 4) {
        None
    } else {
        match spec_opaque(s, 4) {
            Some((_, at)) => if spec_has(s, at, 4) {
                match spec_response_ops_from(s, at + 4, spec_u32(s, at) as nat, Seq::empty()) {
                    Some((ops, _)) => Some((spec_u32(s, 0), ops)),
                    None => None,
                }
            } else {
                None
            },
            None => None,
        }
    }
}

/// What a parser of one result of a reply returns.
pub open spec fn spec_response_parsed(
    r: Option<(Nfs4ResponseContent, usize)>,
    expected: Option<(ResponseContentView, int)>,
) -> bool {
    match expected {
        Some((op, next)) => r.is_some() && r.unwrap().0@ == op && r.unwrap().1 == next,
        None => r.is_none(),
    }
}

/// Passes over the delegation of an OPEN result, as
/// [`spec_open_delegation`] says.
fn nfs4_res_open_delegation(input: &[u8], pos: usize, delegation_type: u32) -> (r: Option<usize>)
    requires
        pos <= input@.len(),
    ensures
        match spec_open_delegation(input@, pos as int, delegation_type) {
            Some(next) => r == Some(next as usize) && next <= input@.len(),
            None => r.is_none(),
        },
{
    let len = input.len();
    if delegation_type == 0 {
        Some(pos)
    } else if delegation_type == 1 || delegation_type == 2 {
        let fixed: usize = if delegation_type == 1 {
            32
        } else {
            44
        };
        match advance(input, pos, fixed) {
            Some(at) => match read_opaque(input, at) {
                Some((_, next)) => Some(next),
                None => None,
            },
            None => None,
        }
    } else {
        None
    }
}

/// Parses what a successful OPEN returns, at `pos`.
fn nfs4_res_open_ok<'a>(input: &'a [u8], pos: usize) -> (r: Option<(Nfs4ResponseOpen<'a>, usize)>)
    ensures
        match spec_res_open(input@, pos as int) {
            Some((open, next)) => r.is_some() && r.unwrap().0@ == open && r.unwrap().1 == next,
            None => r.is_none(),
        },
{
    let len = input.len();
    let (stateid, at) = match nfs4_parse_stateid(input, pos) {
        Some(found) => found,
        None => {
            return None;
        },
    };
    let at_bits = match advance(input, at, 24) {
        Some(at_bits) => at_bits,
        None => {
            return None;
        },
    };
    let result_flags = match read_u32(input, at + 20) {
        Some(v) => v,
        None => {
            return None;
        },
    };
    let at_kind = match nfs4_parse_attrbits(input, at_bits) {
        Some((_, at_kind)) => at_kind,
        None => {
            return None;
        },
    };
    let delegation_type = match read_u32(input, at_kind) {
        Some(v) => v,
        None => {
            return None;
        },
    };
    match nfs4_res_open_delegation(input, at_kind + 4, delegation_type) {
        Some(next) => Some((Nfs4ResponseOpen { stateid, result_flags, delegation_type }, next)),
        None => None,
    }
}

/// Parses what a successful READDIR returns, at `pos`.
fn nfs4_res_readdir_ok<'a>(input: &'a [u8], pos: usize) -> (r: Option<
    (Nfs4ResponseReaddir<'a>, usize),
>)
    ensures
        match spec_res_readdir(input@, pos as int) {
            Some((dir, next)) => r.is_some() && r.unwrap().0@ == dir && r.unwrap().1 == next,
            None => r.is_none(),
        },
{
    let len = input.len();
    let start = match advance(input, pos, 8) {
        Some(at) => at,
        None => {
            return None;
        },
    };
    let mut listing: Vec<Nfs4ResponseReaddirEntry<'a>> = Vec::new();
    let mut at: usize = start;
    assert(entries_view(listing@) =~= Seq::empty());
    loop
        invariant
            len == input@.len(),
            at <= len,
            spec_dir_entries_from(input@, start as int, Seq::empty()) == spec_dir_entries_from(
                input@,
                at as int,
                entries_view(listing@),
            ),
            spec_has(input@, pos as int, 8),
            start == pos + 8,
        decreases len - at,
    {
        let follows = match read_u32(input, at) {
            Some(v) => v,
            None => {
                return None;
            },
        };
        if follows == 0 {
            let at_eof = at + 4;
            return match read_u32(input, at_eof) {
                Some(eof) => Some((Nfs4ResponseReaddir { eof: eof != 0, listing }, at_eof + 4)),
                None => None,
            };
        }
        let at_name = match advance(input, at + 4, 8) {
            Some(at_name) => at_name,
            None => {
                return None;
            },
        };
        let (name, at_attrs) = match read_opaque(input, at_name) {
            Some(found) => found,
            None => {
                return None;
            },
        };
        let next = match nfs4_parse_attrs(input, at_attrs) {
            Some((_, next)) => next,
            None => {
                return None;
            },
        };
        let entry = Nfs4ResponseReaddirEntry { name };
        assert(entries_view(listing@.push(entry)) =~= entries_view(listing@).push(name@));
        listing.push(entry);
        at = next;
    }
}

/// Passes over what an operation returns that is `fixed` octets where it
/// succeeds, as [`spec_res_fixed`] says.
fn nfs4_res_fixed(input: &[u8], pos: usize, status: u32, fixed: usize) -> (r: Option<usize>)
    requires
        pos <= input@.len(),
    ensures
        match spec_res_fixed(input@, pos as int, status, fixed as int) {
            Some(next) => r == Some(next as usize),
            None => r.is_none(),
        },
{
    if status != NFS4_OK {
        Some(pos)
    } else {
        advance(input, pos, fixed)
    }
}

/// Parses the result of an operation in a COMPOUND reply at `pos` and gives
/// it with the offset behind it; `None` where the octets are no result
/// that is known.
pub fn parse_response_compound_command<'a>(input: &'a [u8], pos: usize) -> (r: Option<
    (Nfs4ResponseContent<'a>, usize),
>)
    ensures
        spec_response_parsed(r, spec_response_op(input@, pos as int)),
{
    let len = input.len();
    let op = match read_u32(input, pos) {
        Some(v) => v,
        None => {
            return None;
        },
    };
    let status = match read_u32(input, pos + 4) {
        Some(v) => v,
        None => {
            return None;
        },
    };
    let at = pos + 8;
    let ok = status == NFS4_OK;
    if op == NFSPROC4_PUTFH {
        Some((Nfs4ResponseContent::PutFH(status), at))
    } else if op == NFSPROC4_PUTROOTFH {
        Some((Nfs4ResponseContent::PutRootFH(status), at))
    } else if op == NFSPROC4_LOOKUP {
        Some((Nfs4ResponseContent::Lookup(status), at))
    } else if op == NFSPROC4_SAVEFH {
        Some((Nfs4ResponseContent::SaveFH(status), at))
    } else if op == NFSPROC4_RENEW {
        Some((Nfs4ResponseContent::Renew(status), at))
    } else if op == NFSPROC4_DELEGRETURN {
        Some((Nfs4ResponseContent::DelegReturn(status), at))
    } else if op == NFSPROC4_SETCLIENTID_CONFIRM {
        Some((Nfs4ResponseContent::SetClientIdConfirm(status), at))
    } else if op == NFSPROC4_GETFH {
        if !ok {
            Some((Nfs4ResponseContent::GetFH(status, None), at))
        } else {
            let handle_len = read_u32(input, at);
            match read_opaque(input, at) {
                Some((value, next)) => Some(
                    (
                        Nfs4ResponseContent::GetFH(
                            status,
                            Some(
                                Nfs4Handle {
                                    len: match handle_len {
                                        Some(v) => v,
                                        None => 0,
                                    },
                                    value,
                                },
                            ),
                        ),
                        next,
                    ),
                ),
                None => None,
            }
        }
    } else if op == NFSPROC4_RENAME {
        match nfs4_res_fixed(input, at, status, 40) {
            Some(next) => Some((Nfs4ResponseContent::Rename(status), next)),
            None => None,
        }
    } else if op == NFSPROC4_REMOVE {
        match nfs4_res_fixed(input, at, status, 20) {
            Some(next) => Some((Nfs4ResponseContent::Remove(status), next)),
            None => None,
        }
    } else if op == NFSPROC4_COMMIT {
        match nfs4_res_fixed(input, at, status, 8) {
            Some(next) => Some((Nfs4ResponseContent::Commit(status), next)),
            None => None,
        }
    } else if op == NFSPROC4_CREATE {
        if !ok {
            Some((Nfs4ResponseContent::Create(status), at))
        } else {
            match advance(input, at, 20) {
                Some(at_bits) => match nfs4_parse_attrbits(input, at_bits) {
                    Some((_, next)) => Some((Nfs4ResponseContent::Create(status), next)),
                    None => None,
                },
                None => None,
            }
        }
    } else if op == NFSPROC4_WRITE {
        if !ok {
            Some((Nfs4ResponseContent::Write(status, None), at))
        } else {
            match advance(input, at, 16) {
                Some(next) => {
                    let count = match read_u32(input, at) {
                        Some(v) => v,
                        None => 0,
                    };
                    let committed = match read_u32(input, at + 4) {
                        Some(v) => v,
                        None => 0,
                    };
                    Some(
                        (
                            Nfs4ResponseContent::Write(
                                status,
                                Some(Nfs4ResponseWrite { count, committed }),
                            ),
                            next,
                        ),
                    )
                },
                None => None,
            }
        }
    } else if op == NFSPROC4_READ {
        if !ok {
            Some((Nfs4ResponseContent::Read(status, None), at))
        } else {
            let eof = match read_u32(input, at) {
                Some(v) => v,
                None => {
                    return None;
                },
            };
            let count = read_u32(input, at + 4);
            match read_opaque(input, at + 4) {
                Some((data, next)) => Some(
                    (
                        Nfs4ResponseContent::Read(
                            status,
                            Some(
                                Nfs4ResponseRead {
                                    eof: eof != 0,
                                    count: match count {
                                        Some(v) => v,
                                        None => 0,
                                    },
                                    data,
                                },
                            ),
                        ),
                        next,
                    ),
                ),
                None => None,
            }
        }
    } else if op == NFSPROC4_OPEN {
        if !ok {
            Some((Nfs4ResponseContent::Open(status, None), at))
        } else {
            match nfs4_res_open_ok(input, at) {
                Some((open, next)) => Some((Nfs4ResponseContent::Open(status, Some(open)), next)),
                None => None,
            }
        }
    } else if op == NFSPROC4_OPEN_CONFIRM {
        if !ok {
            Some((Nfs4ResponseContent::OpenConfirm(status, None), at))
        } else {
            match nfs4_parse_stateid(input, at) {
                Some((id, next)) => Some(
                    (Nfs4ResponseContent::OpenConfirm(status, Some(id)), next),
                ),
                None => None,
            }
        }
    } else if op == NFSPROC4_CLOSE {
        if !ok {
            Some((Nfs4ResponseContent::Close(status, None), at))
        } else {
            match nfs4_parse_stateid(input, at) {
                Some((id, next)) => Some((Nfs4ResponseContent::Close(status, Some(id)), next)),
                None => None,
            }
        }
    } else if op == NFSPROC4_GETATTR {
        if !ok {
            Some((Nfs4ResponseContent::GetAttr(status, None), at))
        } else {
            match nfs4_parse_attrs(input, at) {
                Some((attr, next)) => Some(
                    (Nfs4ResponseContent::GetAttr(status, Some(attr)), next),
                ),
                None => None,
            }
        }
    } else if op == NFSPROC4_SETATTR {
        match nfs4_parse_attrbits(input, at) {
            Some((_, next)) => Some((Nfs4ResponseContent::SetAttr(status), next)),
            None => None,
        }
    } else if op == NFSPROC4_ACCESS {
        if !ok {
            Some((Nfs4ResponseContent::Access(status, None), at))
        } else {
            match advance(input, at, 8) {
                Some(next) => {
                    let supported_types = match read_u32(input, at) {
                        Some(v) => v,
                        None => 0,
                    };
                    let access_rights = match read_u32(input, at + 4) {
                        Some(v) => v,
                        None => 0,
                    };
                    Some(
                        (
                            Nfs4ResponseContent::Access(
                                status,
                                Some(Nfs4ResponseAccess { supported_types, access_rights }),
                            ),
                            next,
                        ),
                    )
                },
                None => None,
            }
        }
    } else if op == NFSPROC4_READDIR {
        if !ok {
            Some((Nfs4ResponseContent::ReadDir(status, None), at))
        } else {
            match nfs4_res_readdir_ok(input, at) {
                Some((dir, next)) => Some((Nfs4ResponseContent::ReadDir(status, Some(dir)), next)),
                None => None,
            }
        }
    } else if op == NFSPROC4_SETCLIENTID {
        if ok {
            match advance(input, at, 16) {
                Some(next) => Some((Nfs4ResponseContent::SetClientId(status), next)),
                None => None,
            }
        } else if status == NFS4ERR_CLID_INUSE {
            match read_opaque(input, at) {
                Some((_, at_addr)) => match read_opaque(input, at_addr) {
                    Some((_, next)) => Some((Nfs4ResponseContent::SetClientId(status), next)),
                    None => None,
                },
                None => None,
            }
        } else {
            Some((Nfs4ResponseContent::SetClientId(status), at))
        }
    } else {
        None
    }
}

/// Parses a COMPOUND reply: the status, the tag, and as many results as
/// the reply announces.
pub fn parse_nfs4_response_compound<'a>(input: &'a [u8]) -> (r: Option<
    Nfs4ResponseCompoundRecord<'a>,
>)
    ensures
        match spec_response_compound(input@) {
            Some((status, ops)) => r.is_some() && r.unwrap().status == status && responses_view(
                r.unwrap().commands@,
            ) == ops,
            None => r.is_none(),
        },
{
    let len = input.len();
    let status = match read_u32(input, 0) {
        Some(v) => v,
        None => {
            return None;
        },
    };
    let at_count = match read_opaque(input, 4) {
        Some((_, at)) => at,
        None => {
            return None;
        },
    };
    let count = match read_u32(input, at_count) {
        Some(v) => v,
        None => {
            return None;
        },
    };
    let mut commands: Vec<Nfs4ResponseContent<'a>> = Vec::new();
    let mut at: usize = at_count + 4;
    let mut i: u32 = 0;
    assert(responses_view(commands@) =~= Seq::empty());
    while i < count
        invariant
            i <= count,
            spec_response_compound(input@) == (match spec_response_ops_from(
                input@,
                at_count + 4,
                count as nat,
                Seq::empty(),
            ) {
                Some((ops, _)) => Some((status, ops)),
                None => None,
            }),
            spec_response_ops_from(input@, at_count + 4, count as nat, Seq::empty())
                == spec_response_ops_from(
                input@,
                at as int,
                (count - i) as nat,
                responses_view(commands@),
            ),
        decreases count - i,
    {
        match parse_response_compound_command(input, at) {
            Some((op, next)) => {
                assert(responses_view(commands@.push(op)) =~= responses_view(commands@).push(
                    op@,
                ));
                commands.push(op);
                at = next;
            },
            None => {
                return None;
            },
        }
        i += 1;
    }
    Some(Nfs4ResponseCompoundRecord { status, commands })
}

} // verus!
