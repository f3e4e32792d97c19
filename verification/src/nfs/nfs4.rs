//! What the operations of NFSv4 COMPOUND calls and replies do to the state
//! of a flow.

use vstd::prelude::*;

use crate::bytes::to_vec;
use crate::nfs::filetracker::{spec_accepted, FileTransferTracker};
use crate::nfs::nfs::{
    spec_count_up, spec_file_tx_index, spec_name_insert, spec_name_of, spec_request_index,
    spec_request_insert,
    NFSEvent, NFSRequestXidMap, NFSState, NFSTransactionFile, NFSTransactionTypeData,
    NfsReplyRead, StateView, TransactionView, TypeDataView, XidMapView,
};
use crate::nfs::nfs4_records::{
    parse_nfs4_request_compound, parse_nfs4_response_compound, requests_view, responses_view,
    spec_request_compound, spec_response_compound, Nfs4RequestCompoundRecord, Nfs4RequestContent,
    Nfs4RequestWrite, Nfs4ResponseCompoundRecord, Nfs4ResponseContent, RequestContentView,
    RequestWriteView, ResponseContentView,
};
use crate::nfs::rpc_records::{
    parse_rpc_gssapi_integrity, spec_gssapi_integrity, RpcPacket, RpcReplyPacket,
    RpcRequestCreds,
};
use crate::nfs::types::{
    NFS4_FILE_SYNC, NFS4_OK, NFSPROC3_READ, NFSPROC4_COMPOUND, NFSPROC4_CREATE, NFSPROC4_PUTFH,
    NFSPROC4_READ, NFSPROC4_REMOVE, NFSPROC4_WRITE, RPCSEC_GSS_DATA, RPCSEC_GSS_SVC_INTEGRITY,
};
use crate::nfs::xdr::{fill, spec_fill};
use crate::stream::{STREAM_TOCLIENT, STREAM_TOSERVER};

verus! {

/// The version of the protocol as a transaction records it.
pub open spec fn spec_version(progver: u32) -> u16 {
    (progver % 0x1_0000) as u16
}

/// The name known for `handle`, empty where none is known.
pub open spec fn spec_name_or_empty(state: StateView, handle: Seq<u8>) -> Seq<u8> {
    match spec_name_of(state.namemap, handle) {
        Some(name) => name,
        None => Seq::empty(),
    }
}

impl StateView {
    /// The state after a WRITE of the call `xid` to the file `fh`.
    ///
    /// The data goes to the open transfer for `fh` towards the server, which
    /// counts one more chunk; where there is none, a file transaction is made
    /// for it, marked as the first of the transfer, unless the identifiers
    /// have run out. A write that is to be stable when it returns is the last
    /// of its transfer and ends the transaction. In either case the flow
    /// remembers the call and how much of the announced length the record did
    /// not carry.
    pub open spec fn after_write(self, xid: u32, progver: u32, w: RequestWriteView, fh: Seq<u8>)
        -> StateView {
        let is_last = w.stable == NFS4_FILE_SYNC;
        let fill_bytes = spec_fill(w.write_len as int) as u8;
        let name = spec_name_or_empty(self, fh);
        let at = spec_file_tx_index(self.transactions, fh, STREAM_TOSERVER);
        let chunked = if at < self.transactions.len() {
            let tx = self.transactions[at];
            match tx.file() {
                Some(tdf) => StateView {
                    files_ts: tdf.file_tracker.files_after_chunk(
                        self.files_ts,
                        name,
                        w.data,
                        w.offset,
                        w.write_len,
                        is_last,
                    ),
                    transactions: self.transactions.update(
                        at,
                        TransactionView {
                            type_data: Some(
                                TypeDataView::FILE(
                                    NFSTransactionFile {
                                        chunk_count: spec_count_up(tdf.chunk_count),
                                        file_last_xid: if is_last {
                                            xid
                                        } else {
                                            tdf.file_last_xid
                                        },
                                        file_tracker: tdf.file_tracker.after_chunk(
                                            self.files_ts,
                                            w.data,
                                            w.offset,
                                            w.write_len,
                                            fill_bytes,
                                            is_last,
                                        ),
                                    },
                                ),
                            ),
                            is_last: tx.is_last || is_last,
                            response_done: tx.response_done || is_last,
                            ..tx
                        },
                    ),
                    ..self
                },
                None => self,
            }
        } else if self.tx_id < u64::MAX {
            let tracker = FileTransferTracker::spec_new();
            StateView {
                tx_id: (self.tx_id + 1) as u64,
                files_ts: tracker.files_after_chunk(
                    self.files_ts,
                    name,
                    w.data,
                    w.offset,
                    w.write_len,
                    is_last,
                ),
                transactions: self.transactions.push(
                    TransactionView {
                        type_data: Some(
                            TypeDataView::FILE(
                                NFSTransactionFile {
                                    chunk_count: 0,
                                    file_last_xid: if is_last {
                                        xid
                                    } else {
                                        0
                                    },
                                    file_tracker: tracker.after_chunk(
                                        self.files_ts,
                                        w.data,
                                        w.offset,
                                        w.write_len,
                                        fill_bytes,
                                        is_last,
                                    ),
                                },
                            ),
                        ),
                        procedure: NFSPROC4_WRITE,
                        xid,
                        is_first: true,
                        nfs_version: spec_version(progver),
                        is_last,
                        request_done: is_last,
                        ..self.new_file_transaction(fh, name, STREAM_TOSERVER)
                    },
                ),
                ..self
            }
        } else {
            self
        };
        StateView {
            ts_chunk_xid: xid,
            ts_chunk_left: (w.write_len - spec_accepted(w.data.len() as int, w.write_len)) as u32,
            ..chunked
        }
    }

    /// The state after a COMMIT of the call `xid` for the file `fh`: the
    /// open transfer for `fh` towards the server, if there is one, is
    /// closed, and its transaction is at its last chunk and done as a
    /// request.
    pub open spec fn after_commit(self, xid: u32, fh: Seq<u8>) -> StateView {
        let at = spec_file_tx_index(self.transactions, fh, STREAM_TOSERVER);
        if at < self.transactions.len() {
            let tx = self.transactions[at];
            match tx.file() {
                Some(tdf) => StateView {
                    files_ts: tdf.file_tracker.files_after_close(self.files_ts),
                    transactions: self.transactions.update(
                        at,
                        TransactionView {
                            type_data: Some(
                                TypeDataView::FILE(
                                    NFSTransactionFile {
                                        file_last_xid: xid,
                                        file_tracker: tdf.file_tracker.after_close(),
                                        ..tdf
                                    },
                                ),
                            ),
                            is_last: true,
                            request_done: true,
                            ..tx
                        },
                    ),
                    ..self
                },
                None => self,
            }
        } else {
            self
        }
    }

    /// The state after the call `r`, whose main operation is `procedure`,
    /// got its transaction: one that is done as a request and holds what
    /// `xidmap` and the credentials of the call tell. Nothing is added
    /// where the identifiers have run out.
    pub open spec fn after_new_tx_v4(self, r: RpcPacket, xidmap: XidMapView, procedure: u32)
        -> StateView {
        if self.tx_id == u64::MAX {
            self
        } else {
            let plain = TransactionView {
                id: (self.tx_id + 1) as u64,
                xid: r.hdr.xid,
                procedure,
                request_done: true,
                file_name: xidmap.file_name,
                nfs_version: spec_version(r.progver),
                file_handle: xidmap.file_handle,
                auth_type: r.creds_flavor,
                ..TransactionView::empty()
            };
            StateView {
                tx_id: (self.tx_id + 1) as u64,
                transactions: self.transactions.push(
                    match r.creds {
                        RpcRequestCreds::Unix(u) => TransactionView {
                            request_machine_name: u.machine_name_buf@,
                            request_uid: u.uid,
                            request_gid: u.gid,
                            ..plain
                        },
                        _ => plain,
                    },
                ),
                ..self
            }
        }
    }
}

impl NFSState {
    /// The file part of the transaction at `at`, if it has one.
    fn file_of(&self, at: usize) -> (tdf: Option<NFSTransactionFile>)
        requires
            at < self.transactions@.len(),
        ensures
            tdf == self@.transactions[at as int].file(),
    {
        match &self.transactions[at].type_data {
            Some(NFSTransactionTypeData::FILE(tdf)) => Some(*tdf),
            _ => None,
        }
    }

    /// Handles a WRITE: the file handle is no part of the write record, so
    /// it is passed in from the PUTFH before it.
    ///
    /// What the record carries of the file and what is left for data that
    /// follows it add up to the length that the WRITE announces.
    pub fn write_v4(&mut self, r: &RpcPacket, w: &Nfs4RequestWrite, fh: &[u8])
        ensures
            final(self)@ == old(self)@.after_write(r.hdr.xid, r.progver, w@, fh@),
            final(self)@.ts_chunk_left + spec_accepted(w.data@.len() as int, w.write_len)
                == w.write_len,
            final(self)@.ts_chunk_xid == r.hdr.xid,
    {
        // for now assume that stable FILE_SYNC flags means a single chunk
        let is_last = w.stable == NFS4_FILE_SYNC;
        let fill_bytes = fill(w.write_len) as u8;
        let xid = r.hdr.xid;
        let file_name = match self.name_of(fh) {
            Some(name) => name,
            None => Vec::new(),
        };
        let at = self.get_file_tx_by_handle(fh, STREAM_TOSERVER);
        if at < self.transactions.len() {
            match self.file_of(at) {
                Some(tdf) => {
                    let mut tracker = tdf.file_tracker;
                    tracker.new_chunk(
                        &mut self.files.files_ts,
                        file_name.as_slice(),
                        w.data,
                        w.offset,
                        w.write_len,
                        fill_bytes,
                        is_last,
                    );
                    let counted = if tdf.chunk_count < u32::MAX {
                        tdf.chunk_count + 1
                    } else {
                        tdf.chunk_count
                    };
                    let file = NFSTransactionFile {
                        chunk_count: counted,
                        file_last_xid: if is_last {
                            xid
                        } else {
                            tdf.file_last_xid
                        },
                        file_tracker: tracker,
                    };
                    self.transactions[at].type_data = Some(NFSTransactionTypeData::FILE(file));
                    if is_last {
                        self.transactions[at].is_last = true;
                        self.transactions[at].response_done = true;
                    }
                    assert(self@.transactions =~= old(self)@.after_write(
                        r.hdr.xid,
                        r.progver,
                        w@,
                        fh@,
                    ).transactions);
                },
                None => {},
            }
        } else if self.tx_id < u64::MAX {
            let at = self.new_file_tx(fh, file_name.as_slice(), STREAM_TOSERVER);
            assert(self.transactions@.len() == self@.transactions.len());
            let ghost made = self@.transactions;
            let ghost made_raw = self.transactions@;
            assert(made[at as int] == old(self)@.new_file_transaction(
                fh@,
                file_name@,
                STREAM_TOSERVER,
            ));
            let mut tracker = FileTransferTracker::new();
            tracker.new_chunk(
                &mut self.files.files_ts,
                file_name.as_slice(),
                w.data,
                w.offset,
                w.write_len,
                fill_bytes,
                is_last,
            );
            let file = NFSTransactionFile {
                chunk_count: 0,
                file_last_xid: if is_last {
                    xid
                } else {
                    0
                },
                file_tracker: tracker,
            };
            self.transactions[at].type_data = Some(NFSTransactionTypeData::FILE(file));
            self.transactions[at].procedure = NFSPROC4_WRITE;
            self.transactions[at].xid = xid;
            self.transactions[at].is_first = true;
            self.transactions[at].nfs_version = (r.progver % 0x1_0000) as u16;
            if is_last {
                self.transactions[at].is_last = true;
                self.transactions[at].request_done = true;
            }
            assert(self@.transactions.len() == made.len());
            assert(self@.transactions[at as int] == (TransactionView {
                type_data: Some(TypeDataView::FILE(file)),
                procedure: NFSPROC4_WRITE,
                xid,
                is_first: true,
                nfs_version: spec_version(r.progver),
                is_last,
                request_done: is_last,
                ..made[at as int]
            }));
            let ghost want = old(self)@.after_write(r.hdr.xid, r.progver, w@, fh@).transactions;
            assert(want.len() == made.len());
            assert(want[at as int].type_data == Some(TypeDataView::FILE(file)));
            assert(want[at as int] == self@.transactions[at as int]);
            assert forall|j: int| 0 <= j < at implies want[j] == self@.transactions[j] by {
                assert(self.transactions@[j] == made_raw[j]);
                assert(made[j] == made_raw[j]@);
            }
            assert(self@.transactions =~= old(self)@.after_write(
                r.hdr.xid,
                r.progver,
                w@,
                fh@,
            ).transactions);
        }
        let carried: u32 = if w.data.len() < w.write_len as usize {
            w.data.len() as u32
        } else {
            w.write_len
        };
        self.ts_chunk_xid = xid;
        self.ts_chunk_left = w.write_len - carried;
    }

    /// Handles a COMMIT for the file `fh`: the transfer is at its end.
    pub fn commit_v4(&mut self, r: &RpcPacket, fh: &[u8])
        ensures
            final(self)@ == old(self)@.after_commit(r.hdr.xid, fh@),
    {
        let at = self.get_file_tx_by_handle(fh, STREAM_TOSERVER);
        if at < self.transactions.len() {
            match self.file_of(at) {
                Some(tdf) => {
                    let mut tracker = tdf.file_tracker;
                    tracker.close(&mut self.files.files_ts);
                    let file = NFSTransactionFile {
                        file_last_xid: r.hdr.xid,
                        file_tracker: tracker,
                        ..tdf
                    };
                    self.transactions[at].type_data = Some(NFSTransactionTypeData::FILE(file));
                    self.transactions[at].is_last = true;
                    self.transactions[at].request_done = true;
                    assert(self@.transactions =~= old(self)@.after_commit(
                        r.hdr.xid,
                        fh@,
                    ).transactions);
                },
                None => {},
            }
        }
    }

    /// Makes the transaction of a call whose main operation is `procedure`.
    pub fn new_tx_v4(
        &mut self,
        r: &RpcPacket,
        xidmap: &NFSRequestXidMap,
        procedure: u32,
        _aux_opcodes: &Vec<u32>,
    )
        ensures
            final(self)@ == old(self)@.after_new_tx_v4(*r, xidmap@, procedure),
    {
        if self.tx_id == u64::MAX {
            return ;
        }
        let mut tx = self.new_tx();
        tx.xid = r.hdr.xid;
        tx.procedure = procedure;
        tx.request_done = true;
        tx.file_name = to_vec(xidmap.file_name.as_slice());
        tx.nfs_version = (r.progver % 0x1_0000) as u16;
        tx.file_handle = to_vec(xidmap.file_handle.as_slice());
        tx.auth_type = r.creds_flavor;
        match r.creds {
            RpcRequestCreds::Unix(u) => {
                tx.request_machine_name = to_vec(u.machine_name_buf);
                tx.request_uid = u.uid;
                tx.request_gid = u.gid;
            },
            _ => {},
        }
        self.push_tx(tx);
    }
}

/// What the dissection of a call has gathered so far: what is kept for the
/// reply, the file handle of the last PUTFH, the main operation (zero
/// while there is none) and the other operations noted.
pub struct RequestContext {
    pub xidmap: XidMapView,
    pub last_putfh: Option<Seq<u8>>,
    pub main_opcode: u32,
    pub aux_opcodes: Seq<u32>,
}

/// What one operation of the call `r` does to the state and to what the
/// dissection has gathered.
///
/// PUTFH sets the current file handle. OPEN and LOOKUP name the file of the
/// call. READ, with a current file handle, makes it the file of the call,
/// notes the offset and looks the name up. WRITE and COMMIT, with a current
/// file handle, act on the file transfer. CREATE and REMOVE name the file
/// and become the main operation. Every other operation changes nothing.
pub open spec fn spec_request_step(
    state: StateView,
    ctx: RequestContext,
    r: RpcPacket,
    cmd: RequestContentView,
) -> (StateView, RequestContext) {
    match cmd {
        RequestContentView::PutFH(handle) => (
            state,
            RequestContext {
                last_putfh: Some(handle),
                aux_opcodes: ctx.aux_opcodes.push(NFSPROC4_PUTFH),
                ..ctx
            },
        ),
        RequestContentView::Read { stateid, offset, count } => match ctx.last_putfh {
            Some(fh) => (
                state,
                RequestContext {
                    xidmap: XidMapView {
                        chunk_offset: offset,
                        file_handle: fh,
                        file_name: match spec_name_of(state.namemap, fh) {
                            Some(name) => name,
                            None => ctx.xidmap.file_name,
                        },
                        ..ctx.xidmap
                    },
                    ..ctx
                },
            ),
            None => (state, ctx),
        },
        RequestContentView::Open { open_type, filename } => (
            state,
            RequestContext { xidmap: XidMapView { file_name: filename, ..ctx.xidmap }, ..ctx },
        ),
        RequestContentView::Lookup(filename) => (
            state,
            RequestContext { xidmap: XidMapView { file_name: filename, ..ctx.xidmap }, ..ctx },
        ),
        RequestContentView::Write(w) => match ctx.last_putfh {
            Some(fh) => (state.after_write(r.hdr.xid, r.progver, w, fh), ctx),
            None => (state, ctx),
        },
        RequestContentView::Commit => match ctx.last_putfh {
            Some(fh) => (state.after_commit(r.hdr.xid, fh), ctx),
            None => (state, ctx),
        },
        RequestContentView::Create { ftype4, filename, link_content } => (
            state,
            RequestContext {
                xidmap: XidMapView {
                    file_handle: match ctx.last_putfh {
                        Some(fh) => fh,
                        None => ctx.xidmap.file_handle,
                    },
                    file_name: filename,
                    ..ctx.xidmap
                },
                main_opcode: NFSPROC4_CREATE,
                ..ctx
            },
        ),
        RequestContentView::Remove(filename) => (
            state,
            RequestContext {
                xidmap: XidMapView { file_name: filename, ..ctx.xidmap },
                main_opcode: NFSPROC4_REMOVE,
                ..ctx
            },
        ),
        _ => (state, ctx),
    }
}

/// What the operations `cmds` of the call `r` do, one after the other.
pub open spec fn spec_request_steps(
    state: StateView,
    ctx: RequestContext,
    r: RpcPacket,
    cmds: Seq<RequestContentView>,
) -> (StateView, RequestContext)
    decreases cmds.len(),
{
    if cmds.len() == 0 {
        (state, ctx)
    } else {
        let next = spec_request_step(state, ctx, r, cmds[0]);
        spec_request_steps(next.0, next.1, r, cmds.drop_first())
    }
}

impl StateView {
    /// The state, and what is kept for the reply, after the operations
    /// `cmds` of the call `r`: each operation acts in turn, and then the
    /// call gets a transaction if one of its operations is a main one.
    pub open spec fn after_compound_request(
        self,
        r: RpcPacket,
        cmds: Seq<RequestContentView>,
        xidmap: XidMapView,
    ) -> (StateView, XidMapView) {
        let done = spec_request_steps(
            self,
            RequestContext {
                xidmap,
                last_putfh: None,
                main_opcode: 0,
                aux_opcodes: Seq::empty(),
            },
            r,
            cmds,
        );
        if done.1.main_opcode != 0 {
            (done.0.after_new_tx_v4(r, done.1.xidmap, done.1.main_opcode), done.1.xidmap)
        } else {
            (done.0, done.1.xidmap)
        }
    }

    /// The state after the call `r` was dissected.
    ///
    /// A COMPOUND call is unwrapped first if its credentials ask for
    /// integrity protection; if that fails `MalformedData` is raised and the
    /// call is forgotten. Its operations then act as
    /// [`StateView::after_compound_request`] says, or `MalformedData` is
    /// raised where they do not parse. What is kept of the call waits under
    /// its XID for the reply. A call of another procedure only waits.
    pub open spec fn after_request_record_v4(self, r: RpcPacket) -> StateView {
        let fresh = XidMapView::spec_new(r.progver, r.procedure, 0);
        if r.procedure != NFSPROC4_COMPOUND {
            StateView {
                requestmap: spec_request_insert(self.requestmap, r.hdr.xid, fresh),
                ..self
            }
        } else {
            match spec_unwrapped(r) {
                Some((data, xidmap)) => {
                    let done = match spec_request_compound(data) {
                        Some(cmds) => self.after_compound_request(r, cmds, xidmap),
                        None => (self.with_event(NFSEvent::MalformedData), xidmap),
                    };
                    StateView {
                        requestmap: spec_request_insert(done.0.requestmap, r.hdr.xid, done.1),
                        ..done.0
                    }
                },
                None => self.with_event(NFSEvent::MalformedData),
            }
        }
    }
}

/// Whether credentials ask for RPCSEC_GSS integrity protection of the data.
pub open spec fn spec_wants_integrity(gssapi_proc: u32, gssapi_service: u32) -> bool {
    gssapi_proc == RPCSEC_GSS_DATA && gssapi_service == RPCSEC_GSS_SVC_INTEGRITY
}

/// The program data of the call `r` with the integrity wrapper taken off, if
/// the credentials ask for one, and what is kept of the call to begin with.
/// `None` where the wrapper does not parse.
pub open spec fn spec_unwrapped(r: RpcPacket) -> Option<(Seq<u8>, XidMapView)> {
    let fresh = XidMapView::spec_new(r.progver, r.procedure, 0);
    match r.creds {
        RpcRequestCreds::GssApi(creds) => if spec_wants_integrity(creds.procedure, creds.service) {
            match spec_gssapi_integrity(r.prog_data@) {
                Some((_, data)) => Some(
                    (
                        data,
                        XidMapView {
                            gssapi_proc: creds.procedure,
                            gssapi_service: creds.service,
                            ..fresh
                        },
                    ),
                ),
                None => None,
            }
        } else {
            Some((r.prog_data@, fresh))
        },
        _ => Some((r.prog_data@, fresh)),
    }
}

/// The file handle that a dissection holds as the current one.
pub open spec fn spec_putfh_view(last_putfh: Option<&[u8]>) -> Option<Seq<u8>> {
    match last_putfh {
        Some(fh) => Some(fh@),
        None => None,
    }
}

impl NFSState {
    /// Dissects the operations of a COMPOUND call. A READ, WRITE or COMMIT
    /// acts on the file of the PUTFH before it.
    pub fn compound_request<'b>(
        &mut self,
        r: &RpcPacket<'b>,
        cr: &Nfs4RequestCompoundRecord<'b>,
        xidmap: &mut NFSRequestXidMap,
    )
        ensures
            (final(self)@, final(xidmap)@) == old(self)@.after_compound_request(
                *r,
                requests_view(cr.commands@),
                old(xidmap)@,
            ),
    {
        let mut last_putfh: Option<&'b [u8]> = None;
        let mut main_opcode: u32 = 0;
        let mut aux_opcodes: Vec<u32> = Vec::new();
        let ghost cmds = requests_view(cr.commands@);
        let ghost start = RequestContext {
            xidmap: old(xidmap)@,
            last_putfh: None,
            main_opcode: 0,
            aux_opcodes: Seq::empty(),
        };
        let count = cr.commands.len();
        let mut i: usize = 0;
        assert(cmds.skip(0) =~= cmds);
        while i < count
            invariant
                i <= count,
                count == cr.commands@.len(),
                cmds == requests_view(cr.commands@),
                spec_request_steps(old(self)@, start, *r, cmds) == spec_request_steps(
                    self@,
                    RequestContext {
                        xidmap: xidmap@,
                        last_putfh: spec_putfh_view(last_putfh),
                        main_opcode,
                        aux_opcodes: aux_opcodes@,
                    },
                    *r,
                    cmds.skip(i as int),
                ),
            decreases count - i,
        {
            let ghost rest = cmds.skip(i as int);
            assert(rest[0] == cr.commands@[i as int]@);
            assert(rest.drop_first() =~= cmds.skip(i + 1));
            let c = cr.commands[i];
            match c {
                Nfs4RequestContent::PutFH(rd) => {
                    last_putfh = Some(rd.value);
                    aux_opcodes.push(NFSPROC4_PUTFH);
                },
                Nfs4RequestContent::Read(rd) => {
                    if let Some(fh) = last_putfh {
                        xidmap.chunk_offset = rd.offset;
                        xidmap.file_handle = to_vec(fh);
                        self.xidmap_handle2name(xidmap);
                    }
                },
                Nfs4RequestContent::Open(rd) => {
                    xidmap.file_name = to_vec(rd.filename);
                },
                Nfs4RequestContent::Lookup(rd) => {
                    xidmap.file_name = to_vec(rd.filename);
                },
                Nfs4RequestContent::Write(rd) => {
                    if let Some(fh) = last_putfh {
                        self.write_v4(r, &rd, fh);
                    }
                },
                Nfs4RequestContent::Commit => {
                    if let Some(fh) = last_putfh {
                        self.commit_v4(r, fh);
                    }
                },
                Nfs4RequestContent::Create(rd) => {
                    if let Some(fh) = last_putfh {
                        xidmap.file_handle = to_vec(fh);
                    }
                    xidmap.file_name = to_vec(rd.filename);
                    main_opcode = NFSPROC4_CREATE;
                },
                Nfs4RequestContent::Remove(rd) => {
                    xidmap.file_name = to_vec(rd);
                    main_opcode = NFSPROC4_REMOVE;
                },
                _ => {},
            }
            i += 1;
        }
        if main_opcode != 0 {
            self.new_tx_v4(r, xidmap, main_opcode, &aux_opcodes);
        }
    }

    /// Takes a whole call: dissects it if it is a COMPOUND and keeps what
    /// the reply will need under the XID of the call. Returns zero.
    pub fn process_request_record_v4<'b>(&mut self, r: &RpcPacket<'b>) -> (status: u32)
        ensures
            final(self)@ == old(self)@.after_request_record_v4(*r),
            status == 0,
    {
        let mut xidmap = NFSRequestXidMap::new(r.progver, r.procedure, 0);
        if r.procedure == NFSPROC4_COMPOUND {
            let mut data = r.prog_data;
            if let RpcRequestCreds::GssApi(creds) = r.creds {
                if creds.procedure == RPCSEC_GSS_DATA && creds.service
                    == RPCSEC_GSS_SVC_INTEGRITY {
                    match parse_rpc_gssapi_integrity(r.prog_data) {
                        Some(rec) => {
                            data = rec.data;
                            // store proc and serv for the reply
                            xidmap.gssapi_proc = creds.procedure;
                            xidmap.gssapi_service = creds.service;
                        },
                        None => {
                            self.set_event(NFSEvent::MalformedData);
                            return 0;
                        },
                    }
                }
            }
            match parse_nfs4_request_compound(data) {
                Some(rd) => {
                    self.compound_request(r, &rd, &mut xidmap);
                },
                None => {
                    self.set_event(NFSEvent::MalformedData);
                },
            }
        }
        self.insert_request(r.hdr.xid, xidmap);
        0
    }
}

/// What a READ reply leaves to come of its data on the stream: the
/// announced `count` with its padding less the `have` octets that the reply
/// carries, within the range of the counter.
pub open spec fn spec_read_left(count: u32, have: int) -> u32 {
    let want = count + spec_fill(count as int) - have;
    if want < 0 {
        0
    } else if want > u32::MAX {
        u32::MAX
    } else {
        want as u32
    }
}

/// The name given to the root of the export.
pub open spec fn spec_mount_root() -> Seq<u8> {
    seq![0x3cu8, 0x6d, 0x6f, 0x75, 0x6e, 0x74, 0x5f, 0x72, 0x6f, 0x6f, 0x74, 0x3e]
}

/// What the dissection of a reply has gathered so far: what was kept of the
/// call, whether a GETFH is to bind the file name to its handle, and the
/// status of the main operation if there was one.
pub struct ResponseContext {
    pub xidmap: XidMapView,
    pub insert_filename_with_getfh: bool,
    pub main_opcode_status: u32,
    pub main_opcode_status_set: bool,
}

impl StateView {
    /// The state after READ data of the reply `xid` arrived for the call
    /// that `xidmap` describes.
    ///
    /// The data goes to the open transfer for the file of the call towards
    /// the client, which counts one more chunk; where there is none, a file
    /// transaction is made for it, marked as the first of the transfer,
    /// unless the identifiers have run out. Data that reaches the end of the
    /// file is the last of its transfer: the transaction gets the status
    /// codes and is done, as a response only if the reply carries all the
    /// data that it announces. Over a stream the flow remembers the reply and
    /// how much of its data is still to come.
    pub open spec fn after_read(
        self,
        xid: u32,
        reply_state: u32,
        status: u32,
        count: u32,
        eof: bool,
        data: Seq<u8>,
        xidmap: XidMapView,
    ) -> StateView {
        let fill_bytes = spec_fill(count as int) as u8;
        let whole = eof && data.len() >= count;
        let at = spec_file_tx_index(self.transactions, xidmap.file_handle, STREAM_TOCLIENT);
        let chunked = if at < self.transactions.len() {
            let tx = self.transactions[at];
            match tx.file() {
                Some(tdf) => StateView {
                    files_tc: tdf.file_tracker.files_after_chunk(
                        self.files_tc,
                        xidmap.file_name,
                        data,
                        xidmap.chunk_offset,
                        count,
                        eof,
                    ),
                    transactions: self.transactions.update(
                        at,
                        TransactionView {
                            type_data: Some(
                                TypeDataView::FILE(
                                    NFSTransactionFile {
                                        chunk_count: spec_count_up(tdf.chunk_count),
                                        file_last_xid: if eof {
                                            xid
                                        } else {
                                            tdf.file_last_xid
                                        },
                                        file_tracker: tdf.file_tracker.after_chunk(
                                            self.files_tc,
                                            data,
                                            xidmap.chunk_offset,
                                            count,
                                            fill_bytes,
                                            eof,
                                        ),
                                    },
                                ),
                            ),
                            rpc_response_status: if eof {
                                reply_state
                            } else {
                                tx.rpc_response_status
                            },
                            nfs_response_status: if eof {
                                status
                            } else {
                                tx.nfs_response_status
                            },
                            is_last: tx.is_last || eof,
                            request_done: tx.request_done || eof,
                            response_done: tx.response_done || whole,
                            ..tx
                        },
                    ),
                    ..self
                },
                None => self,
            }
        } else if self.tx_id < u64::MAX {
            let tracker = FileTransferTracker::spec_new();
            StateView {
                tx_id: (self.tx_id + 1) as u64,
                files_tc: tracker.files_after_chunk(
                    self.files_tc,
                    xidmap.file_name,
                    data,
                    xidmap.chunk_offset,
                    count,
                    eof,
                ),
                transactions: self.transactions.push(
                    TransactionView {
                        type_data: Some(
                            TypeDataView::FILE(
                                NFSTransactionFile {
                                    chunk_count: 0,
                                    file_last_xid: if eof {
                                        xid
                                    } else {
                                        0
                                    },
                                    file_tracker: tracker.after_chunk(
                                        self.files_tc,
                                        data,
                                        xidmap.chunk_offset,
                                        count,
                                        fill_bytes,
                                        eof,
                                    ),
                                },
                            ),
                        ),
                        procedure: if xidmap.progver < 4 {
                            NFSPROC3_READ
                        } else {
                            NFSPROC4_READ
                        },
                        xid,
                        is_first: true,
                        rpc_response_status: if eof {
                            reply_state
                        } else {
                            0
                        },
                        nfs_response_status: if eof {
                            status
                        } else {
                            0
                        },
                        is_last: eof,
                        request_done: eof,
                        response_done: whole,
                        ..self.new_file_transaction(
                            xidmap.file_handle,
                            xidmap.file_name,
                            STREAM_TOCLIENT,
                        )
                    },
                ),
                ..self
            }
        } else {
            self
        };
        if self.is_udp {
            chunked
        } else {
            StateView {
                tc_chunk_xid: xid,
                tc_chunk_left: spec_read_left(count, data.len() as int),
                ..chunked
            }
        }
    }
}

/// What one result of the reply `r` does to the state and to what the
/// dissection has gathered.
///
/// REMOVE and CREATE give the status of the main operation. READ data goes
/// to its file transfer. A successful OPEN lets the GETFH that follows bind
/// the file name of the call to the handle it returns. PUTROOTFH, where it
/// succeeds and the call has no file name, names the file as the root of
/// the export. Every other result changes nothing.
pub open spec fn spec_response_step(
    state: StateView,
    ctx: ResponseContext,
    r: RpcReplyPacket,
    cmd: ResponseContentView,
) -> (StateView, ResponseContext) {
    match cmd {
        ResponseContentView::Remove(status) => (
            state,
            ResponseContext { main_opcode_status: status, main_opcode_status_set: true, ..ctx },
        ),
        ResponseContentView::Create(status) => (
            state,
            ResponseContext { main_opcode_status: status, main_opcode_status_set: true, ..ctx },
        ),
        ResponseContentView::Read(status, Some(rd)) => (
            state.after_read(
                r.hdr.xid,
                r.reply_state,
                status,
                rd.count,
                rd.eof,
                rd.data,
                ctx.xidmap,
            ),
            ctx,
        ),
        ResponseContentView::Open(status, Some(rd)) => (
            state,
            ResponseContext { insert_filename_with_getfh: true, ..ctx },
        ),
        ResponseContentView::GetFH(status, Some(handle)) => if ctx.insert_filename_with_getfh {
            (
                StateView {
                    namemap: spec_name_insert(state.namemap, handle, ctx.xidmap.file_name),
                    ..state
                },
                ctx,
            )
        } else {
            (state, ctx)
        },
        ResponseContentView::PutRootFH(status) => if status == NFS4_OK
            && ctx.xidmap.file_name.len() == 0 {
            (
                state,
                ResponseContext {
                    xidmap: XidMapView { file_name: spec_mount_root(), ..ctx.xidmap },
                    ..ctx
                },
            )
        } else {
            (state, ctx)
        },
        _ => (state, ctx),
    }
}

/// What the results `cmds` of the reply `r` do, one after the other.
pub open spec fn spec_response_steps(
    state: StateView,
    ctx: ResponseContext,
    r: RpcReplyPacket,
    cmds: Seq<ResponseContentView>,
) -> (StateView, ResponseContext)
    decreases cmds.len(),
{
    if cmds.len() == 0 {
        (state, ctx)
    } else {
        let next = spec_response_step(state, ctx, r, cmds[0]);
        spec_response_steps(next.0, next.1, r, cmds.drop_first())
    }
}

impl StateView {
    /// The state, and what is kept of the call, after the results `cmds` of
    /// the reply `r`: each result acts in turn, and then the transaction of
    /// the call is done if one of the results was that of a main operation.
    pub open spec fn after_compound_response(
        self,
        r: RpcReplyPacket,
        cmds: Seq<ResponseContentView>,
        xidmap: XidMapView,
    ) -> (StateView, XidMapView) {
        let done = spec_response_steps(
            self,
            ResponseContext {
                xidmap,
                insert_filename_with_getfh: false,
                main_opcode_status: 0,
                main_opcode_status_set: false,
            },
            r,
            cmds,
        );
        if done.1.main_opcode_status_set {
            (
                done.0.with_response_done(
                    r.hdr.xid,
                    r.reply_state,
                    done.1.main_opcode_status,
                    Seq::empty(),
                ),
                done.1.xidmap,
            )
        } else {
            (done.0, done.1.xidmap)
        }
    }

    /// The state, and what is kept of the call, after the reply `r` to the
    /// call that `xidmap` describes was dissected.
    ///
    /// The reply to a COMPOUND call is unwrapped first if the call asked
    /// for integrity protection; if that fails `MalformedData` is raised. Its
    /// results then act as [`StateView::after_compound_response`] says, or
    /// `MalformedData` is raised where they do not parse. The reply to
    /// another call changes nothing.
    pub open spec fn after_reply_record_v4(self, r: RpcReplyPacket, xidmap: XidMapView) -> (
        StateView,
        XidMapView,
    ) {
        if xidmap.procedure != NFSPROC4_COMPOUND {
            (self, xidmap)
        } else {
            let data = if spec_wants_integrity(xidmap.gssapi_proc, xidmap.gssapi_service) {
                match spec_gssapi_integrity(r.prog_data@) {
                    Some((_, data)) => Some(data),
                    None => None,
                }
            } else {
                Some(r.prog_data@)
            };
            match data {
                Some(data) => match spec_response_compound(data) {
                    Some((_, cmds)) => self.after_compound_response(r, cmds, xidmap),
                    None => (self.with_event(NFSEvent::MalformedData), xidmap),
                },
                None => (self.with_event(NFSEvent::MalformedData), xidmap),
            }
        }
    }
}

impl NFSState {
    /// Takes the data of a READ reply for the call that `xidmap`
    /// describes. Returns zero.
    pub fn process_read_record<'b>(
        &mut self,
        r: &RpcReplyPacket<'b>,
        reply: &NfsReplyRead<'b>,
        xidmap: &NFSRequestXidMap,
    ) -> (status: u32)
        ensures
            final(self)@ == old(self)@.after_read(
                r.hdr.xid,
                r.reply_state,
                reply.status,
                reply.count,
                reply.eof,
                reply.data@,
                xidmap@,
            ),
            status == 0,
    {
        let xid = r.hdr.xid;
        let is_last = reply.eof;
        let fill_bytes = fill(reply.count) as u8;
        let is_partial = reply.data.len() < reply.count as usize;
        let at = self.get_file_tx_by_handle(xidmap.file_handle.as_slice(), STREAM_TOCLIENT);
        if at < self.transactions.len() {
            match self.file_of(at) {
                Some(tdf) => {
                    let mut tracker = tdf.file_tracker;
                    tracker.new_chunk(
                        &mut self.files.files_tc,
                        xidmap.file_name.as_slice(),
                        reply.data,
                        xidmap.chunk_offset,
                        reply.count,
                        fill_bytes,
                        is_last,
                    );
                    let counted = if tdf.chunk_count < u32::MAX {
                        tdf.chunk_count + 1
                    } else {
                        tdf.chunk_count
                    };
                    let file = NFSTransactionFile {
                        chunk_count: counted,
                        file_last_xid: if is_last {
                            xid
                        } else {
                            tdf.file_last_xid
                        },
                        file_tracker: tracker,
                    };
                    self.transactions[at].type_data = Some(NFSTransactionTypeData::FILE(file));
                    if is_last {
                        self.transactions[at].rpc_response_status = r.reply_state;
                        self.transactions[at].nfs_response_status = reply.status;
                        self.transactions[at].is_last = true;
                        self.transactions[at].request_done = true;
                        // a partial record ends the transaction when its
                        // last data has arrived
                        if !is_partial {
                            self.transactions[at].response_done = true;
                        }
                    }
                    assert(self@.transactions =~= old(self)@.after_read(
                        r.hdr.xid,
                        r.reply_state,
                        reply.status,
                        reply.count,
                        reply.eof,
                        reply.data@,
                        xidmap@,
                    ).transactions);
                },
                None => {},
            }
        } else if self.tx_id < u64::MAX {
            let at = self.new_file_tx(
                xidmap.file_handle.as_slice(),
                xidmap.file_name.as_slice(),
                STREAM_TOCLIENT,
            );
            assert(self.transactions@.len() == self@.transactions.len());
            let ghost made = self@.transactions;
            let ghost made_raw = self.transactions@;
            let mut tracker = FileTransferTracker::new();
            tracker.new_chunk(
                &mut self.files.files_tc,
                xidmap.file_name.as_slice(),
                reply.data,
                xidmap.chunk_offset,
                reply.count,
                fill_bytes,
                is_last,
            );
            let file = NFSTransactionFile {
                chunk_count: 0,
                file_last_xid: if is_last {
                    xid
                } else {
                    0
                },
                file_tracker: tracker,
            };
            self.transactions[at].type_data = Some(NFSTransactionTypeData::FILE(file));
            self.transactions[at].procedure = if xidmap.progver < 4 {
                NFSPROC3_READ
            } else {
                NFSPROC4_READ
            };
            self.transactions[at].xid = xid;
            self.transactions[at].is_first = true;
            if is_last {
                self.transactions[at].rpc_response_status = r.reply_state;
                self.transactions[at].nfs_response_status = reply.status;
                self.transactions[at].is_last = true;
                self.transactions[at].request_done = true;
                if !is_partial {
                    self.transactions[at].response_done = true;
                }
            }
            let ghost want = old(self)@.after_read(
                r.hdr.xid,
                r.reply_state,
                reply.status,
                reply.count,
                reply.eof,
                reply.data@,
                xidmap@,
            ).transactions;
            assert(want.len() == made.len());
            assert(made[at as int] == old(self)@.new_file_transaction(
                xidmap@.file_handle,
                xidmap@.file_name,
                STREAM_TOCLIENT,
            ));
            assert(self@.transactions[at as int] == (TransactionView {
                type_data: Some(TypeDataView::FILE(file)),
                procedure: if xidmap.progver < 4 {
                    NFSPROC3_READ
                } else {
                    NFSPROC4_READ
                },
                xid,
                is_first: true,
                rpc_response_status: if is_last {
                    r.reply_state
                } else {
                    0
                },
                nfs_response_status: if is_last {
                    reply.status
                } else {
                    0
                },
                is_last,
                request_done: is_last,
                response_done: is_last && !is_partial,
                ..made[at as int]
            }));
            assert(want[at as int] == self@.transactions[at as int]);
            assert forall|j: int| 0 <= j < at implies want[j] == self@.transactions[j] by {
                assert(self.transactions@[j] == made_raw[j]);
                assert(made[j] == made_raw[j]@);
            }
            assert(self@.transactions =~= want);
        }
        if !self.is_udp {
            self.tc_chunk_xid = xid;
            let announced: u64 = reply.count as u64 + fill_bytes as u64;
            let have = reply.data.len();
            self.tc_chunk_left = if have as u64 >= announced {
                0
            } else if announced - have as u64 > u32::MAX as u64 {
                u32::MAX
            } else {
                (announced - have as u64) as u32
            };
        }
        0
    }

    /// Dissects the results of a COMPOUND reply.
    pub fn compound_response<'b>(
        &mut self,
        r: &RpcReplyPacket<'b>,
        cr: &Nfs4ResponseCompoundRecord<'b>,
        xidmap: &mut NFSRequestXidMap,
    )
        ensures
            (final(self)@, final(xidmap)@) == old(self)@.after_compound_response(
                *r,
                responses_view(cr.commands@),
                old(xidmap)@,
            ),
    {
        let mut insert_filename_with_getfh = false;
        let mut main_opcode_status: u32 = 0;
        let mut main_opcode_status_set: bool = false;
        let ghost cmds = responses_view(cr.commands@);
        let ghost start = ResponseContext {
            xidmap: old(xidmap)@,
            insert_filename_with_getfh: false,
            main_opcode_status: 0,
            main_opcode_status_set: false,
        };
        let count = cr.commands.len();
        let mut i: usize = 0;
        assert(cmds.skip(0) =~= cmds);
        while i < count
            invariant
                i <= count,
                count == cr.commands@.len(),
                cmds == responses_view(cr.commands@),
                spec_response_steps(old(self)@, start, *r, cmds) == spec_response_steps(
                    self@,
                    ResponseContext {
                        xidmap: xidmap@,
                        insert_filename_with_getfh,
                        main_opcode_status,
                        main_opcode_status_set,
                    },
                    *r,
                    cmds.skip(i as int),
                ),
            decreases count - i,
        {
            let ghost rest = cmds.skip(i as int);
            assert(rest[0] == cr.commands@[i as int]@);
            assert(rest.drop_first() =~= cmds.skip(i + 1));
            match &cr.commands[i] {
                Nfs4ResponseContent::Remove(s) => {
                    main_opcode_status = *s;
                    main_opcode_status_set = true;
                },
                Nfs4ResponseContent::Create(s) => {
                    main_opcode_status = *s;
                    main_opcode_status_set = true;
                },
                Nfs4ResponseContent::Read(s, Some(rd)) => {
                    // convert record to generic read reply
                    let empty = vstd::slice::slice_subrange(rd.data, 0, 0);
                    let have = rd.data.len();
                    let reply = NfsReplyRead {
                        status: *s,
                        attr_follows: 0,
                        attr_blob: empty,
                        count: rd.count,
                        eof: rd.eof,
                        data_len: if have > u32::MAX as usize {
                            u32::MAX
                        } else {
                            have as u32
                        },
                        data: rd.data,
                    };
                    self.process_read_record(r, &reply, xidmap);
                },
                Nfs4ResponseContent::Open(_s, Some(_rd)) => {
                    insert_filename_with_getfh = true;
                },
                Nfs4ResponseContent::GetFH(_s, Some(rd)) => {
                    if insert_filename_with_getfh {
                        self.insert_name(to_vec(rd.value), to_vec(xidmap.file_name.as_slice()));
                    }
                },
                Nfs4ResponseContent::PutRootFH(s) => {
                    if *s == NFS4_OK && xidmap.file_name.len() == 0 {
                        let root: [u8; 12] = [
                            0x3c,
                            0x6d,
                            0x6f,
                            0x75,
                            0x6e,
                            0x74,
                            0x5f,
                            0x72,
                            0x6f,
                            0x6f,
                            0x74,
                            0x3e,
                        ];
                        assert(root@ =~= spec_mount_root());
                        xidmap.file_name = to_vec(root.as_slice());
                    }
                },
                _ => {},
            }
            i += 1;
        }
        if main_opcode_status_set {
            let resp_handle: Vec<u8> = Vec::new();
            self.mark_response_tx_done(
                r.hdr.xid,
                r.reply_state,
                main_opcode_status,
                resp_handle.as_slice(),
            );
        }
    }

    /// Takes a whole reply to the call that `xidmap` describes: dissects it
    /// if the call was a COMPOUND. Returns zero.
    pub fn process_reply_record_v4<'b>(
        &mut self,
        r: &RpcReplyPacket<'b>,
        xidmap: &mut NFSRequestXidMap,
    ) -> (status: u32)
        ensures
            (final(self)@, final(xidmap)@) == old(self)@.after_reply_record_v4(*r, old(xidmap)@),
            status == 0,
    {
        if xidmap.procedure == NFSPROC4_COMPOUND {
            let mut data = r.prog_data;
            if xidmap.gssapi_proc == RPCSEC_GSS_DATA && xidmap.gssapi_service
                == RPCSEC_GSS_SVC_INTEGRITY {
                match parse_rpc_gssapi_integrity(r.prog_data) {
                    Some(rec) => {
                        data = rec.data;
                    },
                    None => {
                        self.set_event(NFSEvent::MalformedData);
                        return 0;
                    },
                }
            }
            match parse_nfs4_response_compound(data) {
                Some(rd) => {
                    self.compound_response(r, &rd, xidmap);
                },
                None => {
                    self.set_event(NFSEvent::MalformedData);
                },
            }
        }
        0
    }
}

impl StateView {
    /// The state after the reply `r` arrived: the call that waits under the
    /// XID of the reply waits no longer, and the reply is dissected for it
    /// as [`StateView::after_reply_record_v4`] says. A reply that no call
    /// waits for changes nothing.
    pub open spec fn after_reply_record(self, r: RpcReplyPacket) -> StateView {
        let at = spec_request_index(self.requestmap, r.hdr.xid);
        if at < self.requestmap.len() {
            (StateView { requestmap: self.requestmap.remove(at), ..self }).after_reply_record_v4(
                r,
                self.requestmap[at].1,
            ).0
        } else {
            self
        }
    }
}

impl NFSState {
    /// Takes a whole reply: finds the call it answers, which then waits no
    /// longer, and dissects the reply for it. Returns zero.
    pub fn process_reply_record<'b>(&mut self, r: &RpcReplyPacket<'b>) -> (status: u32)
        ensures
            final(self)@ == old(self)@.after_reply_record(*r),
            status == 0,
    {
        match self.take_request(r.hdr.xid) {
            Some(mut xidmap) => self.process_reply_record_v4(r, &mut xidmap),
            None => 0,
        }
    }
}

} // verus!
