//! What holds of the NFSv4 write path whatever the call is.

use vstd::prelude::*;

use crate::nfs::filetracker::{spec_accepted, FileTransferTracker, FileView};
use crate::nfs::nfs::{
    spec_file_tx_index, spec_request_index, spec_tx_index_by_xid, NFSEvent, StateView,
    TransactionView, XidMapView,
};
use crate::nfs::nfs4::{
    spec_name_or_empty, spec_request_step, spec_request_steps, spec_response_step,
    spec_response_steps, spec_unwrapped, spec_wants_integrity, RequestContext, ResponseContext,
};
use crate::nfs::nfs4_records::{
    spec_request_compound, spec_response_compound, RequestContentView, RequestWriteView,
    ResponseContentView,
};
use crate::nfs::rpc_records::{spec_gssapi_integrity, RpcPacket, RpcReplyPacket};
use crate::nfs::types::NFS4_FILE_SYNC;
use crate::stream::{STREAM_TOCLIENT, STREAM_TOSERVER};

verus! {

/// Every octet that a WRITE announces is accounted for: what the record
/// carries of the file and what the flow expects to follow add up to the
/// announced length, and a record that carries all of it leaves nothing to
/// follow.
pub proof fn lemma_write_accounts_for_length(
    state: StateView,
    xid: u32,
    progver: u32,
    w: RequestWriteView,
    fh: Seq<u8>,
)
    ensures
        state.after_write(xid, progver, w, fh).ts_chunk_left + spec_accepted(
            w.data.len() as int,
            w.write_len,
        ) == w.write_len,
        w.data.len() >= w.write_len ==> state.after_write(xid, progver, w, fh).ts_chunk_left == 0,
        state.after_write(xid, progver, w, fh).ts_chunk_xid == xid,
{
}

/// A chunk that continues the file of a tracker adds to the file exactly
/// the octets that count towards the announced size, and the tracker has
/// then seen that many more.
pub proof fn lemma_chunk_adds_what_it_carries(
    tracker: FileTransferTracker,
    files: Seq<FileView>,
    name: Seq<u8>,
    data: Seq<u8>,
    chunk_offset: u64,
    chunk_size: u32,
    fill_bytes: u8,
    is_last: bool,
)
    requires
        files.len() <= usize::MAX,
        tracker.continues(files, data.len() as int, chunk_offset, chunk_size),
    ensures
        ({
            let after = tracker.after_chunk(
                files,
                data,
                chunk_offset,
                chunk_size,
                fill_bytes,
                is_last,
            );
            let stored = tracker.files_after_chunk(
                files,
                name,
                data,
                chunk_offset,
                chunk_size,
                is_last,
            );
            let taken = spec_accepted(data.len() as int, chunk_size);
            let before = if tracker.file_open {
                files[tracker.track_id as int].data
            } else {
                Seq::<u8>::empty()
            };
            &&& after.file_size == chunk_offset + taken
            &&& after.chunk_left + taken == chunk_size
            &&& after.track_id < stored.len()
            &&& stored[after.track_id as int].data == before + data.subrange(0, taken)
            &&& stored[after.track_id as int].data.len() == before.len() + taken
        }),
{
}

/// A chunk that does not continue the file leaves every file as it is.
pub proof fn lemma_stray_chunk_is_dropped(
    tracker: FileTransferTracker,
    files: Seq<FileView>,
    name: Seq<u8>,
    data: Seq<u8>,
    chunk_offset: u64,
    chunk_size: u32,
    fill_bytes: u8,
    is_last: bool,
)
    requires
        !tracker.continues(files, data.len() as int, chunk_offset, chunk_size),
    ensures
        tracker.files_after_chunk(files, name, data, chunk_offset, chunk_size, is_last) == files,
        tracker.after_chunk(files, data, chunk_offset, chunk_size, fill_bytes, is_last).file_open
            == tracker.file_open,
        tracker.after_chunk(files, data, chunk_offset, chunk_size, fill_bytes, is_last).file_size
            == tracker.file_size,
{
}

/// The first WRITE to a file, at offset zero and with all its data, opens
/// one file transaction and one file that holds the data; a write that is
/// to be stable when it returns also closes the file and ends the
/// transaction.
pub proof fn lemma_first_write_opens_one_transfer(
    state: StateView,
    xid: u32,
    progver: u32,
    w: RequestWriteView,
    fh: Seq<u8>,
)
    requires
        spec_file_tx_index(state.transactions, fh, STREAM_TOSERVER) == state.transactions.len(),
        state.tx_id < u64::MAX,
        state.files_ts.len() <= usize::MAX,
        w.offset == 0,
        w.data.len() == w.write_len,
    ensures
        ({
            let after = state.after_write(xid, progver, w, fh);
            let tx = after.transactions.last();
            let last = w.stable == NFS4_FILE_SYNC;
            &&& after.transactions.len() == state.transactions.len() + 1
            &&& after.files_ts.len() == state.files_ts.len() + 1
            &&& after.files_ts.last() == (FileView {
                name: spec_name_or_empty(state, fh),
                data: w.data,
                closed: last,
            })
            &&& tx.is_file_tx && tx.is_first && tx.is_last == last && tx.request_done == last
            &&& tx.file_handle == fh && tx.xid == xid
            &&& tx.file().is_some()
            &&& tx.file().unwrap().file_tracker.file_size == w.write_len
            &&& tx.file().unwrap().file_tracker.file_open == !last
            &&& after.ts_chunk_left == 0
        }),
{
    let fresh = FileTransferTracker::spec_new();
    assert(fresh.continues(state.files_ts, w.data.len() as int, w.offset, w.write_len));
    assert(w.data.subrange(0, w.data.len() as int) =~= w.data);
    assert(Seq::<u8>::empty() + w.data =~= w.data);
}

/// No two transactions are open file transfers for the same file handle in
/// the same direction.
pub open spec fn spec_one_transfer_each(list: Seq<TransactionView>) -> bool {
    forall|i: int, j: int|
        #![trigger list[i], list[j]]
        0 <= i < j < list.len() && list[i].is_file_tx && !list[i].is_file_closed
            && list[j].is_file_tx && !list[j].is_file_closed ==> !(list[i].file_handle
            == list[j].file_handle && list[i].file_tx_direction == list[j].file_tx_direction)
}

/// The identifiers of the transactions rise strictly, in the order of the
/// list, and none is above the newest identifier given.
pub open spec fn spec_ordered_ids(state: StateView) -> bool {
    &&& forall|i: int, j: int|
        #![trigger state.transactions[i], state.transactions[j]]
        0 <= i < j < state.transactions.len() ==> state.transactions[i].id
            < state.transactions[j].id
    &&& forall|i: int|
        0 <= i < state.transactions.len() ==> 1 <= (#[trigger] state.transactions[i]).id
            <= state.tx_id
}

/// What holds of every state that the parser reaches: the transactions are
/// in the order of their identifiers, and each file has at most one open
/// transfer in each direction.
pub open spec fn spec_sound(state: StateView) -> bool {
    spec_ordered_ids(state) && spec_one_transfer_each(state.transactions)
}

/// The state of a new flow is sound.
pub proof fn lemma_initial_state_is_sound()
    ensures
        spec_sound(StateView::initial()),
{
}

/// The search for the open transfer of a file finds the first transaction
/// that is one, and none where there is none.
pub proof fn lemma_file_tx_index(list: Seq<TransactionView>, handle: Seq<u8>, direction: u8)
    ensures
        0 <= spec_file_tx_index(list, handle, direction) <= list.len(),
        spec_file_tx_index(list, handle, direction) < list.len() ==> list[spec_file_tx_index(
            list,
            handle,
            direction,
        )].transfers(handle, direction),
        forall|k: int|
            0 <= k < spec_file_tx_index(list, handle, direction) ==> !(#[trigger] list[k]).transfers(
                handle,
                direction,
            ),
    decreases list.len(),
{
    if list.len() > 0 && !list[0].transfers(handle, direction) {
        let rest = list.drop_first();
        lemma_file_tx_index(rest, handle, direction);
        assert forall|k: int|
            0 <= k < spec_file_tx_index(list, handle, direction) implies !(#[trigger] list[k]).transfers(
            handle,
            direction,
        ) by {
            if k > 0 {
                assert(list[k] == rest[k - 1]);
            }
        }
    }
}

/// A WRITE keeps the state sound: it opens no second transfer for a file
/// that has an open one, and a transaction it makes has the newest
/// identifier.
pub proof fn lemma_write_keeps_sound(
    state: StateView,
    xid: u32,
    progver: u32,
    w: RequestWriteView,
    fh: Seq<u8>,
)
    requires
        spec_sound(state),
    ensures
        spec_sound(state.after_write(xid, progver, w, fh)),
{
    lemma_file_tx_index(state.transactions, fh, STREAM_TOSERVER);
}

/// A COMMIT keeps the state sound: it opens no transfer.
pub proof fn lemma_commit_keeps_sound(state: StateView, xid: u32, fh: Seq<u8>)
    requires
        spec_sound(state),
    ensures
        spec_sound(state.after_commit(xid, fh)),
{
    lemma_file_tx_index(state.transactions, fh, STREAM_TOSERVER);
}

/// READ data keeps the state sound: it opens no second transfer for a
/// file that has an open one, and a transaction it makes has the newest
/// identifier.
pub proof fn lemma_read_keeps_sound(
    state: StateView,
    xid: u32,
    reply_state: u32,
    status: u32,
    count: u32,
    eof: bool,
    data: Seq<u8>,
    xidmap: XidMapView,
)
    requires
        spec_sound(state),
    ensures
        spec_sound(state.after_read(xid, reply_state, status, count, eof, data, xidmap)),
{
    lemma_file_tx_index(state.transactions, xidmap.file_handle, STREAM_TOCLIENT);
}

/// The transaction of a main operation keeps the state sound: it is no
/// file transfer and has the newest identifier.
pub proof fn lemma_new_tx_keeps_sound(
    state: StateView,
    r: RpcPacket,
    xidmap: XidMapView,
    procedure: u32,
)
    requires
        spec_sound(state),
    ensures
        spec_sound(state.after_new_tx_v4(r, xidmap, procedure)),
{
}

/// An event keeps the state sound.
pub proof fn lemma_event_keeps_sound(state: StateView, event: NFSEvent)
    requires
        spec_sound(state),
    ensures
        spec_sound(state.with_event(event)),
{
}

/// Noting a reply on the transaction of its call keeps the state sound.
pub proof fn lemma_response_done_keeps_sound(
    state: StateView,
    xid: u32,
    rpc_status: u32,
    nfs_status: u32,
)
    requires
        spec_sound(state),
    ensures
        spec_sound(state.with_response_done(xid, rpc_status, nfs_status, Seq::empty())),
{
    let done = state.with_response_done(xid, rpc_status, nfs_status, Seq::empty()).transactions;
    lemma_tx_index_by_xid(state.transactions, xid);
    assert(done.len() == state.transactions.len());
    assert forall|i: int, j: int|
        #![trigger done[i], done[j]]
        0 <= i < j < done.len() && done[i].is_file_tx && !done[i].is_file_closed
            && done[j].is_file_tx && !done[j].is_file_closed implies !(done[i].file_handle
        == done[j].file_handle && done[i].file_tx_direction == done[j].file_tx_direction) by {
        assert(state.transactions[i].is_file_tx);
        assert(state.transactions[j].is_file_tx);
    }
}

/// The search for the transaction of a call finds one that is no file
/// transfer.
pub proof fn lemma_tx_index_by_xid(list: Seq<TransactionView>, xid: u32)
    ensures
        0 <= spec_tx_index_by_xid(list, xid) <= list.len(),
        spec_tx_index_by_xid(list, xid) < list.len()
            ==> !list[spec_tx_index_by_xid(list, xid)].is_file_tx,
    decreases list.len(),
{
    if list.len() > 0 && !(!list[0].is_file_tx && list[0].xid == xid) {
        lemma_tx_index_by_xid(list.drop_first(), xid);
    }
}

/// However many operations a call holds, the state is sound once they
/// have acted.
pub proof fn lemma_request_keeps_sound(
    state: StateView,
    ctx: RequestContext,
    r: RpcPacket,
    cmds: Seq<RequestContentView>,
)
    requires
        spec_sound(state),
    ensures
        spec_sound(spec_request_steps(state, ctx, r, cmds).0),
    decreases cmds.len(),
{
    if cmds.len() > 0 {
        let next = spec_request_step(state, ctx, r, cmds[0]);
        match cmds[0] {
            RequestContentView::Write(w) => match ctx.last_putfh {
                Some(fh) => {
                    lemma_write_keeps_sound(state, r.hdr.xid, r.progver, w, fh);
                },
                None => {},
            },
            RequestContentView::Commit => match ctx.last_putfh {
                Some(fh) => {
                    lemma_commit_keeps_sound(state, r.hdr.xid, fh);
                },
                None => {},
            },
            _ => {},
        }
        lemma_request_keeps_sound(next.0, next.1, r, cmds.drop_first());
    }
}

/// However many results a reply holds, the state is sound once they have
/// acted.
pub proof fn lemma_response_keeps_sound(
    state: StateView,
    ctx: ResponseContext,
    r: RpcReplyPacket,
    cmds: Seq<ResponseContentView>,
)
    requires
        spec_sound(state),
    ensures
        spec_sound(spec_response_steps(state, ctx, r, cmds).0),
    decreases cmds.len(),
{
    if cmds.len() > 0 {
        let next = spec_response_step(state, ctx, r, cmds[0]);
        match cmds[0] {
            ResponseContentView::Read(status, Some(rd)) => {
                lemma_read_keeps_sound(
                    state,
                    r.hdr.xid,
                    r.reply_state,
                    status,
                    rd.count,
                    rd.eof,
                    rd.data,
                    ctx.xidmap,
                );
            },
            _ => {},
        }
        lemma_response_keeps_sound(next.0, next.1, r, cmds.drop_first());
    }
}

/// A call keeps the state sound, whatever it holds.
pub proof fn lemma_call_keeps_sound(state: StateView, call: RpcPacket)
    requires
        spec_sound(state),
    ensures
        spec_sound(state.after_request_record_v4(call)),
{
    lemma_event_keeps_sound(state, NFSEvent::MalformedData);
    match spec_unwrapped(call) {
        Some((data, kept)) => match spec_request_compound(data) {
            Some(cmds) => {
                let start = RequestContext {
                    xidmap: kept,
                    last_putfh: None,
                    main_opcode: 0,
                    aux_opcodes: Seq::empty(),
                };
                lemma_request_keeps_sound(state, start, call, cmds);
                let done = spec_request_steps(state, start, call, cmds);
                lemma_new_tx_keeps_sound(
                    done.0,
                    call,
                    done.1.xidmap,
                    done.1.main_opcode,
                );
            },
            None => {},
        },
        None => {},
    }
}

/// A reply keeps the state sound, whatever it holds and whichever call it
/// is taken to answer.
pub proof fn lemma_reply_keeps_sound(
    state: StateView,
    reply: RpcReplyPacket,
    xidmap: XidMapView,
)
    requires
        spec_sound(state),
    ensures
        spec_sound(state.after_reply_record_v4(reply, xidmap).0),
        spec_sound(state.after_reply_record(reply)),
{
    lemma_reply_for_keeps_sound(state, reply, xidmap);
    let at = spec_request_index(state.requestmap, reply.hdr.xid);
    if at < state.requestmap.len() {
        lemma_reply_for_keeps_sound(
            StateView { requestmap: state.requestmap.remove(at), ..state },
            reply,
            state.requestmap[at].1,
        );
    }
}

/// The reply to a given call keeps the state sound.
proof fn lemma_reply_for_keeps_sound(
    state: StateView,
    reply: RpcReplyPacket,
    xidmap: XidMapView,
)
    requires
        spec_sound(state),
    ensures
        spec_sound(state.after_reply_record_v4(reply, xidmap).0),
{
    lemma_event_keeps_sound(state, NFSEvent::MalformedData);
    let data = if spec_wants_integrity(xidmap.gssapi_proc, xidmap.gssapi_service) {
        match spec_gssapi_integrity(reply.prog_data@) {
            Some((_, data)) => Some(data),
            None => None,
        }
    } else {
        Some(reply.prog_data@)
    };
    match data {
        Some(data) => match spec_response_compound(data) {
            Some((_, cmds)) => {
                let start = ResponseContext {
                    xidmap,
                    insert_filename_with_getfh: false,
                    main_opcode_status: 0,
                    main_opcode_status_set: false,
                };
                lemma_response_keeps_sound(state, start, reply, cmds);
                let done = spec_response_steps(state, start, reply, cmds);
                lemma_response_done_keeps_sound(
                    done.0,
                    reply.hdr.xid,
                    reply.reply_state,
                    done.1.main_opcode_status,
                );
            },
            None => {},
        },
        None => {},
    }
}

} // verus!
