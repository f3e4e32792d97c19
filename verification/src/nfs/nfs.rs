//! The state of one NFS flow: transactions, the calls that wait for their
//! replies, the names known for file handles, and the files in transfer.

use vstd::prelude::*;

use crate::bytes::{bytes_eq, to_vec};
use crate::nfs::filetracker::{FileContainer, FileTransferTracker, FileView};
use crate::stream::{STREAM_TOCLIENT, STREAM_TOSERVER};

verus! {

/// Protocol anomalies that the parser reports against a transaction.
#[derive(Debug, Clone, Copy, PartialEq, Eq, Structural)]
pub enum NFSEvent {
    MalformedData,
    NonExistingVersion,
    UnsupportedVersion,
}

/// What is kept of a call until its reply arrives.
#[derive(Debug)]
pub struct NFSRequestXidMap {
    pub progver: u32,
    pub procedure: u32,
    pub chunk_offset: u64,
    pub file_name: Vec<u8>,
    /// READ replies use this to find the file they belong to.
    pub file_handle: Vec<u8>,
    pub gssapi_proc: u32,
    pub gssapi_service: u32,
}

/// Mathematical value of a [`NFSRequestXidMap`].
pub struct XidMapView {
    pub progver: u32,
    pub procedure: u32,
    pub chunk_offset: u64,
    pub file_name: Seq<u8>,
    pub file_handle: Seq<u8>,
    pub gssapi_proc: u32,
    pub gssapi_service: u32,
}

impl View for NFSRequestXidMap {
    type V = XidMapView;

    open spec fn view(&self) -> XidMapView {
        XidMapView {
            progver: self.progver,
            procedure: self.procedure,
            chunk_offset: self.chunk_offset,
            file_name: self.file_name@,
            file_handle: self.file_handle@,
            gssapi_proc: self.gssapi_proc,
            gssapi_service: self.gssapi_service,
        }
    }
}

impl XidMapView {
    /// What is known of a call before it is dissected.
    pub open spec fn spec_new(progver: u32, procedure: u32, chunk_offset: u64) -> XidMapView {
        XidMapView {
            progver,
            procedure,
            chunk_offset,
            file_name: Seq::empty(),
            file_handle: Seq::empty(),
            gssapi_proc: 0,
            gssapi_service: 0,
        }
    }
}

impl NFSRequestXidMap {
    /// What is known of a call before it is dissected.
    pub fn new(progver: u32, procedure: u32, chunk_offset: u64) -> (map: NFSRequestXidMap)
        ensures
            map@ == XidMapView::spec_new(progver, procedure, chunk_offset),
    {
        NFSRequestXidMap {
            progver,
            procedure,
            chunk_offset,
            file_name: Vec::new(),
            file_handle: Vec::new(),
            gssapi_proc: 0,
            gssapi_service: 0,
        }
    }
}

/// What a file transaction holds besides what every transaction holds.
#[derive(Debug, Clone, Copy, PartialEq, Eq, Structural)]
pub struct NFSTransactionFile {
    pub chunk_count: u32,
    pub file_last_xid: u32,
    pub file_tracker: FileTransferTracker,
}

/// What a transaction holds that depends on its kind.
#[derive(Debug)]
pub enum NFSTransactionTypeData {
    RENAME(Vec<u8>),
    FILE(NFSTransactionFile),
}

/// Mathematical value of a [`NFSTransactionTypeData`].
pub enum TypeDataView {
    RENAME(Seq<u8>),
    FILE(NFSTransactionFile),
}

impl View for NFSTransactionTypeData {
    type V = TypeDataView;

    open spec fn view(&self) -> TypeDataView {
        match self {
            NFSTransactionTypeData::RENAME(name) => TypeDataView::RENAME(name@),
            NFSTransactionTypeData::FILE(file) => TypeDataView::FILE(*file),
        }
    }
}

/// A call with its reply, or a file transfer, as surfaced to the host.
#[derive(Debug)]
pub struct NFSTransaction {
    pub id: u64,
    pub xid: u32,
    pub procedure: u32,
    pub file_name: Vec<u8>,
    pub auth_type: u32,
    pub request_machine_name: Vec<u8>,
    pub request_uid: u32,
    pub request_gid: u32,
    pub rpc_response_status: u32,
    pub nfs_response_status: u32,
    pub is_first: bool,
    pub is_last: bool,
    pub file_handle: Vec<u8>,
    pub request_done: bool,
    pub response_done: bool,
    pub nfs_version: u16,
    pub is_file_tx: bool,
    pub is_file_closed: bool,
    pub file_tx_direction: u8,
    pub type_data: Option<NFSTransactionTypeData>,
    pub events: Vec<NFSEvent>,
}

/// Mathematical value of a [`NFSTransaction`].
pub struct TransactionView {
    pub id: u64,
    pub xid: u32,
    pub procedure: u32,
    pub file_name: Seq<u8>,
    pub auth_type: u32,
    pub request_machine_name: Seq<u8>,
    pub request_uid: u32,
    pub request_gid: u32,
    pub rpc_response_status: u32,
    pub nfs_response_status: u32,
    pub is_first: bool,
    pub is_last: bool,
    pub file_handle: Seq<u8>,
    pub request_done: bool,
    pub response_done: bool,
    pub nfs_version: u16,
    pub is_file_tx: bool,
    pub is_file_closed: bool,
    pub file_tx_direction: u8,
    pub type_data: Option<TypeDataView>,
    pub events: Seq<NFSEvent>,
}

impl View for NFSTransaction {
    type V = TransactionView;

    open spec fn view(&self) -> TransactionView {
        TransactionView {
            id: self.id,
            xid: self.xid,
            procedure: self.procedure,
            file_name: self.file_name@,
            auth_type: self.auth_type,
            request_machine_name: self.request_machine_name@,
            request_uid: self.request_uid,
            request_gid: self.request_gid,
            rpc_response_status: self.rpc_response_status,
            nfs_response_status: self.nfs_response_status,
            is_first: self.is_first,
            is_last: self.is_last,
            file_handle: self.file_handle@,
            request_done: self.request_done,
            response_done: self.response_done,
            nfs_version: self.nfs_version,
            is_file_tx: self.is_file_tx,
            is_file_closed: self.is_file_closed,
            file_tx_direction: self.file_tx_direction,
            type_data: match self.type_data {
                Some(data) => Some(data@),
                None => None,
            },
            events: self.events@,
        }
    }
}

impl TransactionView {
    /// A transaction that holds nothing yet.
    pub open spec fn empty() -> TransactionView {
        TransactionView {
            id: 0,
            xid: 0,
            procedure: 0,
            file_name: Seq::empty(),
            auth_type: 0,
            request_machine_name: Seq::empty(),
            request_uid: 0,
            request_gid: 0,
            rpc_response_status: 0,
            nfs_response_status: 0,
            is_first: false,
            is_last: false,
            file_handle: Seq::empty(),
            request_done: false,
            response_done: false,
            nfs_version: 0,
            is_file_tx: false,
            is_file_closed: false,
            file_tx_direction: 0,
            type_data: None,
            events: Seq::empty(),
        }
    }

    /// What the transaction tracks of its file, if it is a file transaction.
    pub open spec fn file(self) -> Option<NFSTransactionFile> {
        match self.type_data {
            Some(TypeDataView::FILE(file)) => Some(file),
            _ => None,
        }
    }

    /// Whether the transaction is the open file transfer for `handle` in
    /// `direction`.
    pub open spec fn transfers(self, handle: Seq<u8>, direction: u8) -> bool {
        self.is_file_tx && !self.is_file_closed && self.file_tx_direction == direction
            && self.file_handle == handle
    }
}

impl NFSTransaction {
    /// A transaction that holds nothing yet.
    pub fn new() -> (tx: NFSTransaction)
        ensures
            tx@ == TransactionView::empty(),
    {
        NFSTransaction {
            id: 0,
            xid: 0,
            procedure: 0,
            file_name: Vec::new(),
            auth_type: 0,
            request_machine_name: Vec::new(),
            request_uid: 0,
            request_gid: 0,
            rpc_response_status: 0,
            nfs_response_status: 0,
            is_first: false,
            is_last: false,
            file_handle: Vec::new(),
            request_done: false,
            response_done: false,
            nfs_version: 0,
            is_file_tx: false,
            is_file_closed: false,
            file_tx_direction: 0,
            type_data: None,
            events: Vec::new(),
        }
    }
}

/// A file handle with the name that was learnt for it.
#[derive(Debug)]
pub struct NameEntry {
    pub handle: Vec<u8>,
    pub name: Vec<u8>,
}

/// A call that waits for its reply, under its XID.
#[derive(Debug)]
pub struct RequestEntry {
    pub xid: u32,
    pub map: NFSRequestXidMap,
}

/// The files of a flow, by direction.
#[derive(Debug)]
pub struct NFSFiles {
    pub files_ts: FileContainer,
    pub files_tc: FileContainer,
}

/// The parser state of one flow.
///
/// `requestmap` holds the calls that wait for a reply and `namemap` the
/// names learnt for file handles; in both the first entry for a key is the
/// one that counts. `ts_chunk_xid` and `ts_chunk_left` tell which call the
/// file data belongs to that may follow on the stream towards the server
/// without a header of its own, and how much of it; `tc_chunk_xid` and
/// `tc_chunk_left` tell the same for the other direction.
#[derive(Debug)]
pub struct NFSState {
    pub requestmap: Vec<RequestEntry>,
    pub namemap: Vec<NameEntry>,
    pub transactions: Vec<NFSTransaction>,
    pub files: NFSFiles,
    pub ts_chunk_xid: u32,
    pub tc_chunk_xid: u32,
    pub ts_chunk_left: u32,
    pub tc_chunk_left: u32,
    pub is_udp: bool,
    pub nfs_version: u16,
    pub events: u16,
    pub tx_id: u64,
}

/// Mathematical value of a [`NFSState`].
pub struct StateView {
    pub requestmap: Seq<(u32, XidMapView)>,
    pub namemap: Seq<(Seq<u8>, Seq<u8>)>,
    pub transactions: Seq<TransactionView>,
    pub files_ts: Seq<FileView>,
    pub files_tc: Seq<FileView>,
    pub ts_chunk_xid: u32,
    pub tc_chunk_xid: u32,
    pub ts_chunk_left: u32,
    pub tc_chunk_left: u32,
    pub is_udp: bool,
    pub nfs_version: u16,
    pub events: u16,
    pub tx_id: u64,
}

/// The values of a list of transactions, in order.
pub open spec fn transactions_view(list: Seq<NFSTransaction>) -> Seq<TransactionView> {
    list.map_values(|tx: NFSTransaction| tx@)
}

/// The values of a list of waiting calls, in order.
pub open spec fn requests_view(list: Seq<RequestEntry>) -> Seq<(u32, XidMapView)> {
    list.map_values(|e: RequestEntry| (e.xid, e.map@))
}

/// The values of a list of names, in order.
pub open spec fn names_view(list: Seq<NameEntry>) -> Seq<(Seq<u8>, Seq<u8>)> {
    list.map_values(|e: NameEntry| (e.handle@, e.name@))
}

impl View for NFSState {
    type V = StateView;

    open spec fn view(&self) -> StateView {
        StateView {
            requestmap: requests_view(self.requestmap@),
            namemap: names_view(self.namemap@),
            transactions: transactions_view(self.transactions@),
            files_ts: self.files.files_ts@,
            files_tc: self.files.files_tc@,
            ts_chunk_xid: self.ts_chunk_xid,
            tc_chunk_xid: self.tc_chunk_xid,
            ts_chunk_left: self.ts_chunk_left,
            tc_chunk_left: self.tc_chunk_left,
            is_udp: self.is_udp,
            nfs_version: self.nfs_version,
            events: self.events,
            tx_id: self.tx_id,
        }
    }
}

/// The index of the first entry of `names` for `handle`; the length of
/// `names` where there is none.
pub open spec fn spec_name_index(names: Seq<(Seq<u8>, Seq<u8>)>, handle: Seq<u8>) -> int
    decreases names.len(),
{
    if names.len() == 0 || names[0].0 == handle {
        0
    } else {
        1 + spec_name_index(names.drop_first(), handle)
    }
}

/// The name known for `handle`.
pub open spec fn spec_name_of(names: Seq<(Seq<u8>, Seq<u8>)>, handle: Seq<u8>) -> Option<Seq<u8>> {
    let at = spec_name_index(names, handle);
    if at < names.len() {
        Some(names[at].1)
    } else {
        None
    }
}

/// `names` with `name` as the name known for `handle`.
pub open spec fn spec_name_insert(
    names: Seq<(Seq<u8>, Seq<u8>)>,
    handle: Seq<u8>,
    name: Seq<u8>,
) -> Seq<(Seq<u8>, Seq<u8>)> {
    let at = spec_name_index(names, handle);
    if at < names.len() {
        names.update(at, (handle, name))
    } else {
        names.push((handle, name))
    }
}

/// The index of the first entry of `requests` under `xid`; the length of
/// `requests` where there is none.
pub open spec fn spec_request_index(requests: Seq<(u32, XidMapView)>, xid: u32) -> int
    decreases requests.len(),
{
    if requests.len() == 0 || requests[0].0 == xid {
        0
    } else {
        1 + spec_request_index(requests.drop_first(), xid)
    }
}

/// `requests` with `map` as the call that waits under `xid`.
pub open spec fn spec_request_insert(
    requests: Seq<(u32, XidMapView)>,
    xid: u32,
    map: XidMapView,
) -> Seq<(u32, XidMapView)> {
    let at = spec_request_index(requests, xid);
    if at < requests.len() {
        requests.update(at, (xid, map))
    } else {
        requests.push((xid, map))
    }
}

/// The index of the first transaction that is the open file transfer for
/// `handle` in `direction`; the length of `list` where there is none.
pub open spec fn spec_file_tx_index(list: Seq<TransactionView>, handle: Seq<u8>, direction: u8)
    -> int
    decreases list.len(),
{
    if list.len() == 0 || list[0].transfers(handle, direction) {
        0
    } else {
        1 + spec_file_tx_index(list.drop_first(), handle, direction)
    }
}

/// The index of the first transaction that is no file transfer and belongs
/// to the call `xid`; the length of `list` where there is none.
pub open spec fn spec_tx_index_by_xid(list: Seq<TransactionView>, xid: u32) -> int
    decreases list.len(),
{
    if list.len() == 0 || (!list[0].is_file_tx && list[0].xid == xid) {
        0
    } else {
        1 + spec_tx_index_by_xid(list.drop_first(), xid)
    }
}

/// `count` raised by one, held at its largest value.
pub open spec fn spec_count_up(count: u32) -> u32 {
    if count < u32::MAX {
        (count + 1) as u32
    } else {
        count
    }
}

impl StateView {
    /// The state of a flow on which nothing has been seen.
    pub open spec fn initial() -> StateView {
        StateView {
            requestmap: Seq::empty(),
            namemap: Seq::empty(),
            transactions: Seq::empty(),
            files_ts: Seq::empty(),
            files_tc: Seq::empty(),
            ts_chunk_xid: 0,
            tc_chunk_xid: 0,
            ts_chunk_left: 0,
            tc_chunk_left: 0,
            is_udp: false,
            nfs_version: 0,
            events: 0,
            tx_id: 0,
        }
    }

    /// The files of `direction`: those towards the server for a direction
    /// that has the to-server bit, else those towards the client.
    pub open spec fn files_of(self, direction: u8) -> Seq<FileView> {
        if direction & STREAM_TOSERVER != 0 {
            self.files_ts
        } else {
            self.files_tc
        }
    }

    /// The state with `files` as the files of `direction`.
    pub open spec fn with_files(self, direction: u8, files: Seq<FileView>) -> StateView {
        if direction & STREAM_TOSERVER != 0 {
            StateView { files_ts: files, ..self }
        } else {
            StateView { files_tc: files, ..self }
        }
    }

    /// `event` raised: it is added to the newest transaction and counted,
    /// the count stopping at its largest value. Without a transaction the
    /// event is lost.
    pub open spec fn with_event(self, event: NFSEvent) -> StateView {
        if self.transactions.len() == 0 {
            self
        } else {
            let last = self.transactions.len() - 1;
            StateView {
                transactions: self.transactions.update(
                    last,
                    TransactionView {
                        events: self.transactions[last].events.push(event),
                        ..self.transactions[last]
                    },
                ),
                events: if self.events < u16::MAX {
                    (self.events + 1) as u16
                } else {
                    self.events
                },
                ..self
            }
        }
    }

    /// The transaction that a new file transfer for `handle` starts with.
    pub open spec fn new_file_transaction(self, handle: Seq<u8>, name: Seq<u8>, direction: u8)
        -> TransactionView {
        TransactionView {
            id: (self.tx_id + 1) as u64,
            file_name: name,
            file_handle: handle,
            is_file_tx: true,
            file_tx_direction: direction,
            type_data: Some(
                TypeDataView::FILE(
                    NFSTransactionFile {
                        chunk_count: 0,
                        file_last_xid: 0,
                        file_tracker: FileTransferTracker::spec_new(),
                    },
                ),
            ),
            ..TransactionView::empty()
        }
    }

    /// The state with the reply to the call `xid` noted on its transaction,
    /// if it has one: the transaction is done, and gets the two status
    /// codes and, where it has no file handle yet, `handle`.
    pub open spec fn with_response_done(
        self,
        xid: u32,
        rpc_status: u32,
        nfs_status: u32,
        handle: Seq<u8>,
    ) -> StateView {
        let at = spec_tx_index_by_xid(self.transactions, xid);
        if at < self.transactions.len() {
            let tx = self.transactions[at];
            StateView {
                transactions: self.transactions.update(
                    at,
                    TransactionView {
                        response_done: true,
                        rpc_response_status: rpc_status,
                        nfs_response_status: nfs_status,
                        file_handle: if tx.file_handle.len() == 0 && handle.len() > 0 {
                            handle
                        } else {
                            tx.file_handle
                        },
                        ..tx
                    },
                ),
                ..self
            }
        } else {
            self
        }
    }
}

/// A READ reply in the form that all versions of the protocol share.
#[derive(Debug, PartialEq, Eq, Clone, Copy)]
pub struct NfsReplyRead<'a> {
    pub status: u32,
    pub attr_follows: u32,
    pub attr_blob: &'a [u8],
    pub count: u32,
    pub eof: bool,
    pub data_len: u32,
    pub data: &'a [u8],
}

impl FileContainer {
    /// A container without files.
    pub fn new() -> (files: FileContainer)
        ensures
            files@ == Seq::<FileView>::empty(),
    {
        let files = FileContainer { files: Vec::new() };
        assert(files@ =~= Seq::empty());
        files
    }
}

impl NFSState {
    /// The state of a new flow.
    pub fn new() -> (state: NFSState)
        ensures
            state@ == StateView::initial(),
    {
        let state = NFSState {
            requestmap: Vec::new(),
            namemap: Vec::new(),
            transactions: Vec::new(),
            files: NFSFiles { files_ts: FileContainer::new(), files_tc: FileContainer::new() },
            ts_chunk_xid: 0,
            tc_chunk_xid: 0,
            ts_chunk_left: 0,
            tc_chunk_left: 0,
            is_udp: false,
            nfs_version: 0,
            events: 0,
            tx_id: 0,
        };
        assert(requests_view(state.requestmap@) =~= Seq::empty());
        assert(names_view(state.namemap@) =~= Seq::empty());
        assert(transactions_view(state.transactions@) =~= Seq::empty());
        state
    }

    /// Takes the next identifier and returns an empty transaction that
    /// carries it. The transaction is not yet in the list.
    pub fn new_tx(&mut self) -> (tx: NFSTransaction)
        requires
            old(self).tx_id < u64::MAX,
        ensures
            final(self)@ == (StateView { tx_id: (old(self).tx_id + 1) as u64, ..old(self)@ }),
            tx@ == (TransactionView {
                id: (old(self).tx_id + 1) as u64,
                ..TransactionView::empty()
            }),
    {
        let mut tx = NFSTransaction::new();
        self.tx_id += 1;
        tx.id = self.tx_id;
        tx
    }

    /// Adds `tx` behind the other transactions.
    pub fn push_tx(&mut self, tx: NFSTransaction)
        ensures
            final(self)@ == (StateView {
                transactions: old(self)@.transactions.push(tx@),
                ..old(self)@
            }),
    {
        let ghost before = self.transactions@;
        self.transactions.push(tx);
        assert(transactions_view(self.transactions@) =~= transactions_view(before).push(tx@));
    }

    /// Raises `event` on the newest transaction. Without a transaction the
    /// event is lost.
    pub fn set_event(&mut self, event: NFSEvent)
        ensures
            final(self)@ == old(self)@.with_event(event),
    {
        let len = self.transactions.len();
        if len == 0 {
            return ;
        }
        let ghost before = self.transactions@;
        self.transactions[len - 1].events.push(event);
        assert(transactions_view(self.transactions@) =~= transactions_view(before).update(
            len - 1,
            TransactionView {
                events: transactions_view(before)[len - 1].events.push(event),
                ..transactions_view(before)[len - 1]
            },
        ));
        if self.events < u16::MAX {
            self.events += 1;
        }
    }

    /// The index of the first name entry for `handle`, or the number of
    /// entries.
    fn name_index(&self, handle: &[u8]) -> (index: usize)
        ensures
            index == spec_name_index(self@.namemap, handle@),
            index <= self.namemap@.len(),
    {
        let len = self.namemap.len();
        let mut i: usize = 0;
        assert(self@.namemap.skip(0) =~= self@.namemap);
        while i < len
            invariant
                i <= len,
                len == self.namemap@.len(),
                spec_name_index(self@.namemap, handle@) == i + spec_name_index(
                    self@.namemap.skip(i as int),
                    handle@,
                ),
            decreases len - i,
        {
            let ghost rest = self@.namemap.skip(i as int);
            assert(rest[0] == (self.namemap@[i as int].handle@, self.namemap@[i as int].name@));
            assert(rest.drop_first() =~= self@.namemap.skip(i + 1));
            if bytes_eq(self.namemap[i].handle.as_slice(), handle) {
                return i;
            }
            i += 1;
        }
        len
    }

    /// The name known for `handle`.
    pub fn name_of(&self, handle: &[u8]) -> (name: Option<Vec<u8>>)
        ensures
            match spec_name_of(self@.namemap, handle@) {
                Some(known) => name.is_some() && name.unwrap()@ == known,
                None => name.is_none(),
            },
    {
        let index = self.name_index(handle);
        if index < self.namemap.len() {
            assert(self@.namemap[index as int].1 == self.namemap@[index as int].name@);
            Some(to_vec(self.namemap[index].name.as_slice()))
        } else {
            None
        }
    }

    /// Makes `name` the name known for `handle`.
    pub fn insert_name(&mut self, handle: Vec<u8>, name: Vec<u8>)
        ensures
            final(self)@ == (StateView {
                namemap: spec_name_insert(old(self)@.namemap, handle@, name@),
                ..old(self)@
            }),
    {
        let index = self.name_index(handle.as_slice());
        let ghost before = self.namemap@;
        if index < self.namemap.len() {
            self.namemap[index].name = name;
            self.namemap[index].handle = handle;
            assert(names_view(self.namemap@) =~= names_view(before).update(
                index as int,
                (handle@, name@),
            ));
        } else {
            self.namemap.push(NameEntry { handle, name });
            assert(names_view(self.namemap@) =~= names_view(before).push((handle@, name@)));
        }
    }

    /// The index of the first waiting call under `xid`, or the number of
    /// waiting calls.
    pub fn request_index(&self, xid: u32) -> (index: usize)
        ensures
            index == spec_request_index(self@.requestmap, xid),
            index <= self.requestmap@.len(),
            index < self.requestmap@.len() ==> self.requestmap@[index as int].xid == xid,
    {
        let len = self.requestmap.len();
        let mut i: usize = 0;
        assert(self@.requestmap.skip(0) =~= self@.requestmap);
        while i < len
            invariant
                i <= len,
                len == self.requestmap@.len(),
                spec_request_index(self@.requestmap, xid) == i + spec_request_index(
                    self@.requestmap.skip(i as int),
                    xid,
                ),
            decreases len - i,
        {
            let ghost rest = self@.requestmap.skip(i as int);
            assert(rest[0] == (self.requestmap@[i as int].xid, self.requestmap@[i as int].map@));
            assert(rest.drop_first() =~= self@.requestmap.skip(i + 1));
            if self.requestmap[i].xid == xid {
                return i;
            }
            i += 1;
        }
        len
    }

    /// Takes the call that waits under `xid` out of the waiting calls.
    pub fn take_request(&mut self, xid: u32) -> (map: Option<NFSRequestXidMap>)
        ensures
            match map {
                Some(found) => {
                    let at = spec_request_index(old(self)@.requestmap, xid);
                    &&& at < old(self)@.requestmap.len()
                    &&& found@ == old(self)@.requestmap[at].1
                    &&& final(self)@ == (StateView {
                        requestmap: old(self)@.requestmap.remove(at),
                        ..old(self)@
                    })
                },
                None => spec_request_index(old(self)@.requestmap, xid) == old(self)@.requestmap.len() && final(self)@ == old(self)@,
            },
    {
        let index = self.request_index(xid);
        if index < self.requestmap.len() {
            let ghost before = self.requestmap@;
            let entry = self.requestmap.remove(index);
            assert(requests_view(self.requestmap@) =~= requests_view(before).remove(index as int));
            assert(requests_view(before)[index as int] == (entry.xid, entry.map@));
            Some(entry.map)
        } else {
            None
        }
    }

    /// Makes `map` the call that waits under `xid`.
    pub fn insert_request(&mut self, xid: u32, map: NFSRequestXidMap)
        ensures
            final(self)@ == (StateView {
                requestmap: spec_request_insert(old(self)@.requestmap, xid, map@),
                ..old(self)@
            }),
    {
        let index = self.request_index(xid);
        let ghost before = self.requestmap@;
        if index < self.requestmap.len() {
            self.requestmap[index].map = map;
            assert(requests_view(self.requestmap@) =~= requests_view(before).update(
                index as int,
                (xid, map@),
            ));
        } else {
            self.requestmap.push(RequestEntry { xid, map });
            assert(requests_view(self.requestmap@) =~= requests_view(before).push((xid, map@)));
        }
    }

    /// The index of the transaction that is the open file transfer for
    /// `handle` in `direction`, or the number of transactions.
    pub fn get_file_tx_by_handle(&self, handle: &[u8], direction: u8) -> (index: usize)
        ensures
            index == spec_file_tx_index(self@.transactions, handle@, direction),
            index <= self.transactions@.len(),
            index < self.transactions@.len() ==> self@.transactions[index as int].transfers(
                handle@,
                direction,
            ),
    {
        let len = self.transactions.len();
        let mut i: usize = 0;
        assert(self@.transactions.skip(0) =~= self@.transactions);
        while i < len
            invariant
                i <= len,
                len == self.transactions@.len(),
                spec_file_tx_index(self@.transactions, handle@, direction) == i
                    + spec_file_tx_index(self@.transactions.skip(i as int), handle@, direction),
            decreases len - i,
        {
            let ghost rest = self@.transactions.skip(i as int);
            assert(rest[0] == self.transactions@[i as int]@);
            assert(rest.drop_first() =~= self@.transactions.skip(i + 1));
            let tx = &self.transactions[i];
            if tx.is_file_tx && !tx.is_file_closed && tx.file_tx_direction == direction
                && bytes_eq(tx.file_handle.as_slice(), handle) {
                return i;
            }
            i += 1;
        }
        len
    }

    /// The index of the transaction that is no file transfer and belongs to
    /// the call `xid`, or the number of transactions.
    pub fn get_tx_by_xid(&self, xid: u32) -> (index: usize)
        ensures
            index == spec_tx_index_by_xid(self@.transactions, xid),
            index <= self.transactions@.len(),
    {
        let len = self.transactions.len();
        let mut i: usize = 0;
        assert(self@.transactions.skip(0) =~= self@.transactions);
        while i < len
            invariant
                i <= len,
                len == self.transactions@.len(),
                spec_tx_index_by_xid(self@.transactions, xid) == i + spec_tx_index_by_xid(
                    self@.transactions.skip(i as int),
                    xid,
                ),
            decreases len - i,
        {
            let ghost rest = self@.transactions.skip(i as int);
            assert(rest[0] == self.transactions@[i as int]@);
            assert(rest.drop_first() =~= self@.transactions.skip(i + 1));
            if !self.transactions[i].is_file_tx && self.transactions[i].xid == xid {
                return i;
            }
            i += 1;
        }
        len
    }

    /// Starts a file transfer for `handle` in `direction`: a file
    /// transaction under the next identifier goes to the end of the list.
    /// Returns its index.
    pub fn new_file_tx(&mut self, handle: &[u8], name: &[u8], direction: u8) -> (index: usize)
        requires
            old(self).tx_id < u64::MAX,
        ensures
            index == old(self)@.transactions.len(),
            final(self)@ == (StateView {
                tx_id: (old(self).tx_id + 1) as u64,
                transactions: old(self)@.transactions.push(
                    old(self)@.new_file_transaction(handle@, name@, direction),
                ),
                ..old(self)@
            }),
    {
        let index = self.transactions.len();
        assert(old(self)@.transactions.len() == index);
        let mut tx = self.new_tx();
        tx.file_name = to_vec(name);
        tx.file_handle = to_vec(handle);
        tx.is_file_tx = true;
        tx.file_tx_direction = direction;
        tx.type_data = Some(
            NFSTransactionTypeData::FILE(
                NFSTransactionFile {
                    chunk_count: 0,
                    file_last_xid: 0,
                    file_tracker: FileTransferTracker::new(),
                },
            ),
        );
        self.push_tx(tx);
        index
    }

    /// Fills in the file name of a waiting call from the name known for
    /// its file handle, if one is known.
    pub fn xidmap_handle2name(&self, xidmap: &mut NFSRequestXidMap)
        ensures
            final(xidmap)@ == (XidMapView {
                file_name: match spec_name_of(self@.namemap, old(xidmap)@.file_handle) {
                    Some(name) => name,
                    None => old(xidmap)@.file_name,
                },
                ..old(xidmap)@
            }),
    {
        match self.name_of(xidmap.file_handle.as_slice()) {
            Some(name) => {
                xidmap.file_name = name;
            },
            None => {},
        }
    }

    /// Notes the reply to the call `xid` on its transaction, if it has one:
    /// the transaction is done, and gets the two status codes and, where it
    /// has no file handle yet, `resp_handle`.
    pub fn mark_response_tx_done(
        &mut self,
        xid: u32,
        rpc_status: u32,
        nfs_status: u32,
        resp_handle: &[u8],
    )
        ensures
            final(self)@ == old(self)@.with_response_done(
                xid,
                rpc_status,
                nfs_status,
                resp_handle@,
            ),
    {
        let index = self.get_tx_by_xid(xid);
        if index < self.transactions.len() {
            let ghost before = self.transactions@;
            let copy = self.transactions[index].file_handle.len() == 0 && resp_handle.len() > 0;
            self.transactions[index].response_done = true;
            self.transactions[index].rpc_response_status = rpc_status;
            self.transactions[index].nfs_response_status = nfs_status;
            if copy {
                self.transactions[index].file_handle = to_vec(resp_handle);
            }
            assert(transactions_view(self.transactions@) =~= transactions_view(before).update(
                index as int,
                TransactionView {
                    response_done: true,
                    rpc_response_status: rpc_status,
                    nfs_response_status: nfs_status,
                    file_handle: if copy {
                        resp_handle@
                    } else {
                        before[index as int]@.file_handle
                    },
                    ..before[index as int]@
                },
            ));
        }
    }
}

} // verus!
