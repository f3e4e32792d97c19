use suricata::bytes::{bytes_eq, to_vec};
use suricata::nfs::filetracker::{FileContainer, FileTransferTracker};
use suricata::nfs::nfs::{NFSEvent, NFSRequestXidMap, NFSState, NFSTransactionTypeData, NfsReplyRead};
use suricata::nfs::nfs4_records::{
    parse_nfs4_request_compound, parse_nfs4_response_compound, parse_request_compound_command,
    Nfs4RequestContent, Nfs4RequestWrite, Nfs4ResponseContent, Nfs4StateId,
};
use suricata::nfs::rpc_records::{
    parse_rpc_gssapi_integrity, RpcPacket, RpcPacketHeader, RpcReplyPacket, RpcRequestCreds,
    RpcRequestCredsGssApi, RpcRequestCredsUnix,
};
use suricata::nfs::types::{
    NFSPROC4_COMMIT, NFSPROC4_COMPOUND, NFSPROC4_CREATE, NFSPROC4_GETFH, NFSPROC4_LOOKUP,
    NFSPROC4_NULL, NFSPROC4_OPEN, NFSPROC4_PUTFH, NFSPROC4_PUTROOTFH, NFSPROC4_READ,
    NFSPROC4_READDIR, NFSPROC4_REMOVE, NFSPROC4_WRITE, RPCAUTH_RPCSEC_GSS, RPCAUTH_UNIX,
};
use suricata::nfs::xdr::{advance, fill, read_opaque, read_u32, read_u64, take};
use suricata::stream::{STREAM_TOCLIENT, STREAM_TOSERVER};

fn u32be(out: &mut Vec<u8>, v: u32) {
    out.extend(&v.to_be_bytes());
}

fn u64be(out: &mut Vec<u8>, v: u64) {
    out.extend(&v.to_be_bytes());
}

fn opaque(out: &mut Vec<u8>, data: &[u8]) {
    u32be(out, data.len() as u32);
    out.extend(data);
    while out.len() % 4 != 0 {
        out.push(0);
    }
}

fn stateid(out: &mut Vec<u8>) {
    u32be(out, 7);
    out.extend(&[0xabu8; 12]);
}

fn compound_header(out: &mut Vec<u8>, ops: u32) {
    opaque(out, b"");
    u32be(out, 0);
    u32be(out, ops);
}

fn putfh(out: &mut Vec<u8>, handle: &[u8]) {
    u32be(out, NFSPROC4_PUTFH);
    opaque(out, handle);
}

fn write_op(out: &mut Vec<u8>, offset: u64, stable: u32, data: &[u8]) {
    u32be(out, NFSPROC4_WRITE);
    stateid(out);
    u64be(out, offset);
    u32be(out, stable);
    opaque(out, data);
}

fn commit_op(out: &mut Vec<u8>) {
    u32be(out, NFSPROC4_COMMIT);
    u64be(out, 0);
    u32be(out, 0);
}

fn attrs(out: &mut Vec<u8>) {
    u32be(out, 2);
    u32be(out, 0x10);
    u32be(out, 0x02);
    opaque(out, &[0, 0, 1, 0xa4]);
}

fn call<'a>(xid: u32, procedure: u32, creds: RpcRequestCreds<'a>, prog_data: &'a [u8]) -> RpcPacket<'a> {
    RpcPacket {
        hdr: RpcPacketHeader { frag_is_last: true, frag_len: 0, xid, msgtype: 0 },
        rpcver: 2,
        program: 100003,
        progver: 4,
        procedure,
        creds_flavor: match creds {
            RpcRequestCreds::Unix(_) => RPCAUTH_UNIX,
            RpcRequestCreds::GssApi(_) => RPCAUTH_RPCSEC_GSS,
            RpcRequestCreds::Unknown(_) => 0,
        },
        creds_len: 0,
        creds,
        verifier_flavor: 0,
        verifier_len: 0,
        verifier: &[],
        prog_data,
    }
}

fn unix_creds() -> RpcRequestCreds<'static> {
    RpcRequestCreds::Unix(RpcRequestCredsUnix {
        stamp: 1,
        machine_name_len: 4,
        machine_name_buf: b"host",
        uid: 1000,
        gid: 100,
    })
}

fn reply<'a>(xid: u32, prog_data: &'a [u8]) -> RpcReplyPacket<'a> {
    RpcReplyPacket {
        hdr: RpcPacketHeader { frag_is_last: true, frag_len: 0, xid, msgtype: 1 },
        verifier_flavor: 0,
        verifier_len: 0,
        verifier: None,
        reply_state: 0,
        accept_state: 0,
        prog_data,
    }
}

fn file_of(state: &NFSState, at: usize) -> suricata::nfs::nfs::NFSTransactionFile {
    match &state.transactions[at].type_data {
        Some(NFSTransactionTypeData::FILE(file)) => *file,
        _ => panic!("no file transaction"),
    }
}

#[test]
fn test_xdr_readers() {
    assert_eq!(read_u32(&[1, 2, 3, 4, 5], 0), Some(0x01020304));
    assert_eq!(read_u32(&[1, 2, 3], 0), None);
    assert_eq!(read_u32(&[1, 2, 3, 4], 9), None);
    assert_eq!(advance(&[1, 2, 3], 1, 2), Some(3));
    assert_eq!(advance(&[1, 2, 3], 1, 3), None);
    assert_eq!(take(&[1, 2, 3], 1, 2), Some(&[2u8, 3][..]));
    assert_eq!(take(&[1, 2, 3], 2, 2), None);
    assert_eq!(to_vec(&[7, 8]), vec![7, 8]);
    assert!(bytes_eq(b"abc", b"abc"));
    assert!(!bytes_eq(b"abc", b"abd"));
    assert!(!bytes_eq(b"abc", b"ab"));
    assert_eq!(read_u32(&[9, 0, 0, 1, 0], 1), Some(0x100));
    assert_eq!(read_u32(&[9, 0, 0, 1, 0], 2), None);
    assert_eq!(read_u64(&[0, 0, 0, 1, 0, 0, 0, 2], 0), Some(0x1_0000_0002));
    assert_eq!(read_u64(&[0, 0, 0, 1, 0, 0, 0], 0), None);
    assert_eq!(fill(0), 0);
    assert_eq!(fill(1), 3);
    assert_eq!(fill(2), 2);
    assert_eq!(fill(3), 1);
    assert_eq!(fill(4096), 0);
    let data = [0, 0, 0, 3, 0x61, 0x62, 0x63, 0, 0xff];
    assert_eq!(read_opaque(&data, 0), Some((&b"abc"[..], 8)));
    // The padding has to be there too.
    assert_eq!(read_opaque(&data[..7], 0), None);
    assert_eq!(read_opaque(&[0, 0, 0, 0], 0), Some((&b""[..], 4)));
}

#[test]
fn test_gssapi_integrity() {
    let mut wrapped = Vec::new();
    u32be(&mut wrapped, 8);
    u32be(&mut wrapped, 99);
    wrapped.extend(&[1, 2, 3, 4, 0xee, 0xee]);
    let rec = parse_rpc_gssapi_integrity(&wrapped).unwrap();
    assert_eq!(rec.seq_num, 99);
    assert_eq!(rec.data, &[1, 2, 3, 4]);
    // A length that does not even hold the sequence number.
    assert!(parse_rpc_gssapi_integrity(&[0, 0, 0, 3, 0, 0, 0, 1, 5, 5]).is_none());
    // A length that leaves the input.
    assert!(parse_rpc_gssapi_integrity(&[0, 0, 0, 9, 0, 0, 0, 1, 5, 5, 5, 5]).is_none());
    assert!(parse_rpc_gssapi_integrity(&[0, 0, 0, 4]).is_none());
}

#[test]
fn test_parse_request_operations() {
    let mut data = Vec::new();
    compound_header(&mut data, 6);
    putfh(&mut data, b"handle01");
    u32be(&mut data, NFSPROC4_LOOKUP);
    opaque(&mut data, b"dir");
    u32be(&mut data, NFSPROC4_OPEN);
    u32be(&mut data, 1);
    u32be(&mut data, 2);
    u32be(&mut data, 0);
    u64be(&mut data, 0x1122);
    opaque(&mut data, b"owner");
    u32be(&mut data, 1);
    u32be(&mut data, 0);
    attrs(&mut data);
    u32be(&mut data, 0);
    opaque(&mut data, b"file.txt");
    u32be(&mut data, NFSPROC4_GETFH);
    u32be(&mut data, NFSPROC4_READ);
    stateid(&mut data);
    u64be(&mut data, 8192);
    u32be(&mut data, 4096);
    u32be(&mut data, NFSPROC4_REMOVE);
    opaque(&mut data, b"old");
    let record = parse_nfs4_request_compound(&data).unwrap();
    assert_eq!(record.commands.len(), 6);
    match record.commands[0] {
        Nfs4RequestContent::PutFH(h) => {
            assert_eq!(h.value, b"handle01");
            assert_eq!(h.len, 8);
        }
        _ => panic!("not PUTFH"),
    }
    match record.commands[1] {
        Nfs4RequestContent::Lookup(l) => assert_eq!(l.filename, b"dir"),
        _ => panic!("not LOOKUP"),
    }
    match record.commands[2] {
        Nfs4RequestContent::Open(o) => {
            assert_eq!(o.open_type, 1);
            assert_eq!(o.filename, b"file.txt");
        }
        _ => panic!("not OPEN"),
    }
    assert_eq!(record.commands[3], Nfs4RequestContent::GetFH);
    match record.commands[4] {
        Nfs4RequestContent::Read(rd) => {
            assert_eq!(rd.offset, 8192);
            assert_eq!(rd.count, 4096);
            assert_eq!(rd.stateid, Nfs4StateId { seqid: 7, data: &[0xab; 12] });
        }
        _ => panic!("not READ"),
    }
    assert_eq!(record.commands[5], Nfs4RequestContent::Remove(b"old"));
    // One operation fewer than announced.
    data.truncate(data.len() - 8);
    assert!(parse_nfs4_request_compound(&data).is_none());
}

#[test]
fn test_parse_request_unknown_operation() {
    let mut data = Vec::new();
    u32be(&mut data, 9999);
    assert!(parse_request_compound_command(&data, 0).is_none());
    assert!(parse_request_compound_command(&data[..3], 0).is_none());
    let mut data = Vec::new();
    compound_header(&mut data, 1);
    u32be(&mut data, 9999);
    assert!(parse_nfs4_request_compound(&data).is_none());
    assert!(parse_nfs4_request_compound(&[]).is_none());
}

#[test]
fn test_parse_write_keeps_length_and_data() {
    let mut data = Vec::new();
    write_op(&mut data, 77, 2, b"hello");
    let (op, next) = parse_request_compound_command(&data, 0).unwrap();
    assert_eq!(next, data.len());
    assert_eq!(next, 4 + 16 + 8 + 4 + 4 + 8);
    match op {
        Nfs4RequestContent::Write(w) => {
            assert_eq!(w.offset, 77);
            assert_eq!(w.stable, 2);
            assert_eq!(w.write_len, 5);
            assert_eq!(w.data, b"hello");
        }
        _ => panic!("not WRITE"),
    }
}

#[test]
fn test_parse_response_operations() {
    let mut data = Vec::new();
    u32be(&mut data, 0);
    opaque(&mut data, b"");
    u32be(&mut data, 5);
    u32be(&mut data, NFSPROC4_PUTROOTFH);
    u32be(&mut data, 0);
    u32be(&mut data, NFSPROC4_GETFH);
    u32be(&mut data, 0);
    opaque(&mut data, b"fh");
    u32be(&mut data, NFSPROC4_READ);
    u32be(&mut data, 0);
    u32be(&mut data, 1);
    opaque(&mut data, b"abcde");
    u32be(&mut data, NFSPROC4_READDIR);
    u32be(&mut data, 0);
    u64be(&mut data, 0);
    u32be(&mut data, 1);
    u64be(&mut data, 11);
    opaque(&mut data, b"one");
    attrs(&mut data);
    u32be(&mut data, 1);
    u64be(&mut data, 12);
    opaque(&mut data, b"two");
    attrs(&mut data);
    u32be(&mut data, 0);
    u32be(&mut data, 1);
    u32be(&mut data, NFSPROC4_REMOVE);
    u32be(&mut data, 13);
    let record = parse_nfs4_response_compound(&data).unwrap();
    assert_eq!(record.status, 0);
    assert_eq!(record.commands.len(), 5);
    assert!(matches!(record.commands[0], Nfs4ResponseContent::PutRootFH(0)));
    match &record.commands[1] {
        Nfs4ResponseContent::GetFH(0, Some(h)) => assert_eq!(h.value, b"fh"),
        _ => panic!("not GETFH"),
    }
    match &record.commands[2] {
        Nfs4ResponseContent::Read(0, Some(rd)) => {
            assert!(rd.eof);
            assert_eq!(rd.count, 5);
            assert_eq!(rd.data, b"abcde");
        }
        _ => panic!("not READ"),
    }
    match &record.commands[3] {
        Nfs4ResponseContent::ReadDir(0, Some(dir)) => {
            assert!(dir.eof);
            assert_eq!(dir.listing.len(), 2);
            assert_eq!(dir.listing[0].name, b"one");
            assert_eq!(dir.listing[1].name, b"two");
        }
        _ => panic!("not READDIR"),
    }
    // A failed REMOVE returns its status and nothing else.
    assert!(matches!(record.commands[4], Nfs4ResponseContent::Remove(13)));
    assert!(parse_nfs4_response_compound(&data[..data.len() - 1]).is_none());
}

#[test]
fn test_write_file_sync_then_commit() {
    let handle = b"filehandle-0001!";
    let content: Vec<u8> = (0..4096u32).map(|i| (i % 251) as u8).collect();
    let mut first = Vec::new();
    compound_header(&mut first, 2);
    putfh(&mut first, handle);
    write_op(&mut first, 0, 2, &content);
    let mut second = Vec::new();
    compound_header(&mut second, 2);
    putfh(&mut second, handle);
    commit_op(&mut second);

    let mut state = NFSState::new();
    assert_eq!(state.process_request_record_v4(&call(10, NFSPROC4_COMPOUND, unix_creds(), &first)), 0);
    assert_eq!(state.transactions.len(), 1);
    assert_eq!(state.files.files_ts.files.len(), 1);
    {
        let tx = &state.transactions[0];
        assert!(tx.is_file_tx);
        assert_eq!(tx.id, 1);
        assert_eq!(tx.xid, 10);
        assert_eq!(tx.procedure, NFSPROC4_WRITE);
        assert_eq!(tx.nfs_version, 4);
        assert_eq!(tx.file_handle, handle.to_vec());
        assert_eq!(tx.file_tx_direction, STREAM_TOSERVER);
        assert!(tx.is_first);
        assert!(tx.is_last);
        assert!(tx.request_done);
        let file = file_of(&state, 0);
        assert_eq!(file.file_last_xid, 10);
        assert_eq!(file.chunk_count, 0);
        assert_eq!(file.file_tracker.file_size, 4096);
        assert!(!file.file_tracker.file_open);
        assert_eq!(file.file_tracker.chunk_left, 0);
        assert_eq!(file.file_tracker.dropped, 0);
    }
    assert_eq!(state.files.files_ts.files[0].data, content);
    assert!(state.files.files_ts.files[0].closed);
    assert_eq!(state.ts_chunk_xid, 10);
    assert_eq!(state.ts_chunk_left, 0);

    assert_eq!(state.process_request_record_v4(&call(11, NFSPROC4_COMPOUND, unix_creds(), &second)), 0);
    // Still one transaction and one file, now closed by the COMMIT too.
    assert_eq!(state.transactions.len(), 1);
    assert_eq!(state.files.files_ts.files.len(), 1);
    assert_eq!(state.files.files_ts.files[0].data.len(), 4096);
    assert!(state.files.files_ts.files[0].closed);
    assert!(state.files.files_tc.files.is_empty());
    let file = file_of(&state, 0);
    assert_eq!(file.file_last_xid, 11);
    assert!(!file.file_tracker.file_open);
    assert!(state.transactions[0].is_last);
    assert!(state.transactions[0].request_done);
    assert_eq!(state.requestmap.len(), 2);
    assert_eq!(state.events, 0);
}

#[test]
fn test_unstable_writes_then_commit() {
    let handle = b"fh-2";
    let mut state = NFSState::new();
    for (i, chunk) in [&b"aaaa"[..], &b"bbbbbb"[..], &b"cc"[..]].iter().enumerate() {
        let offset: u64 = [0u64, 4, 10][i];
        let mut data = Vec::new();
        compound_header(&mut data, 2);
        putfh(&mut data, handle);
        write_op(&mut data, offset, 0, chunk);
        state.process_request_record_v4(&call(20 + i as u32, NFSPROC4_COMPOUND, unix_creds(), &data));
    }
    assert_eq!(state.transactions.len(), 1);
    assert_eq!(state.files.files_ts.files[0].data, b"aaaabbbbbbcc".to_vec());
    assert!(!state.files.files_ts.files[0].closed);
    let file = file_of(&state, 0);
    assert_eq!(file.chunk_count, 2);
    assert_eq!(file.file_tracker.file_size, 12);
    assert!(file.file_tracker.file_open);
    assert_eq!(file.file_tracker.fill_bytes, 2);
    assert!(!state.transactions[0].is_last);
    assert!(!state.transactions[0].request_done);
    // A chunk that does not go on where the file stands is dropped.
    let mut data = Vec::new();
    compound_header(&mut data, 2);
    putfh(&mut data, handle);
    write_op(&mut data, 100, 0, b"zz");
    state.process_request_record_v4(&call(30, NFSPROC4_COMPOUND, unix_creds(), &data));
    assert_eq!(state.transactions.len(), 1);
    assert_eq!(state.files.files_ts.files.len(), 1);
    assert_eq!(state.files.files_ts.files[0].data.len(), 12);
    assert_eq!(file_of(&state, 0).file_tracker.dropped, 1);
    assert_eq!(file_of(&state, 0).chunk_count, 3);
    let mut data = Vec::new();
    compound_header(&mut data, 2);
    putfh(&mut data, handle);
    commit_op(&mut data);
    state.process_request_record_v4(&call(31, NFSPROC4_COMPOUND, unix_creds(), &data));
    assert!(state.files.files_ts.files[0].closed);
    assert!(state.transactions[0].is_last);
    assert!(state.transactions[0].request_done);
    assert_eq!(file_of(&state, 0).file_last_xid, 31);
}

#[test]
fn test_write_without_putfh_is_ignored() {
    let mut data = Vec::new();
    compound_header(&mut data, 2);
    write_op(&mut data, 0, 2, b"data");
    commit_op(&mut data);
    let mut state = NFSState::new();
    state.process_request_record_v4(&call(1, NFSPROC4_COMPOUND, unix_creds(), &data));
    assert!(state.transactions.is_empty());
    assert!(state.files.files_ts.files.is_empty());
    assert_eq!(state.requestmap.len(), 1);
    assert_eq!(state.requestmap[0].xid, 1);
}

#[test]
fn test_write_v4_accounts_for_the_announced_length() {
    let mut state = NFSState::new();
    let r = call(5, NFSPROC4_COMPOUND, unix_creds(), &[]);
    // A record that carries 6 of the 10 octets it announces.
    let w = Nfs4RequestWrite {
        stateid: Nfs4StateId { seqid: 0, data: &[0; 12] },
        offset: 0,
        stable: 0,
        write_len: 10,
        data: b"abcdef",
    };
    state.write_v4(&r, &w, b"fh");
    assert_eq!(state.ts_chunk_xid, 5);
    assert_eq!(state.ts_chunk_left, 4);
    assert_eq!(state.files.files_ts.files[0].data, b"abcdef".to_vec());
    assert_eq!(file_of(&state, 0).file_tracker.chunk_left, 4);
    assert_eq!(file_of(&state, 0).file_tracker.fill_bytes, 2);
    // A record that carries more than it announces: the rest is not file data.
    let w = Nfs4RequestWrite { offset: 6, write_len: 2, data: b"ghXX", ..w };
    state.write_v4(&r, &w, b"fh");
    assert_eq!(state.ts_chunk_left, 0);
    assert_eq!(state.files.files_ts.files[0].data, b"abcdefgh".to_vec());
}

#[test]
fn test_create_makes_a_transaction_and_reply_ends_it() {
    let mut data = Vec::new();
    compound_header(&mut data, 2);
    putfh(&mut data, b"dirfh");
    u32be(&mut data, NFSPROC4_CREATE);
    u32be(&mut data, 2);
    opaque(&mut data, b"newdir");
    attrs(&mut data);
    let mut state = NFSState::new();
    state.process_request_record_v4(&call(40, NFSPROC4_COMPOUND, unix_creds(), &data));
    assert_eq!(state.transactions.len(), 1);
    let tx = &state.transactions[0];
    assert!(!tx.is_file_tx);
    assert_eq!(tx.procedure, NFSPROC4_CREATE);
    assert_eq!(tx.xid, 40);
    assert_eq!(tx.file_name, b"newdir".to_vec());
    assert_eq!(tx.file_handle, b"dirfh".to_vec());
    assert_eq!(tx.auth_type, RPCAUTH_UNIX);
    assert_eq!(tx.request_machine_name, b"host".to_vec());
    assert_eq!(tx.request_uid, 1000);
    assert_eq!(tx.request_gid, 100);
    assert!(tx.request_done);
    assert!(!tx.response_done);
    assert_eq!(state.requestmap[0].map.file_name, b"newdir".to_vec());

    let mut res = Vec::new();
    u32be(&mut res, 0);
    opaque(&mut res, b"");
    u32be(&mut res, 2);
    u32be(&mut res, NFSPROC4_PUTFH);
    u32be(&mut res, 0);
    u32be(&mut res, NFSPROC4_CREATE);
    u32be(&mut res, 17);
    let mut xidmap = NFSRequestXidMap::new(4, NFSPROC4_COMPOUND, 0);
    let mut rp = reply(40, &res);
    rp.reply_state = 3;
    assert_eq!(state.process_reply_record_v4(&rp, &mut xidmap), 0);
    let tx = &state.transactions[0];
    assert!(tx.response_done);
    assert_eq!(tx.nfs_response_status, 17);
    assert_eq!(tx.rpc_response_status, 3);
}

#[test]
fn test_open_reply_binds_name_and_read_finds_it() {
    let mut state = NFSState::new();
    // The reply to an OPEN of "file.bin": OPEN, then GETFH.
    let mut res = Vec::new();
    u32be(&mut res, 0);
    opaque(&mut res, b"");
    u32be(&mut res, 2);
    u32be(&mut res, NFSPROC4_OPEN);
    u32be(&mut res, 0);
    stateid(&mut res);
    res.extend(&[0u8; 20]);
    u32be(&mut res, 4);
    u32be(&mut res, 0);
    u32be(&mut res, 0);
    u32be(&mut res, NFSPROC4_GETFH);
    u32be(&mut res, 0);
    opaque(&mut res, b"fh-open1");
    let mut xidmap = NFSRequestXidMap::new(4, NFSPROC4_COMPOUND, 0);
    xidmap.file_name = b"file.bin".to_vec();
    state.process_reply_record_v4(&reply(50, &res), &mut xidmap);
    assert_eq!(state.namemap.len(), 1);
    assert_eq!(state.name_of(b"fh-open1"), Some(b"file.bin".to_vec()));
    assert_eq!(state.name_of(b"other"), None);
    // A GETFH without an OPEN before it binds nothing.
    let mut res = Vec::new();
    u32be(&mut res, 0);
    opaque(&mut res, b"");
    u32be(&mut res, 1);
    u32be(&mut res, NFSPROC4_GETFH);
    u32be(&mut res, 0);
    opaque(&mut res, b"fh-other");
    state.process_reply_record_v4(&reply(51, &res), &mut xidmap);
    assert_eq!(state.namemap.len(), 1);

    // A READ call for that handle picks the name up.
    let mut data = Vec::new();
    compound_header(&mut data, 2);
    putfh(&mut data, b"fh-open1");
    u32be(&mut data, NFSPROC4_READ);
    stateid(&mut data);
    u64be(&mut data, 0);
    u32be(&mut data, 8);
    state.process_request_record_v4(&call(52, NFSPROC4_COMPOUND, unix_creds(), &data));
    let at = state.request_index(52);
    assert_eq!(state.requestmap[at].map.file_name, b"file.bin".to_vec());
    assert_eq!(state.requestmap[at].map.file_handle, b"fh-open1".to_vec());
    assert_eq!(state.requestmap[at].map.chunk_offset, 0);
    assert!(state.transactions.is_empty());

    // Its reply carries the data.
    let mut res = Vec::new();
    u32be(&mut res, 0);
    opaque(&mut res, b"");
    u32be(&mut res, 2);
    u32be(&mut res, NFSPROC4_PUTFH);
    u32be(&mut res, 0);
    u32be(&mut res, NFSPROC4_READ);
    u32be(&mut res, 0);
    u32be(&mut res, 1);
    opaque(&mut res, b"contents");
    let mut xidmap = NFSRequestXidMap::new(4, NFSPROC4_COMPOUND, 0);
    xidmap.file_name = b"file.bin".to_vec();
    xidmap.file_handle = b"fh-open1".to_vec();
    state.process_reply_record_v4(&reply(52, &res), &mut xidmap);
    assert_eq!(state.transactions.len(), 1);
    let tx = &state.transactions[0];
    assert!(tx.is_file_tx);
    assert_eq!(tx.file_tx_direction, STREAM_TOCLIENT);
    assert_eq!(tx.procedure, NFSPROC4_READ);
    assert_eq!(tx.file_name, b"file.bin".to_vec());
    assert!(tx.is_first && tx.is_last && tx.request_done && tx.response_done);
    assert_eq!(state.files.files_tc.files[0].name, b"file.bin".to_vec());
    assert_eq!(state.files.files_tc.files[0].data, b"contents".to_vec());
    assert!(state.files.files_tc.files[0].closed);
    assert_eq!(state.tc_chunk_xid, 52);
    assert_eq!(state.tc_chunk_left, 0);
    assert!(state.files.files_ts.files.is_empty());
}

#[test]
fn test_read_record_partial() {
    let mut state = NFSState::new();
    let mut xidmap = NFSRequestXidMap::new(3, 6, 0);
    xidmap.file_handle = b"h".to_vec();
    let rd = NfsReplyRead {
        status: 0,
        attr_follows: 0,
        attr_blob: &[],
        count: 10,
        eof: true,
        data_len: 4,
        data: b"abcd",
    };
    assert_eq!(state.process_read_record(&reply(9, &[]), &rd, &xidmap), 0);
    let tx = &state.transactions[0];
    // NFSv3 by the version of the call.
    assert_eq!(tx.procedure, 6);
    assert!(tx.is_last && tx.request_done);
    assert!(!tx.response_done);
    // 10 octets and 2 of padding announced, 4 carried.
    assert_eq!(state.tc_chunk_left, 8);
    state.is_udp = true;
    state.tc_chunk_left = 0;
    state.tc_chunk_xid = 0;
    let rd = NfsReplyRead { count: 2, eof: false, data: b"ef", ..rd };
    xidmap.chunk_offset = 4;
    state.process_read_record(&reply(10, &[]), &rd, &xidmap);
    assert_eq!(state.tc_chunk_xid, 0);
    assert_eq!(state.tc_chunk_left, 0);
}

#[test]
fn test_putrootfh_names_the_mount_root() {
    let mut res = Vec::new();
    u32be(&mut res, 0);
    opaque(&mut res, b"");
    u32be(&mut res, 1);
    u32be(&mut res, NFSPROC4_PUTROOTFH);
    u32be(&mut res, 0);
    let mut state = NFSState::new();
    let mut xidmap = NFSRequestXidMap::new(4, NFSPROC4_COMPOUND, 0);
    state.process_reply_record_v4(&reply(1, &res), &mut xidmap);
    assert_eq!(xidmap.file_name, b"<mount_root>".to_vec());
    let mut named = NFSRequestXidMap::new(4, NFSPROC4_COMPOUND, 0);
    named.file_name = b"x".to_vec();
    state.process_reply_record_v4(&reply(1, &res), &mut named);
    assert_eq!(named.file_name, b"x".to_vec());
    // Not a COMPOUND: nothing is looked at.
    let mut other = NFSRequestXidMap::new(4, NFSPROC4_NULL, 0);
    state.process_reply_record_v4(&reply(1, &res), &mut other);
    assert!(other.file_name.is_empty());
}

#[test]
fn test_malformed_compound_raises_event() {
    let mut state = NFSState::new();
    // Without a transaction the event is lost; the call still waits.
    state.process_request_record_v4(&call(1, NFSPROC4_COMPOUND, unix_creds(), &[1, 2, 3]));
    assert_eq!(state.events, 0);
    assert_eq!(state.requestmap.len(), 1);
    let mut data = Vec::new();
    compound_header(&mut data, 1);
    u32be(&mut data, NFSPROC4_REMOVE);
    opaque(&mut data, b"gone");
    state.process_request_record_v4(&call(2, NFSPROC4_COMPOUND, unix_creds(), &data));
    assert_eq!(state.transactions.len(), 1);
    assert_eq!(state.transactions[0].procedure, NFSPROC4_REMOVE);
    assert_eq!(state.transactions[0].file_name, b"gone".to_vec());
    state.process_request_record_v4(&call(3, NFSPROC4_COMPOUND, unix_creds(), &[1, 2, 3]));
    assert_eq!(state.transactions[0].events, vec![NFSEvent::MalformedData]);
    assert_eq!(state.events, 1);
    let mut xidmap = NFSRequestXidMap::new(4, NFSPROC4_COMPOUND, 0);
    state.process_reply_record_v4(&reply(3, &[0, 0]), &mut xidmap);
    assert_eq!(state.events, 2);
    assert_eq!(state.requestmap.len(), 3);
}

#[test]
fn test_gss_integrity_call_and_reply() {
    let mut inner = Vec::new();
    compound_header(&mut inner, 1);
    u32be(&mut inner, NFSPROC4_REMOVE);
    opaque(&mut inner, b"secret");
    let mut wrapped = Vec::new();
    u32be(&mut wrapped, inner.len() as u32 + 4);
    u32be(&mut wrapped, 1);
    wrapped.extend(&inner);
    opaque(&mut wrapped, b"checksum");
    let creds = RpcRequestCreds::GssApi(RpcRequestCredsGssApi {
        version: 1,
        procedure: 0,
        seq_num: 1,
        service: 2,
        ctx: b"ctx",
    });
    let mut state = NFSState::new();
    state.process_request_record_v4(&call(60, NFSPROC4_COMPOUND, creds, &wrapped));
    assert_eq!(state.transactions.len(), 1);
    assert_eq!(state.transactions[0].file_name, b"secret".to_vec());
    assert_eq!(state.transactions[0].auth_type, RPCAUTH_RPCSEC_GSS);
    assert!(state.transactions[0].request_machine_name.is_empty());
    assert_eq!(state.requestmap[0].map.gssapi_proc, 0);
    assert_eq!(state.requestmap[0].map.gssapi_service, 2);
    // Not wrapped although the credentials say so: malformed, and forgotten.
    state.process_request_record_v4(&call(61, NFSPROC4_COMPOUND, creds, &[0, 0, 0, 1]));
    assert_eq!(state.requestmap.len(), 1);
    assert_eq!(state.transactions[0].events, vec![NFSEvent::MalformedData]);
    // Without integrity the data is taken as it is.
    let plain = RpcRequestCreds::GssApi(RpcRequestCredsGssApi {
        version: 1,
        procedure: 0,
        seq_num: 1,
        service: 1,
        ctx: b"ctx",
    });
    state.process_request_record_v4(&call(62, NFSPROC4_COMPOUND, plain, &inner));
    assert_eq!(state.transactions.len(), 2);

    // The reply is unwrapped as the call was.
    let mut res = Vec::new();
    u32be(&mut res, 0);
    opaque(&mut res, b"");
    u32be(&mut res, 1);
    u32be(&mut res, NFSPROC4_REMOVE);
    u32be(&mut res, 0);
    res.extend(&[0u8; 20]);
    let mut wrapped = Vec::new();
    u32be(&mut wrapped, res.len() as u32 + 4);
    u32be(&mut wrapped, 1);
    wrapped.extend(&res);
    let mut xidmap = NFSRequestXidMap::new(4, NFSPROC4_COMPOUND, 0);
    xidmap.gssapi_proc = 0;
    xidmap.gssapi_service = 2;
    state.process_reply_record_v4(&reply(60, &wrapped), &mut xidmap);
    assert!(state.transactions[0].response_done);
    assert!(!state.transactions[1].response_done);
}

#[test]
fn test_null_procedure_only_waits() {
    let mut state = NFSState::new();
    state.process_request_record_v4(&call(70, NFSPROC4_NULL, unix_creds(), &[1, 2, 3]));
    assert!(state.transactions.is_empty());
    assert_eq!(state.requestmap.len(), 1);
    assert_eq!(state.requestmap[0].map.procedure, NFSPROC4_NULL);
    // The same XID again takes the place of the first.
    state.process_request_record_v4(&call(70, NFSPROC4_COMPOUND, unix_creds(), &[]));
    assert_eq!(state.requestmap.len(), 1);
    assert_eq!(state.requestmap[0].map.procedure, NFSPROC4_COMPOUND);
}

#[test]
fn test_readdir_request_is_ignored() {
    let mut data = Vec::new();
    compound_header(&mut data, 2);
    putfh(&mut data, b"dir");
    u32be(&mut data, NFSPROC4_READDIR);
    u64be(&mut data, 0);
    u64be(&mut data, 0);
    u32be(&mut data, 512);
    u32be(&mut data, 4096);
    u32be(&mut data, 1);
    u32be(&mut data, 0x18);
    let record = parse_nfs4_request_compound(&data).unwrap();
    assert_eq!(record.commands[1], Nfs4RequestContent::ReadDir);
    let mut state = NFSState::new();
    state.process_request_record_v4(&call(1, NFSPROC4_COMPOUND, unix_creds(), &data));
    assert!(state.transactions.is_empty());
}

#[test]
fn test_tracker_chunks() {
    let mut files = FileContainer::new();
    let mut tracker = FileTransferTracker::new();
    tracker.new_chunk(&mut files, b"n", b"abc", 0, 3, 1, false);
    assert!(tracker.file_open);
    assert_eq!(tracker.file_size, 3);
    assert_eq!(tracker.fill_bytes, 1);
    tracker.new_chunk(&mut files, b"n", b"de", 3, 2, 2, true);
    assert!(!tracker.file_open);
    assert!(tracker.chunk_is_last);
    assert_eq!(files.files.len(), 1);
    assert_eq!(files.files[0].name, b"n".to_vec());
    assert_eq!(files.files[0].data, b"abcde".to_vec());
    assert!(files.files[0].closed);
    // After the end a new chunk starts a new file.
    tracker.new_chunk(&mut files, b"m", b"xy", 0, 2, 2, false);
    assert_eq!(files.files.len(), 2);
    assert_eq!(tracker.track_id, 1);
    tracker.close(&mut files);
    assert!(files.files[1].closed);
    assert!(!tracker.file_open);
    tracker.close(&mut files);
    assert_eq!(tracker.dropped, 0);
}

#[test]
fn test_identifiers_run_out_for_nfs() {
    let mut state = NFSState::new();
    state.tx_id = u64::MAX;
    let mut data = Vec::new();
    compound_header(&mut data, 3);
    putfh(&mut data, b"fh");
    write_op(&mut data, 0, 2, b"data");
    u32be(&mut data, NFSPROC4_REMOVE);
    opaque(&mut data, b"x");
    state.process_request_record_v4(&call(1, NFSPROC4_COMPOUND, unix_creds(), &data));
    assert!(state.transactions.is_empty());
    assert!(state.files.files_ts.files.is_empty());
    assert_eq!(state.tx_id, u64::MAX);
    assert_eq!(state.ts_chunk_xid, 1);
}

#[test]
fn test_reply_finds_its_call() {
    let mut data = Vec::new();
    compound_header(&mut data, 1);
    u32be(&mut data, NFSPROC4_REMOVE);
    opaque(&mut data, b"victim");
    let mut state = NFSState::new();
    state.process_request_record_v4(&call(80, NFSPROC4_COMPOUND, unix_creds(), &data));
    state.process_request_record_v4(&call(81, NFSPROC4_NULL, unix_creds(), &[]));
    assert_eq!(state.requestmap.len(), 2);
    let mut res = Vec::new();
    u32be(&mut res, 0);
    opaque(&mut res, b"");
    u32be(&mut res, 1);
    u32be(&mut res, NFSPROC4_REMOVE);
    u32be(&mut res, 2);
    // No call waits under this XID: nothing happens.
    assert_eq!(state.process_reply_record(&reply(99, &res)), 0);
    assert_eq!(state.requestmap.len(), 2);
    assert!(!state.transactions[0].response_done);
    // The reply to the REMOVE.
    assert_eq!(state.process_reply_record(&reply(80, &res)), 0);
    assert_eq!(state.requestmap.len(), 1);
    assert_eq!(state.requestmap[0].xid, 81);
    assert!(state.transactions[0].response_done);
    assert_eq!(state.transactions[0].nfs_response_status, 2);
    // A second reply under the same XID finds no call any more.
    state.transactions[0].nfs_response_status = 0;
    state.process_reply_record(&reply(80, &res));
    assert_eq!(state.transactions[0].nfs_response_status, 0);
    // The reply to the NULL call is not dissected.
    state.process_reply_record(&reply(81, &[1, 2, 3]));
    assert!(state.requestmap.is_empty());
    assert_eq!(state.events, 0);
    assert!(state.take_request(81).is_none());
}

#[test]
fn test_one_open_transfer_for_each_file_and_direction() {
    let mut state = NFSState::new();
    for (xid, handle) in [(1u32, &b"fh-a"[..]), (2, b"fh-b"), (3, b"fh-a"), (4, b"fh-b")] {
        let mut data = Vec::new();
        compound_header(&mut data, 2);
        putfh(&mut data, handle);
        let offset = if xid <= 2 { 0 } else { 2 };
        write_op(&mut data, offset, 0, b"xy");
        state.process_request_record_v4(&call(xid, NFSPROC4_COMPOUND, unix_creds(), &data));
    }
    assert_eq!(state.transactions.len(), 2);
    assert_eq!(state.files.files_ts.files.len(), 2);
    assert_eq!(state.files.files_ts.files[0].data, b"xyxy".to_vec());
    assert_eq!(state.files.files_ts.files[1].data, b"xyxy".to_vec());
    // The same handle in the other direction is another transfer.
    let mut xidmap = NFSRequestXidMap::new(4, NFSPROC4_COMPOUND, 0);
    xidmap.file_handle = b"fh-a".to_vec();
    let rd = NfsReplyRead {
        status: 0,
        attr_follows: 0,
        attr_blob: &[],
        count: 2,
        eof: false,
        data_len: 2,
        data: b"zz",
    };
    state.process_read_record(&reply(5, &[]), &rd, &xidmap);
    assert_eq!(state.transactions.len(), 3);
    assert_eq!(state.get_file_tx_by_handle(b"fh-a", STREAM_TOSERVER), 0);
    assert_eq!(state.get_file_tx_by_handle(b"fh-b", STREAM_TOSERVER), 1);
    assert_eq!(state.get_file_tx_by_handle(b"fh-a", STREAM_TOCLIENT), 2);
    assert_eq!(state.get_file_tx_by_handle(b"fh-b", STREAM_TOCLIENT), 3);
    assert_eq!(state.get_tx_by_xid(1), 3);
    let ids: Vec<u64> = state.transactions.iter().map(|tx| tx.id).collect();
    assert_eq!(ids, vec![1, 2, 3]);
}
