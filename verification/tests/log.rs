use suricata::dns::dns::{
    rs_dns_parse_request, rs_dns_parse_request_tcp, rs_dns_parse_response,
    rs_dns_parse_response_tcp, rs_dns_probe, rs_dns_probe_tcp, rs_dns_state_free,
    rs_dns_state_get_events, rs_dns_state_get_tx, rs_dns_state_get_tx_count,
    rs_dns_state_get_tx_detect_state, rs_dns_state_new, rs_dns_state_progress_completion_status,
    rs_dns_state_set_tx_detect_state, rs_dns_state_tcp_new, rs_dns_state_tx_free,
    rs_dns_tx_get_alstate_progress, rs_dns_tx_get_detect_flags, rs_dns_tx_get_logged,
    rs_dns_tx_get_query_name, rs_dns_tx_get_query_rrtype, rs_dns_tx_get_response_flags,
    rs_dns_tx_get_tx_id, rs_dns_tx_set_detect_flags, rs_dns_tx_set_logged, DNSEvent, DNSState,
};
use suricata::dns::log::{dns_print_addr, dns_rrtype_string};
use suricata::dns::lua::{
    rs_dns_lua_get_answer_table, rs_dns_lua_get_authority_table, rs_dns_lua_get_query_table,
    rs_dns_lua_get_rrname, rs_dns_lua_get_tx_id, LuaAnswer, LuaQuery,
};
use suricata::json::{decimal_text, hex_text, text, Json, JsonLeaf, JsonObject, JsonValue};
use suricata::nfs::filetracker::FileTransferTracker;
use suricata::nfs::log::{
    nfs_common_header, nfs_common_header_hashed, nfs_creds_object, nfs_file_object,
    nfs_rename_object, rs_nfs_log_json_request, rs_nfs_log_json_response,
    rs_nfs_tx_logging_is_filtered, rs_rpc_log_json_response,
};
use suricata::nfs::nfs::{NFSState, NFSTransaction, NFSTransactionFile, NFSTransactionTypeData};
use suricata::nfs::types::{
    nfs3_procedure_string, nfs3_status_string, nfs4_procedure_string, rpc_auth_type_string,
    rpc_status_string,
};
use suricata::stream::{STREAM_TOCLIENT, STREAM_TOSERVER};

fn request_payload() -> Vec<u8> {
    vec![
        0x8d, 0x32, 0x01, 0x20, 0x00, 0x01, 0x00, 0x00, 0x00, 0x00, 0x00, 0x01, 0x03, 0x77, 0x77,
        0x77, 0x0c, 0x73, 0x75, 0x72, 0x69, 0x63, 0x61, 0x74, 0x61, 0x2d, 0x69, 0x64, 0x73, 0x03,
        0x6f, 0x72, 0x67, 0x00, 0x00, 0x01, 0x00, 0x01, 0x00, 0x00, 0x29, 0x10, 0x00, 0x00, 0x00,
        0x00, 0x00, 0x00, 0x00,
    ]
}

fn response_payload() -> Vec<u8> {
    vec![
        0x8d, 0x32, 0x81, 0xa0, 0x00, 0x01, 0x00, 0x03, 0x00, 0x00, 0x00, 0x00, 0x03, 0x77, 0x77,
        0x77, 0x0c, 0x73, 0x75, 0x72, 0x69, 0x63, 0x61, 0x74, 0x61, 0x2d, 0x69, 0x64, 0x73, 0x03,
        0x6f, 0x72, 0x67, 0x00, 0x00, 0x01, 0x00, 0x01, 0xc0, 0x0c, 0x00, 0x05, 0x00, 0x01, 0x00,
        0x00, 0x0d, 0xd8, 0x00, 0x12, 0x0c, 0x73, 0x75, 0x72, 0x69, 0x63, 0x61, 0x74, 0x61, 0x2d,
        0x69, 0x64, 0x73, 0x03, 0x6f, 0x72, 0x67, 0x00, 0xc0, 0x32, 0x00, 0x01, 0x00, 0x01, 0x00,
        0x00, 0x00, 0xf4, 0x00, 0x04, 0xc0, 0x00, 0x4e, 0x18, 0xc0, 0x32, 0x00, 0x01, 0x00, 0x01,
        0x00, 0x00, 0x00, 0xf4, 0x00, 0x04, 0xc0, 0x00, 0x4e, 0x19,
    ]
}

fn leaf_text(s: &str) -> JsonValue {
    JsonValue::Leaf(JsonLeaf::String(s.as_bytes().to_vec()))
}

fn member<'a>(js: &'a Json, key: &str) -> Option<&'a JsonValue> {
    js.members.iter().find(|m| m.key == key).map(|m| &m.value)
}

fn keys(js: &Json) -> Vec<&'static str> {
    js.members.iter().map(|m| m.key).collect()
}

#[test]
fn test_number_texts() {
    assert_eq!(decimal_text(0), b"0".to_vec());
    assert_eq!(decimal_text(7), b"7".to_vec());
    assert_eq!(decimal_text(10044), b"10044".to_vec());
    assert_eq!(decimal_text(u64::MAX), b"18446744073709551615".to_vec());
    assert_eq!(hex_text(0), b"0".to_vec());
    assert_eq!(hex_text(0xcbf43926), b"cbf43926".to_vec());
    assert_eq!(hex_text(0x0a), b"a".to_vec());
    assert_eq!(hex_text(0x100), b"100".to_vec());
    assert_eq!(text("status"), b"status".to_vec());
}

#[test]
fn test_json_set_replaces_in_place() {
    let mut js = Json::object();
    js.set_integer("a", 1);
    js.set_string("b", b"x");
    js.set_boolean("a", true);
    assert_eq!(keys(&js), vec!["a", "b"]);
    assert_eq!(member(&js, "a"), Some(&JsonValue::Leaf(JsonLeaf::Bool(true))));
    js.set_array("c", vec![b"one".to_vec(), b"two".to_vec()]);
    let mut inner = JsonObject::object();
    inner.set_integer("n", 5);
    inner.set_integer("n", 6);
    inner.set_string("s", b"t");
    inner.set_boolean("t", false);
    inner.set_array("l", vec![]);
    assert_eq!(inner.members.len(), 4);
    assert_eq!(inner.members[0].value, JsonLeaf::Integer(6));
    js.set("b", inner);
    assert_eq!(keys(&js), vec!["a", "b", "c"]);
    assert!(matches!(member(&js, "b"), Some(JsonValue::Object(_))));
}

#[test]
fn test_name_tables() {
    assert_eq!(nfs3_procedure_string(0), b"NULL".to_vec());
    assert_eq!(nfs3_procedure_string(7), b"WRITE".to_vec());
    assert_eq!(nfs3_procedure_string(21), b"COMMIT".to_vec());
    assert_eq!(nfs3_procedure_string(22), b"22".to_vec());
    assert_eq!(nfs4_procedure_string(1), b"COMPOUND".to_vec());
    assert_eq!(nfs4_procedure_string(2), b"2".to_vec());
    assert_eq!(nfs4_procedure_string(38), b"WRITE".to_vec());
    assert_eq!(nfs4_procedure_string(10044), b"ILLEGAL".to_vec());
    assert_eq!(nfs3_status_string(0), b"OK".to_vec());
    assert_eq!(nfs3_status_string(70), b"ERR_STALE".to_vec());
    assert_eq!(nfs3_status_string(3), b"3".to_vec());
    assert_eq!(rpc_status_string(0), b"ACCEPTED".to_vec());
    assert_eq!(rpc_status_string(1), b"DENIED".to_vec());
    assert_eq!(rpc_status_string(2), b"2".to_vec());
    assert_eq!(rpc_auth_type_string(1), b"UNIX".to_vec());
    assert_eq!(rpc_auth_type_string(6), b"RPCSEC_GSS".to_vec());
    assert_eq!(rpc_auth_type_string(5), b"5".to_vec());
    assert_eq!(dns_rrtype_string(1), b"A".to_vec());
    assert_eq!(dns_rrtype_string(28), b"AAAA".to_vec());
    assert_eq!(dns_rrtype_string(256), b"URI".to_vec());
    assert_eq!(dns_rrtype_string(40), b"40".to_vec());
    assert_eq!(dns_rrtype_string(0), b"0".to_vec());
}

#[test]
fn test_print_addr() {
    assert_eq!(dns_print_addr(&[192, 0, 78, 24]), b"192.0.78.24".to_vec());
    assert_eq!(dns_print_addr(&[0, 0, 0, 0]), b"0.0.0.0".to_vec());
    assert_eq!(dns_print_addr(&[255, 255, 255, 255]), b"255.255.255.255".to_vec());
    let v6 = [0x20, 0x01, 0x0d, 0xb8, 0, 0, 0, 0, 0, 0, 0, 0, 0, 0, 0xab, 0x01];
    assert_eq!(dns_print_addr(&v6), b"2001:0db8:0000:0000:0000:0000:0000:ab01".to_vec());
    assert_eq!(dns_print_addr(&[1, 2, 3]), Vec::<u8>::new());
    assert_eq!(dns_print_addr(&[]), Vec::<u8>::new());
}

#[test]
fn test_nfs_objects() {
    let mut tx = NFSTransaction::new();
    tx.file_name = b"old.txt".to_vec();
    let js = nfs_rename_object(&tx);
    assert_eq!(js.members.len(), 2);
    assert_eq!(js.members[0].key, "from");
    assert_eq!(js.members[0].value, JsonLeaf::String(b"old.txt".to_vec()));
    assert_eq!(js.members[1].key, "to");
    assert_eq!(js.members[1].value, JsonLeaf::String(vec![]));
    tx.type_data = Some(NFSTransactionTypeData::RENAME(b"new.txt".to_vec()));
    let js = nfs_rename_object(&tx);
    assert_eq!(js.members[1].value, JsonLeaf::String(b"new.txt".to_vec()));

    tx.request_machine_name = b"client1".to_vec();
    tx.request_uid = 1000;
    tx.request_gid = 50;
    let js = nfs_creds_object(&tx);
    assert_eq!(js.members.len(), 3);
    assert_eq!(js.members[0].key, "machine_name");
    assert_eq!(js.members[0].value, JsonLeaf::String(b"client1".to_vec()));
    assert_eq!(js.members[1].key, "uid");
    assert_eq!(js.members[1].value, JsonLeaf::Integer(1000));
    assert_eq!(js.members[2].key, "gid");
    assert_eq!(js.members[2].value, JsonLeaf::Integer(50));

    tx.is_first = true;
    let js = nfs_file_object(&tx);
    assert_eq!(js.members.len(), 2);
    assert_eq!(js.members[0].value, JsonLeaf::Bool(true));
    assert_eq!(js.members[1].value, JsonLeaf::Bool(false));
    tx.type_data = Some(NFSTransactionTypeData::FILE(NFSTransactionFile {
        chunk_count: 3,
        file_last_xid: 99,
        file_tracker: FileTransferTracker::new(),
    }));
    let js = nfs_file_object(&tx);
    assert_eq!(js.members.len(), 4);
    assert_eq!(js.members[2].key, "last_xid");
    assert_eq!(js.members[2].value, JsonLeaf::Integer(99));
    assert_eq!(js.members[3].key, "chunks");
    assert_eq!(js.members[3].value, JsonLeaf::Integer(3));
}

#[test]
fn test_nfs_common_header() {
    let mut state = NFSState::new();
    state.nfs_version = 4;
    let mut tx = NFSTransaction::new();
    tx.id = 12;
    tx.procedure = 38;
    tx.file_name = b"data.bin".to_vec();
    tx.is_file_tx = true;
    // Without a file handle there is no hash.
    let js = nfs_common_header(&state, &tx);
    assert_eq!(keys(&js), vec!["version", "procedure", "filename", "id", "file_tx"]);
    assert_eq!(member(&js, "version"), Some(&JsonValue::Leaf(JsonLeaf::Integer(4))));
    assert_eq!(member(&js, "procedure"), Some(&leaf_text("WRITE")));
    assert_eq!(member(&js, "filename"), Some(&leaf_text("data.bin")));
    assert_eq!(member(&js, "id"), Some(&JsonValue::Leaf(JsonLeaf::Integer(12))));
    assert_eq!(member(&js, "file_tx"), Some(&JsonValue::Leaf(JsonLeaf::Bool(true))));
    // The CRC-32 of "123456789" is the check value of the algorithm.
    tx.file_handle = b"123456789".to_vec();
    let js = nfs_common_header(&state, &tx);
    assert_eq!(keys(&js), vec!["version", "procedure", "filename", "hhash", "id", "file_tx"]);
    assert_eq!(member(&js, "hhash"), Some(&leaf_text("cbf43926")));
    // Another handle, another hash.
    tx.file_handle = b"a".to_vec();
    let js = nfs_common_header(&state, &tx);
    assert_eq!(member(&js, "hhash"), Some(&leaf_text("e8b7be43")));
    let js = nfs_common_header_hashed(&state, &tx, 0x0000_00ff);
    assert_eq!(member(&js, "hhash"), Some(&leaf_text("ff")));
    // The version of the flow picks the table of names.
    state.nfs_version = 3;
    tx.procedure = 14;
    let js = nfs_common_header(&state, &tx);
    assert_eq!(member(&js, "procedure"), Some(&leaf_text("RENAME")));
}

#[test]
fn test_nfs_log_records() {
    let mut state = NFSState::new();
    state.nfs_version = 3;
    let mut tx = NFSTransaction::new();
    tx.procedure = 14;
    tx.file_name = b"a".to_vec();
    tx.type_data = Some(NFSTransactionTypeData::RENAME(b"b".to_vec()));
    tx.nfs_response_status = 2;
    let js = rs_nfs_log_json_request(&state, &tx);
    assert_eq!(keys(&js), vec!["version", "procedure", "filename", "id", "file_tx", "type"]);
    assert_eq!(member(&js, "type"), Some(&leaf_text("request")));
    let js = rs_nfs_log_json_response(&state, &tx);
    assert_eq!(
        keys(&js),
        vec!["version", "procedure", "filename", "id", "file_tx", "type", "status", "rename"]
    );
    assert_eq!(member(&js, "type"), Some(&leaf_text("response")));
    assert_eq!(member(&js, "status"), Some(&leaf_text("ERR_NOENT")));
    match member(&js, "rename") {
        Some(JsonValue::Object(o)) => assert_eq!(o.members[1].value, JsonLeaf::String(b"b".to_vec())),
        _ => panic!("no rename object"),
    }
    tx.procedure = 6;
    assert!(member(&rs_nfs_log_json_response(&state, &tx), "read").is_some());
    tx.procedure = 7;
    assert!(member(&rs_nfs_log_json_response(&state, &tx), "write").is_some());
    // In version 4 the numbers mean other procedures.
    state.nfs_version = 4;
    let js = rs_nfs_log_json_response(&state, &tx);
    assert!(member(&js, "write").is_none());
    assert_eq!(js.members.len(), 7);
}

#[test]
fn test_rpc_log_record() {
    let mut tx = NFSTransaction::new();
    tx.xid = 0xdead;
    tx.rpc_response_status = 1;
    tx.auth_type = 6;
    let js = rs_rpc_log_json_response(&tx);
    assert_eq!(keys(&js), vec!["xid", "status", "auth_type"]);
    assert_eq!(member(&js, "xid"), Some(&JsonValue::Leaf(JsonLeaf::Integer(0xdead))));
    assert_eq!(member(&js, "status"), Some(&leaf_text("DENIED")));
    assert_eq!(member(&js, "auth_type"), Some(&leaf_text("RPCSEC_GSS")));
    tx.auth_type = 1;
    let js = rs_rpc_log_json_response(&tx);
    assert_eq!(keys(&js), vec!["xid", "status", "auth_type", "creds"]);
}

#[test]
fn test_nfs_logging_filter() {
    let mut state = NFSState::new();
    let mut tx = NFSTransaction::new();
    tx.procedure = 1;
    state.nfs_version = 3;
    assert_eq!(rs_nfs_tx_logging_is_filtered(&state, &tx), 1);
    state.nfs_version = 4;
    assert_eq!(rs_nfs_tx_logging_is_filtered(&state, &tx), 0);
    state.nfs_version = 2;
    tx.procedure = 2;
    assert_eq!(rs_nfs_tx_logging_is_filtered(&state, &tx), 0);
}

#[test]
fn test_lua_tables() {
    let mut state = DNSState::new();
    assert!(state.parse_request(&request_payload()));
    assert!(state.parse_response(&response_payload()));
    let request = &state.transactions[0];
    let response = &state.transactions[1];
    assert_eq!(rs_dns_lua_get_tx_id(request), 0x8d32);
    assert_eq!(rs_dns_lua_get_rrname(request), Some(b"www.suricata-ids.org".to_vec()));
    assert_eq!(rs_dns_lua_get_rrname(response), Some(b"www.suricata-ids.org".to_vec()));
    assert_eq!(
        rs_dns_lua_get_query_table(request),
        vec![LuaQuery { rrtype: b"A".to_vec(), rrname: b"www.suricata-ids.org".to_vec() }]
    );
    assert_eq!(rs_dns_lua_get_query_table(response).len(), 1);
    assert!(rs_dns_lua_get_answer_table(request).is_empty());
    assert!(rs_dns_lua_get_authority_table(request).is_empty());
    let answers = rs_dns_lua_get_answer_table(response);
    assert_eq!(answers.len(), 3);
    assert_eq!(answers[0].rrtype, b"CNAME".to_vec());
    assert_eq!(answers[0].ttl, 3544);
    assert_eq!(answers[0].rrname, b"www.suricata-ids.org".to_vec());
    assert_eq!(answers[0].addr.as_ref().map(|a| a.len()), Some(18));
    assert_eq!(
        answers[1],
        LuaAnswer {
            rrtype: b"A".to_vec(),
            ttl: 244,
            rrname: b"suricata-ids.org".to_vec(),
            addr: Some(b"192.0.78.24".to_vec()),
        }
    );
    assert_eq!(answers[2].addr, Some(b"192.0.78.25".to_vec()));
    assert!(rs_dns_lua_get_authority_table(response).is_empty());
    let empty = suricata::dns::dns::DNSTransaction::new();
    assert_eq!(rs_dns_lua_get_rrname(&empty), None);
    assert!(rs_dns_lua_get_query_table(&empty).is_empty());
    assert_eq!(rs_dns_lua_get_tx_id(&empty), 0);
}

#[test]
fn test_lua_authority_rows_show_no_data() {
    // A response with one authority record of type NS.
    let mut msg = vec![0x00, 0x01, 0x80, 0x00, 0x00, 0x00, 0x00, 0x00, 0x00, 0x01, 0x00, 0x00];
    msg.extend(&[0x03, 0x6f, 0x72, 0x67, 0x00]);
    msg.extend(&[0x00, 0x02, 0x00, 0x01, 0x00, 0x00, 0x01, 0x00, 0x00, 0x02, 0xc0, 0x0c]);
    let mut state = DNSState::new();
    assert!(state.parse_response(&msg));
    let rows = rs_dns_lua_get_authority_table(&state.transactions[0]);
    assert_eq!(
        rows,
        vec![LuaAnswer { rrtype: b"NS".to_vec(), ttl: 256, rrname: b"org".to_vec(), addr: None }]
    );
    assert_eq!(rs_dns_lua_get_rrname(&state.transactions[0]), None);
}

#[test]
fn test_dns_adapters() {
    let mut state = rs_dns_state_new();
    assert_eq!(rs_dns_parse_request(&mut state, &request_payload()), 1);
    assert_eq!(rs_dns_parse_request(&mut state, &[]), -1);
    assert_eq!(rs_dns_parse_response(&mut state, &response_payload()), 1);
    assert_eq!(rs_dns_parse_response(&mut state, &[1, 2, 3]), -1);
    assert_eq!(rs_dns_state_get_tx_count(&state), 2);
    assert_eq!(rs_dns_state_progress_completion_status(STREAM_TOSERVER), 1);
    {
        let tx = &mut state.transactions[0];
        assert_eq!(rs_dns_tx_get_alstate_progress(tx, STREAM_TOSERVER), 1);
        assert_eq!(rs_dns_tx_get_alstate_progress(tx, STREAM_TOCLIENT), 1);
        rs_dns_tx_set_detect_flags(tx, STREAM_TOSERVER, 11);
        rs_dns_tx_set_detect_flags(tx, STREAM_TOCLIENT, 22);
        assert_eq!(rs_dns_tx_get_detect_flags(tx, STREAM_TOSERVER), 11);
        assert_eq!(rs_dns_tx_get_detect_flags(tx, STREAM_TOCLIENT), 22);
        rs_dns_tx_set_logged(tx, 5);
        assert_eq!(rs_dns_tx_get_logged(tx), 5);
        assert_eq!(rs_dns_state_get_tx_detect_state(tx), None);
        rs_dns_state_set_tx_detect_state(tx, 4242);
        assert_eq!(rs_dns_state_get_tx_detect_state(tx), Some(4242));
        assert_eq!(rs_dns_state_get_events(tx), &vec![DNSEvent::MalformedData]);
        assert_eq!(rs_dns_tx_get_query_name(tx, 0), Some(&b"www.suricata-ids.org"[..]));
        assert_eq!(rs_dns_tx_get_query_name(tx, 1), None);
        assert_eq!(rs_dns_tx_get_query_rrtype(tx, 0), Some(1));
        assert_eq!(rs_dns_tx_get_query_rrtype(tx, 7), None);
        assert_eq!(rs_dns_tx_get_tx_id(tx), 0x8d32);
        assert_eq!(rs_dns_tx_get_response_flags(tx), 0);
    }
    // The queries of a response are not those of a request.
    assert_eq!(rs_dns_tx_get_query_name(&state.transactions[1], 0), None);
    assert_eq!(rs_dns_state_get_tx(&mut state, 0).map(|tx| tx.id), Some(1));
    assert!(rs_dns_state_get_tx(&mut state, 2).is_none());
    rs_dns_state_set_tx_detect_state(&mut state.transactions[1], 77);
    // Freeing a transaction keeps its handle for the host.
    rs_dns_state_tx_free(&mut state, 0);
    assert_eq!(state.transactions.len(), 1);
    assert_eq!(state.released, vec![4242]);
    assert_eq!(state.take_released(), vec![4242]);
    assert!(state.released.is_empty());
    rs_dns_state_tx_free(&mut state, 0);
    assert_eq!(state.transactions.len(), 1);
    assert_eq!(rs_dns_state_free(state), vec![77]);
}

#[test]
fn test_state_free_hands_every_handle_back() {
    let mut state = rs_dns_state_new();
    for i in 0..40u64 {
        assert_eq!(rs_dns_parse_request(&mut state, &request_payload()), 1);
        if i % 2 == 0 {
            rs_dns_state_set_tx_detect_state(&mut state.transactions[i as usize], 1000 + i);
        }
    }
    // Purged transactions give their handles up too.
    state.purge(100);
    assert_eq!(state.transactions.len(), 32);
    assert_eq!(state.released, vec![1000, 1002, 1004, 1006]);
    state.free_tx(9);
    assert_eq!(state.released, vec![1000, 1002, 1004, 1006]);
    state.free_tx(10);
    assert_eq!(state.released, vec![1000, 1002, 1004, 1006, 1010]);
    let mut all = rs_dns_state_free(state);
    all.sort();
    let expected: Vec<u64> = (0..40u64).filter(|i| i % 2 == 0).map(|i| 1000 + i).collect();
    assert_eq!(all, expected);
}

#[test]
fn test_dns_stream_adapters() {
    let mut state = rs_dns_state_tcp_new();
    let mut framed = vec![0x00, 0x31];
    framed.extend(request_payload());
    assert_eq!(rs_dns_parse_request_tcp(&mut state, Some(&framed), framed.len() as u32), 1);
    // A length of zero: nothing happens, whatever is handed in.
    assert_eq!(rs_dns_parse_request_tcp(&mut state, Some(&framed), 0), 0);
    assert_eq!(rs_dns_parse_request_tcp(&mut state, None, 0), 0);
    assert_eq!(state.transactions.len(), 1);
    assert!(!state.gap_ts);
    // Octets that were lost.
    assert_eq!(rs_dns_parse_request_tcp(&mut state, Some(&[0x00]), 1), 0);
    assert_eq!(rs_dns_parse_request_tcp(&mut state, None, 10), 0);
    assert!(state.gap_ts);
    assert!(state.request_buffer.is_empty());
    let mut framed = vec![0x00, 0x64];
    framed.extend(response_payload());
    assert_eq!(rs_dns_parse_response_tcp(&mut state, Some(&framed), framed.len() as u32), 1);
    assert_eq!(rs_dns_parse_response_tcp(&mut state, None, 3), 0);
    assert!(state.gap_tc);
}

#[test]
fn test_dns_probe_adapters() {
    assert_eq!(rs_dns_probe(&request_payload()), Some(STREAM_TOSERVER));
    assert_eq!(rs_dns_probe(&response_payload()), Some(STREAM_TOCLIENT));
    assert_eq!(rs_dns_probe(&[]), None);
    let mut framed = vec![0x00, 0x31];
    framed.extend(request_payload());
    assert_eq!(rs_dns_probe_tcp(STREAM_TOSERVER, &framed), (true, None));
    assert_eq!(rs_dns_probe_tcp(STREAM_TOCLIENT, &framed), (true, Some(STREAM_TOSERVER)));
    assert_eq!(rs_dns_probe_tcp(0, &framed), (true, Some(STREAM_TOSERVER)));
    assert_eq!(rs_dns_probe_tcp(STREAM_TOSERVER, &[0, 1]), (false, None));
}
