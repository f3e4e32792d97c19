use suricata::dns::dns::{probe, probe_tcp, DNSEvent, DNSState, DNSTransaction, MAX_TRANSACTIONS};
use suricata::dns::parser::{
    dns_parse_answer, dns_parse_header, dns_parse_name, dns_parse_query, dns_parse_request,
    dns_parse_response, DNSHeader,
};

// The first 47 octets of the request: the header, the question and the
// beginning of the additional record, which a request parser never reads.
fn short_request_payload() -> Vec<u8> {
    let mut payload = request_payload();
    payload.truncate(47);
    payload
}

// A DNS request for www.suricata-ids.org, type A, class IN, with an OPT
// record in the additional section.
fn request_payload() -> Vec<u8> {
    vec![
        0x8d, 0x32, 0x01, 0x20, 0x00, 0x01, /* .2. .. */
        0x00, 0x00, 0x00, 0x00, 0x00, 0x01, 0x03, 0x77, /* .......w */
        0x77, 0x77, 0x0c, 0x73, 0x75, 0x72, 0x69, 0x63, /* ww.suric */
        0x61, 0x74, 0x61, 0x2d, 0x69, 0x64, 0x73, 0x03, /* ata-ids. */
        0x6f, 0x72, 0x67, 0x00, 0x00, 0x01, 0x00, 0x01, /* org..... */
        0x00, 0x00, 0x29, 0x10, 0x00, 0x00, 0x00, 0x00, /* ..)..... */
        0x00, 0x00, 0x00, /* ... */
    ]
}

// The response to it: a CNAME and two A records, names compressed.
fn response_payload() -> Vec<u8> {
    vec![
        0x8d, 0x32, 0x81, 0xa0, 0x00, 0x01, /* .2.... */
        0x00, 0x03, 0x00, 0x00, 0x00, 0x00, 0x03, 0x77, /* .......w */
        0x77, 0x77, 0x0c, 0x73, 0x75, 0x72, 0x69, 0x63, /* ww.suric */
        0x61, 0x74, 0x61, 0x2d, 0x69, 0x64, 0x73, 0x03, /* ata-ids. */
        0x6f, 0x72, 0x67, 0x00, 0x00, 0x01, 0x00, 0x01, /* org..... */
        0xc0, 0x0c, 0x00, 0x05, 0x00, 0x01, 0x00, 0x00, /* ........ */
        0x0d, 0xd8, 0x00, 0x12, 0x0c, 0x73, 0x75, 0x72, /* .....sur */
        0x69, 0x63, 0x61, 0x74, 0x61, 0x2d, 0x69, 0x64, /* icata-id */
        0x73, 0x03, 0x6f, 0x72, 0x67, 0x00, 0xc0, 0x32, /* s.org..2 */
        0x00, 0x01, 0x00, 0x01, 0x00, 0x00, 0x00, 0xf4, /* ........ */
        0x00, 0x04, 0xc0, 0x00, 0x4e, 0x18, 0xc0, 0x32, /* ....N..2 */
        0x00, 0x01, 0x00, 0x01, 0x00, 0x00, 0x00, 0xf4, /* ........ */
        0x00, 0x04, 0xc0, 0x00, 0x4e, 0x19, /* ....N. */
    ]
}

fn framed(payload: &[u8]) -> Vec<u8> {
    let mut out = Vec::new();
    out.push(((payload.len() as u16) >> 8) as u8);
    out.push(((payload.len() as u16) & 0xff) as u8);
    out.extend(payload);
    out
}

#[test]
fn test_dns_parse_request_tcp_valid() {
    // A UDP DNS request with the DNS payload starting at byte 42.
    let buf: &[u8] = &[
        0x00, 0x15, 0x17, 0x0d, 0x06, 0xf7, 0xd8, 0xcb, /* ........ */
        0x8a, 0xed, 0xa1, 0x46, 0x08, 0x00, 0x45, 0x00, /* ...F..E. */
        0x00, 0x4d, 0x23, 0x11, 0x00, 0x00, 0x40, 0x11, /* .M#...@. */
        0x41, 0x64, 0x0a, 0x10, 0x01, 0x0b, 0x0a, 0x10, /* Ad...... */
        0x01, 0x01, 0xa3, 0x4d, 0x00, 0x35, 0x00, 0x39, /* ...M.5.9 */
        0xb2, 0xb3, 0x8d, 0x32, 0x01, 0x20, 0x00, 0x01, /* ...2. .. */
        0x00, 0x00, 0x00, 0x00, 0x00, 0x01, 0x03, 0x77, /* .......w */
        0x77, 0x77, 0x0c, 0x73, 0x75, 0x72, 0x69, 0x63, /* ww.suric */
        0x61, 0x74, 0x61, 0x2d, 0x69, 0x64, 0x73, 0x03, /* ata-ids. */
        0x6f, 0x72, 0x67, 0x00, 0x00, 0x01, 0x00, 0x01, /* org..... */
        0x00, 0x00, 0x29, 0x10, 0x00, 0x00, 0x00, 0x00, /* ..)..... */
        0x00, 0x00, 0x00, /* ... */
    ];

    // The DNS payload starts at offset 42.
    let dns_payload = &buf[42..];

    // Make a TCP DNS request payload.
    let mut request = Vec::new();
    request.push(((dns_payload.len() as u16) >> 8) as u8);
    request.push(((dns_payload.len() as u16) & 0xff) as u8);
    request.extend(dns_payload);

    let mut state = DNSState::new();
    assert_eq!(1, state.parse_request_tcp(&request));
}

#[test]
fn test_dns_parse_request_tcp_short_payload() {
    // A UDP DNS request with the DNS payload starting at byte 42.
    let buf: &[u8] = &[
        0x00, 0x15, 0x17, 0x0d, 0x06, 0xf7, 0xd8, 0xcb, /* ........ */
        0x8a, 0xed, 0xa1, 0x46, 0x08, 0x00, 0x45, 0x00, /* ...F..E. */
        0x00, 0x4d, 0x23, 0x11, 0x00, 0x00, 0x40, 0x11, /* .M#...@. */
        0x41, 0x64, 0x0a, 0x10, 0x01, 0x0b, 0x0a, 0x10, /* Ad...... */
        0x01, 0x01, 0xa3, 0x4d, 0x00, 0x35, 0x00, 0x39, /* ...M.5.9 */
        0xb2, 0xb3, 0x8d, 0x32, 0x01, 0x20, 0x00, 0x01, /* ...2. .. */
        0x00, 0x00, 0x00, 0x00, 0x00, 0x01, 0x03, 0x77, /* .......w */
        0x77, 0x77, 0x0c, 0x73, 0x75, 0x72, 0x69, 0x63, /* ww.suric */
        0x61, 0x74, 0x61, 0x2d, 0x69, 0x64, 0x73, 0x03, /* ata-ids. */
        0x6f, 0x72, 0x67, 0x00, 0x00, 0x01, 0x00, 0x01, /* org..... */
        0x00, 0x00, 0x29, 0x10, 0x00, 0x00, 0x00, 0x00, /* ..)..... */
        0x00, 0x00, 0x00, /* ... */
    ];

    // The DNS payload starts at offset 42.
    let dns_payload = &buf[42..];

    // Make a TCP DNS request payload but with the length 1 larger
    // than the available data.
    let mut request = Vec::new();
    request.push(((dns_payload.len() as u16) >> 8) as u8);
    request.push(((dns_payload.len() as u16) & 0xff) as u8 + 1);
    request.extend(dns_payload);

    let mut state = DNSState::new();
    assert_eq!(0, state.parse_request_tcp(&request));
}

#[test]
fn test_dns_parse_response_tcp_valid() {
    // A UDP DNS response with the DNS payload starting at byte 42.
    let buf: &[u8] = &[
        0xd8, 0xcb, 0x8a, 0xed, 0xa1, 0x46, 0x00, 0x15, /* .....F.. */
        0x17, 0x0d, 0x06, 0xf7, 0x08, 0x00, 0x45, 0x00, /* ......E. */
        0x00, 0x80, 0x65, 0x4e, 0x40, 0x00, 0x40, 0x11, /* ..eN@.@. */
        0xbe, 0xf3, 0x0a, 0x10, 0x01, 0x01, 0x0a, 0x10, /* ........ */
        0x01, 0x0b, 0x00, 0x35, 0xa3, 0x4d, 0x00, 0x6c, /* ...5.M.l */
        0x8d, 0x8c, 0x8d, 0x32, 0x81, 0xa0, 0x00, 0x01, /* ...2.... */
        0x00, 0x03, 0x00, 0x00, 0x00, 0x00, 0x03, 0x77, /* .......w */
        0x77, 0x77, 0x0c, 0x73, 0x75, 0x72, 0x69, 0x63, /* ww.suric */
        0x61, 0x74, 0x61, 0x2d, 0x69, 0x64, 0x73, 0x03, /* ata-ids. */
        0x6f, 0x72, 0x67, 0x00, 0x00, 0x01, 0x00, 0x01, /* org..... */
        0xc0, 0x0c, 0x00, 0x05, 0x00, 0x01, 0x00, 0x00, /* ........ */
        0x0d, 0xd8, 0x00, 0x12, 0x0c, 0x73, 0x75, 0x72, /* .....sur */
        0x69, 0x63, 0x61, 0x74, 0x61, 0x2d, 0x69, 0x64, /* icata-id */
        0x73, 0x03, 0x6f, 0x72, 0x67, 0x00, 0xc0, 0x32, /* s.org..2 */
        0x00, 0x01, 0x00, 0x01, 0x00, 0x00, 0x00, 0xf4, /* ........ */
        0x00, 0x04, 0xc0, 0x00, 0x4e, 0x18, 0xc0, 0x32, /* ....N..2 */
        0x00, 0x01, 0x00, 0x01, 0x00, 0x00, 0x00, 0xf4, /* ........ */
        0x00, 0x04, 0xc0, 0x00, 0x4e, 0x19, /* ....N. */
    ];

    // The DNS payload starts at offset 42.
    let dns_payload = &buf[42..];

    // Make a TCP DNS response payload.
    let mut request = Vec::new();
    request.push(((dns_payload.len() as u16) >> 8) as u8);
    request.push(((dns_payload.len() as u16) & 0xff) as u8);
    request.extend(dns_payload);

    let mut state = DNSState::new();
    assert_eq!(1, state.parse_response_tcp(&request));
}

// Test that a TCP DNS payload won't be parsed if there is not
// enough data.
#[test]
fn test_dns_parse_response_tcp_short_payload() {
    // A UDP DNS response with the DNS payload starting at byte 42.
    let buf: &[u8] = &[
        0xd8, 0xcb, 0x8a, 0xed, 0xa1, 0x46, 0x00, 0x15, /* .....F.. */
        0x17, 0x0d, 0x06, 0xf7, 0x08, 0x00, 0x45, 0x00, /* ......E. */
        0x00, 0x80, 0x65, 0x4e, 0x40, 0x00, 0x40, 0x11, /* ..eN@.@. */
        0xbe, 0xf3, 0x0a, 0x10, 0x01, 0x01, 0x0a, 0x10, /* ........ */
        0x01, 0x0b, 0x00, 0x35, 0xa3, 0x4d, 0x00, 0x6c, /* ...5.M.l */
        0x8d, 0x8c, 0x8d, 0x32, 0x81, 0xa0, 0x00, 0x01, /* ...2.... */
        0x00, 0x03, 0x00, 0x00, 0x00, 0x00, 0x03, 0x77, /* .......w */
        0x77, 0x77, 0x0c, 0x73, 0x75, 0x72, 0x69, 0x63, /* ww.suric */
        0x61, 0x74, 0x61, 0x2d, 0x69, 0x64, 0x73, 0x03, /* ata-ids. */
        0x6f, 0x72, 0x67, 0x00, 0x00, 0x01, 0x00, 0x01, /* org..... */
        0xc0, 0x0c, 0x00, 0x05, 0x00, 0x01, 0x00, 0x00, /* ........ */
        0x0d, 0xd8, 0x00, 0x12, 0x0c, 0x73, 0x75, 0x72, /* .....sur */
        0x69, 0x63, 0x61, 0x74, 0x61, 0x2d, 0x69, 0x64, /* icata-id */
        0x73, 0x03, 0x6f, 0x72, 0x67, 0x00, 0xc0, 0x32, /* s.org..2 */
        0x00, 0x01, 0x00, 0x01, 0x00, 0x00, 0x00, 0xf4, /* ........ */
        0x00, 0x04, 0xc0, 0x00, 0x4e, 0x18, 0xc0, 0x32, /* ....N..2 */
        0x00, 0x01, 0x00, 0x01, 0x00, 0x00, 0x00, 0xf4, /* ........ */
        0x00, 0x04, 0xc0, 0x00, 0x4e, 0x19, /* ....N. */
    ];

    // The DNS payload starts at offset 42.
    let dns_payload = &buf[42..];

    // Make a TCP DNS response payload, but make the length 1 byte
    // larger than the actual size.
    let mut request = Vec::new();
    request.push(((dns_payload.len() as u16) >> 8) as u8);
    request.push((((dns_payload.len() as u16) & 0xff) + 1) as u8);
    request.extend(dns_payload);

    let mut state = DNSState::new();
    assert_eq!(0, state.parse_response_tcp(&request));
}

#[test]
fn test_query_and_answer_fields_are_big_endian() {
    let msg = [0x01, 0x61, 0x00, 0x12, 0x34, 0x00, 0x01];
    let (q, next) = dns_parse_query(&msg, 0).unwrap();
    assert_eq!(q.name, b"a".to_vec());
    assert_eq!(q.rrtype, 0x1234);
    assert_eq!(q.rrclass, 1);
    assert_eq!(next, 7);
    assert!(dns_parse_query(&msg[..6], 0).is_none());
    let msg = [
        0x00, 0x00, 0x10, 0x00, 0x01, 0x01, 0x02, 0x03, 0x04, 0x00, 0x03, 0x02, 0x68, 0x69, 0xff,
    ];
    let (a, next) = dns_parse_answer(&msg, 0).unwrap();
    assert!(a.name.is_empty());
    assert_eq!(a.rrtype, 16);
    assert_eq!(a.rrclass, 1);
    assert_eq!(a.ttl, 0x01020304);
    assert_eq!(a.data, vec![0x02, 0x68, 0x69]);
    assert_eq!(next, 14);
    // The data is shorter than its length says.
    assert!(dns_parse_answer(&msg[..13], 0).is_none());
}

#[test]
fn test_header_fields() {
    let payload = request_payload();
    let header = dns_parse_header(&payload).unwrap();
    assert_eq!(
        header,
        DNSHeader {
            tx_id: 0x8d32,
            flags: 0x0120,
            questions: 1,
            answer_rr: 0,
            authority_rr: 0,
            additional_rr: 1,
        }
    );
    assert!(dns_parse_header(&payload[..11]).is_none());
}

#[test]
fn test_udp_request_www_suricata_ids_org() {
    let payload = short_request_payload();
    assert_eq!(payload.len(), 47);
    let mut state = DNSState::new();
    assert!(state.parse_request(&payload));
    assert_eq!(state.tx_id, 1);
    assert_eq!(state.transactions.len(), 1);
    let tx = &state.transactions[0];
    assert_eq!(tx.id, 1);
    assert_eq!(tx.tx_id(), 0x8d32);
    assert!(tx.response.is_none());
    let request = tx.request.as_ref().unwrap();
    assert_eq!(request.queries.len(), 1);
    assert_eq!(request.queries[0].name, b"www.suricata-ids.org".to_vec());
    assert_eq!(request.queries[0].rrtype, 1);
    assert_eq!(request.queries[0].rrclass, 1);
    assert!(tx.events.is_empty());
    assert_eq!(state.events, 0);
}

#[test]
fn test_tcp_request_gives_the_same_transaction() {
    let payload = short_request_payload();
    assert_eq!(framed(&payload)[..2], [0x00, 0x2f]);
    let mut datagram = DNSState::new();
    assert!(datagram.parse_request(&payload));
    let mut stream = DNSState::new_tcp();
    assert_eq!(stream.parse_request_tcp(&framed(&payload)), 1);
    assert_eq!(stream.transactions.len(), 1);
    assert_eq!(stream.transactions[0].id, datagram.transactions[0].id);
    assert_eq!(stream.transactions[0].tx_id(), datagram.transactions[0].tx_id());
    let a = stream.transactions[0].request.as_ref().unwrap();
    let b = datagram.transactions[0].request.as_ref().unwrap();
    assert_eq!(a.header, b.header);
    assert_eq!(a.queries[0].name, b.queries[0].name);
    assert_eq!(a.queries[0].rrtype, b.queries[0].rrtype);
    assert!(stream.request_buffer.is_empty());
}

#[test]
fn test_tcp_request_over_declared_length_is_held() {
    let payload = short_request_payload();
    let mut input = vec![0x00, 0x30];
    input.extend(&payload);
    let mut state = DNSState::new_tcp();
    assert_eq!(state.parse_request_tcp(&input), 0);
    assert!(state.transactions.is_empty());
    assert_eq!(state.events, 0);
    assert_eq!(state.request_buffer, input);
    // One more octet completes the message.
    assert_eq!(state.parse_request_tcp(&[0x00]), 1);
    assert!(state.request_buffer.is_empty());
}

#[test]
fn test_response_records() {
    let payload = response_payload();
    let response = dns_parse_response(&payload).unwrap();
    assert_eq!(response.header.tx_id, 0x8d32);
    assert_eq!(response.header.flags, 0x81a0);
    assert_eq!(response.queries.len(), 1);
    assert_eq!(response.queries[0].name, b"www.suricata-ids.org".to_vec());
    assert_eq!(response.answers.len(), 3);
    assert_eq!(response.authorities.len(), 0);
    // The CNAME: data is kept as it is on the wire.
    assert_eq!(response.answers[0].name, b"www.suricata-ids.org".to_vec());
    assert_eq!(response.answers[0].rrtype, 5);
    assert_eq!(response.answers[0].rrclass, 1);
    assert_eq!(response.answers[0].ttl, 3544);
    assert_eq!(response.answers[0].data.len(), 18);
    assert_eq!(&response.answers[0].data[..4], &[0x0c, 0x73, 0x75, 0x72]);
    // The two A records, named through a pointer into the CNAME's data.
    assert_eq!(response.answers[1].name, b"suricata-ids.org".to_vec());
    assert_eq!(response.answers[1].rrtype, 1);
    assert_eq!(response.answers[1].ttl, 244);
    assert_eq!(response.answers[1].data, vec![192, 0, 78, 24]);
    assert_eq!(response.answers[2].data, vec![192, 0, 78, 25]);
}

#[test]
fn test_rcode_and_wire_id() {
    let mut payload = response_payload();
    payload[3] = 0xa3;
    let mut state = DNSState::new();
    assert!(state.parse_response(&payload));
    let tx = &state.transactions[0];
    assert_eq!(tx.rcode(), 3);
    assert_eq!(tx.tx_id(), 0x8d32);
    assert!(tx.request.is_none());
    let empty = DNSTransaction::new();
    assert_eq!(empty.rcode(), 0);
    assert_eq!(empty.tx_id(), 0);
    assert_eq!(empty.id, 0);
}

#[test]
fn test_request_marked_as_response_raises_not_request() {
    let mut state = DNSState::new();
    assert!(state.parse_request(&request_payload()));
    assert!(!state.parse_request(&response_payload()));
    assert_eq!(state.transactions.len(), 1);
    assert_eq!(state.transactions[0].events, vec![DNSEvent::NotRequest]);
    assert_eq!(state.events, 1);
}

#[test]
fn test_response_not_marked_raises_not_response_and_is_kept() {
    let mut state = DNSState::new();
    assert!(state.parse_request(&request_payload()));
    // A request handed in as a response: flagged on the transaction before
    // it, and still surfaced.
    assert!(state.parse_response(&request_payload()));
    assert_eq!(state.transactions.len(), 2);
    assert_eq!(state.transactions[0].events, vec![DNSEvent::NotResponse]);
    assert!(state.transactions[1].events.is_empty());
    assert!(state.transactions[1].response.is_some());
    assert_eq!(state.transactions[1].id, 2);
}

#[test]
fn test_z_flag_drops_the_message() {
    let mut flagged = request_payload();
    flagged[3] |= 0x40;
    let mut state = DNSState::new();
    // Without a transaction the event is lost.
    assert!(!state.parse_request(&flagged));
    assert!(state.transactions.is_empty());
    assert_eq!(state.events, 0);
    assert!(state.parse_request(&request_payload()));
    assert!(!state.parse_request(&flagged));
    assert_eq!(state.transactions.len(), 1);
    assert_eq!(state.transactions[0].events, vec![DNSEvent::ZFlagSet]);
    let mut flagged = response_payload();
    flagged[3] |= 0x40;
    assert!(!state.parse_response(&flagged));
    assert_eq!(state.transactions[0].events, vec![DNSEvent::ZFlagSet, DNSEvent::ZFlagSet]);
    assert_eq!(state.events, 2);
}

#[test]
fn test_malformed_datagram() {
    let mut state = DNSState::new();
    assert!(!state.parse_request(&[]));
    assert!(state.transactions.is_empty());
    assert!(state.parse_request(&request_payload()));
    assert!(!state.parse_request(&request_payload()[..20]));
    assert!(!state.parse_response(&[]));
    assert_eq!(
        state.transactions[0].events,
        vec![DNSEvent::MalformedData, DNSEvent::MalformedData]
    );
}

#[test]
fn test_identifiers_run_out() {
    let mut state = DNSState::new();
    state.tx_id = u64::MAX - 1;
    assert!(state.parse_request(&request_payload()));
    assert_eq!(state.tx_id, u64::MAX);
    assert!(!state.parse_request(&request_payload()));
    assert_eq!(state.transactions.len(), 1);
    assert_eq!(state.transactions[0].events, vec![DNSEvent::StateMemCapReached]);
}

#[test]
fn test_event_codes() {
    assert_eq!(DNSEvent::UnsolicitedResponse.code(), 0);
    assert_eq!(DNSEvent::MalformedData.code(), 1);
    assert_eq!(DNSEvent::NotRequest.code(), 2);
    assert_eq!(DNSEvent::NotResponse.code(), 3);
    assert_eq!(DNSEvent::ZFlagSet.code(), 4);
    assert_eq!(DNSEvent::Flooded.code(), 5);
    assert_eq!(DNSEvent::StateMemCapReached.code(), 6);
}

#[test]
fn test_stream_may_be_cut_anywhere() {
    let mut input = framed(&request_payload());
    input.extend(framed(&request_payload()));
    let mut whole = DNSState::new_tcp();
    assert_eq!(whole.parse_request_tcp(&input), 2);
    for cut in 0..=input.len() {
        let mut state = DNSState::new_tcp();
        let first = state.parse_request_tcp(&input[..cut]);
        let second = state.parse_request_tcp(&input[cut..]);
        assert_eq!(first + second, 2);
        assert_eq!(state.transactions.len(), 2);
        assert_eq!(state.tx_id, whole.tx_id);
        assert_eq!(state.request_buffer, whole.request_buffer);
        for (a, b) in state.transactions.iter().zip(whole.transactions.iter()) {
            assert_eq!(a.id, b.id);
            assert_eq!(a.tx_id(), b.tx_id());
            assert_eq!(a.events, b.events);
        }
    }
}

#[test]
fn test_stream_one_octet_at_a_time() {
    let mut input = framed(&response_payload());
    input.extend(framed(&response_payload()));
    input.extend(&[0x00, 0x05, 0x01]);
    let mut state = DNSState::new_tcp();
    let mut count = 0;
    for octet in &input {
        count += state.parse_response_tcp(&[*octet]);
    }
    assert_eq!(count, 2);
    assert_eq!(state.transactions.len(), 2);
    assert_eq!(state.response_buffer, vec![0x00, 0x05, 0x01]);
    let mut whole = DNSState::new_tcp();
    assert_eq!(whole.parse_response_tcp(&input), 2);
    assert_eq!(whole.response_buffer, state.response_buffer);
}

#[test]
fn test_stream_empty_input_changes_nothing() {
    let mut state = DNSState::new_tcp();
    assert_eq!(state.parse_request_tcp(&[]), 0);
    assert_eq!(state.parse_response_tcp(&[]), 0);
    assert_eq!(state.parse_request_tcp(&[0x00]), 0);
    assert_eq!(state.parse_request_tcp(&[]), 0);
    assert_eq!(state.request_buffer, vec![0x00]);
    assert!(state.transactions.is_empty());
    assert_eq!(state.tx_id, 0);
    assert_eq!(state.events, 0);
}

#[test]
fn test_stream_short_message_is_dropped() {
    // A message of five octets between two good ones.
    let mut input = framed(&request_payload());
    input.extend(&[0x00, 0x05, 1, 2, 3, 4, 5]);
    input.extend(framed(&request_payload()));
    let mut state = DNSState::new_tcp();
    assert_eq!(state.parse_request_tcp(&input), 2);
    assert_eq!(state.transactions.len(), 2);
    assert_eq!(state.transactions[0].events, vec![DNSEvent::MalformedData]);
    assert!(state.transactions[1].events.is_empty());
    assert!(state.request_buffer.is_empty());
    // A length of zero is a message too.
    let mut input = vec![0x00, 0x00];
    input.extend(framed(&request_payload()));
    assert_eq!(state.parse_request_tcp(&input), 1);
    assert_eq!(state.transactions[1].events, vec![DNSEvent::MalformedData]);
    assert_eq!(state.transactions.len(), 3);
}

#[test]
fn test_gap_waits_for_dns() {
    let mut state = DNSState::new_tcp();
    assert_eq!(state.parse_request_tcp(&[0x00, 0x2f, 0x8d]), 0);
    state.request_gap(0);
    assert!(!state.gap_ts);
    assert_eq!(state.request_buffer.len(), 3);
    state.request_gap(100);
    assert!(state.gap_ts);
    assert!(!state.gap_tc);
    assert!(state.request_buffer.is_empty());
    // Not DNS: dropped.
    assert_eq!(state.parse_request_tcp(&[1, 2, 3, 4, 5]), 0);
    assert!(state.gap_ts);
    assert!(state.request_buffer.is_empty());
    // DNS: parsing resumes.
    assert_eq!(state.parse_request_tcp(&framed(&request_payload())), 1);
    assert!(!state.gap_ts);
    state.response_gap(1);
    assert!(state.gap_tc);
    assert!(!state.gap_ts);
    // A gap towards the client does not hold up the other direction.
    assert_eq!(state.parse_request_tcp(&[0x00, 0x01, 0xff]), 0);
    assert!(state.request_buffer.is_empty());
    assert_eq!(state.parse_response_tcp(&[0x00, 0x01, 0xff]), 0);
    assert!(state.gap_tc);
    assert!(state.response_buffer.is_empty());
    assert_eq!(state.parse_response_tcp(&framed(&response_payload())), 1);
    assert!(!state.gap_tc);
}

#[test]
fn test_probe() {
    assert_eq!(probe(&request_payload()), (true, true));
    assert_eq!(probe(&response_payload()), (true, false));
    assert_eq!(probe(&[0u8; 11]), (false, false));
    assert_eq!(probe(&[]), (false, false));
    assert_eq!(probe_tcp(&framed(&request_payload())), (true, true));
    assert_eq!(probe_tcp(&framed(&response_payload())), (true, false));
    assert_eq!(probe_tcp(&[0x00]), (false, false));
    assert_eq!(probe_tcp(&[0x00, 0x01, 0x02]), (false, false));
}

#[test]
fn test_purge_keeps_the_cap() {
    let mut state = DNSState::new();
    for _ in 0..40 {
        assert!(state.parse_request(&request_payload()));
    }
    assert_eq!(state.transactions.len(), 40);
    // The host asks for the newest: the oldest go.
    assert_eq!(state.get_tx(39).map(|tx| tx.id), Some(40));
    assert_eq!(state.transactions.len(), MAX_TRANSACTIONS);
    assert_eq!(state.transactions[0].id, 9);
    assert!(state.get_tx(0).is_none());
    assert_eq!(state.tx_id, 40);
}

#[test]
fn test_purge_spares_the_transaction_in_use() {
    let mut state = DNSState::new();
    for _ in 0..33 {
        assert!(state.parse_request(&request_payload()));
    }
    // The host reads the head of the queue: nothing is purged.
    assert_eq!(state.get_tx(0).map(|tx| tx.id), Some(1));
    assert_eq!(state.transactions.len(), 33);
    state.purge(5);
    assert_eq!(state.transactions.len(), 32);
    assert_eq!(state.transactions[0].id, 2);
}

#[test]
fn test_free_tx() {
    let mut state = DNSState::new();
    for _ in 0..3 {
        assert!(state.parse_request(&request_payload()));
    }
    state.free_tx(1);
    assert_eq!(state.transactions.len(), 2);
    assert_eq!(state.transactions[0].id, 1);
    assert_eq!(state.transactions[1].id, 3);
    state.free_tx(1);
    state.free_tx(u64::MAX);
    assert_eq!(state.transactions.len(), 2);
    assert_eq!(state.tx_id, 3);
}

#[test]
fn test_new_tx_and_free() {
    let mut state = DNSState::new();
    let mut tx = state.new_tx();
    assert_eq!(tx.id, 1);
    assert_eq!(state.tx_id, 1);
    assert!(state.transactions.is_empty());
    tx.de_state = Some(77);
    tx.events.push(DNSEvent::Flooded);
    assert_eq!(tx.free(), Some(77));
    assert!(tx.events.is_empty());
    assert!(tx.de_state.is_none());
    assert_eq!(tx.free(), None);
}

#[test]
fn test_set_event_counts() {
    let mut state = DNSState::new();
    state.set_event(DNSEvent::Flooded);
    assert_eq!(state.events, 0);
    assert!(state.parse_request(&request_payload()));
    state.events = u16::MAX - 1;
    state.set_event(DNSEvent::Flooded);
    state.set_event(DNSEvent::UnsolicitedResponse);
    assert_eq!(state.events, u16::MAX);
    assert_eq!(
        state.transactions[0].events,
        vec![DNSEvent::Flooded, DNSEvent::UnsolicitedResponse]
    );
}

#[test]
fn test_name_pointer_to_itself_fails() {
    // A header announcing one question whose name is a pointer to itself.
    let mut msg = vec![0u8; 12];
    msg[5] = 1;
    msg.extend(&[0xc0, 0x0c, 0x00, 0x01, 0x00, 0x01]);
    assert!(dns_parse_name(&msg, 12).is_none());
    assert!(dns_parse_request(&msg).is_none());
    let mut state = DNSState::new();
    assert!(state.parse_request(&request_payload()));
    assert!(!state.parse_request(&msg));
    assert_eq!(state.transactions[0].events, vec![DNSEvent::MalformedData]);
}

#[test]
fn test_name_pointer_cycle_fails() {
    // Two pointers that point at each other, the second behind a label.
    let mut msg = vec![0u8; 12];
    msg.extend(&[0x01, 0x61, 0xc0, 0x10, 0xc0, 0x0c]);
    assert!(dns_parse_name(&msg, 12).is_none());
    assert!(dns_parse_name(&msg, 16).is_none());
}

#[test]
fn test_name_limits() {
    // A pointer out of the message.
    assert!(dns_parse_name(&[0xc0, 0x02], 0).is_none());
    // A pointer cut short.
    assert!(dns_parse_name(&[0xc0], 0).is_none());
    // A label that leaves the message, and a name without its end.
    assert!(dns_parse_name(&[0x03, 0x61, 0x62], 0).is_none());
    assert!(dns_parse_name(&[0x01, 0x61], 0).is_none());
    // The two reserved kinds of length octet.
    assert!(dns_parse_name(&[0x40, 0x00], 0).is_none());
    assert!(dns_parse_name(&[0x80, 0x00], 0).is_none());
    // The root name.
    assert_eq!(dns_parse_name(&[0x00], 0), Some((vec![], 1)));
    // Four labels of 63 octets make 255 with their dots; one octet more is
    // too long.
    let mut msg = Vec::new();
    for _ in 0..4 {
        msg.push(63);
        msg.extend(std::iter::repeat(0x61).take(63));
    }
    msg.push(0);
    let (name, next) = dns_parse_name(&msg, 0).unwrap();
    assert_eq!(name.len(), 255);
    assert_eq!(next, msg.len());
    let mut long = msg.clone();
    long.pop();
    long.extend(&[1, 0x61, 0]);
    assert!(dns_parse_name(&long, 0).is_none());
}

#[test]
fn test_name_behind_a_pointer_resumes_behind_the_pointer() {
    let msg = [0x03, 0x6f, 0x72, 0x67, 0x00, 0x01, 0x61, 0xc0, 0x00, 0xff];
    assert_eq!(dns_parse_name(&msg, 5), Some((b"a.org".to_vec(), 9)));
}
