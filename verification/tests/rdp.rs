use suricata::json::{Json, JsonLeaf, JsonValue};
use suricata::rdp::log::{
    append_serial, client_object, get_color_depth, keyboard_to_string, mcs_req_to_json,
    rs_rdp_to_json, serial_text, to_json, version_to_string, x224_conf_to_json,
    x224_req_to_json,
};
use suricata::rdp::parser::{
    ColorDepth, ConnectionHint, CsClientCoreData, CsNet, CsUnknown, DesktopOrientation,
    EarlyCapabilityFlags, HighColorDepth, KeyboardType, McsConnectRequest,
    McsConnectRequestChild, McsConnectResponse, NegotiationFailure, NegotiationFailureCode,
    NegotiationFromServer, NegotiationRequest, NegotiationRequestFlags, NegotiationResponse,
    NegotiationResponseFlags, PostBeta2ColorDepth, Protocol, ProtocolFlags, RdpClientVersion,
    RdpCookie, X224ConnectionConfirm, X224ConnectionRequest,
};
use suricata::rdp::rdp::{CertificateBlob, RdpTransaction, RdpTransactionItem};
use suricata::rdp::windows;

fn leaf_text(s: &str) -> JsonValue {
    JsonValue::Leaf(JsonLeaf::String(s.as_bytes().to_vec()))
}

fn texts(list: &[&str]) -> Vec<Vec<u8>> {
    list.iter().map(|s| s.as_bytes().to_vec()).collect()
}

fn member<'a>(js: &'a Json, key: &str) -> Option<&'a JsonValue> {
    js.members.iter().find(|m| m.key == key).map(|m| &m.value)
}

fn keys(js: &Json) -> Vec<&'static str> {
    js.members.iter().map(|m| m.key).collect()
}

// A certificate without extensions; its serial number is
// 00 b5 71 92 28 4c eb 4d 1e.
fn certificate() -> Vec<u8> {
    vec![
        0x30, 0x82, 0x01, 0x51, 0x30, 0x81, 0xd8, 0xa0, 0x03, 0x02, 0x01, 0x02,
        0x02, 0x09, 0x00, 0xb5, 0x71, 0x92, 0x28, 0x4c, 0xeb, 0x4d, 0x1e, 0x30,
        0x0a, 0x06, 0x08, 0x2a, 0x86, 0x48, 0xce, 0x3d, 0x04, 0x03, 0x02, 0x30,
        0x10, 0x31, 0x0e, 0x30, 0x0c, 0x06, 0x03, 0x55, 0x04, 0x03, 0x0c, 0x05,
        0x62, 0x65, 0x6e, 0x6e, 0x6f, 0x30, 0x1e, 0x17, 0x0d, 0x31, 0x38, 0x31,
        0x31, 0x31, 0x33, 0x30, 0x32, 0x35, 0x34, 0x34, 0x30, 0x5a, 0x17, 0x0d,
        0x31, 0x39, 0x31, 0x31, 0x31, 0x33, 0x30, 0x32, 0x35, 0x34, 0x34, 0x30,
        0x5a, 0x30, 0x10, 0x31, 0x0e, 0x30, 0x0c, 0x06, 0x03, 0x55, 0x04, 0x03,
        0x0c, 0x05, 0x62, 0x65, 0x6e, 0x6e, 0x6f, 0x30, 0x76, 0x30, 0x10, 0x06,
        0x07, 0x2a, 0x86, 0x48, 0xce, 0x3d, 0x02, 0x01, 0x06, 0x05, 0x2b, 0x81,
        0x04, 0x00, 0x22, 0x03, 0x62, 0x00, 0x04, 0x38, 0x6b, 0x1c, 0xb5, 0x53,
        0x30, 0x70, 0xbb, 0x19, 0x3c, 0x81, 0xfc, 0xc3, 0x73, 0xb5, 0x3a, 0x16,
        0xb2, 0xcd, 0xb3, 0x96, 0x6b, 0xd1, 0xeb, 0x65, 0xf5, 0xa5, 0x06, 0x81,
        0x37, 0xa7, 0xd8, 0x84, 0x12, 0x44, 0xd5, 0x76, 0x1a, 0xd1, 0x5d, 0x82,
        0xd5, 0xf1, 0x86, 0x5e, 0x3f, 0x76, 0x31, 0xe9, 0xdc, 0x3a, 0xd5, 0xf2,
        0x7d, 0x85, 0x71, 0x9f, 0xe0, 0xd8, 0xd3, 0xb8, 0x32, 0x4f, 0xfe, 0xf5,
        0x1d, 0x0d, 0x76, 0x4c, 0x93, 0x9e, 0xf7, 0x4c, 0x30, 0x8f, 0x2d, 0xbf,
        0xe8, 0xdd, 0x56, 0xd6, 0x33, 0xaf, 0xe4, 0x78, 0xe9, 0x85, 0x54, 0xfc,
        0x25, 0x09, 0x55, 0x36, 0xa0, 0x02, 0xf8, 0x30, 0x0a, 0x06, 0x08, 0x2a,
        0x86, 0x48, 0xce, 0x3d, 0x04, 0x03, 0x02, 0x03, 0x68, 0x00, 0x30, 0x65,
        0x02, 0x30, 0x1f, 0xcd, 0x2d, 0x6d, 0x99, 0x9f, 0x86, 0x48, 0x06, 0x97,
        0xae, 0xc3, 0xdc, 0x7c, 0x07, 0x75, 0x03, 0xdc, 0x9f, 0x59, 0x5b, 0x41,
        0xf2, 0xd5, 0xb1, 0x14, 0xd3, 0x68, 0xda, 0x3e, 0xff, 0x70, 0xbd, 0xe9,
        0xb9, 0xfd, 0xaf, 0x42, 0x79, 0x70, 0x57, 0xfd, 0x01, 0xa1, 0x96, 0x75,
        0x2b, 0x82, 0x02, 0x31, 0x00, 0xda, 0x13, 0x41, 0xde, 0x9a, 0x06, 0x29,
        0xe9, 0x13, 0xd0, 0xcd, 0xe6, 0xfd, 0xe9, 0xad, 0xa0, 0x8e, 0x56, 0x84,
        0x6f, 0x03, 0x72, 0xd4, 0x1f, 0x0e, 0xef, 0x87, 0xc4, 0xdb, 0x85, 0x91,
        0x5e, 0x23, 0x94, 0x9b, 0x87, 0xa5, 0x9f, 0xdc, 0x06, 0x43, 0x72, 0x35,
        0x89, 0x5e, 0x8d, 0xb5, 0x95,
    ]
}

fn plain_client() -> CsClientCoreData {
    let core_data = CsClientCoreData {
        version: None,
        desktop_width: 1280,
        desktop_height: 768,
        color_depth: None,
        sas_sequence: None,
        keyboard_layout: 0x409,
        client_build: windows::OperatingSystem {
            build: windows::Build::Win10_17763,
            suffix: windows::Suffix::Rs5,
        },
        client_name: b"SERVER-XYZ".to_vec(),
        keyboard_type: None,
        keyboard_subtype: 0,
        keyboard_function_key: 12,
        ime_file_name: b"".to_vec(),
        post_beta2_color_depth: None,
        client_product_id: None,
        serial_number: None,
        high_color_depth: None,
        supported_color_depth: None,
        early_capability_flags: None,
        client_dig_product_id: None,
        connection_hint: None,
        server_selected_protocol: None,
        desktop_physical_width: None,
        desktop_physical_height: None,
        desktop_orientation: None,
        desktop_scale_factor: None,
        device_scale_factor: None,
    };
    core_data
}

#[test]
fn test_version_string() {
    assert_eq!(b"v10.7".to_vec(), version_to_string(&RdpClientVersion::V10_7, "v"));
}

#[test]
fn test_color_depth_high() {
    let core_data = CsClientCoreData {
        version: None,
        desktop_width: 1280,
        desktop_height: 768,
        color_depth: Some(ColorDepth::RnsUdColor4Bpp),
        sas_sequence: None,
        keyboard_layout: 0x409,
        client_build: windows::OperatingSystem {
            build: windows::Build::Win10_17763,
            suffix: windows::Suffix::Rs5,
        },
        client_name: b"SERVER-XYZ".to_vec(),
        keyboard_type: None,
        keyboard_subtype: 0,
        keyboard_function_key: 12,
        ime_file_name: b"".to_vec(),
        post_beta2_color_depth: Some(PostBeta2ColorDepth::RnsUdColor8Bpp),
        client_product_id: None,
        serial_number: None,
        high_color_depth: Some(HighColorDepth::HighColor24Bpp),
        supported_color_depth: None,
        early_capability_flags: None,
        client_dig_product_id: None,
        connection_hint: None,
        server_selected_protocol: None,
        desktop_physical_width: None,
        desktop_physical_height: None,
        desktop_orientation: None,
        desktop_scale_factor: None,
        device_scale_factor: None,
    };
    assert_eq!(Some(24), get_color_depth(&core_data));
}

#[test]
fn test_color_depth_post_beta2() {
    let core_data = CsClientCoreData {
        version: None,
        desktop_width: 1280,
        desktop_height: 768,
        color_depth: Some(ColorDepth::RnsUdColor4Bpp),
        sas_sequence: None,
        keyboard_layout: 0x409,
        client_build: windows::OperatingSystem {
            build: windows::Build::Win10_17763,
            suffix: windows::Suffix::Rs5,
        },
        client_name: b"SERVER-XYZ".to_vec(),
        keyboard_type: None,
        keyboard_subtype: 0,
        keyboard_function_key: 12,
        ime_file_name: b"".to_vec(),
        post_beta2_color_depth: Some(PostBeta2ColorDepth::RnsUdColor8Bpp),
        client_product_id: None,
        serial_number: None,
        high_color_depth: None,
        supported_color_depth: None,
        early_capability_flags: None,
        client_dig_product_id: None,
        connection_hint: None,
        server_selected_protocol: None,
        desktop_physical_width: None,
        desktop_physical_height: None,
        desktop_orientation: None,
        desktop_scale_factor: None,
        device_scale_factor: None,
    };
    assert_eq!(Some(8), get_color_depth(&core_data));
}

#[test]
fn test_color_depth_basic() {
    let core_data = CsClientCoreData {
        version: None,
        desktop_width: 1280,
        desktop_height: 768,
        color_depth: Some(ColorDepth::RnsUdColor4Bpp),
        sas_sequence: None,
        keyboard_layout: 0x409,
        client_build: windows::OperatingSystem {
            build: windows::Build::Win10_17763,
            suffix: windows::Suffix::Rs5,
        },
        client_name: b"SERVER-XYZ".to_vec(),
        keyboard_type: None,
        keyboard_subtype: 0,
        keyboard_function_key: 12,
        ime_file_name: b"".to_vec(),
        post_beta2_color_depth: None,
        client_product_id: None,
        serial_number: None,
        high_color_depth: None,
        supported_color_depth: None,
        early_capability_flags: None,
        client_dig_product_id: None,
        connection_hint: None,
        server_selected_protocol: None,
        desktop_physical_width: None,
        desktop_physical_height: None,
        desktop_orientation: None,
        desktop_scale_factor: None,
        device_scale_factor: None,
    };
    assert_eq!(Some(4), get_color_depth(&core_data));
}

#[test]
fn test_color_depth_missing() {
    let core_data = CsClientCoreData {
        version: None,
        desktop_width: 1280,
        desktop_height: 768,
        color_depth: None,
        sas_sequence: None,
        keyboard_layout: 0x409,
        client_build: windows::OperatingSystem {
            build: windows::Build::Win10_17763,
            suffix: windows::Suffix::Rs5,
        },
        client_name: b"SERVER-XYZ".to_vec(),
        keyboard_type: None,
        keyboard_subtype: 0,
        keyboard_function_key: 12,
        ime_file_name: b"".to_vec(),
        post_beta2_color_depth: None,
        client_product_id: None,
        serial_number: None,
        high_color_depth: None,
        supported_color_depth: None,
        early_capability_flags: None,
        client_dig_product_id: None,
        connection_hint: None,
        server_selected_protocol: None,
        desktop_physical_width: None,
        desktop_physical_height: None,
        desktop_orientation: None,
        desktop_scale_factor: None,
        device_scale_factor: None,
    };
    assert!(get_color_depth(&core_data).is_none());
}

#[test]
fn test_keyboard_string() {
    assert_eq!(b"enhanced".to_vec(), keyboard_to_string(&KeyboardType::KbEnhanced));
}

#[test]
fn test_color_depth_not_provided_falls_through() {
    let mut client = plain_client();
    client.high_color_depth = Some(HighColorDepth::HighColorNotProvided);
    client.post_beta2_color_depth = Some(PostBeta2ColorDepth::RnsUdColor16Bpp555);
    assert_eq!(get_color_depth(&client), Some(15));
    client.post_beta2_color_depth = Some(PostBeta2ColorDepth::RnsUdColorNotProvided);
    client.color_depth = Some(ColorDepth::RnsUdColor8Bpp);
    assert_eq!(get_color_depth(&client), Some(8));
    client.high_color_depth = Some(HighColorDepth::HighColor15Bpp);
    assert_eq!(get_color_depth(&client), Some(15));
}

#[test]
fn test_version_and_keyboard_names() {
    assert_eq!(version_to_string(&RdpClientVersion::V4, ""), b"4".to_vec());
    assert_eq!(version_to_string(&RdpClientVersion::V5_V8_1, "rdp "), b"rdp 5".to_vec());
    assert_eq!(version_to_string(&RdpClientVersion::V10_0, "v"), b"v10.0".to_vec());
    assert_eq!(keyboard_to_string(&KeyboardType::KbXt), b"xt".to_vec());
    assert_eq!(keyboard_to_string(&KeyboardType::KbJapanese), b"jp".to_vec());
    assert_eq!(keyboard_to_string(&KeyboardType::Kb9140), b"9140".to_vec());
}

#[test]
fn test_windows_names() {
    let os = windows::OperatingSystem {
        build: windows::Build::Win10_17763,
        suffix: windows::Suffix::Rs5,
    };
    assert_eq!(windows::os_to_string(&os, b"unknown"), b"Windows 10 RS5".to_vec());
    let os = windows::OperatingSystem { build: windows::Build::Win7_7601, suffix: windows::Suffix::Sp1 };
    assert_eq!(windows::os_to_string(&os, b"unknown"), b"Windows 7 SP1".to_vec());
    let os = windows::OperatingSystem { build: windows::Build::WinXP, suffix: windows::Suffix::Empty };
    assert_eq!(windows::os_to_string(&os, b"unknown"), b"Windows XP".to_vec());
    let os = windows::OperatingSystem { build: windows::Build::Other, suffix: windows::Suffix::Rs5 };
    assert_eq!(windows::os_to_string(&os, b"unknown"), b"unknown".to_vec());
    assert_eq!(windows::lcid_to_string(0x409, b"unknown"), b"en-US".to_vec());
    assert_eq!(windows::lcid_to_string(0x407, b"unknown"), b"de-DE".to_vec());
    assert_eq!(windows::lcid_to_string(0xffff, b"?"), b"?".to_vec());
}

#[test]
fn test_serial_text() {
    assert_eq!(serial_text(&[]), b"0".to_vec());
    assert_eq!(serial_text(&[0]), b"0".to_vec());
    assert_eq!(serial_text(&[0, 0, 0]), b"0".to_vec());
    assert_eq!(serial_text(&[0x0f]), b"f".to_vec());
    assert_eq!(serial_text(&[0x10]), b"10".to_vec());
    assert_eq!(serial_text(&[0x01, 0x00]), b"100".to_vec());
    assert_eq!(serial_text(&[0x00, 0x0a, 0x0b]), b"a0b".to_vec());
    assert_eq!(
        serial_text(&[0x00, 0xb5, 0x71, 0x92, 0x28, 0x4c, 0xeb, 0x4d, 0x1e]),
        b"b57192284ceb4d1e".to_vec()
    );
    let mut list = Vec::new();
    append_serial(&mut list, None);
    assert!(list.is_empty());
    append_serial(&mut list, Some(vec![0xff, 0x00]));
    append_serial(&mut list, Some(vec![]));
    assert_eq!(list, texts(&["ff00", "0"]));
}

#[test]
fn test_tls_chain_record() {
    let tx = RdpTransaction {
        id: 3,
        item: RdpTransactionItem::TlsCertificateChain(vec![
            CertificateBlob { data: certificate() },
            CertificateBlob { data: vec![0x30, 0x03, 0x01, 0x02, 0x03] },
            CertificateBlob { data: vec![] },
            CertificateBlob { data: certificate() },
        ]),
    };
    let js = to_json(&tx).unwrap();
    assert_eq!(keys(&js), vec!["tx_id", "event_type", "x509_serials"]);
    assert_eq!(member(&js, "tx_id"), Some(&JsonValue::Leaf(JsonLeaf::Integer(3))));
    assert_eq!(member(&js, "event_type"), Some(&leaf_text("tls_handshake")));
    // Only what parses as a certificate gives a serial number.
    assert_eq!(
        member(&js, "x509_serials"),
        Some(&JsonValue::Leaf(JsonLeaf::Array(texts(&["b57192284ceb4d1e", "b57192284ceb4d1e"]))))
    );
    assert_eq!(rs_rdp_to_json(&tx), Some(js));
}

#[test]
fn test_x224_request_record() {
    let mut x224 = X224ConnectionRequest {
        cdt: 0,
        dst_ref: 0,
        src_ref: 0,
        class: 0,
        options: 0,
        cookie: Some(RdpCookie { mstshash: b"user123".to_vec() }),
        negotiation_request: Some(NegotiationRequest {
            flags: NegotiationRequestFlags { bits: 0x09 },
            protocols: ProtocolFlags { bits: 3 },
        }),
        data: vec![],
    };
    let mut js = Json::object();
    x224_req_to_json(&mut js, &x224);
    assert_eq!(keys(&js), vec!["event_type", "cookie", "flags"]);
    assert_eq!(member(&js, "event_type"), Some(&leaf_text("initial_request")));
    assert_eq!(member(&js, "cookie"), Some(&leaf_text("user123")));
    assert_eq!(
        member(&js, "flags"),
        Some(&JsonValue::Leaf(JsonLeaf::Array(texts(&[
            "restricted_admin_mode_required",
            "correlation_info_present"
        ]))))
    );
    x224.cookie = None;
    x224.negotiation_request = Some(NegotiationRequest {
        flags: NegotiationRequestFlags { bits: 0 },
        protocols: ProtocolFlags { bits: 0 },
    });
    let js = to_json(&RdpTransaction { id: 1, item: RdpTransactionItem::X224ConnectionRequest(x224) })
        .unwrap();
    assert_eq!(keys(&js), vec!["tx_id", "event_type"]);
}

#[test]
fn test_x224_confirm_record() {
    let mut x224 = X224ConnectionConfirm {
        cdt: 0,
        dst_ref: 0,
        src_ref: 0,
        class: 0,
        options: 0,
        negotiation_from_server: Some(NegotiationFromServer::Response(NegotiationResponse {
            flags: NegotiationResponseFlags { bits: 0x1f },
            protocol: Protocol::ProtocolHybridEx,
        })),
    };
    let mut js = Json::object();
    x224_conf_to_json(&mut js, &x224);
    assert_eq!(keys(&js), vec!["event_type", "server_supports", "protocol"]);
    assert_eq!(member(&js, "event_type"), Some(&leaf_text("initial_response")));
    // The reserved flag is not named.
    assert_eq!(
        member(&js, "server_supports"),
        Some(&JsonValue::Leaf(JsonLeaf::Array(texts(&[
            "extended_client_data",
            "dynvc_gfx",
            "restricted_admin",
            "redirected_authentication"
        ]))))
    );
    assert_eq!(member(&js, "protocol"), Some(&leaf_text("hybrid_ex")));
    x224.negotiation_from_server = Some(NegotiationFromServer::Response(NegotiationResponse {
        flags: NegotiationResponseFlags { bits: 0 },
        protocol: Protocol::ProtocolRdp,
    }));
    let mut js = Json::object();
    x224_conf_to_json(&mut js, &x224);
    assert_eq!(keys(&js), vec!["event_type", "protocol"]);
    assert_eq!(member(&js, "protocol"), Some(&leaf_text("rdp")));
    x224.negotiation_from_server = Some(NegotiationFromServer::Failure(NegotiationFailure {
        code: NegotiationFailureCode::HybridRequiredByServer,
    }));
    let mut js = Json::object();
    x224_conf_to_json(&mut js, &x224);
    assert_eq!(keys(&js), vec!["event_type", "error_code", "reason"]);
    assert_eq!(member(&js, "error_code"), Some(&JsonValue::Leaf(JsonLeaf::Integer(5))));
    assert_eq!(member(&js, "reason"), Some(&leaf_text("hybrid required by server")));
    x224.negotiation_from_server = None;
    let js = to_json(&RdpTransaction { id: 9, item: RdpTransactionItem::X224ConnectionConfirm(x224) })
        .unwrap();
    assert_eq!(keys(&js), vec!["tx_id", "event_type"]);
}

#[test]
fn test_client_object_minimal() {
    let js = client_object(&plain_client());
    let keys: Vec<&str> = js.members.iter().map(|m| m.key).collect();
    assert_eq!(
        keys,
        vec![
            "version",
            "desktop_width",
            "desktop_height",
            "keyboard_layout",
            "build",
            "client_name",
            "function_keys"
        ]
    );
    assert_eq!(js.members[0].value, JsonLeaf::String(b"unknown".to_vec()));
    assert_eq!(js.members[1].value, JsonLeaf::Integer(1280));
    assert_eq!(js.members[2].value, JsonLeaf::Integer(768));
    assert_eq!(js.members[3].value, JsonLeaf::String(b"en-US".to_vec()));
    assert_eq!(js.members[4].value, JsonLeaf::String(b"Windows 10 RS5".to_vec()));
    assert_eq!(js.members[5].value, JsonLeaf::String(b"SERVER-XYZ".to_vec()));
    assert_eq!(js.members[6].value, JsonLeaf::Integer(12));
}

#[test]
fn test_client_object_full() {
    let mut client = plain_client();
    client.version = Some(RdpClientVersion::V10_3);
    client.high_color_depth = Some(HighColorDepth::HighColor16Bpp);
    client.keyboard_type = Some(KeyboardType::KbEnhanced);
    client.keyboard_subtype = 2;
    client.ime_file_name = b"ime.dll".to_vec();
    client.client_product_id = Some(1);
    client.serial_number = Some(0);
    client.early_capability_flags = Some(EarlyCapabilityFlags { bits: 0x0431 });
    client.client_dig_product_id = Some(b"dig-id".to_vec());
    client.connection_hint = Some(ConnectionHint::ConnectionHintLan);
    client.desktop_physical_width = Some(300);
    client.desktop_physical_height = Some(200);
    client.desktop_orientation = Some(DesktopOrientation::OrientationPortraitFlipped);
    client.desktop_scale_factor = Some(100);
    client.device_scale_factor = Some(140);
    let js = client_object(&client);
    let keys: Vec<&str> = js.members.iter().map(|m| m.key).collect();
    assert_eq!(
        keys,
        vec![
            "version",
            "desktop_width",
            "desktop_height",
            "color_depth",
            "keyboard_layout",
            "build",
            "client_name",
            "keyboard_type",
            "keyboard_subtype",
            "function_keys",
            "ime",
            "product_id",
            "capabilities",
            "id",
            "connection_hint",
            "physical_width",
            "physical_height",
            "desktop_orientation",
            "scale_factor",
            "device_scale_factor"
        ]
    );
    let value = |key: &str| js.members.iter().find(|m| m.key == key).map(|m| &m.value).unwrap();
    assert_eq!(value("version"), &JsonLeaf::String(b"v10.3".to_vec()));
    assert_eq!(value("color_depth"), &JsonLeaf::Integer(16));
    assert_eq!(value("keyboard_type"), &JsonLeaf::String(b"enhanced".to_vec()));
    // The unused flag 0x0010 is not named.
    assert_eq!(
        value("capabilities"),
        &JsonLeaf::Array(texts(&[
            "support_errinfo_pdf",
            "valid_connection_type",
            "support_heartbeat_pdu"
        ]))
    );
    assert_eq!(value("connection_hint"), &JsonLeaf::String(b"lan".to_vec()));
    assert_eq!(value("desktop_orientation"), &JsonLeaf::Integer(270));
    assert_eq!(value("device_scale_factor"), &JsonLeaf::Integer(140));
    // A serial number of zero, empty flags and a hint that was not given are
    // left out.
    client.early_capability_flags = Some(EarlyCapabilityFlags { bits: 0 });
    client.connection_hint = Some(ConnectionHint::ConnectionHintNotProvided);
    client.client_dig_product_id = Some(vec![]);
    client.serial_number = Some(77);
    let js = client_object(&client);
    let keys: Vec<&str> = js.members.iter().map(|m| m.key).collect();
    assert!(!keys.contains(&"capabilities"));
    assert!(!keys.contains(&"connection_hint"));
    assert!(!keys.contains(&"id"));
    assert!(keys.contains(&"serial_number"));
}

#[test]
fn test_mcs_request_record() {
    let mut second = plain_client();
    second.client_name = b"SECOND".to_vec();
    let mcs = McsConnectRequest {
        children: vec![
            McsConnectRequestChild::CsClientCore(plain_client()),
            McsConnectRequestChild::CsNet(CsNet { channels: texts(&["rdpdr", "cliprdr"]) }),
            McsConnectRequestChild::CsUnknown(CsUnknown { typ: 9, data: vec![1, 2] }),
            McsConnectRequestChild::CsNet(CsNet { channels: vec![] }),
            McsConnectRequestChild::CsClientCore(second),
        ],
    };
    let mut js = Json::object();
    mcs_req_to_json(&mut js, &mcs);
    // The second client takes the place of the first.
    assert_eq!(keys(&js), vec!["event_type", "client", "channels"]);
    assert_eq!(member(&js, "event_type"), Some(&leaf_text("connect_request")));
    assert_eq!(
        member(&js, "channels"),
        Some(&JsonValue::Leaf(JsonLeaf::Array(texts(&["rdpdr", "cliprdr"]))))
    );
    match member(&js, "client") {
        Some(JsonValue::Object(client)) => {
            assert_eq!(client.members[5].key, "client_name");
            assert_eq!(client.members[5].value, JsonLeaf::String(b"SECOND".to_vec()));
        }
        _ => panic!("no client object"),
    }
    let js = to_json(&RdpTransaction { id: 2, item: RdpTransactionItem::McsConnectRequest(mcs) })
        .unwrap();
    assert_eq!(keys(&js), vec!["tx_id", "event_type", "client", "channels"]);
    let js = to_json(&RdpTransaction {
        id: 4,
        item: RdpTransactionItem::McsConnectResponse(McsConnectResponse {}),
    })
    .unwrap();
    assert_eq!(keys(&js), vec!["tx_id", "event_type"]);
    assert_eq!(member(&js, "event_type"), Some(&leaf_text("connect_response")));
}
