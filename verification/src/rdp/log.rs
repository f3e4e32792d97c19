//! Log records of RDP transactions.

use vstd::prelude::*;
use vstd::string::StringSliceAdditionalSpecFns;

use crate::json::{
    digit_char, spec_digit_char, spec_hex_text, spec_set, spec_texts, text, Json, JsonObject,
    LeafView, ValueView,
};
use crate::rdp::parser::{
    ColorDepth, ConnectionHint, CsClientCoreData, DesktopOrientation, EarlyCapabilityFlags,
    HighColorDepth, KeyboardType, McsConnectRequest, McsConnectRequestChild,
    NegotiationFailureCode, NegotiationFromServer, NegotiationRequestFlags,
    NegotiationResponseFlags, PostBeta2ColorDepth, Protocol, RdpClientVersion,
    X224ConnectionConfirm, X224ConnectionRequest,
};
use crate::rdp::rdp::{CertificateBlob, RdpTransaction, RdpTransactionItem};
use crate::rdp::windows::{lcid_to_string, os_to_string, spec_lcid_to_string, spec_os_to_string};

verus! {

/// The octets of the serial number of the certificate in `der`, as
/// `x509_parser` finds them; none where `der` is no certificate.
pub uninterp spec fn spec_x509_raw_serial(der: Seq<u8>) -> Option<Seq<u8>>;

/// Parses a DER-encoded certificate with `x509_parser::parse_x509_der` and
/// gives the octets of its serial number.
///
/// Trusted: the result is that of the crate, which depends on the octets
/// of `der` alone: the content of the serial number's INTEGER, the most
/// significant octet first, or nothing where the crate rejects `der`.
#[verifier::external_body]
fn x509_raw_serial(der: &[u8]) -> (serial: Option<Vec<u8>>)
    ensures
        match spec_x509_raw_serial(der@) {
            Some(octets) => serial.is_some() && serial.unwrap()@ == octets,
            None => serial.is_none(),
        },
{
    match x509_parser::parse_x509_der(der) {
        Ok((_, cert)) => Some(cert.tbs_certificate.raw_serial().to_vec()),
        Err(_) => None,
    }
}

/// The number that `octets` encode, the most significant octet first.
pub open spec fn spec_be_value(octets: Seq<u8>) -> nat
    decreases octets.len(),
{
    if octets.len() == 0 {
        0
    } else {
        spec_be_value(octets.drop_last()) * 256 + octets.last() as nat
    }
}

/// A serial number in base sixteen, in lower case and without leading
/// zeros.
pub open spec fn spec_serial_text(octets: Seq<u8>) -> Seq<u8> {
    spec_hex_text(spec_be_value(octets))
}

/// The two digits of an octet behind the digits of what stands before it.
proof fn lemma_hex_text_step(before: nat, octet: u8)
    ensures
        before > 0 ==> spec_hex_text(before * 256 + octet as nat) == spec_hex_text(before).push(
            spec_digit_char((octet / 16) as nat),
        ).push(spec_digit_char((octet % 16) as nat)),
        before == 0 && octet >= 16 ==> spec_hex_text(before * 256 + octet as nat) == seq![
            spec_digit_char((octet / 16) as nat),
            spec_digit_char((octet % 16) as nat),
        ],
        before == 0 && octet < 16 ==> spec_hex_text(before * 256 + octet as nat) == seq![
            spec_digit_char(octet as nat),
        ],
{
    let n = before * 256 + octet as nat;
    assert(n / 16 == before * 16 + (octet / 16) as nat);
    assert(n % 16 == (octet % 16) as nat);
    if before > 0 {
        let m = before * 16 + (octet / 16) as nat;
        assert(m / 16 == before);
        assert(m % 16 == (octet / 16) as nat);
        assert(m >= 16);
        assert(n >= 16);
        assert(spec_hex_text(m) == spec_hex_text(before).push(spec_digit_char(m % 16)));
    } else if octet >= 16 {
        assert(n / 16 < 16);
        assert(spec_hex_text(n / 16) == seq![spec_digit_char(n / 16)]);
        assert(spec_hex_text(n) =~= seq![
            spec_digit_char((octet / 16) as nat),
            spec_digit_char((octet % 16) as nat),
        ]);
    }
}

/// Writes a serial number in base sixteen, see [`spec_serial_text`].
pub fn serial_text(octets: &[u8]) -> (r: Vec<u8>)
    ensures
        r@ == spec_serial_text(octets@),
{
    let len = octets.len();
    let mut out: Vec<u8> = Vec::new();
    let mut i: usize = 0;
    assert(octets@.subrange(0, 0) =~= Seq::empty());
    while i < len
        invariant
            i <= len,
            len == octets@.len(),
            spec_be_value(octets@.subrange(0, i as int)) == 0 ==> out@.len() == 0,
            spec_be_value(octets@.subrange(0, i as int)) > 0 ==> out@ == spec_hex_text(
                spec_be_value(octets@.subrange(0, i as int)),
            ),
        decreases len - i,
    {
        let ghost before = spec_be_value(octets@.subrange(0, i as int));
        let ghost next = octets@.subrange(0, i + 1);
        assert(next.drop_last() =~= octets@.subrange(0, i as int));
        assert(next.last() == octets@[i as int]);
        proof {
            lemma_hex_text_step(before, octets@[i as int]);
        }
        let octet = octets[i];
        if out.len() > 0 {
            out.push(digit_char(octet / 16));
            out.push(digit_char(octet % 16));
        } else if octet >= 16 {
            out.push(digit_char(octet / 16));
            out.push(digit_char(octet % 16));
            assert(out@ =~= seq![
                spec_digit_char((octet / 16) as nat),
                spec_digit_char((octet % 16) as nat),
            ]);
        } else if octet > 0 {
            out.push(digit_char(octet));
            assert(out@ =~= seq![spec_digit_char(octet as nat)]);
        }
        i += 1;
    }
    assert(octets@.subrange(0, len as int) =~= octets@);
    if out.len() == 0 {
        out.push(0x30);
        assert(out@ =~= seq![spec_digit_char(0)]);
    }
    out
}

/// Adds the text `s` to `list`.
fn push_text(list: &mut Vec<Vec<u8>>, s: &'static str)
    ensures
        spec_texts(final(list)@) == spec_texts(old(list)@).push(s.spec_bytes()),
{
    list.push(text(s));
    assert(spec_texts(list@) =~= spec_texts(old(list)@).push(s.spec_bytes()));
}

/// `list` with the serial number behind it that belongs to `raw`, if there
/// is one.
pub open spec fn spec_with_serial(list: Seq<Seq<u8>>, raw: Option<Seq<u8>>) -> Seq<Seq<u8>> {
    match raw {
        Some(octets) => list.push(spec_serial_text(octets)),
        None => list,
    }
}

/// Adds to `list` the text of the serial number `raw` of a certificate; a
/// certificate that did not parse adds nothing.
pub fn append_serial(list: &mut Vec<Vec<u8>>, raw: Option<Vec<u8>>)
    ensures
        spec_texts(final(list)@) == spec_with_serial(
            spec_texts(old(list)@),
            match raw {
                Some(octets) => Some(octets@),
                None => None,
            },
        ),
{
    match raw {
        Some(octets) => {
            list.push(serial_text(octets.as_slice()));
            assert(spec_texts(list@) =~= spec_texts(old(list)@).push(
                spec_serial_text(octets@),
            ));
        },
        None => {},
    }
}

/// The serial numbers of the certificates of `chain` that parse, in order,
/// behind those in `list`.
pub open spec fn spec_serials(list: Seq<Seq<u8>>, chain: Seq<CertificateBlob>) -> Seq<Seq<u8>>
    decreases chain.len(),
{
    if chain.len() == 0 {
        list
    } else {
        spec_serials(
            spec_with_serial(list, spec_x509_raw_serial(chain[0].data@)),
            chain.drop_first(),
        )
    }
}

/// The names of the flags of a negotiation request that are set.
pub open spec fn spec_request_flags(bits: u8) -> Seq<Seq<u8>> {
    let list = Seq::<Seq<u8>>::empty();
    let list = if bits & NegotiationRequestFlags::RESTRICTED_ADMIN_MODE_REQUIRED
        == NegotiationRequestFlags::RESTRICTED_ADMIN_MODE_REQUIRED {
        list.push("restricted_admin_mode_required".spec_bytes())
    } else {
        list
    };
    let list = if bits & NegotiationRequestFlags::REDIRECTED_AUTHENTICATION_MODE_REQUIRED
        == NegotiationRequestFlags::REDIRECTED_AUTHENTICATION_MODE_REQUIRED {
        list.push("redirected_authentication_mode_required".spec_bytes())
    } else {
        list
    };
    let list = if bits & NegotiationRequestFlags::CORRELATION_INFO_PRESENT
        == NegotiationRequestFlags::CORRELATION_INFO_PRESENT {
        list.push("correlation_info_present".spec_bytes())
    } else {
        list
    };
    list
}

/// The names of the flags of a negotiation request that are set.
pub fn request_flags(bits: u8) -> (list: Vec<Vec<u8>>)
    ensures
        spec_texts(list@) == spec_request_flags(bits),
{
    let mut list: Vec<Vec<u8>> = Vec::new();
    assert(spec_texts(list@) =~= Seq::empty());
    if bits & NegotiationRequestFlags::RESTRICTED_ADMIN_MODE_REQUIRED
        == NegotiationRequestFlags::RESTRICTED_ADMIN_MODE_REQUIRED {
        push_text(&mut list, "restricted_admin_mode_required");
    }
    if bits & NegotiationRequestFlags::REDIRECTED_AUTHENTICATION_MODE_REQUIRED
        == NegotiationRequestFlags::REDIRECTED_AUTHENTICATION_MODE_REQUIRED {
        push_text(&mut list, "redirected_authentication_mode_required");
    }
    if bits & NegotiationRequestFlags::CORRELATION_INFO_PRESENT
        == NegotiationRequestFlags::CORRELATION_INFO_PRESENT {
        push_text(&mut list, "correlation_info_present");
    }
    list
}

/// The names of what a server supports by the flags of its negotiation
/// response; the reserved flag has no name.
pub open spec fn spec_response_flags(bits: u8) -> Seq<Seq<u8>> {
    let list = Seq::<Seq<u8>>::empty();
    let list = if bits & NegotiationResponseFlags::EXTENDED_CLIENT_DATA_SUPPORTED
        == NegotiationResponseFlags::EXTENDED_CLIENT_DATA_SUPPORTED {
        list.push("extended_client_data".spec_bytes())
    } else {
        list
    };
    let list = if bits & NegotiationResponseFlags::DYNVC_GFX_PROTOCOL_SUPPORTED
        == NegotiationResponseFlags::DYNVC_GFX_PROTOCOL_SUPPORTED {
        list.push("dynvc_gfx".spec_bytes())
    } else {
        list
    };
    let list = if bits & NegotiationResponseFlags::RESTRICTED_ADMIN_MODE_SUPPORTED
        == NegotiationResponseFlags::RESTRICTED_ADMIN_MODE_SUPPORTED {
        list.push("restricted_admin".spec_bytes())
    } else {
        list
    };
    let list = if bits & NegotiationResponseFlags::REDIRECTED_AUTHENTICATION_MODE_SUPPORTED
        == NegotiationResponseFlags::REDIRECTED_AUTHENTICATION_MODE_SUPPORTED {
        list.push("redirected_authentication".spec_bytes())
    } else {
        list
    };
    list
}

/// The names of what a server supports by the flags of its negotiation
/// response; the reserved flag has no name.
pub fn response_flags(bits: u8) -> (list: Vec<Vec<u8>>)
    ensures
        spec_texts(list@) == spec_response_flags(bits),
{
    let mut list: Vec<Vec<u8>> = Vec::new();
    assert(spec_texts(list@) =~= Seq::empty());
    if bits & NegotiationResponseFlags::EXTENDED_CLIENT_DATA_SUPPORTED
        == NegotiationResponseFlags::EXTENDED_CLIENT_DATA_SUPPORTED {
        push_text(&mut list, "extended_client_data");
    }
    if bits & NegotiationResponseFlags::DYNVC_GFX_PROTOCOL_SUPPORTED
        == NegotiationResponseFlags::DYNVC_GFX_PROTOCOL_SUPPORTED {
        push_text(&mut list, "dynvc_gfx");
    }
    if bits & NegotiationResponseFlags::RESTRICTED_ADMIN_MODE_SUPPORTED
        == NegotiationResponseFlags::RESTRICTED_ADMIN_MODE_SUPPORTED {
        push_text(&mut list, "restricted_admin");
    }
    if bits & NegotiationResponseFlags::REDIRECTED_AUTHENTICATION_MODE_SUPPORTED
        == NegotiationResponseFlags::REDIRECTED_AUTHENTICATION_MODE_SUPPORTED {
        push_text(&mut list, "redirected_authentication");
    }
    list
}

/// The names of the capabilities that a client announces early; the unused
/// flag has no name.
pub open spec fn spec_capability_flags(bits: u16) -> Seq<Seq<u8>> {
    let list = Seq::<Seq<u8>>::empty();
    let list = if bits & EarlyCapabilityFlags::RNS_UD_CS_SUPPORT_ERRINFO_PDF
        == EarlyCapabilityFlags::RNS_UD_CS_SUPPORT_ERRINFO_PDF {
        list.push("support_errinfo_pdf".spec_bytes())
    } else {
        list
    };
    let list = if bits & EarlyCapabilityFlags::RNS_UD_CS_WANT_32BPP_SESSION
        == EarlyCapabilityFlags::RNS_UD_CS_WANT_32BPP_SESSION {
        list.push("want_32bpp_session".spec_bytes())
    } else {
        list
    };
    let list = if bits & EarlyCapabilityFlags::RNS_UD_CS_SUPPORT_STATUSINFO_PDU
        == EarlyCapabilityFlags::RNS_UD_CS_SUPPORT_STATUSINFO_PDU {
        list.push("support_statusinfo_pdu".spec_bytes())
    } else {
        list
    };
    let list = if bits & EarlyCapabilityFlags::RNS_UD_CS_STRONG_ASYMMETRIC_KEYS
        == EarlyCapabilityFlags::RNS_UD_CS_STRONG_ASYMMETRIC_KEYS {
        list.push("strong_asymmetric_keys".spec_bytes())
    } else {
        list
    };
    let list = if bits & EarlyCapabilityFlags::RNS_UD_CS_VALID_CONNECTION_TYPE
        == EarlyCapabilityFlags::RNS_UD_CS_VALID_CONNECTION_TYPE {
        list.push("valid_connection_type".spec_bytes())
    } else {
        list
    };
    let list = if bits & EarlyCapabilityFlags::RNS_UD_CS_SUPPORT_MONITOR_LAYOUT_PDU
        == EarlyCapabilityFlags::RNS_UD_CS_SUPPORT_MONITOR_LAYOUT_PDU {
        list.push("support_monitor_layout_pdu".spec_bytes())
    } else {
        list
    };
    let list = if bits & EarlyCapabilityFlags::RNS_UD_CS_SUPPORT_NETCHAR_AUTODETECT
        == EarlyCapabilityFlags::RNS_UD_CS_SUPPORT_NETCHAR_AUTODETECT {
        list.push("support_netchar_autodetect".spec_bytes())
    } else {
        list
    };
    let list = if bits & EarlyCapabilityFlags::RNS_UD_CS_SUPPORT_DYNVC_GFX_PROTOCOL
        == EarlyCapabilityFlags::RNS_UD_CS_SUPPORT_DYNVC_GFX_PROTOCOL {
        list.push("support_dynvc_gfx_protocol".spec_bytes())
    } else {
        list
    };
    let list = if bits & EarlyCapabilityFlags::RNS_UD_CS_SUPPORT_DYNAMIC_TIME_ZONE
        == EarlyCapabilityFlags::RNS_UD_CS_SUPPORT_DYNAMIC_TIME_ZONE {
        list.push("support_dynamic_time_zone".spec_bytes())
    } else {
        list
    };
    let list = if bits & EarlyCapabilityFlags::RNS_UD_CS_SUPPORT_HEARTBEAT_PDU
        == EarlyCapabilityFlags::RNS_UD_CS_SUPPORT_HEARTBEAT_PDU {
        list.push("support_heartbeat_pdu".spec_bytes())
    } else {
        list
    };
    list
}

/// The names of the capabilities that a client announces early; the unused
/// flag has no name.
pub fn capability_flags(bits: u16) -> (list: Vec<Vec<u8>>)
    ensures
        spec_texts(list@) == spec_capability_flags(bits),
{
    let mut list: Vec<Vec<u8>> = Vec::new();
    assert(spec_texts(list@) =~= Seq::empty());
    if bits & EarlyCapabilityFlags::RNS_UD_CS_SUPPORT_ERRINFO_PDF
        == EarlyCapabilityFlags::RNS_UD_CS_SUPPORT_ERRINFO_PDF {
        push_text(&mut list, "support_errinfo_pdf");
    }
    if bits & EarlyCapabilityFlags::RNS_UD_CS_WANT_32BPP_SESSION
        == EarlyCapabilityFlags::RNS_UD_CS_WANT_32BPP_SESSION {
        push_text(&mut list, "want_32bpp_session");
    }
    if bits & EarlyCapabilityFlags::RNS_UD_CS_SUPPORT_STATUSINFO_PDU
        == EarlyCapabilityFlags::RNS_UD_CS_SUPPORT_STATUSINFO_PDU {
        push_text(&mut list, "support_statusinfo_pdu");
    }
    if bits & EarlyCapabilityFlags::RNS_UD_CS_STRONG_ASYMMETRIC_KEYS
        == EarlyCapabilityFlags::RNS_UD_CS_STRONG_ASYMMETRIC_KEYS {
        push_text(&mut list, "strong_asymmetric_keys");
    }
    if bits & EarlyCapabilityFlags::RNS_UD_CS_VALID_CONNECTION_TYPE
        == EarlyCapabilityFlags::RNS_UD_CS_VALID_CONNECTION_TYPE {
        push_text(&mut list, "valid_connection_type");
    }
    if bits & EarlyCapabilityFlags::RNS_UD_CS_SUPPORT_MONITOR_LAYOUT_PDU
        == EarlyCapabilityFlags::RNS_UD_CS_SUPPORT_MONITOR_LAYOUT_PDU {
        push_text(&mut list, "support_monitor_layout_pdu");
    }
    if bits & EarlyCapabilityFlags::RNS_UD_CS_SUPPORT_NETCHAR_AUTODETECT
        == EarlyCapabilityFlags::RNS_UD_CS_SUPPORT_NETCHAR_AUTODETECT {
        push_text(&mut list, "support_netchar_autodetect");
    }
    if bits & EarlyCapabilityFlags::RNS_UD_CS_SUPPORT_DYNVC_GFX_PROTOCOL
        == EarlyCapabilityFlags::RNS_UD_CS_SUPPORT_DYNVC_GFX_PROTOCOL {
        push_text(&mut list, "support_dynvc_gfx_protocol");
    }
    if bits & EarlyCapabilityFlags::RNS_UD_CS_SUPPORT_DYNAMIC_TIME_ZONE
        == EarlyCapabilityFlags::RNS_UD_CS_SUPPORT_DYNAMIC_TIME_ZONE {
        push_text(&mut list, "support_dynamic_time_zone");
    }
    if bits & EarlyCapabilityFlags::RNS_UD_CS_SUPPORT_HEARTBEAT_PDU
        == EarlyCapabilityFlags::RNS_UD_CS_SUPPORT_HEARTBEAT_PDU {
        push_text(&mut list, "support_heartbeat_pdu");
    }
    list
}

/// The number of a client version, as text.
pub open spec fn spec_version_name(v: RdpClientVersion) -> &'static str {
    match v {
        RdpClientVersion::V4 => "4",
        RdpClientVersion::V5_V8_1 => "5",
        RdpClientVersion::V10_0 => "10.0",
        RdpClientVersion::V10_1 => "10.1",
        RdpClientVersion::V10_2 => "10.2",
        RdpClientVersion::V10_3 => "10.3",
        RdpClientVersion::V10_4 => "10.4",
        RdpClientVersion::V10_5 => "10.5",
        RdpClientVersion::V10_6 => "10.6",
        RdpClientVersion::V10_7 => "10.7",
    }
}

/// The number of a client version, as text.
pub fn version_name(v: RdpClientVersion) -> (r: &'static str)
    ensures
        r == spec_version_name(v),
{
    match v {
        RdpClientVersion::V4 => "4",
        RdpClientVersion::V5_V8_1 => "5",
        RdpClientVersion::V10_0 => "10.0",
        RdpClientVersion::V10_1 => "10.1",
        RdpClientVersion::V10_2 => "10.2",
        RdpClientVersion::V10_3 => "10.3",
        RdpClientVersion::V10_4 => "10.4",
        RdpClientVersion::V10_5 => "10.5",
        RdpClientVersion::V10_6 => "10.6",
        RdpClientVersion::V10_7 => "10.7",
    }
}

/// The name of a kind of keyboard.
pub open spec fn spec_keyboard_name(v: KeyboardType) -> &'static str {
    match v {
        KeyboardType::KbXt => "xt",
        KeyboardType::KbIco => "ico",
        KeyboardType::KbAt => "at",
        KeyboardType::KbEnhanced => "enhanced",
        KeyboardType::Kb1050 => "1050",
        KeyboardType::Kb9140 => "9140",
        KeyboardType::KbJapanese => "jp",
    }
}

/// The name of a kind of keyboard.
pub fn keyboard_name(v: KeyboardType) -> (r: &'static str)
    ensures
        r == spec_keyboard_name(v),
{
    match v {
        KeyboardType::KbXt => "xt",
        KeyboardType::KbIco => "ico",
        KeyboardType::KbAt => "at",
        KeyboardType::KbEnhanced => "enhanced",
        KeyboardType::Kb1050 => "1050",
        KeyboardType::Kb9140 => "9140",
        KeyboardType::KbJapanese => "jp",
    }
}

/// The name of a security protocol.
pub open spec fn spec_protocol_name(v: Protocol) -> &'static str {
    match v {
        Protocol::ProtocolRdp => "rdp",
        Protocol::ProtocolSsl => "ssl",
        Protocol::ProtocolHybrid => "hybrid",
        Protocol::ProtocolRdsTls => "rds_tls",
        Protocol::ProtocolHybridEx => "hybrid_ex",
    }
}

/// The name of a security protocol.
pub fn protocol_name(v: Protocol) -> (r: &'static str)
    ensures
        r == spec_protocol_name(v),
{
    match v {
        Protocol::ProtocolRdp => "rdp",
        Protocol::ProtocolSsl => "ssl",
        Protocol::ProtocolHybrid => "hybrid",
        Protocol::ProtocolRdsTls => "rds_tls",
        Protocol::ProtocolHybridEx => "hybrid_ex",
    }
}

/// Why a server refuses to negotiate, in words.
pub open spec fn spec_failure_reason(v: NegotiationFailureCode) -> &'static str {
    match v {
        NegotiationFailureCode::SslRequiredByServer => "ssl required by server",
        NegotiationFailureCode::SslNotAllowedByServer => "ssl not allowed by server",
        NegotiationFailureCode::SslCertNotOnServer => "ssl cert not on server",
        NegotiationFailureCode::InconsistentFlags => "inconsistent flags",
        NegotiationFailureCode::HybridRequiredByServer => "hybrid required by server",
        NegotiationFailureCode::SslWithUserAuthRequiredByServer => "ssl with user auth required by server",
    }
}

/// Why a server refuses to negotiate, in words.
pub fn failure_reason(v: NegotiationFailureCode) -> (r: &'static str)
    ensures
        r == spec_failure_reason(v),
{
    match v {
        NegotiationFailureCode::SslRequiredByServer => "ssl required by server",
        NegotiationFailureCode::SslNotAllowedByServer => "ssl not allowed by server",
        NegotiationFailureCode::SslCertNotOnServer => "ssl cert not on server",
        NegotiationFailureCode::InconsistentFlags => "inconsistent flags",
        NegotiationFailureCode::HybridRequiredByServer => "hybrid required by server",
        NegotiationFailureCode::SslWithUserAuthRequiredByServer => "ssl with user auth required by server",
    }
}

/// The number of a reason to refuse, as it is on the wire.
pub open spec fn spec_failure_code(v: NegotiationFailureCode) -> u64 {
    match v {
        NegotiationFailureCode::SslRequiredByServer => 1,
        NegotiationFailureCode::SslNotAllowedByServer => 2,
        NegotiationFailureCode::SslCertNotOnServer => 3,
        NegotiationFailureCode::InconsistentFlags => 4,
        NegotiationFailureCode::HybridRequiredByServer => 5,
        NegotiationFailureCode::SslWithUserAuthRequiredByServer => 6,
    }
}

/// The number of a reason to refuse, as it is on the wire.
pub fn failure_code(v: NegotiationFailureCode) -> (r: u64)
    ensures
        r == spec_failure_code(v),
{
    match v {
        NegotiationFailureCode::SslRequiredByServer => 1,
        NegotiationFailureCode::SslNotAllowedByServer => 2,
        NegotiationFailureCode::SslCertNotOnServer => 3,
        NegotiationFailureCode::InconsistentFlags => 4,
        NegotiationFailureCode::HybridRequiredByServer => 5,
        NegotiationFailureCode::SslWithUserAuthRequiredByServer => 6,
    }
}

/// The name of a kind of connection; empty where the client gave none.
pub open spec fn spec_hint_name(v: ConnectionHint) -> &'static str {
    match v {
        ConnectionHint::ConnectionHintModem => "modem",
        ConnectionHint::ConnectionHintBroadbandLow => "low_broadband",
        ConnectionHint::ConnectionHintSatellite => "satellite",
        ConnectionHint::ConnectionHintBroadbandHigh => "high_broadband",
        ConnectionHint::ConnectionHintWan => "wan",
        ConnectionHint::ConnectionHintLan => "lan",
        ConnectionHint::ConnectionHintAutoDetect => "autodetect",
        ConnectionHint::ConnectionHintNotProvided => "",
    }
}

/// The name of a kind of connection; empty where the client gave none.
pub fn hint_name(v: ConnectionHint) -> (r: &'static str)
    ensures
        r == spec_hint_name(v),
{
    match v {
        ConnectionHint::ConnectionHintModem => "modem",
        ConnectionHint::ConnectionHintBroadbandLow => "low_broadband",
        ConnectionHint::ConnectionHintSatellite => "satellite",
        ConnectionHint::ConnectionHintBroadbandHigh => "high_broadband",
        ConnectionHint::ConnectionHintWan => "wan",
        ConnectionHint::ConnectionHintLan => "lan",
        ConnectionHint::ConnectionHintAutoDetect => "autodetect",
        ConnectionHint::ConnectionHintNotProvided => "",
    }
}

/// The angle of a desktop orientation in degrees, as it is on the wire.
pub open spec fn spec_orientation_code(v: DesktopOrientation) -> u64 {
    match v {
        DesktopOrientation::OrientationLandscape => 0,
        DesktopOrientation::OrientationPortrait => 90,
        DesktopOrientation::OrientationLandscapeFlipped => 180,
        DesktopOrientation::OrientationPortraitFlipped => 270,
    }
}

/// The angle of a desktop orientation in degrees, as it is on the wire.
pub fn orientation_code(v: DesktopOrientation) -> (r: u64)
    ensures
        r == spec_orientation_code(v),
{
    match v {
        DesktopOrientation::OrientationLandscape => 0,
        DesktopOrientation::OrientationPortrait => 90,
        DesktopOrientation::OrientationLandscapeFlipped => 180,
        DesktopOrientation::OrientationPortraitFlipped => 270,
    }
}

/// The text of a client version behind `prefix`.
pub open spec fn spec_version_to_string(ver: RdpClientVersion, prefix: &str) -> Seq<u8> {
    prefix.spec_bytes() + spec_version_name(ver).spec_bytes()
}

/// Writes a client version behind `prefix`.
pub fn version_to_string(ver: &RdpClientVersion, prefix: &str) -> (result: Vec<u8>)
    ensures
        result@ == spec_version_to_string(*ver, prefix),
{
    let mut result = text(prefix);
    let mut number = text(version_name(*ver));
    result.append(&mut number);
    result
}

/// The text of a kind of keyboard.
pub fn keyboard_to_string(kb: &KeyboardType) -> (s: Vec<u8>)
    ensures
        s@ == spec_keyboard_name(*kb).spec_bytes(),
{
    text(keyboard_name(*kb))
}

/// The color depth of a client in bits per pixel: what the high color
/// depth tells, else what the depth of the later protocol versions tells,
/// else what the first depth tells; none where none of them names a depth.
pub open spec fn spec_color_depth(client: CsClientCoreData) -> Option<u64> {
    match client.high_color_depth {
        Some(HighColorDepth::HighColor4Bpp) => Some(4),
        Some(HighColorDepth::HighColor8Bpp) => Some(8),
        Some(HighColorDepth::HighColor15Bpp) => Some(15),
        Some(HighColorDepth::HighColor16Bpp) => Some(16),
        Some(HighColorDepth::HighColor24Bpp) => Some(24),
        _ => match client.post_beta2_color_depth {
            Some(PostBeta2ColorDepth::RnsUdColor4Bpp) => Some(4),
            Some(PostBeta2ColorDepth::RnsUdColor8Bpp) => Some(8),
            Some(PostBeta2ColorDepth::RnsUdColor16Bpp555) => Some(15),
            Some(PostBeta2ColorDepth::RnsUdColor16Bpp565) => Some(16),
            Some(PostBeta2ColorDepth::RnsUdColor24Bpp) => Some(24),
            _ => match client.color_depth {
                Some(ColorDepth::RnsUdColor4Bpp) => Some(4),
                Some(ColorDepth::RnsUdColor8Bpp) => Some(8),
                None => None,
            },
        },
    }
}

/// Checks the fields of the client data, one after the other, for the
/// color depth.
pub fn get_color_depth(client: &CsClientCoreData) -> (depth: Option<u64>)
    ensures
        depth == spec_color_depth(*client),
{
    // first check high_color_depth
    match client.high_color_depth {
        Some(HighColorDepth::HighColor4Bpp) => {
            return Some(4);
        },
        Some(HighColorDepth::HighColor8Bpp) => {
            return Some(8);
        },
        Some(HighColorDepth::HighColor15Bpp) => {
            return Some(15);
        },
        Some(HighColorDepth::HighColor16Bpp) => {
            return Some(16);
        },
        Some(HighColorDepth::HighColor24Bpp) => {
            return Some(24);
        },
        _ => {},
    }
    // if not present, try post_beta2_color_depth
    match client.post_beta2_color_depth {
        Some(PostBeta2ColorDepth::RnsUdColor4Bpp) => {
            return Some(4);
        },
        Some(PostBeta2ColorDepth::RnsUdColor8Bpp) => {
            return Some(8);
        },
        Some(PostBeta2ColorDepth::RnsUdColor16Bpp555) => {
            return Some(15);
        },
        Some(PostBeta2ColorDepth::RnsUdColor16Bpp565) => {
            return Some(16);
        },
        Some(PostBeta2ColorDepth::RnsUdColor24Bpp) => {
            return Some(24);
        },
        _ => {},
    }
    // if not present, try color_depth
    match client.color_depth {
        Some(ColorDepth::RnsUdColor4Bpp) => Some(4),
        Some(ColorDepth::RnsUdColor8Bpp) => Some(8),
        None => None,
    }
}

/// The members `js` of the object of a client with the version of the client and its desktop: width, height and, where it
/// is known, the color depth.
pub open spec fn spec_client_screen(js: Seq<(Seq<u8>, LeafView)>, client: CsClientCoreData) -> Seq<
    (Seq<u8>, LeafView),
> {
    let js = spec_set(js, "version".spec_bytes(), LeafView::String(
            match client.version {
                Some(ver) => spec_version_to_string(ver, "v"),
                None => "unknown".spec_bytes(),
            },
        ));
    let js = spec_set(js, "desktop_width".spec_bytes(), LeafView::Integer(client.desktop_width as u64));
    let js = spec_set(js, "desktop_height".spec_bytes(), LeafView::Integer(client.desktop_height as u64));
    let js = if spec_color_depth(client).is_some() {
        spec_set(js, "color_depth".spec_bytes(), LeafView::Integer(spec_color_depth(client).unwrap()))
    } else {
        js
    };
    js
}

/// Adds to the object of a client the version of the client and its desktop: width, height and, where it
/// is known, the color depth.
fn client_screen(js: &mut JsonObject, client: &CsClientCoreData)
    ensures
        final(js)@ == spec_client_screen(old(js)@, *client),
{
    // placeholder for what is not known: it shows that a table may be out
    // of date
    let unknown = text("unknown");
    match &client.version {
        Some(ver) => {
            let v = version_to_string(ver, "v");
            js.set_string("version", v.as_slice());
        },
        None => {
            js.set_string("version", unknown.as_slice());
        },
    }
    js.set_integer("desktop_width", client.desktop_width as u64);
    js.set_integer("desktop_height", client.desktop_height as u64);
    if let Some(depth) = get_color_depth(client) {
        js.set_integer("color_depth", depth);
    }
}

/// The members `js` of the object of a client with the keyboard layout, the build, and where they are given the name of the
/// client, the kind of keyboard with subtype and function keys, and the input method.
pub open spec fn spec_client_keyboard(js: Seq<(Seq<u8>, LeafView)>, client: CsClientCoreData) -> Seq<
    (Seq<u8>, LeafView),
> {
    let js = spec_set(js, "keyboard_layout".spec_bytes(), LeafView::String(spec_lcid_to_string(client.keyboard_layout, "unknown".spec_bytes())));
    let js = spec_set(js, "build".spec_bytes(), LeafView::String(spec_os_to_string(client.client_build, "unknown".spec_bytes())));
    let js = if client.client_name@.len() > 0 {
        spec_set(js, "client_name".spec_bytes(), LeafView::String(client.client_name@))
    } else {
        js
    };
    let js = if client.keyboard_type.is_some() {
        spec_set(js, "keyboard_type".spec_bytes(), LeafView::String(spec_keyboard_name(client.keyboard_type.unwrap()).spec_bytes()))
    } else {
        js
    };
    let js = if client.keyboard_subtype != 0 {
        spec_set(js, "keyboard_subtype".spec_bytes(), LeafView::Integer(client.keyboard_subtype as u64))
    } else {
        js
    };
    let js = if client.keyboard_function_key != 0 {
        spec_set(js, "function_keys".spec_bytes(), LeafView::Integer(client.keyboard_function_key as u64))
    } else {
        js
    };
    let js = if client.ime_file_name@.len() > 0 {
        spec_set(js, "ime".spec_bytes(), LeafView::String(client.ime_file_name@))
    } else {
        js
    };
    js
}

/// Adds to the object of a client the keyboard layout, the build, and where they are given the name of the
/// client, the kind of keyboard with subtype and function keys, and the input method.
fn client_keyboard(js: &mut JsonObject, client: &CsClientCoreData)
    ensures
        final(js)@ == spec_client_keyboard(old(js)@, *client),
{
    // placeholder for what is not known: it shows that a table may be out
    // of date
    let unknown = text("unknown");
    let layout = lcid_to_string(client.keyboard_layout, unknown.as_slice());
    js.set_string("keyboard_layout", layout.as_slice());
    let build = os_to_string(&client.client_build, unknown.as_slice());
    js.set_string("build", build.as_slice());
    if client.client_name.len() > 0 {
        js.set_string("client_name", client.client_name.as_slice());
    }
    if let Some(kb) = &client.keyboard_type {
        let name = keyboard_to_string(kb);
        js.set_string("keyboard_type", name.as_slice());
    }
    if client.keyboard_subtype != 0 {
        js.set_integer("keyboard_subtype", client.keyboard_subtype as u64);
    }
    if client.keyboard_function_key != 0 {
        js.set_integer("function_keys", client.keyboard_function_key as u64);
    }
    if client.ime_file_name.len() > 0 {
        js.set_string("ime", client.ime_file_name.as_slice());
    }
}

/// The members `js` of the object of a client with the product and serial number, the early capabilities, the product
/// identifier and the kind of connection, each where it is given.
pub open spec fn spec_client_product(js: Seq<(Seq<u8>, LeafView)>, client: CsClientCoreData) -> Seq<
    (Seq<u8>, LeafView),
> {
    let js = if client.client_product_id.is_some() {
        spec_set(js, "product_id".spec_bytes(), LeafView::Integer(client.client_product_id.unwrap() as u64))
    } else {
        js
    };
    let js = if client.serial_number.is_some() && client.serial_number.unwrap() != 0 {
        spec_set(js, "serial_number".spec_bytes(), LeafView::Integer(client.serial_number.unwrap() as u64))
    } else {
        js
    };
    let js = if client.early_capability_flags.is_some() && client.early_capability_flags.unwrap().bits != 0 {
        spec_set(js, "capabilities".spec_bytes(), LeafView::Array(spec_capability_flags(client.early_capability_flags.unwrap().bits)))
    } else {
        js
    };
    let js = if client.client_dig_product_id.is_some() && client.client_dig_product_id.unwrap()@.len() > 0 {
        spec_set(js, "id".spec_bytes(), LeafView::String(client.client_dig_product_id.unwrap()@))
    } else {
        js
    };
    let js = if client.connection_hint.is_some() && client.connection_hint.unwrap()
        != ConnectionHint::ConnectionHintNotProvided {
        spec_set(js, "connection_hint".spec_bytes(), LeafView::String(spec_hint_name(client.connection_hint.unwrap()).spec_bytes()))
    } else {
        js
    };
    js
}

/// Adds to the object of a client the product and serial number, the early capabilities, the product
/// identifier and the kind of connection, each where it is given.
fn client_product(js: &mut JsonObject, client: &CsClientCoreData)
    ensures
        final(js)@ == spec_client_product(old(js)@, *client),
{
    if let Some(id) = client.client_product_id {
        js.set_integer("product_id", id as u64);
    }
    if let Some(serial) = client.serial_number {
        if serial != 0 {
            js.set_integer("serial_number", serial as u64);
        }
    }
    if let Some(flags) = &client.early_capability_flags {
        if flags.bits != 0 {
            js.set_array("capabilities", capability_flags(flags.bits));
        }
    }
    if let Some(id) = &client.client_dig_product_id {
        if id.len() > 0 {
            js.set_string("id", id.as_slice());
        }
    }
    if let Some(hint) = client.connection_hint {
        if hint != ConnectionHint::ConnectionHintNotProvided {
            let s = text(hint_name(hint));
            js.set_string("connection_hint", s.as_slice());
        }
    }
}

/// The members `js` of the object of a client with the physical size, orientation and scale factors of the desktop, each
/// where it is given.
pub open spec fn spec_client_display(js: Seq<(Seq<u8>, LeafView)>, client: CsClientCoreData) -> Seq<
    (Seq<u8>, LeafView),
> {
    let js = if client.desktop_physical_width.is_some() {
        spec_set(js, "physical_width".spec_bytes(), LeafView::Integer(client.desktop_physical_width.unwrap() as u64))
    } else {
        js
    };
    let js = if client.desktop_physical_height.is_some() {
        spec_set(js, "physical_height".spec_bytes(), LeafView::Integer(client.desktop_physical_height.unwrap() as u64))
    } else {
        js
    };
    let js = if client.desktop_orientation.is_some() {
        spec_set(js, "desktop_orientation".spec_bytes(), LeafView::Integer(spec_orientation_code(client.desktop_orientation.unwrap())))
    } else {
        js
    };
    let js = if client.desktop_scale_factor.is_some() {
        spec_set(js, "scale_factor".spec_bytes(), LeafView::Integer(client.desktop_scale_factor.unwrap() as u64))
    } else {
        js
    };
    let js = if client.device_scale_factor.is_some() {
        spec_set(js, "device_scale_factor".spec_bytes(), LeafView::Integer(client.device_scale_factor.unwrap() as u64))
    } else {
        js
    };
    js
}

/// Adds to the object of a client the physical size, orientation and scale factors of the desktop, each
/// where it is given.
fn client_display(js: &mut JsonObject, client: &CsClientCoreData)
    ensures
        final(js)@ == spec_client_display(old(js)@, *client),
{
    if let Some(width) = client.desktop_physical_width {
        js.set_integer("physical_width", width as u64);
    }
    if let Some(height) = client.desktop_physical_height {
        js.set_integer("physical_height", height as u64);
    }
    if let Some(orientation) = client.desktop_orientation {
        js.set_integer("desktop_orientation", orientation_code(orientation));
    }
    if let Some(scale) = client.desktop_scale_factor {
        js.set_integer("scale_factor", scale as u64);
    }
    if let Some(scale) = client.device_scale_factor {
        js.set_integer("device_scale_factor", scale as u64);
    }
}

/// The object that tells of a client: version, desktop size, color depth,
/// keyboard, build, name, and what else the client gave of itself. What the
/// client did not give, or gave as zero or empty, is left out, but for the
/// version, the keyboard layout and the build, which are then `unknown`.
pub open spec fn spec_client_object(client: CsClientCoreData) -> Seq<(Seq<u8>, LeafView)> {
    spec_client_display(
        spec_client_product(
            spec_client_keyboard(spec_client_screen(Seq::empty(), client), client),
            client,
        ),
        client,
    )
}

/// Builds the object that tells of a client, see [`spec_client_object`].
pub fn client_object(client: &CsClientCoreData) -> (js: JsonObject)
    ensures
        js@ == spec_client_object(*client),
{
    let mut js = JsonObject::object();
    client_screen(&mut js, client);
    client_keyboard(&mut js, client);
    client_product(&mut js, client);
    client_display(&mut js, client);
    js
}

/// The record `js` with what a connection request tells: the kind of
/// event, the cookie if there is one, and the names of the flags of the
/// negotiation request if any is set.
pub open spec fn spec_x224_req(js: Seq<(Seq<u8>, ValueView)>, x224: X224ConnectionRequest) -> Seq<
    (Seq<u8>, ValueView),
> {
    let js = spec_set(
        js,
        "event_type".spec_bytes(),
        ValueView::Leaf(LeafView::String("initial_request".spec_bytes())),
    );
    let js = match x224.cookie {
        Some(cookie) => spec_set(
            js,
            "cookie".spec_bytes(),
            ValueView::Leaf(LeafView::String(cookie.mstshash@)),
        ),
        None => js,
    };
    match x224.negotiation_request {
        Some(req) => if req.flags.bits != 0 {
            spec_set(
                js,
                "flags".spec_bytes(),
                ValueView::Leaf(LeafView::Array(spec_request_flags(req.flags.bits))),
            )
        } else {
            js
        },
        None => js,
    }
}

/// Adds to the record what a connection request tells.
pub fn x224_req_to_json(js: &mut Json, x224: &X224ConnectionRequest)
    ensures
        final(js)@ == spec_x224_req(old(js)@, *x224),
{
    js.set_string("event_type", "initial_request".as_bytes());
    if let Some(cookie) = &x224.cookie {
        js.set_string("cookie", cookie.mstshash.as_slice());
    }
    if let Some(req) = &x224.negotiation_request {
        if req.flags.bits != 0 {
            js.set_array("flags", request_flags(req.flags.bits));
        }
    }
}

/// The record `js` with what a connection confirm tells: the kind of
/// event and, where the server negotiates, what it supports, if anything,
/// and the protocol it selects, or where it refuses, the number of the
/// reason and the reason in words.
pub open spec fn spec_x224_conf(js: Seq<(Seq<u8>, ValueView)>, x224: X224ConnectionConfirm) -> Seq<
    (Seq<u8>, ValueView),
> {
    let js = spec_set(
        js,
        "event_type".spec_bytes(),
        ValueView::Leaf(LeafView::String("initial_response".spec_bytes())),
    );
    match x224.negotiation_from_server {
        Some(NegotiationFromServer::Response(resp)) => {
            let js = if resp.flags.bits != 0 {
                spec_set(
                    js,
                    "server_supports".spec_bytes(),
                    ValueView::Leaf(LeafView::Array(spec_response_flags(resp.flags.bits))),
                )
            } else {
                js
            };
            spec_set(
                js,
                "protocol".spec_bytes(),
                ValueView::Leaf(LeafView::String(spec_protocol_name(resp.protocol).spec_bytes())),
            )
        },
        Some(NegotiationFromServer::Failure(fail)) => spec_set(
            spec_set(
                js,
                "error_code".spec_bytes(),
                ValueView::Leaf(LeafView::Integer(spec_failure_code(fail.code))),
            ),
            "reason".spec_bytes(),
            ValueView::Leaf(LeafView::String(spec_failure_reason(fail.code).spec_bytes())),
        ),
        None => js,
    }
}

/// Adds to the record what a connection confirm tells.
pub fn x224_conf_to_json(js: &mut Json, x224: &X224ConnectionConfirm)
    ensures
        final(js)@ == spec_x224_conf(old(js)@, *x224),
{
    js.set_string("event_type", "initial_response".as_bytes());
    if let Some(from_server) = &x224.negotiation_from_server {
        match from_server {
            NegotiationFromServer::Response(resp) => {
                if resp.flags.bits != 0 {
                    js.set_array("server_supports", response_flags(resp.flags.bits));
                }
                let protocol = protocol_name(resp.protocol);
                js.set_string("protocol", protocol.as_bytes());
            },
            NegotiationFromServer::Failure(fail) => {
                js.set_integer("error_code", failure_code(fail.code));
                js.set_string("reason", failure_reason(fail.code).as_bytes());
            },
        }
    }
}

/// The record `js` with what one part of the client's data tells: the
/// client itself, or the channels it asks for if it asks for any.
pub open spec fn spec_mcs_child(js: Seq<(Seq<u8>, ValueView)>, child: McsConnectRequestChild)
    -> Seq<(Seq<u8>, ValueView)> {
    match child {
        McsConnectRequestChild::CsClientCore(client) => spec_set(
            js,
            "client".spec_bytes(),
            ValueView::Object(spec_client_object(client)),
        ),
        McsConnectRequestChild::CsNet(net) => if net.channels@.len() > 0 {
            spec_set(
                js,
                "channels".spec_bytes(),
                ValueView::Leaf(LeafView::Array(spec_texts(net.channels@))),
            )
        } else {
            js
        },
        McsConnectRequestChild::CsUnknown(_) => js,
    }
}

/// The record `js` with what the parts `children` of the client's data
/// tell, one after the other.
pub open spec fn spec_mcs_children(
    js: Seq<(Seq<u8>, ValueView)>,
    children: Seq<McsConnectRequestChild>,
) -> Seq<(Seq<u8>, ValueView)>
    decreases children.len(),
{
    if children.len() == 0 {
        js
    } else {
        spec_mcs_children(spec_mcs_child(js, children[0]), children.drop_first())
    }
}

/// The record `js` with what a connect request tells: the kind of event
/// and what the client's data tell.
pub open spec fn spec_mcs_req(js: Seq<(Seq<u8>, ValueView)>, mcs: McsConnectRequest) -> Seq<
    (Seq<u8>, ValueView),
> {
    spec_mcs_children(
        spec_set(
            js,
            "event_type".spec_bytes(),
            ValueView::Leaf(LeafView::String("connect_request".spec_bytes())),
        ),
        mcs.children@,
    )
}

/// Copies a list of texts.
fn copy_texts(list: &Vec<Vec<u8>>) -> (copy: Vec<Vec<u8>>)
    ensures
        spec_texts(copy@) == spec_texts(list@),
{
    let mut copy: Vec<Vec<u8>> = Vec::new();
    let count = list.len();
    let mut i: usize = 0;
    while i < count
        invariant
            i <= count,
            count == list@.len(),
            copy@.len() == i,
            forall|j: int| 0 <= j < i ==> (#[trigger] copy@[j])@ == list@[j]@,
        decreases count - i,
    {
        copy.push(crate::bytes::to_vec(list[i].as_slice()));
        i += 1;
    }
    assert(spec_texts(copy@) =~= spec_texts(list@));
    copy
}

/// Adds to the record what a connect request tells.
pub fn mcs_req_to_json(js: &mut Json, mcs: &McsConnectRequest)
    ensures
        final(js)@ == spec_mcs_req(old(js)@, *mcs),
{
    js.set_string("event_type", "connect_request".as_bytes());
    let ghost begun = js@;
    let count = mcs.children.len();
    let mut i: usize = 0;
    assert(mcs.children@.skip(0) =~= mcs.children@);
    while i < count
        invariant
            i <= count,
            count == mcs.children@.len(),
            spec_mcs_children(begun, mcs.children@) == spec_mcs_children(
                js@,
                mcs.children@.skip(i as int),
            ),
        decreases count - i,
    {
        let ghost rest = mcs.children@.skip(i as int);
        assert(rest[0] == mcs.children@[i as int]);
        assert(rest.drop_first() =~= mcs.children@.skip(i + 1));
        match &mcs.children[i] {
            McsConnectRequestChild::CsClientCore(client) => {
                let js_client = client_object(client);
                js.set("client", js_client);
            },
            McsConnectRequestChild::CsNet(net) => {
                if net.channels.len() > 0 {
                    js.set_array("channels", copy_texts(&net.channels));
                }
            },
            McsConnectRequestChild::CsUnknown(_) => {},
        }
        i += 1;
    }
}

/// The log record of a transaction: its identifier and what the step of
/// the connection sequence tells. For a certificate chain these are the
/// serial numbers of the certificates that parse.
pub open spec fn spec_to_json(tx: RdpTransaction) -> Seq<(Seq<u8>, ValueView)> {
    let js = spec_set(
        Seq::empty(),
        "tx_id".spec_bytes(),
        ValueView::Leaf(LeafView::Integer(tx.id)),
    );
    match tx.item {
        RdpTransactionItem::X224ConnectionRequest(x224) => spec_x224_req(js, x224),
        RdpTransactionItem::X224ConnectionConfirm(x224) => spec_x224_conf(js, x224),
        RdpTransactionItem::McsConnectRequest(mcs) => spec_mcs_req(js, mcs),
        RdpTransactionItem::McsConnectResponse(_) => spec_set(
            js,
            "event_type".spec_bytes(),
            ValueView::Leaf(LeafView::String("connect_response".spec_bytes())),
        ),
        RdpTransactionItem::TlsCertificateChain(chain) => spec_set(
            spec_set(
                js,
                "event_type".spec_bytes(),
                ValueView::Leaf(LeafView::String("tls_handshake".spec_bytes())),
            ),
            "x509_serials".spec_bytes(),
            ValueView::Leaf(LeafView::Array(spec_serials(Seq::empty(), chain@))),
        ),
    }
}

/// Builds the log record of a transaction.
pub fn to_json(tx: &RdpTransaction) -> (r: Option<Json>)
    ensures
        r.is_some(),
        r.unwrap()@ == spec_to_json(*tx),
{
    let mut js = Json::object();
    js.set_integer("tx_id", tx.id);
    match &tx.item {
        RdpTransactionItem::X224ConnectionRequest(x224) => {
            x224_req_to_json(&mut js, x224);
        },
        RdpTransactionItem::X224ConnectionConfirm(x224) => {
            x224_conf_to_json(&mut js, x224);
        },
        RdpTransactionItem::McsConnectRequest(mcs) => {
            mcs_req_to_json(&mut js, mcs);
        },
        RdpTransactionItem::McsConnectResponse(_) => {
            // no additional data beyond `event_type`
            js.set_string("event_type", "connect_response".as_bytes());
        },
        RdpTransactionItem::TlsCertificateChain(chain) => {
            js.set_string("event_type", "tls_handshake".as_bytes());
            let mut js_chain: Vec<Vec<u8>> = Vec::new();
            assert(spec_texts(js_chain@) =~= Seq::empty());
            let count = chain.len();
            let mut i: usize = 0;
            assert(chain@.skip(0) =~= chain@);
            while i < count
                invariant
                    i <= count,
                    count == chain@.len(),
                    spec_serials(Seq::empty(), chain@) == spec_serials(
                        spec_texts(js_chain@),
                        chain@.skip(i as int),
                    ),
                decreases count - i,
            {
                let ghost rest = chain@.skip(i as int);
                assert(rest[0] == chain@[i as int]);
                assert(rest.drop_first() =~= chain@.skip(i + 1));
                let raw = x509_raw_serial(chain[i].data.as_slice());
                append_serial(&mut js_chain, raw);
                i += 1;
            }
            js.set_array("x509_serials", js_chain);
        },
    }
    Some(js)
}

/// Builds the log record of a transaction for the host.
pub fn rs_rdp_to_json(tx: &RdpTransaction) -> (r: Option<Json>)
    ensures
        r.is_some(),
        r.unwrap()@ == spec_to_json(*tx),
{
    to_json(tx)
}

} // verus!
