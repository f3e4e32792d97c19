//! What the messages of the RDP connection sequence hold.

use vstd::prelude::*;

use crate::rdp::windows::OperatingSystem;

verus! {

/// The routing token or cookie of a connection request.
#[derive(Debug, PartialEq, Eq)]
pub struct RdpCookie {
    pub mstshash: Vec<u8>,
}

/// Flags of a negotiation request.
#[derive(Debug, Clone, Copy, PartialEq, Eq, Structural)]
pub struct NegotiationRequestFlags {
    pub bits: u8,
}

impl NegotiationRequestFlags {
    pub const RESTRICTED_ADMIN_MODE_REQUIRED: u8 = 0x01;

    pub const REDIRECTED_AUTHENTICATION_MODE_REQUIRED: u8 = 0x02;

    pub const CORRELATION_INFO_PRESENT: u8 = 0x08;
}

/// Flags of a negotiation response.
#[derive(Debug, Clone, Copy, PartialEq, Eq, Structural)]
pub struct NegotiationResponseFlags {
    pub bits: u8,
}

impl NegotiationResponseFlags {
    pub const EXTENDED_CLIENT_DATA_SUPPORTED: u8 = 0x01;

    pub const DYNVC_GFX_PROTOCOL_SUPPORTED: u8 = 0x02;

    pub const NEGRSP_FLAG_RESERVED: u8 = 0x04;

    pub const RESTRICTED_ADMIN_MODE_SUPPORTED: u8 = 0x08;

    pub const REDIRECTED_AUTHENTICATION_MODE_SUPPORTED: u8 = 0x10;
}

/// Capabilities that a client announces early.
#[derive(Debug, Clone, Copy, PartialEq, Eq, Structural)]
pub struct EarlyCapabilityFlags {
    pub bits: u16,
}

impl EarlyCapabilityFlags {
    pub const RNS_UD_CS_SUPPORT_ERRINFO_PDF: u16 = 0x0001;

    pub const RNS_UD_CS_WANT_32BPP_SESSION: u16 = 0x0002;

    pub const RNS_UD_CS_SUPPORT_STATUSINFO_PDU: u16 = 0x0004;

    pub const RNS_UD_CS_STRONG_ASYMMETRIC_KEYS: u16 = 0x0008;

    pub const RNS_UD_CS_UNUSED: u16 = 0x0010;

    pub const RNS_UD_CS_VALID_CONNECTION_TYPE: u16 = 0x0020;

    pub const RNS_UD_CS_SUPPORT_MONITOR_LAYOUT_PDU: u16 = 0x0040;

    pub const RNS_UD_CS_SUPPORT_NETCHAR_AUTODETECT: u16 = 0x0080;

    pub const RNS_UD_CS_SUPPORT_DYNVC_GFX_PROTOCOL: u16 = 0x0100;

    pub const RNS_UD_CS_SUPPORT_DYNAMIC_TIME_ZONE: u16 = 0x0200;

    pub const RNS_UD_CS_SUPPORT_HEARTBEAT_PDU: u16 = 0x0400;
}

/// The security protocols that a client offers.
#[derive(Debug, Clone, Copy, PartialEq, Eq, Structural)]
pub struct ProtocolFlags {
    pub bits: u32,
}

/// The security protocol that a server selects.
#[derive(Debug, Clone, Copy, PartialEq, Eq, Structural)]
pub enum Protocol {
    ProtocolRdp,
    ProtocolSsl,
    ProtocolHybrid,
    ProtocolRdsTls,
    ProtocolHybridEx,
}

/// Why a server refuses to negotiate.
#[derive(Debug, Clone, Copy, PartialEq, Eq, Structural)]
pub enum NegotiationFailureCode {
    SslRequiredByServer,
    SslNotAllowedByServer,
    SslCertNotOnServer,
    InconsistentFlags,
    HybridRequiredByServer,
    SslWithUserAuthRequiredByServer,
}

#[derive(Debug, Clone, Copy, PartialEq, Eq, Structural)]
pub struct NegotiationRequest {
    pub flags: NegotiationRequestFlags,
    pub protocols: ProtocolFlags,
}

#[derive(Debug, Clone, Copy, PartialEq, Eq, Structural)]
pub struct NegotiationResponse {
    pub flags: NegotiationResponseFlags,
    pub protocol: Protocol,
}

#[derive(Debug, Clone, Copy, PartialEq, Eq, Structural)]
pub struct NegotiationFailure {
    pub code: NegotiationFailureCode,
}

#[derive(Debug, Clone, Copy, PartialEq, Eq, Structural)]
pub enum NegotiationFromServer {
    Response(NegotiationResponse),
    Failure(NegotiationFailure),
}

/// The request that opens a connection.
#[derive(Debug, PartialEq, Eq)]
pub struct X224ConnectionRequest {
    pub cdt: u8,
    pub dst_ref: u16,
    pub src_ref: u16,
    pub class: u8,
    pub options: u8,
    pub cookie: Option<RdpCookie>,
    pub negotiation_request: Option<NegotiationRequest>,
    pub data: Vec<u8>,
}

/// The server's answer to the connection request.
#[derive(Debug, Clone, Copy, PartialEq, Eq, Structural)]
pub struct X224ConnectionConfirm {
    pub cdt: u8,
    pub dst_ref: u16,
    pub src_ref: u16,
    pub class: u8,
    pub options: u8,
    pub negotiation_from_server: Option<NegotiationFromServer>,
}

#[allow(non_camel_case_types)]
#[derive(Debug, Clone, Copy, PartialEq, Eq, Structural)]
pub enum RdpClientVersion {
    V4,
    V5_V8_1,
    V10_0,
    V10_1,
    V10_2,
    V10_3,
    V10_4,
    V10_5,
    V10_6,
    V10_7,
}

#[derive(Debug, Clone, Copy, PartialEq, Eq, Structural)]
pub enum ColorDepth {
    RnsUdColor4Bpp,
    RnsUdColor8Bpp,
}

#[derive(Debug, Clone, Copy, PartialEq, Eq, Structural)]
pub enum SasSequence {
    RnsUdSasDel,
}

#[derive(Debug, Clone, Copy, PartialEq, Eq, Structural)]
pub enum KeyboardType {
    KbXt,
    KbIco,
    KbAt,
    KbEnhanced,
    Kb1050,
    Kb9140,
    KbJapanese,
}

#[derive(Debug, Clone, Copy, PartialEq, Eq, Structural)]
pub enum PostBeta2ColorDepth {
    RnsUdColorNotProvided,
    RnsUdColor4Bpp,
    RnsUdColor8Bpp,
    RnsUdColor16Bpp555,
    RnsUdColor16Bpp565,
    RnsUdColor24Bpp,
}

#[derive(Debug, Clone, Copy, PartialEq, Eq, Structural)]
pub enum HighColorDepth {
    HighColorNotProvided,
    HighColor4Bpp,
    HighColor8Bpp,
    HighColor15Bpp,
    HighColor16Bpp,
    HighColor24Bpp,
}

#[derive(Debug, Clone, Copy, PartialEq, Eq, Structural)]
pub struct SupportedColorDepth {
    pub bits: u16,
}

#[derive(Debug, Clone, Copy, PartialEq, Eq, Structural)]
pub enum ConnectionHint {
    ConnectionHintNotProvided,
    ConnectionHintModem,
    ConnectionHintBroadbandLow,
    ConnectionHintSatellite,
    ConnectionHintBroadbandHigh,
    ConnectionHintWan,
    ConnectionHintLan,
    ConnectionHintAutoDetect,
}

#[derive(Debug, Clone, Copy, PartialEq, Eq, Structural)]
pub enum DesktopOrientation {
    OrientationLandscape,
    OrientationPortrait,
    OrientationLandscapeFlipped,
    OrientationPortraitFlipped,
}

/// What a client tells of itself when it connects.
#[derive(Debug, PartialEq, Eq)]
pub struct CsClientCoreData {
    pub version: Option<RdpClientVersion>,
    pub desktop_width: u16,
    pub desktop_height: u16,
    pub color_depth: Option<ColorDepth>,
    pub sas_sequence: Option<SasSequence>,
    pub keyboard_layout: u32,
    pub client_build: OperatingSystem,
    pub client_name: Vec<u8>,
    pub keyboard_type: Option<KeyboardType>,
    pub keyboard_subtype: u32,
    pub keyboard_function_key: u32,
    pub ime_file_name: Vec<u8>,
    pub post_beta2_color_depth: Option<PostBeta2ColorDepth>,
    pub client_product_id: Option<u16>,
    pub serial_number: Option<u32>,
    pub high_color_depth: Option<HighColorDepth>,
    pub supported_color_depth: Option<SupportedColorDepth>,
    pub early_capability_flags: Option<EarlyCapabilityFlags>,
    pub client_dig_product_id: Option<Vec<u8>>,
    pub connection_hint: Option<ConnectionHint>,
    pub server_selected_protocol: Option<ProtocolFlags>,
    pub desktop_physical_width: Option<u32>,
    pub desktop_physical_height: Option<u32>,
    pub desktop_orientation: Option<DesktopOrientation>,
    pub desktop_scale_factor: Option<u32>,
    pub device_scale_factor: Option<u32>,
}

/// The channels that a client asks for.
#[derive(Debug, PartialEq, Eq)]
pub struct CsNet {
    pub channels: Vec<Vec<u8>>,
}

/// Client data of a kind that is not looked into.
#[derive(Debug, PartialEq, Eq)]
pub struct CsUnknown {
    pub typ: u16,
    pub data: Vec<u8>,
}

#[derive(Debug, PartialEq, Eq)]
pub enum McsConnectRequestChild {
    CsClientCore(CsClientCoreData),
    CsNet(CsNet),
    CsUnknown(CsUnknown),
}

/// The request that sets the conference up, with the client's data.
#[derive(Debug, PartialEq, Eq)]
pub struct McsConnectRequest {
    pub children: Vec<McsConnectRequestChild>,
}

/// The server's answer to it.
#[derive(Debug, Clone, Copy, PartialEq, Eq, Structural)]
pub struct McsConnectResponse {
}

} // verus!
