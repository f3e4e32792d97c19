//! Names of Windows builds and of keyboard layouts.

use vstd::prelude::*;
use vstd::string::StringSliceAdditionalSpecFns;

use crate::json::text;

verus! {

/// A build of Windows that a client may announce.
#[allow(non_camel_case_types)]
#[derive(Debug, Clone, Copy, PartialEq, Eq, Structural)]
pub enum Build {
    Other,
    Win2000,
    WinXP,
    Server2003,
    Vista_6000,
    Vista_6001,
    Vista_6002,
    Win7_7600,
    Win7_7601,
    Win8,
    Win81,
    Win10_10240,
    Win10_10586,
    Win10_14393,
    Win10_15063,
    Win10_16299,
    Win10_17134,
    Win10_17763,
}

/// The service pack or update that a build stands for.
#[derive(Debug, Clone, Copy, PartialEq, Eq, Structural)]
pub enum Suffix {
    Empty,
    Rtm,
    Sp1,
    Sp2,
    Th1,
    Th2,
    Rs1,
    Rs2,
    Rs3,
    Rs4,
    Rs5,
}

/// The operating system of a client.
#[derive(Debug, Clone, Copy, PartialEq, Eq, Structural)]
pub struct OperatingSystem {
    pub build: Build,
    pub suffix: Suffix,
}

/// The name of a build, where it is known.
pub open spec fn spec_build_name(build: Build) -> Option<&'static str> {
    match build {
        Build::Other => None,
        Build::Win2000 => Some("Windows 2000"),
        Build::WinXP => Some("Windows XP"),
        Build::Server2003 => Some("Windows Server 2003"),
        Build::Vista_6000 => Some("Windows Vista"),
        Build::Vista_6001 => Some("Windows Vista"),
        Build::Vista_6002 => Some("Windows Vista"),
        Build::Win7_7600 => Some("Windows 7"),
        Build::Win7_7601 => Some("Windows 7"),
        Build::Win8 => Some("Windows 8"),
        Build::Win81 => Some("Windows 8.1"),
        Build::Win10_10240 => Some("Windows 10"),
        Build::Win10_10586 => Some("Windows 10"),
        Build::Win10_14393 => Some("Windows 10"),
        Build::Win10_15063 => Some("Windows 10"),
        Build::Win10_16299 => Some("Windows 10"),
        Build::Win10_17134 => Some("Windows 10"),
        Build::Win10_17763 => Some("Windows 10"),
    }
}

/// The name of a build, where it is known.
pub fn build_name(build: Build) -> (name: Option<&'static str>)
    ensures
        name == spec_build_name(build),
{
    match build {
        Build::Other => None,
        Build::Win2000 => Some("Windows 2000"),
        Build::WinXP => Some("Windows XP"),
        Build::Server2003 => Some("Windows Server 2003"),
        Build::Vista_6000 => Some("Windows Vista"),
        Build::Vista_6001 => Some("Windows Vista"),
        Build::Vista_6002 => Some("Windows Vista"),
        Build::Win7_7600 => Some("Windows 7"),
        Build::Win7_7601 => Some("Windows 7"),
        Build::Win8 => Some("Windows 8"),
        Build::Win81 => Some("Windows 8.1"),
        Build::Win10_10240 => Some("Windows 10"),
        Build::Win10_10586 => Some("Windows 10"),
        Build::Win10_14393 => Some("Windows 10"),
        Build::Win10_15063 => Some("Windows 10"),
        Build::Win10_16299 => Some("Windows 10"),
        Build::Win10_17134 => Some("Windows 10"),
        Build::Win10_17763 => Some("Windows 10"),
    }
}

/// What a suffix adds to the name of a build, blank included.
pub open spec fn spec_suffix_name(suffix: Suffix) -> &'static str {
    match suffix {
        Suffix::Empty => "",
        Suffix::Rtm => " RTM",
        Suffix::Sp1 => " SP1",
        Suffix::Sp2 => " SP2",
        Suffix::Th1 => " TH1",
        Suffix::Th2 => " TH2",
        Suffix::Rs1 => " RS1",
        Suffix::Rs2 => " RS2",
        Suffix::Rs3 => " RS3",
        Suffix::Rs4 => " RS4",
        Suffix::Rs5 => " RS5",
    }
}

/// What a suffix adds to the name of a build, blank included.
pub fn suffix_name(suffix: Suffix) -> (name: &'static str)
    ensures
        name == spec_suffix_name(suffix),
{
    match suffix {
        Suffix::Empty => "",
        Suffix::Rtm => " RTM",
        Suffix::Sp1 => " SP1",
        Suffix::Sp2 => " SP2",
        Suffix::Th1 => " TH1",
        Suffix::Th2 => " TH2",
        Suffix::Rs1 => " RS1",
        Suffix::Rs2 => " RS2",
        Suffix::Rs3 => " RS3",
        Suffix::Rs4 => " RS4",
        Suffix::Rs5 => " RS5",
    }
}

/// The text that stands for an operating system: the name of its build with
/// its suffix, or `default` where the build is not known.
pub open spec fn spec_os_to_string(os: OperatingSystem, default: Seq<u8>) -> Seq<u8> {
    match spec_build_name(os.build) {
        Some(name) => name.spec_bytes() + spec_suffix_name(os.suffix).spec_bytes(),
        None => default,
    }
}

/// The text that stands for an operating system.
pub fn os_to_string(os: &OperatingSystem, default: &[u8]) -> (r: Vec<u8>)
    ensures
        r@ == spec_os_to_string(*os, default@),
{
    match build_name(os.build) {
        Some(name) => {
            let mut out = text(name);
            let mut tail = text(suffix_name(os.suffix));
            out.append(&mut tail);
            out
        },
        None => crate::bytes::to_vec(default),
    }
}

/// The name of the keyboard layout `lcid`, where it is known.
pub open spec fn spec_lcid_name(lcid: u32) -> Option<&'static str> {
    match lcid {
        0x0401 => Some("ar-SA"),
        0x0404 => Some("zh-TW"),
        0x0405 => Some("cs-CZ"),
        0x0406 => Some("da-DK"),
        0x0407 => Some("de-DE"),
        0x0408 => Some("el-GR"),
        0x0409 => Some("en-US"),
        0x040a => Some("es-ES_tradnl"),
        0x040b => Some("fi-FI"),
        0x040c => Some("fr-FR"),
        0x040d => Some("he-IL"),
        0x040e => Some("hu-HU"),
        0x0410 => Some("it-IT"),
        0x0411 => Some("ja-JP"),
        0x0412 => Some("ko-KR"),
        0x0413 => Some("nl-NL"),
        0x0414 => Some("nb-NO"),
        0x0415 => Some("pl-PL"),
        0x0416 => Some("pt-BR"),
        0x0419 => Some("ru-RU"),
        0x041d => Some("sv-SE"),
        0x041f => Some("tr-TR"),
        0x0804 => Some("zh-CN"),
        0x0809 => Some("en-GB"),
        0x0816 => Some("pt-PT"),
        0x0c0a => Some("es-ES"),
        _ => None,
    }
}

/// The name of the keyboard layout `lcid`, where it is known.
pub fn lcid_name(lcid: u32) -> (name: Option<&'static str>)
    ensures
        name == spec_lcid_name(lcid),
{
    match lcid {
        0x0401 => Some("ar-SA"),
        0x0404 => Some("zh-TW"),
        0x0405 => Some("cs-CZ"),
        0x0406 => Some("da-DK"),
        0x0407 => Some("de-DE"),
        0x0408 => Some("el-GR"),
        0x0409 => Some("en-US"),
        0x040a => Some("es-ES_tradnl"),
        0x040b => Some("fi-FI"),
        0x040c => Some("fr-FR"),
        0x040d => Some("he-IL"),
        0x040e => Some("hu-HU"),
        0x0410 => Some("it-IT"),
        0x0411 => Some("ja-JP"),
        0x0412 => Some("ko-KR"),
        0x0413 => Some("nl-NL"),
        0x0414 => Some("nb-NO"),
        0x0415 => Some("pl-PL"),
        0x0416 => Some("pt-BR"),
        0x0419 => Some("ru-RU"),
        0x041d => Some("sv-SE"),
        0x041f => Some("tr-TR"),
        0x0804 => Some("zh-CN"),
        0x0809 => Some("en-GB"),
        0x0816 => Some("pt-PT"),
        0x0c0a => Some("es-ES"),
        _ => None,
    }
}

/// The text that stands for the keyboard layout `lcid`: its name, or
/// `default` where it is not known.
pub open spec fn spec_lcid_to_string(lcid: u32, default: Seq<u8>) -> Seq<u8> {
    match spec_lcid_name(lcid) {
        Some(name) => name.spec_bytes(),
        None => default,
    }
}

/// The text that stands for the keyboard layout `lcid`.
pub fn lcid_to_string(lcid: u32, default: &[u8]) -> (r: Vec<u8>)
    ensures
        r@ == spec_lcid_to_string(lcid, default@),
{
    match lcid_name(lcid) {
        Some(name) => text(name),
        None => crate::bytes::to_vec(default),
    }
}

} // verus!
