//! Text forms of what DNS records hold.

use vstd::prelude::*;
use vstd::string::StringSliceAdditionalSpecFns;

use crate::json::{decimal_text, digit_char, spec_decimal_text, spec_digit_char, text};

verus! {

pub const DNS_RECORD_TYPE_A: u16 = 1;

pub const DNS_RECORD_TYPE_NS: u16 = 2;

pub const DNS_RECORD_TYPE_MD: u16 = 3;

pub const DNS_RECORD_TYPE_MF: u16 = 4;

pub const DNS_RECORD_TYPE_CNAME: u16 = 5;

pub const DNS_RECORD_TYPE_SOA: u16 = 6;

pub const DNS_RECORD_TYPE_MB: u16 = 7;

pub const DNS_RECORD_TYPE_MG: u16 = 8;

pub const DNS_RECORD_TYPE_MR: u16 = 9;

pub const DNS_RECORD_TYPE_NULL: u16 = 10;

pub const DNS_RECORD_TYPE_WKS: u16 = 11;

pub const DNS_RECORD_TYPE_PTR: u16 = 12;

pub const DNS_RECORD_TYPE_HINFO: u16 = 13;

pub const DNS_RECORD_TYPE_MINFO: u16 = 14;

pub const DNS_RECORD_TYPE_MX: u16 = 15;

pub const DNS_RECORD_TYPE_TXT: u16 = 16;

pub const DNS_RECORD_TYPE_RP: u16 = 17;

pub const DNS_RECORD_TYPE_AFSDB: u16 = 18;

pub const DNS_RECORD_TYPE_X25: u16 = 19;

pub const DNS_RECORD_TYPE_ISDN: u16 = 20;

pub const DNS_RECORD_TYPE_RT: u16 = 21;

pub const DNS_RECORD_TYPE_NSAP: u16 = 22;

pub const DNS_RECORD_TYPE_NSAPPTR: u16 = 23;

pub const DNS_RECORD_TYPE_SIG: u16 = 24;

pub const DNS_RECORD_TYPE_KEY: u16 = 25;

pub const DNS_RECORD_TYPE_PX: u16 = 26;

pub const DNS_RECORD_TYPE_GPOS: u16 = 27;

pub const DNS_RECORD_TYPE_AAAA: u16 = 28;

pub const DNS_RECORD_TYPE_LOC: u16 = 29;

pub const DNS_RECORD_TYPE_NXT: u16 = 30;

pub const DNS_RECORD_TYPE_SRV: u16 = 33;

pub const DNS_RECORD_TYPE_ATMA: u16 = 34;

pub const DNS_RECORD_TYPE_NAPTR: u16 = 35;

pub const DNS_RECORD_TYPE_KX: u16 = 36;

pub const DNS_RECORD_TYPE_CERT: u16 = 37;

pub const DNS_RECORD_TYPE_A6: u16 = 38;

pub const DNS_RECORD_TYPE_DNAME: u16 = 39;

pub const DNS_RECORD_TYPE_OPT: u16 = 41;

pub const DNS_RECORD_TYPE_APL: u16 = 42;

pub const DNS_RECORD_TYPE_DS: u16 = 43;

pub const DNS_RECORD_TYPE_SSHFP: u16 = 44;

pub const DNS_RECORD_TYPE_IPSECKEY: u16 = 45;

pub const DNS_RECORD_TYPE_RRSIG: u16 = 46;

pub const DNS_RECORD_TYPE_NSEC: u16 = 47;

pub const DNS_RECORD_TYPE_DNSKEY: u16 = 48;

pub const DNS_RECORD_TYPE_DHCID: u16 = 49;

pub const DNS_RECORD_TYPE_NSEC3: u16 = 50;

pub const DNS_RECORD_TYPE_NSEC3PARAM: u16 = 51;

pub const DNS_RECORD_TYPE_TLSA: u16 = 52;

pub const DNS_RECORD_TYPE_HIP: u16 = 55;

pub const DNS_RECORD_TYPE_CDS: u16 = 59;

pub const DNS_RECORD_TYPE_CDNSKEY: u16 = 60;

pub const DNS_RECORD_TYPE_SPF: u16 = 99;

pub const DNS_RECORD_TYPE_TKEY: u16 = 249;

pub const DNS_RECORD_TYPE_TSIG: u16 = 250;

pub const DNS_RECORD_TYPE_MAILA: u16 = 254;

pub const DNS_RECORD_TYPE_ANY: u16 = 255;

pub const DNS_RECORD_TYPE_URI: u16 = 256;

pub const DNS_RCODE_NOERROR: u16 = 0;

pub const DNS_RCODE_FORMERR: u16 = 1;

pub const DNS_RCODE_SERVFAIL: u16 = 2;

pub const DNS_RCODE_NXDOMAIN: u16 = 3;

pub const DNS_RCODE_NOTIMP: u16 = 4;

pub const DNS_RCODE_REFUSED: u16 = 5;

pub const DNS_RCODE_YXDOMAIN: u16 = 6;

pub const DNS_RCODE_YXRRSET: u16 = 7;

pub const DNS_RCODE_NXRRSET: u16 = 8;

pub const DNS_RCODE_NOTAUTH: u16 = 9;

pub const DNS_RCODE_NOTZONE: u16 = 10;

pub const DNS_RCODE_BADVERS: u16 = 16;

pub const DNS_RCODE_BADSIG: u16 = 16;

pub const DNS_RCODE_BADKEY: u16 = 17;

pub const DNS_RCODE_BADTIME: u16 = 18;

pub const DNS_RCODE_BADMODE: u16 = 19;

pub const DNS_RCODE_BADNAME: u16 = 20;

pub const DNS_RCODE_BADALG: u16 = 21;

pub const DNS_RCODE_BADTRUNC: u16 = 22;

/// The mnemonic of the record type `rrtype`, where it has one.
pub open spec fn spec_rrtype_name(rrtype: u16) -> Option<&'static str> {
    match rrtype {
        1 => Some("A"),
        2 => Some("NS"),
        3 => Some("MD"),
        4 => Some("MF"),
        5 => Some("CNAME"),
        6 => Some("SOA"),
        7 => Some("MB"),
        8 => Some("MG"),
        9 => Some("MR"),
        10 => Some("NULL"),
        11 => Some("WKS"),
        12 => Some("PTR"),
        13 => Some("HINFO"),
        14 => Some("MINFO"),
        15 => Some("MX"),
        16 => Some("TXT"),
        17 => Some("RP"),
        18 => Some("AFSDB"),
        19 => Some("X25"),
        20 => Some("ISDN"),
        21 => Some("RT"),
        22 => Some("NSAP"),
        23 => Some("NSAPPTR"),
        24 => Some("SIG"),
        25 => Some("KEY"),
        26 => Some("PX"),
        27 => Some("GPOS"),
        28 => Some("AAAA"),
        29 => Some("LOC"),
        30 => Some("NXT"),
        33 => Some("SRV"),
        34 => Some("ATMA"),
        35 => Some("NAPTR"),
        36 => Some("KX"),
        37 => Some("CERT"),
        38 => Some("A6"),
        39 => Some("DNAME"),
        41 => Some("OPT"),
        42 => Some("APL"),
        43 => Some("DS"),
        44 => Some("SSHFP"),
        45 => Some("IPSECKEY"),
        46 => Some("RRSIG"),
        47 => Some("NSEC"),
        48 => Some("DNSKEY"),
        49 => Some("DHCID"),
        50 => Some("NSEC3"),
        51 => Some("NSEC3PARAM"),
        52 => Some("TLSA"),
        55 => Some("HIP"),
        59 => Some("CDS"),
        60 => Some("CDNSKEY"),
        99 => Some("SPF"),
        249 => Some("TKEY"),
        250 => Some("TSIG"),
        254 => Some("MAILA"),
        255 => Some("ANY"),
        256 => Some("URI"),
        _ => None,
    }
}

/// The mnemonic of the record type `rrtype`, where it has one.
pub fn dns_rrtype_name(rrtype: u16) -> (name: Option<&'static str>)
    ensures
        name == spec_rrtype_name(rrtype),
{
    match rrtype {
        1 => Some("A"),
        2 => Some("NS"),
        3 => Some("MD"),
        4 => Some("MF"),
        5 => Some("CNAME"),
        6 => Some("SOA"),
        7 => Some("MB"),
        8 => Some("MG"),
        9 => Some("MR"),
        10 => Some("NULL"),
        11 => Some("WKS"),
        12 => Some("PTR"),
        13 => Some("HINFO"),
        14 => Some("MINFO"),
        15 => Some("MX"),
        16 => Some("TXT"),
        17 => Some("RP"),
        18 => Some("AFSDB"),
        19 => Some("X25"),
        20 => Some("ISDN"),
        21 => Some("RT"),
        22 => Some("NSAP"),
        23 => Some("NSAPPTR"),
        24 => Some("SIG"),
        25 => Some("KEY"),
        26 => Some("PX"),
        27 => Some("GPOS"),
        28 => Some("AAAA"),
        29 => Some("LOC"),
        30 => Some("NXT"),
        33 => Some("SRV"),
        34 => Some("ATMA"),
        35 => Some("NAPTR"),
        36 => Some("KX"),
        37 => Some("CERT"),
        38 => Some("A6"),
        39 => Some("DNAME"),
        41 => Some("OPT"),
        42 => Some("APL"),
        43 => Some("DS"),
        44 => Some("SSHFP"),
        45 => Some("IPSECKEY"),
        46 => Some("RRSIG"),
        47 => Some("NSEC"),
        48 => Some("DNSKEY"),
        49 => Some("DHCID"),
        50 => Some("NSEC3"),
        51 => Some("NSEC3PARAM"),
        52 => Some("TLSA"),
        55 => Some("HIP"),
        59 => Some("CDS"),
        60 => Some("CDNSKEY"),
        99 => Some("SPF"),
        249 => Some("TKEY"),
        250 => Some("TSIG"),
        254 => Some("MAILA"),
        255 => Some("ANY"),
        256 => Some("URI"),
        _ => None,
    }
}

/// The text that stands for the record type `rrtype`: its mnemonic, or the
/// number in base ten where it has none.
pub open spec fn spec_rrtype_string(rrtype: u16) -> Seq<u8> {
    match spec_rrtype_name(rrtype) {
        Some(name) => name.spec_bytes(),
        None => spec_decimal_text(rrtype as nat),
    }
}

/// The text that stands for the record type `rrtype`.
pub fn dns_rrtype_string(rrtype: u16) -> (r: Vec<u8>)
    ensures
        r@ == spec_rrtype_string(rrtype),
{
    match dns_rrtype_name(rrtype) {
        Some(name) => text(name),
        None => decimal_text(rrtype as u64),
    }
}

/// The octets of an IPv4 address in base ten with dots between them.
pub open spec fn spec_dotted(addr: Seq<u8>) -> Seq<u8>
    decreases addr.len(),
{
    if addr.len() == 0 {
        Seq::empty()
    } else if addr.len() == 1 {
        spec_decimal_text(addr[0] as nat)
    } else {
        spec_dotted(addr.drop_last()).push(0x2e) + spec_decimal_text(addr.last() as nat)
    }
}

/// The two digits of `octet` in base sixteen, in lower case.
pub open spec fn spec_hex_pair(octet: u8) -> Seq<u8> {
    seq![spec_digit_char((octet / 16) as nat), spec_digit_char((octet % 16) as nat)]
}

/// The octets of an IPv6 address in base sixteen, two digits each, with a
/// colon before every pair of octets but the first.
pub open spec fn spec_grouped(addr: Seq<u8>) -> Seq<u8>
    decreases addr.len(),
{
    if addr.len() == 0 {
        Seq::empty()
    } else {
        let before = spec_grouped(addr.drop_last());
        let parted = if addr.len() > 1 && addr.len() % 2 == 1 {
            before.push(0x3a)
        } else {
            before
        };
        parted + spec_hex_pair(addr.last())
    }
}

/// The text form of an address: four octets as an IPv4 address in dotted
/// decimal, sixteen as an IPv6 address in eight groups of four hexadecimal
/// digits; empty for any other length.
pub open spec fn spec_print_addr(addr: Seq<u8>) -> Seq<u8> {
    if addr.len() == 4 {
        spec_dotted(addr)
    } else if addr.len() == 16 {
        spec_grouped(addr)
    } else {
        Seq::empty()
    }
}

/// Writes an address in its text form, see [`spec_print_addr`].
pub fn dns_print_addr(addr: &[u8]) -> (r: Vec<u8>)
    ensures
        r@ == spec_print_addr(addr@),
{
    let len = addr.len();
    let mut out: Vec<u8> = Vec::new();
    if len == 4 {
        let mut i: usize = 0;
        assert(addr@.subrange(0, 0) =~= Seq::empty());
        while i < 4
            invariant
                i <= 4,
                addr@.len() == 4,
                out@ == spec_dotted(addr@.subrange(0, i as int)),
            decreases 4 - i,
        {
            let ghost next = addr@.subrange(0, i + 1);
            assert(next.drop_last() =~= addr@.subrange(0, i as int));
            assert(next.last() == addr@[i as int]);
            if i > 0 {
                out.push(0x2e);
            }
            let mut digits = decimal_text(addr[i] as u64);
            out.append(&mut digits);
            i += 1;
        }
        assert(addr@.subrange(0, 4) =~= addr@);
    } else if len == 16 {
        let mut i: usize = 0;
        assert(addr@.subrange(0, 0) =~= Seq::empty());
        while i < 16
            invariant
                i <= 16,
                addr@.len() == 16,
                out@ == spec_grouped(addr@.subrange(0, i as int)),
            decreases 16 - i,
        {
            let ghost next = addr@.subrange(0, i + 1);
            assert(next.drop_last() =~= addr@.subrange(0, i as int));
            assert(next.last() == addr@[i as int]);
            if i > 0 && i % 2 == 0 {
                out.push(0x3a);
            }
            let ghost parted = out@;
            out.push(digit_char(addr[i] / 16));
            out.push(digit_char(addr[i] % 16));
            assert(out@ =~= parted + spec_hex_pair(addr@[i as int]));
            i += 1;
        }
        assert(addr@.subrange(0, 16) =~= addr@);
    }
    out
}

} // verus!
