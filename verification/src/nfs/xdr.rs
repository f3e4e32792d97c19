//! Reading XDR: big-endian integers and length-prefixed opaque data padded
//! to a multiple of four octets.

use vstd::prelude::*;

verus! {

/// Whether `s` holds `count` octets from offset `pos` on.
pub open spec fn spec_has(s: Seq<u8>, pos: int, count: int) -> bool {
    0 <= pos && 0 <= count && pos + count <= s.len()
}

/// The unsigned 32-bit value whose big-endian encoding stands at `pos`.
pub open spec fn spec_u32(s: Seq<u8>, pos: int) -> u32 {
    (s[pos] as int * 0x100_0000 + s[pos + 1] as int * 0x1_0000 + s[pos + 2] as int * 0x100
        + s[pos + 3] as int) as u32
}

/// The unsigned 64-bit value whose big-endian encoding stands at `pos`.
pub open spec fn spec_u64(s: Seq<u8>, pos: int) -> u64 {
    (spec_u32(s, pos) as int * 0x1_0000_0000 + spec_u32(s, pos + 4) as int) as u64
}

/// The number of octets that pad `len` octets to a multiple of four.
pub open spec fn spec_fill(len: int) -> int {
    if len % 4 == 0 {
        0
    } else {
        4 - len % 4
    }
}

/// The opaque data at `pos`: a 32-bit length, that many octets, and the
/// padding. Gives the data and the offset behind the padding.
pub open spec fn spec_opaque(s: Seq<u8>, pos: int) -> Option<(Seq<u8>, int)> {
    if spec_has(s, pos, 4) && spec_has(
        s,
        pos + 4,
        spec_u32(s, pos) + spec_fill(spec_u32(s, pos) as int),
    ) {
        Some(
            (
                s.subrange(pos + 4, pos + 4 + spec_u32(s, pos)),
                pos + 4 + spec_u32(s, pos) + spec_fill(spec_u32(s, pos) as int),
            ),
        )
    } else {
        None
    }
}

/// Reads a big-endian unsigned 32-bit integer from the front of `input`
/// through `nom::be_u32`.
///
/// Trusted: the result is `None` exactly when fewer than four octets are
/// available, and otherwise the value that the first four octets encode,
/// the most significant first.
#[verifier::external_body]
pub(crate) fn be_u32(input: &[u8]) -> (r: Option<u32>)
    ensures
        r == (if input@.len() < 4 {
            None
        } else {
            Some(spec_u32(input@, 0))
        }),
{
    match nom::be_u32(input) {
        Ok((_, value)) => Some(value),
        Err(_) => None,
    }
}

/// Reads the 32-bit integer at `pos`.
pub fn read_u32(input: &[u8], pos: usize) -> (r: Option<u32>)
    ensures
        r == (if spec_has(input@, pos as int, 4) {
            Some(spec_u32(input@, pos as int))
        } else {
            None
        }),
{
    let len = input.len();
    if pos > len || len - pos < 4 {
        return None;
    }
    let tail = vstd::slice::slice_subrange(input, pos, len);
    be_u32(tail)
}

/// Reads the 64-bit integer at `pos`.
pub fn read_u64(input: &[u8], pos: usize) -> (r: Option<u64>)
    ensures
        r == (if spec_has(input@, pos as int, 8) {
            Some(spec_u64(input@, pos as int))
        } else {
            None
        }),
{
    let len = input.len();
    if pos > len || len - pos < 8 {
        return None;
    }
    let high = match read_u32(input, pos) {
        Some(v) => v,
        None => {
            return None;
        },
    };
    let low = match read_u32(input, pos + 4) {
        Some(v) => v,
        None => {
            return None;
        },
    };
    Some(high as u64 * 0x1_0000_0000 + low as u64)
}

/// The `count` octets at `pos`.
pub fn take(input: &[u8], pos: usize, count: usize) -> (r: Option<&[u8]>)
    ensures
        match r {
            Some(data) => spec_has(input@, pos as int, count as int) && data@
                == input@.subrange(pos as int, pos + count),
            None => !spec_has(input@, pos as int, count as int),
        },
{
    let len = input.len();
    if pos > len || len - pos < count {
        return None;
    }
    Some(vstd::slice::slice_subrange(input, pos, pos + count))
}

/// The offset `count` octets behind `pos`, where the input reaches that far.
pub fn advance(input: &[u8], pos: usize, count: usize) -> (r: Option<usize>)
    ensures
        r == (if spec_has(input@, pos as int, count as int) {
            Some((pos + count) as usize)
        } else {
            None
        }),
        r.is_some() ==> r.unwrap() == pos + count,
{
    let len = input.len();
    if pos > len || len - pos < count {
        None
    } else {
        Some(pos + count)
    }
}

/// The number of octets that pad `len` octets to a multiple of four.
pub fn fill(len: u32) -> (r: u32)
    ensures
        r == spec_fill(len as int),
        r < 4,
{
    let pad = len % 4;
    if pad == 0 {
        0
    } else {
        4 - pad
    }
}

/// Reads the opaque data at `pos` and gives it with the offset behind its
/// padding.
pub fn read_opaque(input: &[u8], pos: usize) -> (r: Option<(&[u8], usize)>)
    ensures
        match spec_opaque(input@, pos as int) {
            Some((data, next)) => r.is_some() && r.unwrap().0@ == data && r.unwrap().1 == next,
            None => r.is_none(),
        },
        r.is_some() ==> pos + 4 <= r.unwrap().1 <= input@.len(),
{
    let total = input.len();
    let len = match read_u32(input, pos) {
        Some(v) => v,
        None => {
            return None;
        },
    };
    let padded = len as u64 + fill(len) as u64;
    if ((total - pos - 4) as u64) < padded {
        return None;
    }
    let data = vstd::slice::slice_subrange(input, pos + 4, pos + 4 + len as usize);
    Some((data, pos + 4 + padded as usize))
}

} // verus!
