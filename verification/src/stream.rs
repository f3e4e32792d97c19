//! Directions of a stream, as the host numbers them.

use vstd::prelude::*;

verus! {

/// Stream direction: towards the server.
pub const STREAM_TOSERVER: u8 = 0x04;

/// Stream direction: towards the client.
pub const STREAM_TOCLIENT: u8 = 0x08;

} // verus!
