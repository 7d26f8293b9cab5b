//! Lead bytes of the short atoms that the unlocker writes.
use vstd::prelude::*;

verus! {

pub const UINT_3: u8 = 0x83;

pub const BYTESTRING4: u8 = 0xA4;

pub const BYTESTRING8: u8 = 0xA8;

} // verus!
