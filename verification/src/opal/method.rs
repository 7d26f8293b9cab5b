//! Identifiers of the methods that a session can invoke, as numbers whose
//! big-endian bytes form the 8-byte identifier.
use vstd::prelude::*;

verus! {

pub const PROPERTIES: u64 = 0x0000_0000_0000_FF01;

pub const STARTSESSION: u64 = 0x0000_0000_0000_FF02;

pub const REVERT: u64 = 0x0000_0006_0000_0202;

pub const ACTIVATE: u64 = 0x0000_0006_0000_0203;

pub const EGET: u64 = 0x0000_0006_0000_0006;

pub const ESET: u64 = 0x0000_0006_0000_0007;

pub const NEXT: u64 = 0x0000_0006_0000_0008;

pub const EAUTHENTICATE: u64 = 0x0000_0006_0000_000C;

pub const GETACL: u64 = 0x0000_0006_0000_000D;

pub const GENKEY: u64 = 0x0000_0006_0000_0010;

pub const REVERTSP: u64 = 0x0000_0006_0000_0011;

pub const GET: u64 = 0x0000_0006_0000_0016;

pub const SET: u64 = 0x0000_0006_0000_0017;

pub const AUTHENTICATE: u64 = 0x0000_0006_0000_001C;

pub const RANDOM: u64 = 0x0000_0006_0000_0601;

pub const ERASE: u64 = 0x0000_0006_0000_0803;

} // verus!
