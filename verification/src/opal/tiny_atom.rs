//! The unsigned integers 0 to 15 as tiny atoms.
use vstd::prelude::*;

verus! {

pub const UINT_00: u8 = 0x00;

pub const UINT_01: u8 = 0x01;

pub const UINT_02: u8 = 0x02;

pub const UINT_03: u8 = 0x03;

pub const UINT_04: u8 = 0x04;

pub const UINT_05: u8 = 0x05;

pub const UINT_06: u8 = 0x06;

pub const UINT_07: u8 = 0x07;

pub const UINT_08: u8 = 0x08;

pub const UINT_09: u8 = 0x09;

pub const UINT_10: u8 = 0x0A;

pub const UINT_11: u8 = 0x0B;

pub const UINT_12: u8 = 0x0C;

pub const UINT_13: u8 = 0x0D;

pub const UINT_14: u8 = 0x0E;

pub const UINT_15: u8 = 0x0F;

} // verus!
