//! One-byte tokens: booleans, column numbers of the tables that the unlocker
//! writes, and the control tokens that structure a stream.
use vstd::prelude::*;

verus! {

pub const OPAL_TRUE: u8 = 0x01;

pub const OPAL_FALSE: u8 = 0x00;

pub const OPAL_BOOLEAN_EXPR: u8 = 0x03;

// Cell blocks.

pub const TABLE: u8 = 0x00;

pub const STARTROW: u8 = 0x01;

pub const ENDROW: u8 = 0x02;

pub const STARTCOLUMN: u8 = 0x03;

pub const ENDCOLUMN: u8 = 0x04;

pub const VALUES: u8 = 0x01;

// Authority table.

pub const PIN: u8 = 0x03;

// Locking table.

pub const RANGESTART: u8 = 0x03;

pub const RANGELENGTH: u8 = 0x04;

pub const READLOCKENABLED: u8 = 0x05;

pub const WRITELOCKENABLED: u8 = 0x06;

pub const READLOCKED: u8 = 0x07;

pub const WRITELOCKED: u8 = 0x08;

pub const ACTIVEKEY: u8 = 0x0A;

// Locking info table.

pub const MAXRANGES: u8 = 0x04;

// MBR control table.

pub const MBRENABLE: u8 = 0x01;

pub const MBRDONE: u8 = 0x02;

// Properties.

pub const HOSTPROPERTIES: u8 = 0x00;

// Kinds of response token.

pub const DTA_TOKENID_BYTESTRING: u8 = 0xE0;

pub const DTA_TOKENID_SINT: u8 = 0xE1;

pub const DTA_TOKENID_UINT: u8 = 0xE2;

pub const DTA_TOKENID_TOKEN: u8 = 0xE3;

// Control tokens.

pub const STARTLIST: u8 = 0xF0;

pub const ENDLIST: u8 = 0xF1;

pub const STARTNAME: u8 = 0xF2;

pub const ENDNAME: u8 = 0xF3;

pub const CALL: u8 = 0xF8;

pub const ENDOFDATA: u8 = 0xF9;

pub const ENDOFSESSION: u8 = 0xFA;

pub const STARTTRANSACTON: u8 = 0xFB;

pub const ENDTRANSACTON: u8 = 0xFC;

pub const EMPTYATOM: u8 = 0xFF;

pub const WHERE: u8 = 0x00;

} // verus!
