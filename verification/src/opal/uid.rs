//! Identifiers of well-known objects and tables, as numbers whose big-endian
//! bytes form the 8-byte identifier.
use vstd::prelude::*;

verus! {

// Authorities and security providers.

pub const OPAL_SMUID: u64 = 0x0000_0000_0000_00FF;

pub const OPAL_THISSP: u64 = 0x0000_0000_0000_0001;

pub const OPAL_ADMINSP: u64 = 0x0000_0205_0000_0001;

pub const OPAL_LOCKINGSP: u64 = 0x0000_0205_0000_0002;

pub const ENTERPRISE_LOCKINGSP: u64 = 0x0000_0205_0001_0001;

pub const OPAL_ANYBODY: u64 = 0x0000_0009_0000_0001;

pub const OPAL_SID: u64 = 0x0000_0009_0000_0006;

pub const OPAL_ADMIN1: u64 = 0x0000_0009_0001_0001;

pub const OPAL_USER1: u64 = 0x0000_0009_0003_0001;

pub const OPAL_USER2: u64 = 0x0000_0009_0003_0002;

pub const OPAL_PSID: u64 = 0x0000_0009_0001_FF01;

pub const ENTERPRISE_BANDMASTER0: u64 = 0x0000_0009_0000_8001;

pub const ENTERPRISE_ERASEMASTER: u64 = 0x0000_0009_0000_8401;

// Tables and access-control entries.

pub const OPAL_LOCKINGRANGE_GLOBAL: u64 = 0x0000_0802_0000_0001;

pub const OPAL_LOCKINGRANGE_ACE_RDLOCKED: u64 = 0x0000_0008_0003_E001;

pub const OPAL_LOCKINGRANGE_ACE_WRLOCKED: u64 = 0x0000_0008_0003_E801;

pub const OPAL_LOCKINGRANGE_GLOBAL_ACE_RDLOCKED: u64 = 0x0000_0008_0003_E000;

pub const OPAL_LOCKINGRANGE_GLOBAL_ACE_WRLOCKED: u64 = 0x0000_0008_0003_E800;

pub const OPAL_MBRCONTROL_SET_DONE_TO_DOR: u64 = 0x0000_0008_0003_F801;

pub const OPAL_MBRCONTROL: u64 = 0x0000_0803_0000_0001;

pub const OPAL_MBR: u64 = 0x0000_0804_0000_0000;

pub const OPAL_AUTHORITY_TABLE: u64 = 0x0000_0009_0000_0000;

pub const OPAL_C_PIN_TABLE: u64 = 0x0000_000B_0000_0000;

pub const OPAL_LOCKING_INFO_TABLE: u64 = 0x0000_0801_0000_0001;

pub const ENTERPRISE_LOCKING_INFO_TABLE: u64 = 0x0000_0801_0000_0000;

// Rows of the C_PIN table.

pub const OPAL_C_PIN_MSID: u64 = 0x0000_000B_0000_8402;

pub const OPAL_C_PIN_SID: u64 = 0x0000_000B_0000_0001;

pub const OPAL_C_PIN_ADMIN1: u64 = 0x0000_000B_0001_0001;

// Half identifiers: only the first four bytes are used.

pub const OPAL_HALF_UID_AUTHORITY_OBJ_REF: u64 = 0x0000_0C05_FFFF_FFFF;

pub const OPAL_HALF_UID_BOOLEAN_ACE: u64 = 0x0000_040E_FFFF_FFFF;

// Stands for an optional parameter that is left out.

pub const OPAL_UID_HEXFF: u64 = 0xFFFF_FFFF_FFFF_FFFF;

} // verus!
