//! Level-0 discovery: what a drive says of itself before any session, and
//! what the unlocker concludes from it.
use vstd::prelude::*;

use crate::error::Error;

verus! {

/// Codes of the feature descriptors that the unlocker reads.
#[derive(Debug, Copy, Clone, PartialEq, Eq, Structural)]
pub struct FeatureCodes(pub u16);

impl FeatureCodes {
    pub const LOCKING: u16 = 0x0002;

    pub const ENTERPRISE: u16 = 0x0100;

    pub const OPAL_V2: u16 = 0x0203;
}

/// Flag byte of the locking feature.
#[derive(Debug, Copy, Clone, PartialEq, Eq, Structural)]
pub struct LockingFlags {
    pub bits: u8,
}

impl LockingFlags {
    pub const LOCKING_SUPPORTED: u8 = 0x01;

    pub const LOCKING_ENABLED: u8 = 0x02;

    pub const LOCKED: u8 = 0x04;

    pub const MEDIA_ENCRYPTION: u8 = 0x08;

    pub const MBR_ENABLED: u8 = 0x10;

    pub const MBR_DONE: u8 = 0x20;

    /// The flag byte as a set of flags, unless it holds a bit that is no flag.
    pub open spec fn spec_from_bits(bits: u8) -> Option<LockingFlags> {
        if bits < 0x40 {
            Some(LockingFlags { bits })
        } else {
            None
        }
    }

    /// Every flag of `flags` is set.
    pub open spec fn has(&self, flags: u8) -> bool {
        self.bits & flags == flags
    }

    /// The flag byte as a set of flags, unless it holds a bit that is no flag.
    pub fn from_bits(bits: u8) -> (flags: Option<LockingFlags>)
        ensures
            flags == Self::spec_from_bits(bits),
    {
        if bits < 0x40 {
            Some(LockingFlags { bits })
        } else {
            None
        }
    }

    /// The flag byte.
    pub fn bits(&self) -> (bits: u8)
        ensures
            bits == self.bits,
    {
        self.bits
    }

    /// Whether every flag of `flags` is set.
    pub fn contains(&self, flags: u8) -> (b: bool)
        ensures
            b == self.has(flags),
    {
        self.bits & flags == flags
    }
}

/// Range of ComIDs that a feature offers.
#[derive(Debug, Copy, Clone, PartialEq, Eq, Structural)]
pub struct ComIdInfo {
    pub base_com_id: u16,
    pub num_com_ids: u16,
}

/// The features of a discovery record that the unlocker cares about.
#[derive(Debug, Copy, Clone)]
pub struct SecureDeviceInfo {
    pub locking: Option<LockingFlags>,
    pub opal_v2: Option<ComIdInfo>,
    pub enterprise: Option<ComIdInfo>,
}

/// Offset of the first feature descriptor in a discovery record.
pub const FIRST_DESCRIPTOR: usize = 48;

/// The 16-bit big-endian number at `at`.
pub open spec fn be16(bytes: Seq<u8>, at: int) -> u16 {
    (bytes[at] as int * 256 + bytes[at + 1] as int) as u16
}

/// The version word of the record is 1.
pub open spec fn version_ok(bytes: Seq<u8>) -> bool {
    bytes.len() >= 8 && bytes[4] == 0 && bytes[5] == 0 && bytes[6] == 0 && bytes[7] == 1
}

/// The ComID range that the descriptor at `offset` carries after its header.
pub open spec fn com_id_at(bytes: Seq<u8>, offset: int) -> ComIdInfo {
    ComIdInfo { base_com_id: be16(bytes, offset + 4), num_com_ids: be16(bytes, offset + 6) }
}

/// The descriptor at `offset` is one that the unlocker reads, and its
/// payload lies beyond the end of the record.
pub open spec fn truncated_at(bytes: Seq<u8>, offset: int) -> bool {
    let code = be16(bytes, offset);
    ||| code == FeatureCodes::LOCKING && offset + 4 >= bytes.len()
    ||| (code == FeatureCodes::ENTERPRISE || code == FeatureCodes::OPAL_V2) && offset + 7
        >= bytes.len()
}

/// What is known after the descriptor at `offset` has been read.
pub open spec fn record_feature(
    bytes: Seq<u8>,
    offset: int,
    info: SecureDeviceInfo,
) -> SecureDeviceInfo {
    let code = be16(bytes, offset);
    if code == FeatureCodes::LOCKING {
        SecureDeviceInfo { locking: LockingFlags::spec_from_bits(bytes[offset + 4]), ..info }
    } else if code == FeatureCodes::ENTERPRISE {
        SecureDeviceInfo { enterprise: Some(com_id_at(bytes, offset)), ..info }
    } else if code == FeatureCodes::OPAL_V2 {
        SecureDeviceInfo { opal_v2: Some(com_id_at(bytes, offset)), ..info }
    } else {
        info
    }
}

/// The walk over the feature descriptors from `offset` on, starting with
/// what is known in `info`. A descriptor is its 16-bit code, a byte that
/// the walk does not read, a length byte, and that many bytes; the next one
/// follows it. The walk ends where fewer than two bytes are left, at a
/// descriptor whose payload is cut off, or where the length byte is missing.
pub open spec fn walk_features(bytes: Seq<u8>, offset: int, info: SecureDeviceInfo) -> SecureDeviceInfo
    decreases
        (if offset < bytes.len() {
            bytes.len() - offset
        } else {
            0
        }),
{
    if offset < 0 || offset + 1 >= bytes.len() {
        info
    } else if truncated_at(bytes, offset) {
        info
    } else if offset + 3 >= bytes.len() {
        record_feature(bytes, offset, info)
    } else {
        walk_features(
            bytes,
            offset + bytes[offset + 3] as int + 4,
            record_feature(bytes, offset, info),
        )
    }
}

impl SecureDeviceInfo {
    /// Nothing known yet.
    pub open spec fn none() -> SecureDeviceInfo {
        SecureDeviceInfo { locking: None, opal_v2: None, enterprise: None }
    }

    /// What a discovery record says: the result of the walk over its
    /// descriptors.
    pub open spec fn of_record(bytes: Seq<u8>) -> SecureDeviceInfo {
        walk_features(bytes, FIRST_DESCRIPTOR as int, SecureDeviceInfo::none())
    }

    /// The drive has the locking feature, and it is locked or its shadow
    /// MBR is still in place.
    pub open spec fn locked(&self) -> bool {
        match self.locking {
            Some(flags) => flags.has(LockingFlags::LOCKED) || !flags.has(LockingFlags::MBR_DONE),
            None => false,
        }
    }

    /// Reads a Level-0 discovery record. The record is refused where its
    /// version word is not 1; else every descriptor is walked and the
    /// locking, Opal 2 and Enterprise features are taken down, the last of
    /// each kind winning.
    pub fn parse(buffer: &[u8]) -> (result: Result<SecureDeviceInfo, Error>)
        ensures
            result is Ok <==> version_ok(buffer@),
            result matches Ok(info) ==> info == SecureDeviceInfo::of_record(buffer@),
            result matches Err(e) ==> e == Error::IncompatibleVersion,
    {
        let len: usize = buffer.len();
        if len < 8 || buffer[4] != 0 || buffer[5] != 0 || buffer[6] != 0 || buffer[7] != 1 {
            return Err(Error::IncompatibleVersion);
        }
        let mut info = SecureDeviceInfo { locking: None, opal_v2: None, enterprise: None };
        let mut offset: usize = 48;
        while offset < len - 1
            invariant_except_break
                walk_features(buffer@, offset as int, info) == SecureDeviceInfo::of_record(
                    buffer@,
                ),
            invariant
                len == buffer@.len(),
                len >= 8,
            ensures
                info == SecureDeviceInfo::of_record(buffer@),
            decreases len - offset,
        {
            let code: u16 = buffer[offset] as u16 * 256 + buffer[offset + 1] as u16;
            assert(code == be16(buffer@, offset as int));
            let room: usize = len - offset;
            let ghost before = info;
            let ghost at = offset as int;
            if code == FeatureCodes::LOCKING {
                if room <= 4 {
                    break ;
                }
                info.locking = LockingFlags::from_bits(buffer[offset + 4]);
            } else if code == FeatureCodes::ENTERPRISE {
                if room <= 7 {
                    break ;
                }
                info.enterprise = Some(read_com_id(buffer, offset + 4));
            } else if code == FeatureCodes::OPAL_V2 {
                if room <= 7 {
                    break ;
                }
                info.opal_v2 = Some(read_com_id(buffer, offset + 4));
            }
            assert(!truncated_at(buffer@, at));
            assert(info == record_feature(buffer@, at, before));
            if room <= 3 {
                break ;
            }
            let step: usize = buffer[offset + 3] as usize + 4;
            assert(walk_features(buffer@, at, before) == walk_features(buffer@, at + step, info));
            if step >= room {
                offset = len;
            } else {
                offset += step;
            }
        }
        Ok(info)
    }

    /// Whether the drive needs unlocking: it has the locking feature, and it
    /// is locked or its shadow MBR is still in place.
    pub fn is_locked(&self) -> (b: bool)
        ensures
            b == self.locked(),
    {
        match self.locking {
            Some(flags) => flags.contains(LockingFlags::LOCKED) || !flags.contains(
                LockingFlags::MBR_DONE,
            ),
            None => false,
        }
    }
}

/// Reads the ComID range whose four bytes start at `at`.
fn read_com_id(buffer: &[u8], at: usize) -> (range: ComIdInfo)
    requires
        at >= 4,
        at + 3 < buffer@.len(),
    ensures
        range == com_id_at(buffer@, at - 4),
{
    ComIdInfo {
        base_com_id: buffer[at] as u16 * 256 + buffer[at + 1] as u16,
        num_com_ids: buffer[at + 2] as u16 * 256 + buffer[at + 3] as u16,
    }
}

/// What a session needs to know of a drive: the ComID to talk to, and
/// whether the drive follows the Enterprise variant.
#[derive(Debug, Copy, Clone)]
pub struct SecureDevice {
    com_id: u16,
    is_eprise: bool,
}

impl SecureDevice {
    /// The ComID of the drive.
    pub closed spec fn spec_com_id(&self) -> u16 {
        self.com_id
    }

    /// Whether the drive follows the Enterprise variant.
    pub closed spec fn spec_is_eprise(&self) -> bool {
        self.is_eprise
    }

    /// Picks the ComID of a drive from its discovery record: the base ComID
    /// of the Enterprise feature where the drive has it, else that of the
    /// Opal 2 feature. A drive with neither is not supported.
    pub fn new(info: &SecureDeviceInfo) -> (result: Result<SecureDevice, Error>)
        ensures
            match result {
                Ok(device) => {
                    &&& device.spec_is_eprise() == info.enterprise.is_some()
                    &&& info.enterprise matches Some(range) ==> device.spec_com_id()
                        == range.base_com_id
                    &&& info.enterprise is None ==> info.opal_v2 is Some && device.spec_com_id()
                        == info.opal_v2->0.base_com_id
                },
                Err(e) => e == Error::Unsupported && info.enterprise is None && info.opal_v2
                    is None,
            },
    {
        match info.enterprise {
            Some(range) => Ok(SecureDevice { com_id: range.base_com_id, is_eprise: true }),
            None => match info.opal_v2 {
                Some(range) => Ok(SecureDevice { com_id: range.base_com_id, is_eprise: false }),
                None => Err(Error::Unsupported),
            },
        }
    }

    /// The ComID of the drive.
    #[verifier::when_used_as_spec(spec_com_id)]
    pub fn com_id(&self) -> (id: u16)
        ensures
            id == self.spec_com_id(),
    {
        self.com_id
    }

    /// Whether the drive follows the Enterprise variant.
    #[verifier::when_used_as_spec(spec_is_eprise)]
    pub fn is_eprise(&self) -> (b: bool)
        ensures
            b == self.spec_is_eprise(),
    {
        self.is_eprise
    }
}

/// A descriptor with a code that the unlocker does not read is skipped by
/// the length that it declares.
pub proof fn lemma_unknown_feature_skipped(bytes: Seq<u8>, offset: int, info: SecureDeviceInfo)
    requires
        0 <= offset,
        offset + 3 < bytes.len(),
        be16(bytes, offset) != FeatureCodes::LOCKING,
        be16(bytes, offset) != FeatureCodes::ENTERPRISE,
        be16(bytes, offset) != FeatureCodes::OPAL_V2,
    ensures
        walk_features(bytes, offset, info) == walk_features(
            bytes,
            offset + bytes[offset + 3] as int + 4,
            info,
        ),
{
}

/// Zero bytes that follow the last descriptor change nothing, however many
/// they are: a walk that starts where only zero bytes are left ends with
/// what was known before.
pub proof fn lemma_trailing_zeros_ignored(bytes: Seq<u8>, offset: int, info: SecureDeviceInfo)
    requires
        0 <= offset,
        forall|i: int| offset <= i < bytes.len() ==> bytes[i] == 0,
    ensures
        walk_features(bytes, offset, info) == info,
    decreases bytes.len() - offset,
{
    if offset + 3 < bytes.len() {
        lemma_trailing_zeros_ignored(bytes, offset + 4, info);
    }
}

/// The descriptors from `offset` on fill the record exactly: each one is
/// whole, and the last one ends where the record ends.
pub open spec fn ends_at_boundary(bytes: Seq<u8>, offset: int) -> bool
    decreases
        (if offset < bytes.len() {
            bytes.len() - offset
        } else {
            0
        }),
{
    if offset == bytes.len() {
        true
    } else if offset < 0 || offset + 3 >= bytes.len() {
        false
    } else if truncated_at(bytes, offset) {
        false
    } else {
        ends_at_boundary(bytes, offset + bytes[offset + 3] as int + 4)
    }
}

/// A record whose descriptors end where it ends reads the same with any
/// number of zero bytes appended to it.
pub proof fn lemma_zero_padding_ignored(bytes: Seq<u8>, n: nat, offset: int, info: SecureDeviceInfo)
    requires
        0 <= offset,
        ends_at_boundary(bytes, offset),
    ensures
        walk_features(bytes + Seq::new(n, |i: int| 0u8), offset, info) == walk_features(
            bytes,
            offset,
            info,
        ),
    decreases
        (if offset < bytes.len() {
            bytes.len() - offset
        } else {
            0
        }),
{
    let padded = bytes + Seq::new(n, |i: int| 0u8);
    if offset == bytes.len() {
        lemma_trailing_zeros_ignored(padded, offset, info);
    } else {
        assert(forall|i: int| 0 <= i < bytes.len() ==> padded[i] == bytes[i]);
        assert(be16(padded, offset) == be16(bytes, offset));
        assert(!truncated_at(padded, offset));
        assert(record_feature(padded, offset, info) == record_feature(bytes, offset, info));
        lemma_zero_padding_ignored(
            bytes,
            n,
            offset + bytes[offset + 3] as int + 4,
            record_feature(bytes, offset, info),
        );
    }
}

} // verus!
