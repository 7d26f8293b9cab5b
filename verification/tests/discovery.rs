use opal_uefi_greeter::error::Error;
use opal_uefi_greeter::secure_device::{ComIdInfo, FeatureCodes, LockingFlags};
use opal_uefi_greeter::secure_device::{SecureDevice, SecureDeviceInfo, FIRST_DESCRIPTOR};

fn record(len: usize, descriptors: &[u8]) -> Vec<u8> {
    let mut buffer = vec![0u8; len];
    buffer[7] = 1;
    buffer[48..48 + descriptors.len()].copy_from_slice(descriptors);
    buffer
}

fn locking(flags: u8) -> Vec<u8> {
    let mut d = vec![0x00, 0x02, 0x10, 0x0C, flags];
    d.extend_from_slice(&[0; 11]);
    d
}

fn com_ids(code: u16, base: u16, count: u16) -> Vec<u8> {
    let mut d = code.to_be_bytes().to_vec();
    d.extend_from_slice(&[0x10, 0x10]);
    d.extend_from_slice(&base.to_be_bytes());
    d.extend_from_slice(&count.to_be_bytes());
    d.extend_from_slice(&[0; 12]);
    d
}

#[test]
fn level0_scenario() {
    let mut descriptor = vec![0x00, 0x02, 0x00, 0x0C, 0x06];
    descriptor.extend_from_slice(&[0; 11]);
    let info = SecureDeviceInfo::parse(&record(1024, &descriptor)).unwrap();
    let flags = info.locking.unwrap();
    assert_eq!(flags.bits(), 0x06);
    assert!(flags.contains(LockingFlags::LOCKING_ENABLED));
    assert!(flags.contains(LockingFlags::LOCKED));
    assert!(!flags.contains(LockingFlags::LOCKING_SUPPORTED));
    assert!(info.opal_v2.is_none());
    assert!(info.enterprise.is_none());
}

#[test]
fn level0_enabled_and_supported() {
    let info = SecureDeviceInfo::parse(&record(1024, &locking(0x03))).unwrap();
    let flags = info.locking.unwrap();
    assert_eq!(
        flags.bits(),
        LockingFlags::LOCKING_ENABLED | LockingFlags::LOCKING_SUPPORTED
    );
    assert!(flags.contains(LockingFlags::LOCKING_ENABLED | LockingFlags::LOCKING_SUPPORTED));
    assert!(!flags.contains(LockingFlags::MBR_DONE));
    assert!(info.opal_v2.is_none());
    assert!(info.enterprise.is_none());
}

#[test]
fn version_word_must_be_one() {
    let mut buffer = record(1024, &locking(0x03));
    buffer[7] = 2;
    assert!(matches!(SecureDeviceInfo::parse(&buffer), Err(Error::IncompatibleVersion)));
    let mut buffer = record(1024, &[]);
    buffer[4] = 1;
    assert!(matches!(SecureDeviceInfo::parse(&buffer), Err(Error::IncompatibleVersion)));
    assert!(matches!(SecureDeviceInfo::parse(&[0u8; 1024]), Err(Error::IncompatibleVersion)));
    assert!(matches!(SecureDeviceInfo::parse(&[]), Err(Error::IncompatibleVersion)));
    assert!(matches!(
        SecureDeviceInfo::parse(&[0, 0, 0, 0, 0, 0, 0]),
        Err(Error::IncompatibleVersion)
    ));
    let info = SecureDeviceInfo::parse(&[0, 0, 0, 0, 0, 0, 0, 1]).unwrap();
    assert!(info.locking.is_none() && info.opal_v2.is_none() && info.enterprise.is_none());
}

#[test]
fn all_three_features_are_read() {
    let mut descriptors = locking(0x07);
    descriptors.extend(com_ids(FeatureCodes::OPAL_V2, 0x07FE, 1));
    descriptors.extend(com_ids(FeatureCodes::ENTERPRISE, 0x0800, 4));
    let info = SecureDeviceInfo::parse(&record(1024, &descriptors)).unwrap();
    assert_eq!(info.locking, Some(LockingFlags { bits: 0x07 }));
    assert_eq!(info.opal_v2, Some(ComIdInfo { base_com_id: 0x07FE, num_com_ids: 1 }));
    assert_eq!(info.enterprise, Some(ComIdInfo { base_com_id: 0x0800, num_com_ids: 4 }));
    assert_eq!(FIRST_DESCRIPTOR, 48);
    assert_eq!(FeatureCodes::LOCKING, 0x0002);
    assert_eq!(FeatureCodes::ENTERPRISE, 0x0100);
    assert_eq!(FeatureCodes::OPAL_V2, 0x0203);
}

#[test]
fn unknown_features_are_skipped_by_their_length() {
    let mut descriptors = vec![0x00, 0x01, 0x10, 0x0C];
    descriptors.extend_from_slice(&[0x02, 0x03, 0x07, 0xFE, 0x00, 0x01, 0x00, 0x02, 0xAA, 0xBB, 0xCC, 0xDD]);
    descriptors.extend_from_slice(&[0x04, 0x02, 0x10, 0x03, 0x00, 0x02, 0x00]);
    let with_unknown_end = descriptors.len();
    descriptors.extend(com_ids(FeatureCodes::OPAL_V2, 0x1004, 2));
    descriptors.extend_from_slice(&[0xC0, 0x01, 0x10, 0x00]);
    descriptors.extend(locking(0x21));
    let info = SecureDeviceInfo::parse(&record(1024, &descriptors)).unwrap();
    assert_eq!(info.opal_v2, Some(ComIdInfo { base_com_id: 0x1004, num_com_ids: 2 }));
    assert_eq!(info.locking, Some(LockingFlags { bits: 0x21 }));
    assert!(info.enterprise.is_none());

    let plain = {
        let mut d = com_ids(FeatureCodes::OPAL_V2, 0x1004, 2);
        d.extend(locking(0x21));
        SecureDeviceInfo::parse(&record(1024, &d)).unwrap()
    };
    assert_eq!(plain.opal_v2, info.opal_v2);
    assert_eq!(plain.locking, info.locking);
    assert!(with_unknown_end > 0);
}

#[test]
fn order_of_features_does_not_matter() {
    let parts = [
        locking(0x05),
        com_ids(FeatureCodes::OPAL_V2, 0x07FE, 1),
        com_ids(FeatureCodes::ENTERPRISE, 0x0800, 4),
        vec![0x02, 0x01, 0x10, 0x04, 1, 2, 3, 4],
    ];
    let orders = [[0usize, 1, 2, 3], [3, 2, 1, 0], [1, 3, 0, 2], [2, 0, 3, 1]];
    for order in orders {
        let mut descriptors = Vec::new();
        for i in order {
            descriptors.extend_from_slice(&parts[i]);
        }
        let info = SecureDeviceInfo::parse(&record(1024, &descriptors)).unwrap();
        assert_eq!(info.locking, Some(LockingFlags { bits: 0x05 }));
        assert_eq!(info.opal_v2, Some(ComIdInfo { base_com_id: 0x07FE, num_com_ids: 1 }));
        assert_eq!(info.enterprise, Some(ComIdInfo { base_com_id: 0x0800, num_com_ids: 4 }));
    }
}

#[test]
fn trailing_zero_bytes_change_nothing() {
    let mut descriptors = locking(0x07);
    descriptors.extend(com_ids(FeatureCodes::OPAL_V2, 0x07FE, 1));
    let end = 48 + descriptors.len();
    for len in [end, end + 1, end + 2, end + 3, end + 4, end + 5, 512, 1023, 1024, 4096] {
        let info = SecureDeviceInfo::parse(&record(len, &descriptors)).unwrap();
        assert_eq!(info.locking, Some(LockingFlags { bits: 0x07 }));
        assert_eq!(info.opal_v2, Some(ComIdInfo { base_com_id: 0x07FE, num_com_ids: 1 }));
        assert!(info.enterprise.is_none());
    }
    for len in [8usize, 47, 48, 49, 50, 51, 52, 1024] {
        let info = SecureDeviceInfo::parse(&record(len.max(48), &[])[..len]).unwrap();
        assert!(info.locking.is_none() && info.opal_v2.is_none() && info.enterprise.is_none());
    }
}

#[test]
fn the_last_descriptor_of_a_kind_wins() {
    let mut descriptors = locking(0x01);
    descriptors.extend(com_ids(FeatureCodes::OPAL_V2, 1, 1));
    descriptors.extend(locking(0x3F));
    descriptors.extend(com_ids(FeatureCodes::OPAL_V2, 2, 2));
    let info = SecureDeviceInfo::parse(&record(1024, &descriptors)).unwrap();
    assert_eq!(info.locking, Some(LockingFlags { bits: 0x3F }));
    assert_eq!(info.opal_v2, Some(ComIdInfo { base_com_id: 2, num_com_ids: 2 }));
}

#[test]
fn flag_byte_with_an_unknown_bit_is_no_flag_set() {
    let info = SecureDeviceInfo::parse(&record(1024, &locking(0x40))).unwrap();
    assert!(info.locking.is_none());
    let mut descriptors = locking(0x07);
    descriptors.extend(locking(0x87));
    let info = SecureDeviceInfo::parse(&record(1024, &descriptors)).unwrap();
    assert!(info.locking.is_none());
    assert_eq!(LockingFlags::from_bits(0x3F), Some(LockingFlags { bits: 0x3F }));
    assert_eq!(LockingFlags::from_bits(0x00), Some(LockingFlags { bits: 0x00 }));
    assert_eq!(LockingFlags::from_bits(0x40), None);
    assert_eq!(LockingFlags::from_bits(0xFF), None);
}

#[test]
fn descriptors_cut_off_by_the_end_of_the_record_stop_the_walk() {
    let mut descriptors = locking(0x07);
    descriptors.extend_from_slice(&[0x02, 0x03, 0x10, 0x10, 0x07, 0xFE, 0x00]);
    let len = 48 + descriptors.len();
    let info = SecureDeviceInfo::parse(&record(len, &descriptors)).unwrap();
    assert_eq!(info.locking, Some(LockingFlags { bits: 0x07 }));
    assert!(info.opal_v2.is_none());

    let mut descriptors = com_ids(FeatureCodes::ENTERPRISE, 0x0800, 4);
    descriptors.extend_from_slice(&[0x00, 0x02, 0x10, 0x0C]);
    let len = 48 + descriptors.len();
    let info = SecureDeviceInfo::parse(&record(len, &descriptors)).unwrap();
    assert_eq!(info.enterprise, Some(ComIdInfo { base_com_id: 0x0800, num_com_ids: 4 }));
    assert!(info.locking.is_none());

    let mut descriptors = vec![0x02, 0x03, 0x10, 0x10, 0x07, 0xFE, 0x00, 0x01];
    let len = 48 + descriptors.len();
    let info = SecureDeviceInfo::parse(&record(len, &descriptors)).unwrap();
    assert_eq!(info.opal_v2, Some(ComIdInfo { base_com_id: 0x07FE, num_com_ids: 1 }));
    descriptors.truncate(3);
    let info = SecureDeviceInfo::parse(&record(51, &descriptors)).unwrap();
    assert!(info.opal_v2.is_none());
}

#[test]
fn locked_means_locked_or_shadowed() {
    let with = |bits: Option<u8>| SecureDeviceInfo {
        locking: bits.map(|bits| LockingFlags { bits }),
        opal_v2: None,
        enterprise: None,
    };
    assert!(!with(None).is_locked());
    assert!(with(Some(0x00)).is_locked());
    assert!(with(Some(LockingFlags::LOCKED)).is_locked());
    assert!(with(Some(LockingFlags::LOCKED | LockingFlags::MBR_DONE)).is_locked());
    assert!(!with(Some(LockingFlags::MBR_DONE)).is_locked());
    assert!(!with(Some(0x3B)).is_locked());
    assert!(with(Some(0x1F)).is_locked());
    assert_eq!(LockingFlags::MEDIA_ENCRYPTION, 0x08);
    assert_eq!(LockingFlags::MBR_ENABLED, 0x10);
}

#[test]
fn com_id_comes_from_enterprise_first() {
    let both = SecureDeviceInfo {
        locking: None,
        opal_v2: Some(ComIdInfo { base_com_id: 0x07FE, num_com_ids: 1 }),
        enterprise: Some(ComIdInfo { base_com_id: 0x0800, num_com_ids: 4 }),
    };
    let device = SecureDevice::new(&both).unwrap();
    assert_eq!(device.com_id(), 0x0800);
    assert!(device.is_eprise());

    let opal = SecureDeviceInfo { enterprise: None, ..both };
    let device = SecureDevice::new(&opal).unwrap();
    assert_eq!(device.com_id(), 0x07FE);
    assert!(!device.is_eprise());

    let neither = SecureDeviceInfo {
        locking: Some(LockingFlags { bits: 0x07 }),
        opal_v2: None,
        enterprise: None,
    };
    assert!(matches!(SecureDevice::new(&neither), Err(Error::Unsupported)));
}
