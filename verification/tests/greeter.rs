use opal_uefi_greeter::error::{Error, OpalError};
use opal_uefi_greeter::greeter::{check_image, classify_start_failure, largest_mode};
use opal_uefi_greeter::greeter::start_unlock;
use opal_uefi_greeter::greeter::{unlock_commands, BootPartitionScan, Key, KeyAction};
use opal_uefi_greeter::greeter::{PasswordEntry, StartFailure, PE_COFF_MAGIC, SCAN_ESCAPE};
use opal_uefi_greeter::kdf::derive_challenge;
use opal_uefi_greeter::opal::session::Exchange;
use opal_uefi_greeter::opal::StatusCode;
use opal_uefi_greeter::secure_device::{ComIdInfo, SecureDevice, SecureDeviceInfo};
use opal_uefi_greeter::util::dump;

fn opal_device() -> SecureDevice {
    let info = SecureDeviceInfo {
        locking: None,
        opal_v2: Some(ComIdInfo { base_com_id: 0x07FE, num_com_ids: 1 }),
        enterprise: None,
    };
    SecureDevice::new(&info).unwrap()
}

#[test]
fn password_is_typed_erased_and_entered() {
    let mut entry = PasswordEntry::new();
    assert_eq!(entry.on_key(Some(Key::Printable('\u{8}'))), KeyAction::Ignored);
    assert_eq!(entry.on_key(Some(Key::Printable('a'))), KeyAction::Typed);
    assert_eq!(entry.on_key(Some(Key::Printable('b'))), KeyAction::Typed);
    assert_eq!(entry.on_key(Some(Key::Printable('\u{E9}'))), KeyAction::Typed);
    assert_eq!(entry.on_key(None), KeyAction::Ignored);
    assert_eq!(entry.on_key(Some(Key::Special(0x01))), KeyAction::Ignored);
    assert_eq!(entry.on_key(Some(Key::Printable('\u{8}'))), KeyAction::Erased);
    assert_eq!(entry.on_key(Some(Key::Printable('c'))), KeyAction::Typed);
    assert_eq!(entry.on_key(Some(Key::Printable(' '))), KeyAction::Typed);
    assert_eq!(entry.on_key(Some(Key::Printable('\r'))), KeyAction::Entered);
    assert_eq!(entry.into_password(), "abc ");
}

#[test]
fn line_feed_enters_and_escape_gives_up() {
    let mut entry = PasswordEntry::new();
    assert_eq!(entry.on_key(Some(Key::Printable('x'))), KeyAction::Typed);
    assert_eq!(entry.on_key(Some(Key::Printable('\n'))), KeyAction::Entered);
    assert_eq!(entry.on_key(Some(Key::Special(SCAN_ESCAPE))), KeyAction::Shutdown);
    assert_eq!(SCAN_ESCAPE, 0x17);
    assert_eq!(entry.into_password(), "x");
    let mut empty = PasswordEntry::new();
    assert_eq!(empty.on_key(Some(Key::Printable('\r'))), KeyAction::Entered);
    assert_eq!(empty.into_password(), "");
}

#[test]
fn backspace_stops_at_the_start() {
    let mut entry = PasswordEntry::new();
    assert_eq!(entry.on_key(Some(Key::Printable('x'))), KeyAction::Typed);
    assert_eq!(entry.on_key(Some(Key::Printable('\u{8}'))), KeyAction::Erased);
    assert_eq!(entry.on_key(Some(Key::Printable('\u{8}'))), KeyAction::Ignored);
    assert_eq!(entry.on_key(Some(Key::Printable('y'))), KeyAction::Typed);
    assert_eq!(entry.into_password(), "y");
}

#[test]
fn echo_of_each_action() {
    assert_eq!(KeyAction::Typed.echo(), vec![0x2A]);
    assert_eq!(KeyAction::Erased.echo(), vec![0x08]);
    assert_eq!(KeyAction::Entered.echo(), vec![0x0D, 0x0A]);
    assert_eq!(KeyAction::Ignored.echo(), Vec::<u16>::new());
    assert_eq!(KeyAction::Shutdown.echo(), Vec::<u16>::new());
}

#[test]
fn start_failures_are_told_apart() {
    let status = |code: u8| Error::Opal(OpalError::Status(StatusCode(code)));
    assert_eq!(classify_start_failure(&status(0x01)), StartFailure::BadPassword);
    assert_eq!(classify_start_failure(&status(0x12)), StartFailure::LockedOut);
    assert_eq!(classify_start_failure(&status(0x00)), StartFailure::Fatal);
    assert_eq!(classify_start_failure(&status(0x3F)), StartFailure::Fatal);
    assert_eq!(
        classify_start_failure(&Error::Opal(OpalError::NoMethodStatus)),
        StartFailure::Fatal
    );
    assert_eq!(classify_start_failure(&Error::Unsupported), StartFailure::Fatal);
    assert_eq!(classify_start_failure(&Error::IncompatibleVersion), StartFailure::Fatal);
    assert_eq!(
        classify_start_failure(&Error::from(StatusCode(StatusCode::NOT_AUTHORIZED))),
        StartFailure::BadPassword
    );
    assert_eq!(
        classify_start_failure(&Error::from(OpalError::Status(StatusCode(0x12)))),
        StartFailure::LockedOut
    );
}

#[test]
fn next_image_must_start_with_mz() {
    assert!(check_image(&[0x4D, 0x5A]).is_ok());
    assert!(check_image(&[0x4D, 0x5A, 0x90, 0x00]).is_ok());
    assert!(matches!(check_image(&[]), Err(Error::ImageNotPeCoff)));
    assert!(matches!(check_image(&[0x4D]), Err(Error::ImageNotPeCoff)));
    assert!(matches!(check_image(&[0x5A, 0x4D]), Err(Error::ImageNotPeCoff)));
    assert!(matches!(check_image(&[0x7F, 0x45, 0x4C, 0x46]), Err(Error::ImageNotPeCoff)));
    assert_eq!(PE_COFF_MAGIC, [0x4D, 0x5A]);
}

#[test]
fn exactly_one_boot_partition_is_wanted() {
    let scan = BootPartitionScan::new();
    assert!(matches!(scan.finish(), Err(Error::NoBootPartitions)));

    let mut scan = BootPartitionScan::new();
    assert!(scan.observe(0, false).is_ok());
    assert!(scan.observe(1, true).is_ok());
    assert!(scan.observe(2, false).is_ok());
    assert_eq!(scan.finish().unwrap(), 1);

    let mut scan = BootPartitionScan::new();
    assert!(scan.observe(0, true).is_ok());
    assert!(scan.observe(1, false).is_ok());
    assert!(matches!(scan.observe(2, true), Err(Error::MultipleBootPartitions)));
    assert_eq!(scan.found, Some(0));

    let mut scan = BootPartitionScan::new();
    assert!(scan.observe(0, false).is_ok());
    assert!(matches!(scan.finish(), Err(Error::NoBootPartitions)));
}

#[test]
fn unlock_presents_the_derived_credential() {
    let device = opal_device();
    let serial = b"ABCD1234            ";
    let (session, command) = start_unlock(&device, "opensesame", serial);
    assert_eq!(session.com_id, 0x07FE);
    assert!(session.challenged);
    assert_eq!(session.exchange, Exchange::Idle);
    let hash = derive_challenge(b"opensesame", serial);
    let mut body = vec![0xF8];
    body.extend_from_slice(&[0xA8, 0, 0, 0, 0, 0, 0, 0, 0xFF]);
    body.extend_from_slice(&[0xA8, 0, 0, 0, 0, 0, 0, 0xFF, 0x02]);
    body.extend_from_slice(&[0xF0, 0x81, 0x69]);
    body.extend_from_slice(&[0xA8, 0x00, 0x00, 0x02, 0x05, 0x00, 0x00, 0x00, 0x02]);
    body.push(0x01);
    body.extend_from_slice(&[0xF2, 0x00, 0xD0, 0x20]);
    body.extend_from_slice(&hash);
    body.extend_from_slice(&[0xF3, 0xF2, 0x03]);
    body.extend_from_slice(&[0xA8, 0x00, 0x00, 0x00, 0x09, 0x00, 0x01, 0x00, 0x01]);
    body.extend_from_slice(&[0xF3, 0xF1]);
    body.extend_from_slice(&[0xF9, 0xF0, 0x00, 0x00, 0x00, 0xF1]);
    assert_eq!(command.header.subpkt.length as usize, body.len());
    while body.len() % 4 != 0 {
        body.push(0);
    }
    assert_eq!(command.payload, body);
}

#[test]
fn unlock_sets_mbr_done_then_opens_the_global_range() {
    let device = opal_device();
    let (session, _) = start_unlock(&device, "pw", b"serial");
    let (first, second) = unlock_commands(&session);
    assert_eq!(first.payload, session.set_mbr_done(true).payload);
    assert_eq!(
        second.payload,
        session
            .set_locking_range(0, opal_uefi_greeter::opal::LockingState::ReadWrite)
            .payload
    );
    assert_eq!(&first.payload[1..10], &[0xA8, 0x00, 0x00, 0x08, 0x03, 0x00, 0x00, 0x00, 0x01]);
    assert_eq!(&second.payload[1..10], &[0xA8, 0x00, 0x00, 0x08, 0x02, 0x00, 0x00, 0x00, 0x01]);
    assert!(first.eod && second.eod);
}

#[test]
fn largest_text_mode_is_picked() {
    assert_eq!(largest_mode(&[]), None);
    assert_eq!(largest_mode(&[(80, 25)]), Some(0));
    assert_eq!(largest_mode(&[(80, 25), (80, 50), (100, 31)]), Some(1));
    assert_eq!(largest_mode(&[(80, 25), (100, 40), (80, 50), (40, 100)]), Some(3));
    assert_eq!(largest_mode(&[(0, 0), (0, 9)]), Some(1));
    assert_eq!(largest_mode(&[(usize::MAX, usize::MAX), (usize::MAX, 1), (1, 1)]), Some(0));
}

#[test]
fn dump_groups_bytes_by_four_and_sixteen() {
    assert_eq!(dump(&[]), "");
    assert_eq!(dump(&[0x00]), "\n00");
    assert_eq!(dump(&[0xAB, 0xCD, 0xEF, 0x01]), "\nABCDEF01");
    assert_eq!(dump(&[0x01, 0x02, 0x03, 0x04, 0x05]), "\n01020304 05");
    let bytes: Vec<u8> = (0u8..18).collect();
    assert_eq!(dump(&bytes), "\n00010203 04050607 08090A0B 0C0D0E0F\n1011");
    assert_eq!(dump(&[0xFF, 0x9A, 0x0F, 0xF0]), "\nFF9A0FF0");
}
