use opal_uefi_greeter::kdf::{derive_challenge, KDF_ROUNDS, KEY_LEN};

#[test]
fn kdf_salt_vector() {
    let serial = b"ABCD1234            ";
    assert_eq!(serial.len(), 20);
    let key = derive_challenge(b"opensesame", serial);
    assert_eq!(
        key,
        vec![
            0xF2, 0xA7, 0x25, 0x49, 0x24, 0xD7, 0x83, 0x34, 0xA3, 0x06, 0xEA, 0x97, 0x6A, 0x4E,
            0x1C, 0xDC, 0xC7, 0x8E, 0x47, 0x07, 0x0C, 0xD3, 0x1A, 0x5A, 0x64, 0x2A, 0xA8, 0x5E,
            0x05, 0x26, 0x01, 0xA8,
        ]
    );
}

#[test]
fn kdf_parameters_are_fixed() {
    assert_eq!(KDF_ROUNDS, 75000);
    assert_eq!(KEY_LEN, 32);
    assert_eq!(derive_challenge(b"", b"").len(), 32);
}

#[test]
fn kdf_depends_on_password_and_salt() {
    let base = derive_challenge(b"opensesame", b"ABCD1234            ");
    assert_ne!(base, derive_challenge(b"opensesame", b"ABCD1235            "));
    assert_ne!(base, derive_challenge(b"opensesamf", b"ABCD1234            "));
    assert_ne!(base, derive_challenge(b"opensesame", b"ABCD1234"));
    assert_ne!(base, vec![0u8; 32]);
    assert_eq!(base, derive_challenge(b"opensesame", b"ABCD1234            "));
}
