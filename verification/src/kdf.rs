//! Derivation of the credential that is presented to the drive from the
//! password that the user types.
use vstd::prelude::*;

verus! {

/// Number of PBKDF2 rounds.
pub const KDF_ROUNDS: u32 = 75000;

/// Length in bytes of the derived credential.
pub const KEY_LEN: usize = 32;

/// The first `len` bytes of the PBKDF2 key stream with HMAC-SHA1 as the
/// pseudo-random function, for a password, a salt and a number of rounds.
pub uninterp spec fn pbkdf2_hmac_sha1(
    password: Seq<u8>,
    salt: Seq<u8>,
    rounds: u32,
    len: nat,
) -> Seq<u8>;

/// Calls `pbkdf2::pbkdf2_hmac` with SHA-1 on a zeroed buffer of `len` bytes.
/// The contract claims that the buffer then holds the PBKDF2 key stream for
/// the arguments, which depends on nothing but them. The length is kept
/// within what the block counter of the algorithm can number.
#[verifier::external_body]
fn pbkdf2_sha1(password: &[u8], salt: &[u8], rounds: u32, len: usize) -> (key: Vec<u8>)
    requires
        len <= 20 * 0xFFFF_FFFF,
    ensures
        key@ == pbkdf2_hmac_sha1(password@, salt@, rounds, len as nat),
        key@.len() == len,
{
    let mut key = vec![0u8; len];
    pbkdf2::pbkdf2_hmac::<sha1::Sha1>(password, salt, rounds, &mut key);
    key
}

/// The credential for a password on the drive with the given serial
/// number: 32 bytes of PBKDF2 with HMAC-SHA1, salted with the serial
/// number, after 75000 rounds.
pub fn derive_challenge(password: &[u8], serial_num: &[u8]) -> (key: Vec<u8>)
    ensures
        key@ == pbkdf2_hmac_sha1(password@, serial_num@, KDF_ROUNDS, KEY_LEN as nat),
        key@.len() == KEY_LEN,
{
    pbkdf2_sha1(password, serial_num, KDF_ROUNDS, KEY_LEN)
}

} // verus!
