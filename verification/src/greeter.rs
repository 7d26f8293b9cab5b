//! The decisions of the unlocker between its calls to the firmware: what
//! a key does to the password being typed, what the outcome of a start
//! attempt means, which partition to boot from, and whether the next
//! image looks like one.
use vstd::prelude::*;
use vstd::string::StringSliceAdditionalSpecFns;

use crate::error::{Error, OpalError};
use crate::kdf::{derive_challenge, pbkdf2_hmac_sha1, KDF_ROUNDS, KEY_LEN};
use crate::opal::command::OpalCommand;
use crate::opal::session::{boolean, set_locking_range_payload, set_value_payload};
use crate::opal::session::{be_uid, start_session_payload, Exchange, OpalSession, TCG_PROTOCOL};
use crate::opal::{token, uid, LockingState, StatusCode, BS8};
use crate::secure_device::SecureDevice;
use crate::text::{pop_char, push_char};

verus! {

/// Scan code of the Escape key.
pub const SCAN_ESCAPE: u16 = 0x17;

/// UCS-2 unit that is echoed for a typed character.
pub const ECHO_MASK: u16 = 0x2A;

/// UCS-2 unit of the backspace.
pub const BACKSPACE: u16 = 0x08;

/// UCS-2 unit of the carriage return.
pub const CARRIAGE_RETURN: u16 = 0x0D;

/// UCS-2 unit of the line feed.
pub const LINE_FEED: u16 = 0x0A;

/// First two bytes of a PE/COFF image.
pub const PE_COFF_MAGIC: [u8; 2] = [0x4D, 0x5A];

/// A key stroke as the console reports it.
#[derive(Debug, Copy, Clone, PartialEq, Eq, Structural)]
pub enum Key {
    /// A key that stands for a character.
    Printable(char),
    /// Any other key, by its scan code.
    Special(u16),
}

/// What a key stroke asks of the caller.
#[derive(Debug, Copy, Clone, PartialEq, Eq, Structural)]
pub enum KeyAction {
    /// A character was taken: echo the mask character.
    Typed,
    /// The last character was taken back: echo a backspace.
    Erased,
    /// Nothing happened.
    Ignored,
    /// The password is complete: echo carriage return and line feed.
    Entered,
    /// The user gave up: shut the machine down.
    Shutdown,
}

/// What the key does, given whether anything has been typed yet.
pub open spec fn key_action(key: Option<Key>, typed: bool) -> KeyAction {
    match key {
        Some(Key::Printable(c)) => if c as u32 == 0x0D || c as u32 == 0x0A {
            KeyAction::Entered
        } else if c as u32 == 0x08 {
            if typed {
                KeyAction::Erased
            } else {
                KeyAction::Ignored
            }
        } else {
            KeyAction::Typed
        },
        Some(Key::Special(scan)) => if scan == SCAN_ESCAPE {
            KeyAction::Shutdown
        } else {
            KeyAction::Ignored
        },
        None => KeyAction::Ignored,
    }
}

impl KeyAction {
    /// The UCS-2 units that the action writes to the console.
    pub open spec fn spec_echo(&self) -> Seq<u16> {
        match self {
            KeyAction::Typed => seq![ECHO_MASK],
            KeyAction::Erased => seq![BACKSPACE],
            KeyAction::Entered => seq![CARRIAGE_RETURN, LINE_FEED],
            KeyAction::Ignored => Seq::empty(),
            KeyAction::Shutdown => Seq::empty(),
        }
    }

    /// The UCS-2 units that the action writes to the console.
    pub fn echo(&self) -> (units: Vec<u16>)
        ensures
            units@ == self.spec_echo(),
    {
        let mut units: Vec<u16> = Vec::new();
        match self {
            KeyAction::Typed => {
                units.push(ECHO_MASK);
            },
            KeyAction::Erased => {
                units.push(BACKSPACE);
            },
            KeyAction::Entered => {
                units.push(CARRIAGE_RETURN);
                units.push(LINE_FEED);
            },
            KeyAction::Ignored => {},
            KeyAction::Shutdown => {},
        }
        assert(units@ =~= self.spec_echo());
        units
    }
}

/// The password as far as it has been typed.
#[derive(Debug)]
pub struct PasswordEntry {
    text: String,
}

impl View for PasswordEntry {
    type V = Seq<char>;

    closed spec fn view(&self) -> Seq<char> {
        self.text@
    }
}

impl PasswordEntry {
    /// Nothing typed yet.
    pub fn new() -> (entry: PasswordEntry)
        ensures
            entry@ == Seq::<char>::empty(),
    {
        PasswordEntry { text: String::new() }
    }

    /// Takes a key stroke. A character is appended, a backspace takes the
    /// last character back, return or line feed complete the password,
    /// Escape gives up, and everything else is ignored.
    pub fn on_key(&mut self, key: Option<Key>) -> (action: KeyAction)
        ensures
            action == key_action(key, old(self)@.len() > 0),
            final(self)@ == (match action {
                KeyAction::Typed => old(self)@.push(key->0->Printable_0),
                KeyAction::Erased => old(self)@.drop_last(),
                _ => old(self)@,
            }),
    {
        match key {
            Some(Key::Printable(c)) => {
                let code: u32 = c as u32;
                if code == 0x0D || code == 0x0A {
                    KeyAction::Entered
                } else if code == 0x08 {
                    match pop_char(&mut self.text) {
                        Some(_) => KeyAction::Erased,
                        None => KeyAction::Ignored,
                    }
                } else {
                    push_char(&mut self.text, c);
                    KeyAction::Typed
                }
            },
            Some(Key::Special(scan)) => {
                if scan == SCAN_ESCAPE {
                    KeyAction::Shutdown
                } else {
                    KeyAction::Ignored
                }
            },
            None => KeyAction::Ignored,
        }
    }

    /// The password that was typed.
    pub fn into_password(self) -> (password: String)
        ensures
            password@ == self@,
    {
        self.text
    }
}

/// What a failed attempt to start a session means for the user.
#[derive(Debug, Copy, Clone, PartialEq, Eq, Structural)]
pub enum StartFailure {
    /// The drive did not accept the credential: ask again.
    BadPassword,
    /// The drive has locked the authority out: tell the user and reset.
    LockedOut,
    /// Anything else ends the run.
    Fatal,
}

/// What a failure to start a session means.
pub open spec fn start_failure(error: Error) -> StartFailure {
    match error {
        Error::Opal(OpalError::Status(code)) => if code.0 == StatusCode::NOT_AUTHORIZED {
            StartFailure::BadPassword
        } else if code.0 == StatusCode::AUTHORITY_LOCKED_OUT {
            StartFailure::LockedOut
        } else {
            StartFailure::Fatal
        },
        _ => StartFailure::Fatal,
    }
}

/// Tells a bad password and a lockout from the failures that end the run.
pub fn classify_start_failure(error: &Error) -> (failure: StartFailure)
    ensures
        failure == start_failure(*error),
{
    match error {
        Error::Opal(OpalError::Status(code)) => {
            if code.0 == StatusCode::NOT_AUTHORIZED {
                StartFailure::BadPassword
            } else if code.0 == StatusCode::AUTHORITY_LOCKED_OUT {
                StartFailure::LockedOut
            } else {
                StartFailure::Fatal
            }
        },
        _ => StartFailure::Fatal,
    }
}

/// Opens the dialogue that unlocks a drive: the credential is derived
/// from the password and the serial number of the drive, and presented by
/// the first administrator to the locking provider.
pub fn start_unlock(device: &SecureDevice, password: &str, serial_num: &[u8]) -> (opened: (
    OpalSession,
    OpalCommand,
))
    ensures
        opened.0.com_id == device.com_id(),
        opened.0.is_eprise == device.is_eprise(),
        opened.0.tsn == 0,
        opened.0.hsn == 0,
        opened.0.protocol == TCG_PROTOCOL,
        opened.0.exchange == Exchange::Idle,
        opened.0.challenged,
        opened.1.frames(
            start_session_payload(
                device.is_eprise(),
                be_uid(uid::OPAL_LOCKINGSP),
                be_uid(uid::OPAL_ADMIN1),
                Some(
                    pbkdf2_hmac_sha1(
                        password.spec_bytes(),
                        serial_num@,
                        KDF_ROUNDS,
                        KEY_LEN as nat,
                    ),
                ),
            ),
            true,
        ),
{
    let hash = derive_challenge(password.as_bytes(), serial_num);
    OpalSession::start(
        device,
        BS8::from_u64(uid::OPAL_LOCKINGSP),
        BS8::from_u64(uid::OPAL_ADMIN1),
        Some(hash.as_slice()),
    )
}

/// The commands that open a drive once the session stands: the shadow MBR
/// is declared done with, then the global range is opened for reading and
/// writing.
pub fn unlock_commands(session: &OpalSession) -> (commands: (OpalCommand, OpalCommand))
    ensures
        commands.0.frames(
            set_value_payload(be_uid(uid::OPAL_MBRCONTROL), token::MBRDONE, boolean(true)),
            true,
        ),
        commands.1.frames(set_locking_range_payload(0, LockingState::ReadWrite), true),
{
    (session.set_mbr_done(true), session.set_locking_range(0, LockingState::ReadWrite))
}

/// The bytes start with the PE/COFF magic.
pub open spec fn is_pe_coff(image: Seq<u8>) -> bool {
    image.len() >= 2 && image[0] == PE_COFF_MAGIC[0] && image[1] == PE_COFF_MAGIC[1]
}

/// Accepts the next image if it starts with the PE/COFF magic.
pub fn check_image(image: &[u8]) -> (result: Result<(), Error>)
    ensures
        match result {
            Ok(_) => is_pe_coff(image@),
            Err(e) => !is_pe_coff(image@) && e == Error::ImageNotPeCoff,
        },
{
    if image.len() >= 2 && image[0] == 0x4D && image[1] == 0x5A {
        Ok(())
    } else {
        Err(Error::ImageNotPeCoff)
    }
}

/// The search for the one EFI system partition among the partitions that
/// the firmware lists.
#[derive(Debug, Copy, Clone)]
pub struct BootPartitionScan {
    pub found: Option<usize>,
}

impl BootPartitionScan {
    /// Nothing seen yet.
    pub fn new() -> (scan: BootPartitionScan)
        ensures
            scan.found is None,
    {
        BootPartitionScan { found: None }
    }

    /// Takes the next partition of the list. A second EFI system partition
    /// ends the search.
    pub fn observe(&mut self, index: usize, is_esp: bool) -> (result: Result<(), Error>)
        ensures
            match result {
                Ok(_) => final(self).found == (if is_esp {
                    Some(index)
                } else {
                    old(self).found
                }) && !(is_esp && old(self).found is Some),
                Err(e) => is_esp && old(self).found is Some && e == Error::MultipleBootPartitions
                    && final(self).found == old(self).found,
            },
    {
        if is_esp {
            if self.found.is_some() {
                return Err(Error::MultipleBootPartitions);
            }
            self.found = Some(index);
        }
        Ok(())
    }

    /// The partition to boot from, once the list is through.
    pub fn finish(self) -> (result: Result<usize, Error>)
        ensures
            match result {
                Ok(index) => self.found == Some(index),
                Err(e) => self.found is None && e == Error::NoBootPartitions,
            },
    {
        match self.found {
            Some(index) => Ok(index),
            None => Err(Error::NoBootPartitions),
        }
    }
}

/// Number of character cells of a text mode with the given columns and
/// rows.
pub open spec fn cells(size: (usize, usize)) -> int {
    size.0 * size.1
}

/// The text mode with the most character cells, by its place in the list;
/// among equals the last one. `None` for an empty list.
pub fn largest_mode(sizes: &[(usize, usize)]) -> (best: Option<usize>)
    ensures
        best is None <==> sizes@.len() == 0,
        best matches Some(b) ==> {
            &&& b < sizes@.len()
            &&& forall|j: int| 0 <= j < sizes@.len() ==> cells(sizes@[j]) <= cells(sizes@[b as int])
            &&& forall|j: int| b < j < sizes@.len() ==> cells(sizes@[j]) < cells(sizes@[b as int])
        },
{
    let n: usize = sizes.len();
    if n == 0 {
        return None;
    }
    let mut best: usize = 0;
    let mut best_cells: u128 = area(sizes[0]);
    let mut i: usize = 1;
    while i < n
        invariant
            1 <= i <= n,
            n == sizes@.len(),
            best < i,
            best_cells == cells(sizes@[best as int]),
            forall|j: int| 0 <= j < i ==> cells(sizes@[j]) <= cells(sizes@[best as int]),
            forall|j: int| best < j < i ==> cells(sizes@[j]) < cells(sizes@[best as int]),
        decreases n - i,
    {
        let here: u128 = area(sizes[i]);
        if here >= best_cells {
            best = i;
            best_cells = here;
        }
        i += 1;
    }
    Some(best)
}

/// Number of character cells of a text mode.
fn area(size: (usize, usize)) -> (a: u128)
    ensures
        a == cells(size),
{
    let columns: u128 = size.0 as u128;
    let rows: u128 = size.1 as u128;
    assert(columns * rows <= 0xFFFF_FFFF_FFFF_FFFF * 0xFFFF_FFFF_FFFF_FFFF) by (nonlinear_arith)
        requires
            0 <= columns <= 0xFFFF_FFFF_FFFF_FFFF,
            0 <= rows <= 0xFFFF_FFFF_FFFF_FFFF,
    ;
    columns * rows
}

} // verus!
