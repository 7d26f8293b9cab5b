//! The session engine. A session frames the commands of the unlocker and
//! reads the responses; the transport itself is the caller's. The engine is
//! a state machine: the caller reports what happened, and is told what to
//! do next.
use vstd::prelude::*;

use crate::error::OpalError;
use crate::opal::atom::{decode_uint, encode_bytestring, encode_uid, encode_uint};
use crate::opal::atom::{is_uint_atom, lemma_be_bytes_len, parse_atoms};
use crate::opal::command::{OpalCommand, OpalCommandBuilder, OpalResponse};
use crate::opal::{method, tiny_atom, token, uid, OPAL_HEADER_LEN};
use crate::opal::{LockingState, OpalHeader, SimpleToken, StatusCode, BS8};
use crate::opal::{Token, TokenList, TokenName, TokenStream, TokensNil, TokensPush};
use crate::secure_device::SecureDevice;

verus! {

/// The host session number that the unlocker proposes.
pub const HOST_SESSION_NUMBER: u64 = 105;

/// Session timeout in milliseconds that is asked of an Enterprise drive.
pub const SESSION_TIMEOUT_MS: u64 = 60000;

/// The name of the timeout parameter: the ASCII bytes of `SessionTimeout`.
pub const SESSION_TIMEOUT: [u8; 14] = [
    0x53,
    0x65,
    0x73,
    0x73,
    0x69,
    0x6F,
    0x6E,
    0x54,
    0x69,
    0x6D,
    0x65,
    0x6F,
    0x75,
    0x74,
];

/// Security protocol that carries TCG traffic.
pub const TCG_PROTOCOL: u8 = 0x01;

/// Size of the buffer that a response is received into.
pub const RECEIVE_LEN: usize = 2048;

/// Pause in milliseconds before each attempt to receive.
pub const POLL_DELAY_MS: u64 = 25;

/// `key` and `value` between the name brackets.
pub open spec fn named(key: Seq<u8>, value: Seq<u8>) -> Seq<u8> {
    seq![token::STARTNAME] + key + value + seq![token::ENDNAME]
}

/// `items` between the list brackets.
pub open spec fn list(items: Seq<u8>) -> Seq<u8> {
    seq![token::STARTLIST] + items + seq![token::ENDLIST]
}

/// The start of a method call: the call token, the object, the method.
pub open spec fn call(invoking_uid: Seq<u8>, method: Seq<u8>) -> Seq<u8> {
    seq![token::CALL] + encode_uid(invoking_uid) + encode_uid(method)
}

/// The challenge and the authority that presents it, as an Opal 2 drive
/// takes them; nothing for an Enterprise drive or without a challenge.
pub open spec fn challenge_tokens(
    is_eprise: bool,
    sign_authority: Seq<u8>,
    challenge: Option<Seq<u8>>,
) -> Seq<u8> {
    match challenge {
        Some(c) => if is_eprise {
            Seq::empty()
        } else {
            named(seq![tiny_atom::UINT_00], encode_bytestring(c)) + named(
                seq![tiny_atom::UINT_03],
                encode_uid(sign_authority),
            )
        },
        None => Seq::empty(),
    }
}

/// The session timeout as an Enterprise drive takes it; nothing for others.
pub open spec fn timeout_tokens(is_eprise: bool) -> Seq<u8> {
    if is_eprise {
        named(encode_bytestring(SESSION_TIMEOUT@), encode_uint(SESSION_TIMEOUT_MS))
    } else {
        Seq::empty()
    }
}

/// Payload of the call that starts a session: the host session number, the
/// security provider, the write flag, then the challenge and the timeout
/// where they apply.
pub open spec fn start_session_payload(
    is_eprise: bool,
    sp_uid: Seq<u8>,
    sign_authority: Seq<u8>,
    challenge: Option<Seq<u8>>,
) -> Seq<u8> {
    call(be_uid(uid::OPAL_SMUID), be_uid(method::STARTSESSION)) + list(
        encode_uint(HOST_SESSION_NUMBER) + encode_uid(sp_uid) + seq![tiny_atom::UINT_01]
            + challenge_tokens(is_eprise, sign_authority, challenge) + timeout_tokens(is_eprise),
    )
}

/// The eight big-endian bytes of an identifier given as a number.
pub open spec fn be_uid(value: u64) -> Seq<u8> {
    crate::opal::atom::be_bytes(value as nat, 8)
}

/// Payload of the call that sets one column of one row: the values list
/// holds the one pair of column and value.
pub open spec fn set_value_payload(table: Seq<u8>, name: u8, value: u8) -> Seq<u8> {
    call(table, be_uid(method::SET)) + list(
        named(seq![token::VALUES], list(named(seq![name], seq![value]))),
    )
}

/// The identifier of locking range `n`: the global range for 0, else the
/// row of that number in the locking table.
pub open spec fn locking_range_uid(n: u8) -> Seq<u8> {
    if n == 0 {
        be_uid(uid::OPAL_LOCKINGRANGE_GLOBAL)
    } else {
        be_uid(uid::OPAL_LOCKINGRANGE_GLOBAL).update(5, 0x03u8).update(7, n)
    }
}

/// Whether the state locks reading.
pub open spec fn read_locked(state: LockingState) -> bool {
    state is Locked
}

/// Whether the state locks writing.
pub open spec fn write_locked(state: LockingState) -> bool {
    state is Locked || state is ReadOnly
}

/// Whether the state is one of the archive states, which leave the write
/// lock alone.
pub open spec fn is_archive(state: LockingState) -> bool {
    state is ArchiveLocked || state is ArchiveUnlocked
}

/// The Opal boolean for `b`.
pub open spec fn boolean(b: bool) -> u8 {
    if b {
        token::OPAL_TRUE
    } else {
        token::OPAL_FALSE
    }
}

/// Payload of the call that puts a locking range into a state: the read
/// lock is always set or cleared, the write lock unless the state is an
/// archive state. An archive state clears the read lock.
pub open spec fn set_locking_range_payload(n: u8, state: LockingState) -> Seq<u8> {
    call(locking_range_uid(n), be_uid(method::SET)) + list(
        named(
            seq![token::VALUES],
            list(
                named(seq![token::READLOCKED], seq![boolean(read_locked(state))]) + (if is_archive(
                    state,
                ) {
                    Seq::empty()
                } else {
                    named(seq![token::WRITELOCKED], seq![boolean(write_locked(state))])
                }),
            ),
        ),
    )
}

/// The last six atoms are end of data, start of list, three atoms, end of
/// list.
pub open spec fn has_method_status(atoms: Seq<Seq<u8>>) -> bool {
    let n = atoms.len() as int;
    &&& n >= 6
    &&& atoms[n - 6] == seq![token::ENDOFDATA]
    &&& atoms[n - 5] == seq![token::STARTLIST]
    &&& atoms[n - 1] == seq![token::ENDLIST]
}

/// The atom that holds the status in a response that ends in a method
/// status list.
pub open spec fn status_atom(atoms: Seq<Seq<u8>>) -> Seq<u8> {
    atoms[atoms.len() - 4]
}

/// The status of a response that ends in a method status list: the low
/// byte of the number in its status atom.
pub open spec fn method_status(atoms: Seq<Seq<u8>>) -> StatusCode {
    StatusCode((decode_uint(status_atom(atoms)) % 256) as u8)
}

/// A status can be read wherever one is looked for.
pub open spec fn status_readable(eod: bool, atoms: Seq<Seq<u8>>) -> bool {
    eod && has_method_status(atoms) ==> is_uint_atom(status_atom(atoms))
}

/// How a method call went, judged by the atoms of its response: `None` for
/// success. A command that did not end its data has no status to show.
pub open spec fn call_failure(eod: bool, atoms: Seq<Seq<u8>>) -> Option<OpalError> {
    if eod && has_method_status(atoms) {
        if method_status(atoms).0 == StatusCode::SUCCESS {
            None
        } else {
            Some(OpalError::Status(method_status(atoms)))
        }
    } else {
        Some(OpalError::NoMethodStatus)
    }
}

/// The drive has the whole response ready: nothing is outstanding, or a
/// minimum transfer is announced.
pub open spec fn response_ready(bytes: Seq<u8>) -> bool {
    let header = OpalHeader::from_wire(bytes);
    header.cp.outstanding_data == 0 || header.cp.min_transfer != 0
}

/// The atoms of the body of a received buffer.
pub open spec fn response_atoms(bytes: Seq<u8>) -> Seq<Seq<u8>> {
    parse_atoms(
        bytes,
        OPAL_HEADER_LEN as int,
        OpalResponse::body_end(OpalHeader::from_wire(bytes)),
    )
}

/// Judges a response by its method status. Success hands the response on;
/// any other status is an error, and so is a response without a status
/// list, which is all that a command that did not end its data can get.
pub fn check_method_status(eod: bool, response: OpalResponse) -> (result: Result<
    OpalResponse,
    OpalError,
>)
    requires
        status_readable(eod, response.atoms()),
    ensures
        match call_failure(eod, response.atoms()) {
            None => result == Ok::<OpalResponse, OpalError>(response),
            Some(e) => result == Err::<OpalResponse, OpalError>(e),
        },
{
    let len: usize = response.len();
    if eod && len >= 6 && response.is(len - 6, SimpleToken { token: token::ENDOFDATA })
        && response.is(len - 5, SimpleToken { token: token::STARTLIST }) && response.is(
        len - 1,
        SimpleToken { token: token::ENDLIST },
    ) {
        let code = StatusCode((response.get_uint(len - 4) % 256) as u8);
        if code.0 != StatusCode::SUCCESS {
            Err(OpalError::Status(code))
        } else {
            Ok(response)
        }
    } else {
        Err(OpalError::NoMethodStatus)
    }
}

/// How far the exchange of one command has got.
#[derive(Debug, Copy, Clone, PartialEq, Eq, Structural)]
pub enum Exchange {
    /// No command is under way.
    Idle,
    /// A command was handed out for sending.
    Sending { eod: bool },
    /// The command was sent, the response is awaited.
    Receiving { eod: bool },
}

/// What the caller reports to the session.
#[derive(Debug)]
pub enum SessionEvent {
    /// The transport took the command.
    Sent,
    /// The transport filled the receive buffer with these bytes.
    Received(Vec<u8>),
    /// The transport failed.
    TransportFailed,
}

/// What the session asks of the caller.
#[derive(Debug)]
pub enum SessionAction {
    /// Send `data` under the protocol and ComID given, then report `Sent`.
    Send { protocol: u8, com_id: u16, data: Vec<u8> },
    /// Wait `delay_ms` milliseconds, receive `len` bytes under the protocol
    /// and ComID given, then report them as `Received`.
    Receive { protocol: u8, com_id: u16, len: usize, delay_ms: u64 },
    /// The exchange is over, with this outcome.
    Complete(Result<OpalResponse, OpalError>),
    /// The exchange is over: what was received cannot be read as a response.
    Malformed,
    /// The exchange was given up after the transport failed.
    Abandoned,
    /// The report does not fit the state of the session; nothing changed.
    Unexpected,
}

/// A session with one drive.
#[derive(Debug)]
pub struct OpalSession {
    pub com_id: u16,
    pub is_eprise: bool,
    pub tsn: u32,
    pub hsn: u32,
    pub protocol: u8,
    /// Whether a challenge was presented when the session was opened.
    pub challenged: bool,
    pub exchange: Exchange,
}

impl OpalSession {
    /// The request to poll for the response.
    pub open spec fn poll(&self) -> SessionAction {
        SessionAction::Receive {
            protocol: self.protocol,
            com_id: self.com_id,
            len: RECEIVE_LEN,
            delay_ms: POLL_DELAY_MS,
        }
    }

    /// A received buffer can be read as a response to a command: it holds
    /// the headers, its body splits into atoms, and a status can be read
    /// where one is looked for.
    pub open spec fn readable(eod: bool, bytes: Seq<u8>) -> bool {
        &&& bytes.len() >= OPAL_HEADER_LEN
        &&& OpalResponse::parseable(OpalHeader::from_wire(bytes), bytes)
        &&& status_readable(eod, response_atoms(bytes))
    }

    /// Opens the dialogue with a drive: a session with both session numbers
    /// zero, and the command that asks the drive to start it. The command
    /// is to be exchanged through the session; `started` then takes the
    /// session numbers from the response.
    ///
    /// An Opal 2 drive gets the challenge and the authority that presents
    /// it. An Enterprise drive gets a session timeout instead; a challenge
    /// is not sent to it, and a session that was opened with one cannot be
    /// taken further than the start command.
    pub fn start(
        device: &SecureDevice,
        sp_uid: BS8,
        sign_authority: BS8,
        challenge: Option<&[u8]>,
    ) -> (opened: (OpalSession, OpalCommand))
        requires
            challenge matches Some(c) ==> device.is_eprise() || c@.len() < 2048,
        ensures
            opened.0.challenged == challenge.is_some(),
            opened.0.com_id == device.com_id(),
            opened.0.is_eprise == device.is_eprise(),
            opened.0.tsn == 0,
            opened.0.hsn == 0,
            opened.0.protocol == TCG_PROTOCOL,
            opened.0.exchange == Exchange::Idle,
            opened.1.frames(
                start_session_payload(
                    device.is_eprise(),
                    sp_uid.bytes@,
                    sign_authority.bytes@,
                    match challenge {
                        Some(c) => Some(c@),
                        None => None,
                    },
                ),
                true,
            ),
    {
        let is_eprise = device.is_eprise();
        let session = OpalSession {
            com_id: device.com_id(),
            is_eprise,
            tsn: 0,
            hsn: 0,
            protocol: TCG_PROTOCOL,
            challenged: challenge.is_some(),
            exchange: Exchange::Idle,
        };
        let challenge_stream = match challenge {
            Some(c) => if is_eprise {
                TokenStream::empty()
            } else {
                TokensNil.push(
                    TokenName(SimpleToken { token: tiny_atom::UINT_00 }, c).to_token_stream(),
                ).push(
                    TokenName(
                        SimpleToken { token: tiny_atom::UINT_03 },
                        sign_authority,
                    ).to_token_stream(),
                ).to_bare_token_stream()
            },
            None => TokenStream::empty(),
        };
        let timeout_stream = if is_eprise {
            TokenName(&SESSION_TIMEOUT, SESSION_TIMEOUT_MS).to_token_stream()
        } else {
            TokenStream::empty()
        };
        let arguments = TokensNil.push(HOST_SESSION_NUMBER).push(sp_uid).push(
            SimpleToken { token: tiny_atom::UINT_01 },
        ).push(challenge_stream).push(timeout_stream).to_token_stream();
        let ghost payload = start_session_payload(
            is_eprise,
            sp_uid.bytes@,
            sign_authority.bytes@,
            match challenge {
                Some(c) => Some(c@),
                None => None,
            },
        );
        let builder = OpalCommandBuilder::new(
            BS8::from_u64(uid::OPAL_SMUID),
            BS8::from_u64(method::STARTSESSION),
        ).payload(arguments);
        assert(builder@ =~= payload);
        proof {
            lemma_be_bytes_len(HOST_SESSION_NUMBER as nat, 1);
            lemma_be_bytes_len(SESSION_TIMEOUT_MS as nat, 2);
        }
        let command = builder.build();
        (session, command)
    }

    /// The session with the security protocol replaced.
    pub fn protocol(self, protocol: u8) -> (session: OpalSession)
        ensures
            session.protocol == protocol,
            session.com_id == self.com_id,
            session.is_eprise == self.is_eprise,
            session.tsn == self.tsn,
            session.hsn == self.hsn,
            session.challenged == self.challenged,
            session.exchange == self.exchange,
    {
        let mut session = self;
        session.protocol = protocol;
        session
    }

    /// Takes the session numbers from the response to the start command:
    /// the host session number from the atom at index 4, the drive's from
    /// the atom at index 5, each cut to 32 bits.
    pub fn started(&mut self, response: &OpalResponse)
        requires
            !(old(self).is_eprise && old(self).challenged),
            response.atoms().len() >= 6,
            is_uint_atom(response.atoms()[4]),
            is_uint_atom(response.atoms()[5]),
        ensures
            final(self).challenged == old(self).challenged,
            final(self).hsn == decode_uint(response.atoms()[4]) % 0x1_0000_0000,
            final(self).tsn == decode_uint(response.atoms()[5]) % 0x1_0000_0000,
            final(self).com_id == old(self).com_id,
            final(self).is_eprise == old(self).is_eprise,
            final(self).protocol == old(self).protocol,
            final(self).exchange == old(self).exchange,
    {
        self.hsn = (response.get_uint(4) % 0x1_0000_0000) as u32;
        self.tsn = (response.get_uint(5) % 0x1_0000_0000) as u32;
    }

    /// Takes a command for sending. The command is stamped with the ComID
    /// and the session numbers, and handed back as the bytes to send.
    /// While another command is under way nothing is done.
    pub fn send_raw_command(&mut self, command: OpalCommand) -> (action: SessionAction)
        ensures
            final(self).com_id == old(self).com_id,
            final(self).is_eprise == old(self).is_eprise,
            final(self).tsn == old(self).tsn,
            final(self).hsn == old(self).hsn,
            final(self).protocol == old(self).protocol,
            final(self).challenged == old(self).challenged,
            old(self).exchange == Exchange::Idle ==> {
                &&& final(self).exchange == Exchange::Sending { eod: command.eod }
                &&& action matches SessionAction::Send { protocol, com_id, data }
                &&& protocol == old(self).protocol
                &&& com_id == old(self).com_id
                &&& data@ == command.header.stamped(
                    old(self).com_id,
                    old(self).tsn,
                    old(self).hsn,
                ).wire() + command.payload@
            },
            old(self).exchange != Exchange::Idle ==> {
                &&& final(self).exchange == old(self).exchange
                &&& action is Unexpected
            },
    {
        match self.exchange {
            Exchange::Idle => {
                let mut command = command;
                command.set_session(self.com_id, self.tsn, self.hsn);
                let data = command.encode();
                self.exchange = Exchange::Sending { eod: command.eod };
                SessionAction::Send { protocol: self.protocol, com_id: self.com_id, data }
            },
            _ => SessionAction::Unexpected,
        }
    }

    /// Takes a report of the caller and says what to do next.
    ///
    /// After `Sent` the response is polled for. After `Received` the
    /// buffer is looked at: while the drive has data outstanding and
    /// announces no transfer, the poll is repeated; else the body is split
    /// into atoms and the method status decides the outcome. A transport
    /// failure ends the exchange. A report that the state does not expect
    /// changes nothing.
    pub fn step(&mut self, event: SessionEvent) -> (action: SessionAction)
        ensures
            final(self).com_id == old(self).com_id,
            final(self).is_eprise == old(self).is_eprise,
            final(self).tsn == old(self).tsn,
            final(self).hsn == old(self).hsn,
            final(self).protocol == old(self).protocol,
            final(self).challenged == old(self).challenged,
            match (old(self).exchange, event) {
                (Exchange::Sending { eod }, SessionEvent::Sent) => {
                    &&& final(self).exchange == Exchange::Receiving { eod }
                    &&& action == old(self).poll()
                },
                (Exchange::Receiving { eod }, SessionEvent::Received(buffer)) => {
                    if buffer@.len() >= OPAL_HEADER_LEN && !response_ready(buffer@) {
                        &&& final(self).exchange == old(self).exchange
                        &&& action == old(self).poll()
                    } else if !Self::readable(eod, buffer@) {
                        &&& final(self).exchange == Exchange::Idle
                        &&& action is Malformed
                    } else {
                        &&& final(self).exchange == Exchange::Idle
                        &&& action matches SessionAction::Complete(result)
                        &&& match call_failure(eod, response_atoms(buffer@)) {
                            None => result matches Ok(response) && response.header
                                == OpalHeader::from_wire(buffer@) && response.atoms()
                                == response_atoms(buffer@),
                            Some(e) => result matches Err(f) && f == e,
                        }
                    }
                },
                (Exchange::Idle, SessionEvent::TransportFailed) => {
                    &&& final(self).exchange == Exchange::Idle
                    &&& action is Unexpected
                },
                (_, SessionEvent::TransportFailed) => {
                    &&& final(self).exchange == Exchange::Idle
                    &&& action is Abandoned
                },
                _ => {
                    &&& final(self).exchange == old(self).exchange
                    &&& action is Unexpected
                },
            },
    {
        match event {
            SessionEvent::Sent => match self.exchange {
                Exchange::Sending { eod } => {
                    self.exchange = Exchange::Receiving { eod };
                    self.poll_action()
                },
                _ => SessionAction::Unexpected,
            },
            SessionEvent::Received(buffer) => match self.exchange {
                Exchange::Receiving { eod } => {
                    if buffer.len() < OPAL_HEADER_LEN {
                        self.exchange = Exchange::Idle;
                        return SessionAction::Malformed;
                    }
                    let header = OpalHeader::decode(buffer.as_slice());
                    if header.cp.outstanding_data != 0 && header.cp.min_transfer == 0 {
                        return self.poll_action();
                    }
                    self.exchange = Exchange::Idle;
                    match OpalResponse::try_parse(header, buffer.as_slice()) {
                        None => SessionAction::Malformed,
                        Some(response) => {
                            let len: usize = response.len();
                            if eod && len >= 6 && response.is(
                                len - 6,
                                SimpleToken { token: token::ENDOFDATA },
                            ) && response.is(len - 5, SimpleToken { token: token::STARTLIST })
                                && response.is(len - 1, SimpleToken { token: token::ENDLIST })
                                && !response.is_uint(len - 4) {
                                SessionAction::Malformed
                            } else {
                                SessionAction::Complete(check_method_status(eod, response))
                            }
                        },
                    }
                },
                _ => SessionAction::Unexpected,
            },
            SessionEvent::TransportFailed => match self.exchange {
                Exchange::Idle => SessionAction::Unexpected,
                _ => {
                    self.exchange = Exchange::Idle;
                    SessionAction::Abandoned
                },
            },
        }
    }

    /// The request to poll for the response.
    fn poll_action(&self) -> (action: SessionAction)
        ensures
            action == self.poll(),
    {
        SessionAction::Receive {
            protocol: self.protocol,
            com_id: self.com_id,
            len: RECEIVE_LEN,
            delay_ms: POLL_DELAY_MS,
        }
    }

    /// The command that sets one column of one row of a table of the
    /// locking provider.
    pub fn set_locking_sp_value(&self, table: BS8, name: SimpleToken, value: SimpleToken) -> (command:
        OpalCommand)
        ensures
            command.frames(set_value_payload(table.bytes@, name.token, value.token), true),
    {
        let values = TokensNil.push(TokenName(name, value).to_token_stream()).to_token_stream();
        let arguments = TokensNil.push(
            TokenName(SimpleToken { token: token::VALUES }, values).to_token_stream(),
        ).to_token_stream();
        let builder = OpalCommandBuilder::new(table, BS8::from_u64(method::SET)).payload(arguments);
        assert(builder@ =~= set_value_payload(table.bytes@, name.token, value.token));
        builder.build()
    }

    /// The command that tells the drive whether the shadow MBR is done with.
    pub fn set_mbr_done(&self, done: bool) -> (command: OpalCommand)
        ensures
            command.frames(
                set_value_payload(be_uid(uid::OPAL_MBRCONTROL), token::MBRDONE, boolean(done)),
                true,
            ),
    {
        self.set_locking_sp_value(
            BS8::from_u64(uid::OPAL_MBRCONTROL),
            SimpleToken { token: token::MBRDONE },
            SimpleToken::from(done),
        )
    }

    /// The command that puts a locking range into a state.
    pub fn set_locking_range(&self, locking_range: u8, locking_state: LockingState) -> (command:
        OpalCommand)
        ensures
            command.frames(set_locking_range_payload(locking_range, locking_state), true),
    {
        let mut archive_user = false;
        let mut read_lock = SimpleToken { token: token::OPAL_FALSE };
        let mut write_lock = SimpleToken { token: token::OPAL_FALSE };
        match locking_state {
            LockingState::ReadWrite => {},
            LockingState::ArchiveUnlocked | LockingState::ArchiveLocked => {
                archive_user = true;
            },
            LockingState::ReadOnly => {
                write_lock = SimpleToken { token: token::OPAL_TRUE };
            },
            LockingState::Locked => {
                read_lock = SimpleToken { token: token::OPAL_TRUE };
                write_lock = SimpleToken { token: token::OPAL_TRUE };
            },
        }
        let global = BS8::from_u64(uid::OPAL_LOCKINGRANGE_GLOBAL);
        let range = if locking_range != 0 {
            let mut bytes = global.bytes;
            bytes[5] = 0x03;
            bytes[7] = locking_range;
            BS8::new(bytes, "LOCKING_RANGE_N")
        } else {
            global
        };
        assert(range.bytes@ =~= locking_range_uid(locking_range));
        let write_stream = if archive_user {
            TokenStream::empty()
        } else {
            TokenName(SimpleToken { token: token::WRITELOCKED }, write_lock).to_token_stream()
        };
        let values = TokensNil.push(
            TokenName(SimpleToken { token: token::READLOCKED }, read_lock).to_token_stream(),
        ).push(write_stream).to_token_stream();
        let arguments = TokensNil.push(
            TokenName(SimpleToken { token: token::VALUES }, values).to_token_stream(),
        ).to_token_stream();
        let builder = OpalCommandBuilder::new(range, BS8::from_u64(method::SET)).payload(arguments);
        assert(builder@ =~= set_locking_range_payload(locking_range, locking_state));
        builder.build()
    }

    /// The command that ends the session. It does not end its data, so the
    /// drive answers without a method status.
    pub fn close(&self) -> (command: OpalCommand)
        ensures
            command.frames(seq![token::ENDOFSESSION], false),
    {
        let end = SimpleToken { token: token::ENDOFSESSION }.to_token_stream();
        let builder = OpalCommandBuilder::empty().payload(end);
        assert(builder@ =~= seq![token::ENDOFSESSION]);
        builder.build_no_end_of_data()
    }
}

/// Whether the command that ends a session went as it should: the drive
/// answered, and no method status was found. Any other outcome is worth a
/// line in the log, and nothing more.
pub fn closed_cleanly(outcome: &Result<OpalResponse, OpalError>) -> (clean: bool)
    ensures
        clean == (outcome matches Err(e) && e is NoMethodStatus),
{
    match outcome {
        Err(OpalError::NoMethodStatus) => true,
        _ => false,
    }
}

} // verus!
