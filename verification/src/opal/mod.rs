//! Wire-level building blocks of the Opal protocol: the three nested packet
//! headers, the fixed tokens and identifiers, and the `Token` trait by which
//! every value writes itself into a token stream.
use vstd::prelude::*;

pub mod atom;
pub mod command;
pub mod method;
pub mod session;
pub mod short_atom;
pub mod tiny_atom;
pub mod token;
pub mod uid;

use crate::opal::atom::{be_bytes, be_value, encode_bytestring, encode_uid, encode_uint, pow256};
use crate::opal::atom::{lemma_be_value_bound, lemma_pow256_values};

verus! {

/// Size in bytes of the ComPacket header on the wire.
pub const COM_PACKET_HEADER_LEN: usize = 20;

/// Size in bytes of the Packet header on the wire.
pub const PACKET_HEADER_LEN: usize = 24;

/// Size in bytes of the SubPacket header on the wire.
pub const SUBPACKET_HEADER_LEN: usize = 12;

/// Size in bytes of the three headers together.
pub const OPAL_HEADER_LEN: usize = 56;

/// `n` zero bytes.
pub open spec fn zeros(n: nat) -> Seq<u8> {
    Seq::new(n, |i: int| 0u8)
}

/// Appends the `n` low-order bytes of `v`, most significant first.
pub fn push_be(buffer: &mut Vec<u8>, v: u64, n: usize)
    ensures
        final(buffer)@ == old(buffer)@ + be_bytes(v as nat, n as nat),
    decreases n,
{
    if n > 0 {
        push_be(buffer, v / 256, n - 1);
        buffer.push((v % 256) as u8);
        assert(buffer@ =~= old(buffer)@ + be_bytes(v as nat, n as nat));
    } else {
        assert(buffer@ =~= old(buffer)@ + be_bytes(v as nat, n as nat));
    }
}

/// Reads the big-endian number held in the `n` bytes at `pos`.
pub fn read_be(bytes: &[u8], pos: usize, n: usize) -> (v: u64)
    requires
        n <= 8,
        pos + n <= bytes@.len(),
    ensures
        v == be_value(bytes@.subrange(pos as int, pos + n)),
{
    let ghost field = bytes@.subrange(pos as int, pos + n);
    let total: usize = bytes.len();
    let mut v: u64 = 0;
    let mut i: usize = 0;
    while i < n
        invariant
            i <= n <= 8,
            pos + n <= bytes@.len() == total,
            field == bytes@.subrange(pos as int, pos + n),
            v == be_value(field.take(i as int)),
        decreases n - i,
    {
        proof {
            let next = field.take(i + 1);
            assert(next.drop_last() =~= field.take(i as int));
            assert(next.last() == bytes@[pos + i]);
            lemma_be_value_bound(next);
            lemma_pow256_monotone(next.len(), 8);
            lemma_pow256_values();
        }
        v = v * 256 + bytes[pos + i] as u64;
        i += 1;
    }
    assert(field.take(n as int) =~= field);
    v
}

/// A larger exponent gives a larger or equal power.
pub proof fn lemma_pow256_monotone(m: nat, n: nat)
    requires
        m <= n,
    ensures
        pow256(m) <= pow256(n),
    decreases n,
{
    if m < n {
        lemma_pow256_monotone(m, (n - 1) as nat);
    }
}

/// Outermost header: addresses a communication endpoint of the drive.
///
/// Fields hold native values. The four reserved bytes that lead the header
/// on the wire are written as zero and skipped on reading.
#[derive(Debug)]
pub struct ComPacketHeader {
    pub extended_com_id: [u8; 4],
    pub outstanding_data: u32,
    pub min_transfer: u32,
    pub length: u32,
}

/// Middle header: carries the pair of session numbers.
///
/// The two reserved bytes before `ack_type` are written as zero and skipped
/// on reading.
#[derive(Debug)]
pub struct PacketHeader {
    pub tsn: u32,
    pub hsn: u32,
    pub seq_number: u32,
    pub ack_type: u16,
    pub acknowledgement: u32,
    pub length: u32,
}

/// Innermost header: gives the length of the token stream that follows.
///
/// The six reserved bytes that lead the header are written as zero and
/// skipped on reading.
#[derive(Debug)]
pub struct SubpacketHeader {
    pub kind: u16,
    pub length: u32,
}

/// The three headers in wire order.
#[derive(Debug)]
pub struct OpalHeader {
    pub cp: ComPacketHeader,
    pub pkt: PacketHeader,
    pub subpkt: SubpacketHeader,
}

impl ComPacketHeader {
    /// The 20 bytes of the header on the wire, every number big-endian.
    pub open spec fn wire(&self) -> Seq<u8> {
        zeros(4) + self.extended_com_id@ + be_bytes(self.outstanding_data as nat, 4) + be_bytes(
            self.min_transfer as nat,
            4,
        ) + be_bytes(self.length as nat, 4)
    }
}

impl PacketHeader {
    /// The 24 bytes of the header on the wire, every number big-endian.
    pub open spec fn wire(&self) -> Seq<u8> {
        be_bytes(self.tsn as nat, 4) + be_bytes(self.hsn as nat, 4) + be_bytes(
            self.seq_number as nat,
            4,
        ) + zeros(2) + be_bytes(self.ack_type as nat, 2) + be_bytes(self.acknowledgement as nat, 4)
            + be_bytes(self.length as nat, 4)
    }
}

impl SubpacketHeader {
    /// The 12 bytes of the header on the wire, every number big-endian.
    pub open spec fn wire(&self) -> Seq<u8> {
        zeros(6) + be_bytes(self.kind as nat, 2) + be_bytes(self.length as nat, 4)
    }
}

impl OpalHeader {
    /// The header with every field zero.
    pub open spec fn zero() -> OpalHeader {
        OpalHeader {
            cp: ComPacketHeader {
                extended_com_id: [0u8, 0u8, 0u8, 0u8],
                outstanding_data: 0,
                min_transfer: 0,
                length: 0,
            },
            pkt: PacketHeader {
                tsn: 0,
                hsn: 0,
                seq_number: 0,
                ack_type: 0,
                acknowledgement: 0,
                length: 0,
            },
            subpkt: SubpacketHeader { kind: 0, length: 0 },
        }
    }

    /// The 56 bytes of the three headers on the wire.
    pub open spec fn wire(&self) -> Seq<u8> {
        self.cp.wire() + self.pkt.wire() + self.subpkt.wire()
    }

    /// The header that the 56 bytes at the start of `bytes` spell, every
    /// number read big-endian.
    pub open spec fn from_wire(bytes: Seq<u8>) -> OpalHeader {
        OpalHeader {
            cp: ComPacketHeader {
                extended_com_id: [bytes[4], bytes[5], bytes[6], bytes[7]],
                outstanding_data: be_value(bytes.subrange(8, 12)) as u32,
                min_transfer: be_value(bytes.subrange(12, 16)) as u32,
                length: be_value(bytes.subrange(16, 20)) as u32,
            },
            pkt: PacketHeader {
                tsn: be_value(bytes.subrange(20, 24)) as u32,
                hsn: be_value(bytes.subrange(24, 28)) as u32,
                seq_number: be_value(bytes.subrange(28, 32)) as u32,
                ack_type: be_value(bytes.subrange(34, 36)) as u16,
                acknowledgement: be_value(bytes.subrange(36, 40)) as u32,
                length: be_value(bytes.subrange(40, 44)) as u32,
            },
            subpkt: SubpacketHeader {
                kind: be_value(bytes.subrange(50, 52)) as u16,
                length: be_value(bytes.subrange(52, 56)) as u32,
            },
        }
    }

    /// The header stamped for sending: the ComID leads the extended ComID,
    /// and the session numbers are those given.
    pub open spec fn stamped(self, com_id: u16, tsn: u32, hsn: u32) -> OpalHeader {
        OpalHeader {
            cp: ComPacketHeader {
                extended_com_id: [(com_id / 256) as u8, (com_id % 256) as u8, 0u8, 0u8],
                ..self.cp
            },
            pkt: PacketHeader { tsn, hsn, ..self.pkt },
            subpkt: self.subpkt,
        }
    }

    /// Appends the wire form of the header to `buffer`.
    pub fn write(&self, buffer: &mut Vec<u8>)
        ensures
            final(buffer)@ == old(buffer)@ + self.wire(),
    {
        let ghost start = buffer@;
        push_be(buffer, 0, 4);
        buffer.push(self.cp.extended_com_id[0]);
        buffer.push(self.cp.extended_com_id[1]);
        buffer.push(self.cp.extended_com_id[2]);
        buffer.push(self.cp.extended_com_id[3]);
        push_be(buffer, self.cp.outstanding_data as u64, 4);
        push_be(buffer, self.cp.min_transfer as u64, 4);
        push_be(buffer, self.cp.length as u64, 4);
        proof {
            lemma_be_zero(4);
            assert(buffer@ =~= start + self.cp.wire());
        }
        push_be(buffer, self.pkt.tsn as u64, 4);
        push_be(buffer, self.pkt.hsn as u64, 4);
        push_be(buffer, self.pkt.seq_number as u64, 4);
        push_be(buffer, 0, 2);
        push_be(buffer, self.pkt.ack_type as u64, 2);
        push_be(buffer, self.pkt.acknowledgement as u64, 4);
        push_be(buffer, self.pkt.length as u64, 4);
        proof {
            lemma_be_zero(2);
            assert(buffer@ =~= start + self.cp.wire() + self.pkt.wire());
        }
        push_be(buffer, 0, 6);
        push_be(buffer, self.subpkt.kind as u64, 2);
        push_be(buffer, self.subpkt.length as u64, 4);
        proof {
            lemma_be_zero(6);
            assert(buffer@ =~= start + self.wire());
        }
    }

    /// Reads the three headers from the start of a received buffer.
    pub fn decode(bytes: &[u8]) -> (header: OpalHeader)
        requires
            bytes@.len() >= OPAL_HEADER_LEN,
        ensures
            header == OpalHeader::from_wire(bytes@),
    {
        proof {
            lemma_pow256_values();
            lemma_field_bound(bytes@, 8, 4);
            lemma_field_bound(bytes@, 12, 4);
            lemma_field_bound(bytes@, 16, 4);
            lemma_field_bound(bytes@, 20, 4);
            lemma_field_bound(bytes@, 24, 4);
            lemma_field_bound(bytes@, 28, 4);
            lemma_field_bound(bytes@, 34, 2);
            lemma_field_bound(bytes@, 36, 4);
            lemma_field_bound(bytes@, 40, 4);
            lemma_field_bound(bytes@, 50, 2);
            lemma_field_bound(bytes@, 52, 4);
        }
        let header = OpalHeader {
            cp: ComPacketHeader {
                extended_com_id: [bytes[4], bytes[5], bytes[6], bytes[7]],
                outstanding_data: read_be(bytes, 8, 4) as u32,
                min_transfer: read_be(bytes, 12, 4) as u32,
                length: read_be(bytes, 16, 4) as u32,
            },
            pkt: PacketHeader {
                tsn: read_be(bytes, 20, 4) as u32,
                hsn: read_be(bytes, 24, 4) as u32,
                seq_number: read_be(bytes, 28, 4) as u32,
                ack_type: read_be(bytes, 34, 2) as u16,
                acknowledgement: read_be(bytes, 36, 4) as u32,
                length: read_be(bytes, 40, 4) as u32,
            },
            subpkt: SubpacketHeader {
                kind: read_be(bytes, 50, 2) as u16,
                length: read_be(bytes, 52, 4) as u32,
            },
        };
        header
    }
}

impl Default for OpalHeader {
    fn default() -> (header: OpalHeader)
        ensures
            header == OpalHeader::zero(),
    {
        OpalHeader {
            cp: ComPacketHeader {
                extended_com_id: [0u8, 0u8, 0u8, 0u8],
                outstanding_data: 0,
                min_transfer: 0,
                length: 0,
            },
            pkt: PacketHeader {
                tsn: 0,
                hsn: 0,
                seq_number: 0,
                ack_type: 0,
                acknowledgement: 0,
                length: 0,
            },
            subpkt: SubpacketHeader { kind: 0, length: 0 },
        }
    }
}

/// A header that is written to the wire reads back as it was.
pub proof fn lemma_header_round_trip(header: OpalHeader)
    ensures
        OpalHeader::from_wire(header.wire()) == header,
{
    let w = header.wire();
    let back = OpalHeader::from_wire(w);
    lemma_pow256_values();
    crate::opal::atom::lemma_be_bytes_len(header.cp.outstanding_data as nat, 4);
    crate::opal::atom::lemma_be_bytes_len(header.cp.min_transfer as nat, 4);
    crate::opal::atom::lemma_be_bytes_len(header.cp.length as nat, 4);
    crate::opal::atom::lemma_be_bytes_len(header.pkt.tsn as nat, 4);
    crate::opal::atom::lemma_be_bytes_len(header.pkt.hsn as nat, 4);
    crate::opal::atom::lemma_be_bytes_len(header.pkt.seq_number as nat, 4);
    crate::opal::atom::lemma_be_bytes_len(header.pkt.ack_type as nat, 2);
    crate::opal::atom::lemma_be_bytes_len(header.pkt.acknowledgement as nat, 4);
    crate::opal::atom::lemma_be_bytes_len(header.pkt.length as nat, 4);
    crate::opal::atom::lemma_be_bytes_len(header.subpkt.kind as nat, 2);
    crate::opal::atom::lemma_be_bytes_len(header.subpkt.length as nat, 4);
    assert(header.cp.wire().len() == 20);
    assert(header.pkt.wire().len() == 24);
    assert(header.subpkt.wire().len() == 12);
    assert(w.subrange(8, 12) =~= be_bytes(header.cp.outstanding_data as nat, 4));
    lemma_wire_field(w, 8, header.cp.outstanding_data as nat, 4);
    assert(w.subrange(12, 16) =~= be_bytes(header.cp.min_transfer as nat, 4));
    lemma_wire_field(w, 12, header.cp.min_transfer as nat, 4);
    assert(w.subrange(16, 20) =~= be_bytes(header.cp.length as nat, 4));
    lemma_wire_field(w, 16, header.cp.length as nat, 4);
    assert(w.subrange(20, 24) =~= be_bytes(header.pkt.tsn as nat, 4));
    lemma_wire_field(w, 20, header.pkt.tsn as nat, 4);
    assert(w.subrange(24, 28) =~= be_bytes(header.pkt.hsn as nat, 4));
    lemma_wire_field(w, 24, header.pkt.hsn as nat, 4);
    assert(w.subrange(28, 32) =~= be_bytes(header.pkt.seq_number as nat, 4));
    lemma_wire_field(w, 28, header.pkt.seq_number as nat, 4);
    assert(w.subrange(34, 36) =~= be_bytes(header.pkt.ack_type as nat, 2));
    lemma_wire_field(w, 34, header.pkt.ack_type as nat, 2);
    assert(w.subrange(36, 40) =~= be_bytes(header.pkt.acknowledgement as nat, 4));
    lemma_wire_field(w, 36, header.pkt.acknowledgement as nat, 4);
    assert(w.subrange(40, 44) =~= be_bytes(header.pkt.length as nat, 4));
    lemma_wire_field(w, 40, header.pkt.length as nat, 4);
    assert(w.subrange(50, 52) =~= be_bytes(header.subpkt.kind as nat, 2));
    lemma_wire_field(w, 50, header.subpkt.kind as nat, 2);
    assert(w.subrange(52, 56) =~= be_bytes(header.subpkt.length as nat, 4));
    lemma_wire_field(w, 52, header.subpkt.length as nat, 4);
    assert(back.cp.extended_com_id@ =~= header.cp.extended_com_id@);
    assert(back.cp.extended_com_id == header.cp.extended_com_id);
}

/// Where the `n` bytes at `pos` are the bytes of a number that fits in
/// them, they read back as that number.
proof fn lemma_wire_field(wire: Seq<u8>, pos: int, v: nat, n: nat)
    requires
        0 <= pos,
        pos + n <= wire.len(),
        v < pow256(n),
        wire.subrange(pos, pos + n) == be_bytes(v, n),
    ensures
        be_value(wire.subrange(pos, pos + n)) == v,
{
    crate::opal::atom::lemma_be_round_trip(v, n);
}

/// The bytes of zero are zero bytes.
pub proof fn lemma_be_zero(n: nat)
    ensures
        be_bytes(0, n) == zeros(n),
    decreases n,
{
    if n > 0 {
        lemma_be_zero((n - 1) as nat);
    }
    assert(be_bytes(0, n) =~= zeros(n));
}

/// A field of `n` bytes holds a number below 256 to the `n`.
pub proof fn lemma_field_bound(bytes: Seq<u8>, pos: int, n: nat)
    requires
        0 <= pos,
        pos + n <= bytes.len(),
    ensures
        be_value(bytes.subrange(pos, pos + n)) < pow256(n),
{
    lemma_be_value_bound(bytes.subrange(pos, pos + n));
}

/// A one-byte token: a control token of the stream, or a tiny atom.
#[derive(Copy, Clone, Debug)]
pub struct SimpleToken {
    pub token: u8,
}

impl SimpleToken {
    /// The token with the given byte. The name serves readers of the call.
    pub fn new(token: u8, _debug_name: &'static str) -> (t: SimpleToken)
        ensures
            t.token == token,
    {
        SimpleToken { token }
    }

}

impl From<bool> for SimpleToken {
    /// The Opal boolean for `b`: the tiny atom 1 for true, 0 for false.
    fn from(b: bool) -> (t: SimpleToken) {
        if b {
            SimpleToken { token: token::OPAL_TRUE }
        } else {
            SimpleToken { token: token::OPAL_FALSE }
        }
    }
}

impl vstd::std_specs::convert::FromSpecImpl<bool> for SimpleToken {
    open spec fn obeys_from_spec() -> bool {
        true
    }

    open spec fn from_spec(b: bool) -> SimpleToken {
        if b {
            SimpleToken { token: token::OPAL_TRUE }
        } else {
            SimpleToken { token: token::OPAL_FALSE }
        }
    }
}

/// An 8-byte identifier of an object, a table or a method.
#[derive(Copy, Clone, Debug)]
pub struct BS8 {
    pub bytes: [u8; 8],
}

impl BS8 {
    /// The identifier with the given bytes. The name serves readers of the call.
    pub fn new(bytes: [u8; 8], _debug_name: &'static str) -> (id: BS8)
        ensures
            id.bytes == bytes,
    {
        BS8 { bytes }
    }

    /// The identifier whose bytes are the big-endian form of `value`.
    pub fn from_u64(value: u64) -> (id: BS8)
        ensures
            id.bytes@ == be_bytes(value as nat, 8),
    {
        let b7: u8 = (value % 256) as u8;
        let v6: u64 = value / 256;
        let b6: u8 = (v6 % 256) as u8;
        let v5: u64 = v6 / 256;
        let b5: u8 = (v5 % 256) as u8;
        let v4: u64 = v5 / 256;
        let b4: u8 = (v4 % 256) as u8;
        let v3: u64 = v4 / 256;
        let b3: u8 = (v3 % 256) as u8;
        let v2: u64 = v3 / 256;
        let b2: u8 = (v2 % 256) as u8;
        let v1: u64 = v2 / 256;
        let b1: u8 = (v1 % 256) as u8;
        let v0: u64 = v1 / 256;
        let b0: u8 = (v0 % 256) as u8;
        let id = BS8 { bytes: [b0, b1, b2, b3, b4, b5, b6, b7] };
        proof {
            reveal_with_fuel(be_bytes, 9);
            assert(id.bytes@ =~= be_bytes(value as nat, 8));
        }
        id
    }
}

/// Locking state of a range, as the drive's locking table counts them.
#[derive(Debug, Copy, Clone)]
pub enum LockingState {
    ReadWrite,
    ReadOnly,
    Locked,
    ArchiveLocked,
    ArchiveUnlocked,
}

impl LockingState {
    /// The number that stands for the state on the wire.
    pub open spec fn code(&self) -> u8 {
        match self {
            LockingState::ReadWrite => 0x01,
            LockingState::ReadOnly => 0x02,
            LockingState::Locked => 0x03,
            LockingState::ArchiveLocked => 0x04,
            LockingState::ArchiveUnlocked => 0x05,
        }
    }
}

/// Status that the drive reports for a method call. Any byte is a status;
/// the associated constants name the ones the protocol defines.
#[derive(Debug, Copy, Clone, PartialEq, Eq, Structural)]
pub struct StatusCode(pub u8);

impl StatusCode {
    pub const SUCCESS: u8 = 0x00;

    pub const NOT_AUTHORIZED: u8 = 0x01;

    pub const SP_BUSY: u8 = 0x03;

    pub const SP_FAILED: u8 = 0x04;

    pub const SP_DISABLED: u8 = 0x05;

    pub const SP_FROZEN: u8 = 0x06;

    pub const NO_SESSIONS_AVAILABLE: u8 = 0x07;

    pub const UNIQUENESS_CONFLICT: u8 = 0x08;

    pub const INSUFFICIENT_SPACE: u8 = 0x09;

    pub const INSUFFICIENT_ROWS: u8 = 0x0A;

    pub const INVALID_FUNCTION: u8 = 0x0B;

    pub const INVALID_PARAMETER: u8 = 0x0C;

    pub const INVALID_REFERENCE: u8 = 0x0D;

    pub const TPER_MALFUNCTION: u8 = 0x0F;

    pub const TRANSACTION_FAILURE: u8 = 0x10;

    pub const RESPONSE_OVERFLOW: u8 = 0x11;

    pub const AUTHORITY_LOCKED_OUT: u8 = 0x12;

    pub const FAIL: u8 = 0x3F;
}

/// Anything that can write itself into a token stream.
pub trait Token {
    /// The bytes that the value contributes to a stream.
    spec fn encoding(&self) -> Seq<u8>;

    /// The value has a wire form. Byte strings of 2048 bytes and more have none.
    spec fn encodable(&self) -> bool;

    /// Appends the wire form of the value to `buffer`.
    fn write(&self, buffer: &mut Vec<u8>)
        requires
            self.encodable(),
        ensures
            final(buffer)@ == old(buffer)@ + self.encoding(),
    ;

    /// The wire form of the value as a stream of its own.
    fn to_token_stream(&self) -> (stream: TokenStream)
        requires
            self.encodable(),
        ensures
            stream@ == self.encoding(),
    {
        let mut res: Vec<u8> = Vec::new();
        self.write(&mut res);
        assert(res@ =~= self.encoding());
        TokenStream(Some(res))
    }
}

/// A finished piece of token stream. The empty stream holds no bytes.
#[derive(Debug)]
pub struct TokenStream(Option<Vec<u8>>);

impl View for TokenStream {
    type V = Seq<u8>;

    closed spec fn view(&self) -> Seq<u8> {
        match self.0 {
            Some(bytes) => bytes@,
            None => Seq::empty(),
        }
    }
}

impl TokenStream {
    /// The stream without bytes.
    pub fn empty() -> (stream: TokenStream)
        ensures
            stream@ == Seq::<u8>::empty(),
    {
        TokenStream(None)
    }

    /// Hands out the bytes of the stream.
    pub fn into_bytes(self) -> (bytes: Vec<u8>)
        ensures
            bytes@ == self@,
    {
        match self.0 {
            Some(bytes) => bytes,
            None => Vec::new(),
        }
    }
}

impl Token for SimpleToken {
    open spec fn encoding(&self) -> Seq<u8> {
        seq![self.token]
    }

    open spec fn encodable(&self) -> bool {
        true
    }

    fn write(&self, buffer: &mut Vec<u8>) {
        buffer.push(self.token);
        assert(buffer@ =~= old(buffer)@ + self.encoding());
    }
}

impl Token for LockingState {
    open spec fn encoding(&self) -> Seq<u8> {
        seq![self.code()]
    }

    open spec fn encodable(&self) -> bool {
        true
    }

    fn write(&self, buffer: &mut Vec<u8>) {
        let code: u8 = match self {
            LockingState::ReadWrite => 0x01,
            LockingState::ReadOnly => 0x02,
            LockingState::Locked => 0x03,
            LockingState::ArchiveLocked => 0x04,
            LockingState::ArchiveUnlocked => 0x05,
        };
        buffer.push(code);
        assert(buffer@ =~= old(buffer)@ + self.encoding());
    }
}

impl Token for BS8 {
    open spec fn encoding(&self) -> Seq<u8> {
        encode_uid(self.bytes@)
    }

    open spec fn encodable(&self) -> bool {
        true
    }

    fn write(&self, buffer: &mut Vec<u8>) {
        buffer.push(short_atom::BYTESTRING8);
        let mut i: usize = 0;
        while i < 8
            invariant
                i <= 8,
                buffer@ == old(buffer)@ + seq![0xA8u8] + self.bytes@.take(i as int),
            decreases 8 - i,
        {
            buffer.push(self.bytes[i]);
            i += 1;
            assert(buffer@ =~= old(buffer)@ + seq![0xA8u8] + self.bytes@.take(i as int));
        }
        assert(self.bytes@.take(8) =~= self.bytes@);
        assert(buffer@ =~= old(buffer)@ + self.encoding());
    }
}

impl Token for TokenStream {
    open spec fn encoding(&self) -> Seq<u8> {
        self@
    }

    open spec fn encodable(&self) -> bool {
        true
    }

    fn write(&self, buffer: &mut Vec<u8>) {
        match &self.0 {
            Some(bytes) => {
                buffer.extend_from_slice(bytes.as_slice());
            },
            None => {
                assert(buffer@ =~= old(buffer)@ + self.encoding());
            },
        }
    }
}

impl Token for u64 {
    open spec fn encoding(&self) -> Seq<u8> {
        encode_uint(*self)
    }

    open spec fn encodable(&self) -> bool {
        true
    }

    fn write(&self, buffer: &mut Vec<u8>) {
        let v: u64 = *self;
        if v < 64 {
            buffer.push(v as u8);
        } else if v < 0x100 {
            buffer.push(0x81);
            push_be(buffer, v, 1);
        } else if v < 0x1_0000 {
            buffer.push(0x82);
            push_be(buffer, v, 2);
        } else if v < 0x1_0000_0000 {
            buffer.push(0x84);
            push_be(buffer, v, 4);
        } else {
            buffer.push(0x88);
            push_be(buffer, v, 8);
        }
        assert(buffer@ =~= old(buffer)@ + self.encoding());
    }
}

impl Token for &[u8] {
    open spec fn encoding(&self) -> Seq<u8> {
        encode_bytestring(self@)
    }

    open spec fn encodable(&self) -> bool {
        self@.len() < 2048
    }

    fn write(&self, buffer: &mut Vec<u8>) {
        let len: usize = self.len();
        if len == 0 {
            buffer.push(0xA1);
            buffer.push(0x00);
        } else if len < 16 {
            buffer.push((0xA0 + len) as u8);
        } else {
            buffer.push((0xD0 + len / 256) as u8);
            buffer.push((len % 256) as u8);
        }
        buffer.extend_from_slice(*self);
        assert(buffer@ =~= old(buffer)@ + self.encoding());
    }
}

impl<const N: usize> Token for &[u8; N] {
    open spec fn encoding(&self) -> Seq<u8> {
        encode_bytestring(self@)
    }

    open spec fn encodable(&self) -> bool {
        self@.len() < 2048
    }

    fn write(&self, buffer: &mut Vec<u8>) {
        let bytes: &[u8] = self.as_slice();
        bytes.write(buffer)
    }
}

/// A named value: a key and what it is set to.
#[derive(Debug)]
pub struct TokenName<K: Token, V: Token>(pub K, pub V);

impl<K: Token, V: Token> Token for TokenName<K, V> {
    open spec fn encoding(&self) -> Seq<u8> {
        seq![token::STARTNAME] + self.0.encoding() + self.1.encoding() + seq![token::ENDNAME]
    }

    open spec fn encodable(&self) -> bool {
        self.0.encodable() && self.1.encodable()
    }

    fn write(&self, buffer: &mut Vec<u8>) {
        buffer.push(token::STARTNAME);
        self.0.write(buffer);
        self.1.write(buffer);
        buffer.push(token::ENDNAME);
        assert(buffer@ =~= old(buffer)@ + self.encoding());
    }
}

/// The list without items.
#[derive(Debug)]
pub struct TokensNil;

/// A list with one more item: the item pushed last, and the list before it.
#[derive(Debug)]
pub struct TokensCons<T: Token, R>(pub T, pub R);

/// Lists that take one more item at their end.
pub trait TokensPush<T> {
    type Next;

    fn push(self, token: T) -> Self::Next;
}

impl<T: Token> TokensPush<T> for TokensNil {
    type Next = TokensCons<T, TokensNil>;

    fn push(self, token: T) -> (list: Self::Next)
        ensures
            list == TokensCons(token, self),
    {
        TokensCons(token, self)
    }
}

impl<N: Token, T: Token, R> TokensPush<N> for TokensCons<T, R> {
    type Next = TokensCons<N, TokensCons<T, R>>;

    fn push(self, token: N) -> (list: Self::Next)
        ensures
            list == TokensCons(token, self),
    {
        TokensCons(token, self)
    }
}

/// Lists of tokens, written without the list brackets.
pub trait TokenList {
    /// The bytes of the items, in the order in which they were pushed.
    spec fn bare_encoding(&self) -> Seq<u8>;

    /// Every item has a wire form.
    spec fn bare_encodable(&self) -> bool;

    /// Appends the items to `buffer`, without list brackets.
    fn write_bare(&self, buffer: &mut Vec<u8>)
        requires
            self.bare_encodable(),
        ensures
            final(buffer)@ == old(buffer)@ + self.bare_encoding(),
    ;

    /// The items as a stream of their own, without list brackets.
    fn to_bare_token_stream(&self) -> (stream: TokenStream)
        requires
            self.bare_encodable(),
        ensures
            stream@ == self.bare_encoding(),
    {
        let mut res: Vec<u8> = Vec::new();
        self.write_bare(&mut res);
        assert(res@ =~= self.bare_encoding());
        TokenStream(Some(res))
    }
}

impl TokenList for TokensNil {
    open spec fn bare_encoding(&self) -> Seq<u8> {
        Seq::empty()
    }

    open spec fn bare_encodable(&self) -> bool {
        true
    }

    fn write_bare(&self, buffer: &mut Vec<u8>) {
        assert(buffer@ =~= old(buffer)@ + self.bare_encoding());
    }
}

impl<T: Token, R: TokenList> TokenList for TokensCons<T, R> {
    open spec fn bare_encoding(&self) -> Seq<u8> {
        self.1.bare_encoding() + self.0.encoding()
    }

    open spec fn bare_encodable(&self) -> bool {
        self.1.bare_encodable() && self.0.encodable()
    }

    fn write_bare(&self, buffer: &mut Vec<u8>) {
        self.1.write_bare(buffer);
        self.0.write(buffer);
        assert(buffer@ =~= old(buffer)@ + self.bare_encoding());
    }
}

impl Token for TokensNil {
    open spec fn encoding(&self) -> Seq<u8> {
        seq![token::STARTLIST, token::ENDLIST]
    }

    open spec fn encodable(&self) -> bool {
        true
    }

    fn write(&self, buffer: &mut Vec<u8>) {
        buffer.push(token::STARTLIST);
        buffer.push(token::ENDLIST);
        assert(buffer@ =~= old(buffer)@ + self.encoding());
    }
}

impl<T: Token, R: TokenList> Token for TokensCons<T, R> {
    open spec fn encoding(&self) -> Seq<u8> {
        seq![token::STARTLIST] + self.1.bare_encoding() + self.0.encoding() + seq![token::ENDLIST]
    }

    open spec fn encodable(&self) -> bool {
        self.1.bare_encodable() && self.0.encodable()
    }

    fn write(&self, buffer: &mut Vec<u8>) {
        buffer.push(token::STARTLIST);
        self.1.write_bare(buffer);
        self.0.write(buffer);
        buffer.push(token::ENDLIST);
        assert(buffer@ =~= old(buffer)@ + self.encoding());
    }
}

} // verus!
