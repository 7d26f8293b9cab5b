//! Commands on their way out and responses on their way in: the builder
//! that frames a token stream with the three headers, and the parser that
//! splits a received body into atoms.
use vstd::prelude::*;
use vstd::slice::{slice_subrange, slice_to_vec};

use crate::opal::atom::{atom_fits, atom_len, atom_payload, atoms_fit};
use crate::opal::atom::{decode_uint, encode_uid, is_uint_atom, parse_atoms};
use crate::opal::{read_be, zeros};
use crate::opal::{ComPacketHeader, OpalHeader, PacketHeader, SubpacketHeader};
use crate::opal::{SimpleToken, Token, TokenStream, BS8};
use crate::opal::{token, OPAL_HEADER_LEN};

verus! {

/// Number of zero bytes that bring a body of `n` bytes to a multiple of 4.
pub open spec fn pad_len(n: nat) -> nat {
    ((4 - n % 4) % 4) as nat
}

/// The body followed by the zero bytes that bring it to a multiple of 4.
pub open spec fn padded(body: Seq<u8>) -> Seq<u8> {
    body + zeros(pad_len(body.len()))
}

/// End of data, then the method status list of three zeros.
pub open spec fn status_trailer() -> Seq<u8> {
    seq![token::ENDOFDATA, token::STARTLIST, 0x00u8, 0x00u8, 0x00u8, token::ENDLIST]
}

/// What a command carries before padding: the payload, and after it the
/// status trailer where the command ends its data.
pub open spec fn command_body(payload: Seq<u8>, eod: bool) -> Seq<u8> {
    if eod {
        payload + status_trailer()
    } else {
        payload
    }
}

/// The views of the vectors of `tokens`, in order.
pub open spec fn views(tokens: Seq<Vec<u8>>) -> Seq<Seq<u8>> {
    Seq::new(tokens.len(), |i: int| tokens[i]@)
}

/// Collects the payload of a command.
#[derive(Debug)]
pub struct OpalCommandBuilder {
    payload: Vec<u8>,
}

impl View for OpalCommandBuilder {
    type V = Seq<u8>;

    closed spec fn view(&self) -> Seq<u8> {
        self.payload@
    }
}

impl OpalCommandBuilder {
    /// A builder without payload.
    pub fn empty() -> (builder: OpalCommandBuilder)
        ensures
            builder@ == Seq::<u8>::empty(),
    {
        OpalCommandBuilder { payload: Vec::new() }
    }

    /// A builder whose payload starts the call of `method` on `invoking_uid`.
    pub fn new(invoking_uid: BS8, method: BS8) -> (builder: OpalCommandBuilder)
        ensures
            builder@ == seq![token::CALL] + encode_uid(invoking_uid.bytes@) + encode_uid(
                method.bytes@,
            ),
    {
        let mut payload: Vec<u8> = Vec::new();
        payload.push(token::CALL);
        invoking_uid.write(&mut payload);
        method.write(&mut payload);
        assert(payload@ =~= seq![token::CALL] + encode_uid(invoking_uid.bytes@) + encode_uid(
            method.bytes@,
        ));
        OpalCommandBuilder { payload }
    }

    /// Number of payload bytes collected so far.
    pub fn len(&self) -> (n: usize)
        ensures
            n == self@.len(),
    {
        self.payload.len()
    }

    /// Appends a token stream to the payload.
    pub fn payload(self, payload: TokenStream) -> (builder: OpalCommandBuilder)
        ensures
            builder@ == self@ + payload@,
    {
        let mut this = self;
        payload.write(&mut this.payload);
        this
    }

    /// Frames the payload, with the status trailer where the command ends
    /// its data.
    fn build_eod(self, eod: bool) -> (command: OpalCommand)
        requires
            self@.len() + 45 <= u32::MAX,
        ensures
            command.frames(self@, eod),
    {
        let mut payload = self.payload;
        let ghost start = payload@;
        if eod {
            payload.push(token::ENDOFDATA);
            payload.push(token::STARTLIST);
            payload.push(0x00);
            payload.push(0x00);
            payload.push(0x00);
            payload.push(token::ENDLIST);
        }
        let ghost body = payload@;
        assert(body =~= command_body(start, eod));
        let body_len: usize = payload.len();
        let pad: usize = (4 - body_len % 4) % 4;
        let mut k: usize = 0;
        while k < pad
            invariant
                k <= pad,
                payload@ == body + zeros(k as nat),
            decreases pad - k,
        {
            payload.push(0);
            k += 1;
            assert(payload@ =~= body + zeros(k as nat));
        }
        assert(payload@ =~= padded(body));
        let padded_len: usize = payload.len();
        let command = OpalCommand {
            header: OpalHeader {
                cp: ComPacketHeader {
                    extended_com_id: [0u8, 0u8, 0u8, 0u8],
                    outstanding_data: 0,
                    min_transfer: 0,
                    length: (padded_len + 36) as u32,
                },
                pkt: PacketHeader {
                    tsn: 0,
                    hsn: 0,
                    seq_number: 0,
                    ack_type: 0,
                    acknowledgement: 0,
                    length: (padded_len + 12) as u32,
                },
                subpkt: SubpacketHeader { kind: 0, length: body_len as u32 },
            },
            payload,
            eod,
        };
        assert(command.header.cp.extended_com_id@ =~= zeros(4));
        command
    }

    /// Frames the payload as a command that ends its data: the status
    /// trailer follows the payload, zero bytes pad the whole to a multiple
    /// of 4, and the three length fields count what follows them.
    pub fn build(self) -> (command: OpalCommand)
        requires
            self@.len() + 45 <= u32::MAX,
        ensures
            command.frames(self@, true),
            command.header.cp.length == command.header.pkt.length + 24,
            command.header.pkt.length == command.payload@.len() + 12,
            command.header.subpkt.length == self@.len() + 6,
            command.payload@.len() % 4 == 0,
    {
        self.build_eod(true)
    }

    /// Frames the payload as it stands, without a status trailer.
    pub fn build_no_end_of_data(self) -> (command: OpalCommand)
        requires
            self@.len() + 45 <= u32::MAX,
        ensures
            command.frames(self@, false),
            command.header.cp.length == command.header.pkt.length + 24,
            command.header.pkt.length == command.payload@.len() + 12,
            command.header.subpkt.length == self@.len(),
            command.payload@.len() % 4 == 0,
    {
        self.build_eod(false)
    }
}

/// A framed command: headers, padded payload, and whether a method status
/// is expected back.
#[derive(Debug)]
pub struct OpalCommand {
    pub header: OpalHeader,
    pub payload: Vec<u8>,
    pub eod: bool,
}

impl OpalCommand {
    /// The command is the framing of `payload`: its body is the payload
    /// with the status trailer if `eod`, its own payload is that body
    /// padded, the sub-packet length counts the body, the packet length the
    /// padded body and the sub-packet header, the com-packet length the
    /// packet header as well, and every other header field is zero.
    pub open spec fn frames(&self, payload: Seq<u8>, eod: bool) -> bool {
        let body = command_body(payload, eod);
        &&& self.eod == eod
        &&& self.payload@ == padded(body)
        &&& self.header.cp.extended_com_id@ == zeros(4)
        &&& self.header.cp.outstanding_data == 0
        &&& self.header.cp.min_transfer == 0
        &&& self.header.cp.length == padded(body).len() + 36
        &&& self.header.pkt.tsn == 0
        &&& self.header.pkt.hsn == 0
        &&& self.header.pkt.seq_number == 0
        &&& self.header.pkt.ack_type == 0
        &&& self.header.pkt.acknowledgement == 0
        &&& self.header.pkt.length == padded(body).len() + 12
        &&& self.header.subpkt.kind == 0
        &&& self.header.subpkt.length == body.len()
    }

    /// Stamps the command with the endpoint and the session numbers.
    pub fn set_session(&mut self, com_id: u16, tsn: u32, hsn: u32)
        ensures
            final(self).header == old(self).header.stamped(com_id, tsn, hsn),
            final(self).payload == old(self).payload,
            final(self).eod == old(self).eod,
    {
        self.header.cp.extended_com_id = [(com_id / 256) as u8, (com_id % 256) as u8, 0, 0];
        self.header.pkt.tsn = tsn;
        self.header.pkt.hsn = hsn;
    }

    /// The command as it goes on the wire: the headers, then the payload.
    pub fn encode(&self) -> (bytes: Vec<u8>)
        ensures
            bytes@ == self.header.wire() + self.payload@,
    {
        let mut bytes: Vec<u8> = Vec::new();
        self.header.write(&mut bytes);
        bytes.extend_from_slice(self.payload.as_slice());
        assert(bytes@ =~= self.header.wire() + self.payload@);
        bytes
    }
}

/// In a framed command the lengths agree: the com-packet length is the
/// packet length and the packet header, the packet length is the padded
/// payload and the sub-packet header, the sub-packet length is the body
/// before padding, and the padded payload is a multiple of 4 bytes.
pub proof fn lemma_framing_lengths(command: OpalCommand, payload: Seq<u8>, eod: bool)
    requires
        command.frames(payload, eod),
    ensures
        command.header.cp.length == command.header.pkt.length + 24,
        command.header.pkt.length == command.payload@.len() + 12,
        command.header.subpkt.length == command_body(payload, eod).len(),
        command.payload@.len() % 4 == 0,
{
}

/// A received response: its headers and the atoms of its body.
#[derive(Debug)]
pub struct OpalResponse {
    pub header: OpalHeader,
    pub tokens: Vec<Vec<u8>>,
}

impl OpalResponse {
    /// The atoms of the response as byte strings.
    pub open spec fn atoms(&self) -> Seq<Seq<u8>> {
        views(self.tokens@)
    }

    /// Where the body that `header` announces ends in the buffer.
    pub open spec fn body_end(header: OpalHeader) -> int {
        OPAL_HEADER_LEN + header.subpkt.length
    }

    /// The body that `header` announces can be split into atoms: its end can
    /// be addressed, and every atom that starts in it lies within `bytes`.
    pub open spec fn parseable(header: OpalHeader, bytes: Seq<u8>) -> bool {
        &&& Self::body_end(header) <= usize::MAX
        &&& atoms_fit(bytes, OPAL_HEADER_LEN as int, Self::body_end(header))
    }

    /// Splits the body of a received buffer into atoms. The buffer starts
    /// with the 56 header bytes; the body follows and has the length that
    /// the sub-packet header gives. Empty atoms are dropped.
    pub fn parse(header: OpalHeader, bytes: &[u8]) -> (response: OpalResponse)
        requires
            Self::parseable(header, bytes@),
        ensures
            response.header == header,
            response.atoms() == parse_atoms(
                bytes@,
                OPAL_HEADER_LEN as int,
                Self::body_end(header),
            ),
    {
        match Self::try_parse(header, bytes) {
            Some(response) => response,
            None => vstd::pervasive::unreached(),
        }
    }

    /// Splits the body of a received buffer into atoms where that can be
    /// done, and says so where it cannot.
    pub fn try_parse(header: OpalHeader, bytes: &[u8]) -> (parsed: Option<OpalResponse>)
        ensures
            parsed is Some <==> Self::parseable(header, bytes@),
            parsed matches Some(response) ==> response.header == header && response.atoms()
                == parse_atoms(bytes@, OPAL_HEADER_LEN as int, Self::body_end(header)),
    {
        let total: usize = bytes.len();
        let body_len: u32 = header.subpkt.length;
        if body_len as u64 + 56 > usize::MAX as u64 {
            return None;
        }
        let end: usize = body_len as usize + 56;
        let mut tokens: Vec<Vec<u8>> = Vec::new();
        let mut pos: usize = 56;
        assert(views(tokens@) =~= Seq::<Seq<u8>>::empty());
        while pos < end
            invariant
                total == bytes@.len(),
                end == Self::body_end(header),
                56 <= pos,
                pos <= total || pos == 56,
                atoms_fit(bytes@, pos as int, end as int) == atoms_fit(bytes@, 56, end as int),
                views(tokens@) + parse_atoms(bytes@, pos as int, end as int) == parse_atoms(
                    bytes@,
                    56,
                    end as int,
                ),
            decreases
                (if pos < end {
                    end - pos
                } else {
                    0
                }),
        {
            if pos >= total {
                return None;
            }
            let lead: u8 = bytes[pos];
            let room: usize = total - pos;
            let header_len: usize = if lead < 0xC0 {
                1
            } else if lead < 0xE0 {
                2
            } else if lead < 0xF0 {
                4
            } else {
                1
            };
            if header_len > room {
                return None;
            }
            let token_len: usize = if lead < 0x80 {
                1
            } else if lead < 0xC0 {
                (lead % 16) as usize + 1
            } else if lead < 0xE0 {
                (lead % 8) as usize * 256 + bytes[pos + 1] as usize + 2
            } else if lead < 0xF0 {
                bytes[pos + 1] as usize * 65536 + bytes[pos + 2] as usize * 256 + bytes[pos
                    + 3] as usize + 4
            } else {
                1
            };
            assert(token_len == atom_len(bytes@, pos as int));
            if token_len > room {
                return None;
            }
            assert(atom_fits(bytes@, pos as int));
            let ghost before = views(tokens@);
            if lead != 0xFF {
                let piece = slice_to_vec(slice_subrange(bytes, pos, pos + token_len));
                tokens.push(piece);
                assert(views(tokens@) =~= before + seq![
                    bytes@.subrange(pos as int, pos + token_len),
                ]);
            }
            assert(views(tokens@) + parse_atoms(bytes@, pos + token_len, end as int) =~= before
                + parse_atoms(bytes@, pos as int, end as int));
            pos += token_len;
        }
        Some(OpalResponse { header, tokens })
    }

    /// Number of atoms.
    pub fn len(&self) -> (n: usize)
        ensures
            n == self.atoms().len(),
    {
        self.tokens.len()
    }

    /// Whether the response holds no atom.
    pub fn is_empty(&self) -> (b: bool)
        ensures
            b == (self.atoms().len() == 0),
    {
        self.tokens.len() == 0
    }

    /// Whether the atom at `index` exists and is the one-byte token `token`.
    pub fn is(&self, index: usize, token: SimpleToken) -> (b: bool)
        ensures
            b == (index < self.atoms().len() && self.atoms()[index as int] == seq![token.token]),
    {
        if index < self.tokens.len() {
            let atom = &self.tokens[index];
            let b = atom.len() == 1 && atom[0] == token.token;
            assert(b == (self.atoms()[index as int] =~= seq![token.token]));
            b
        } else {
            false
        }
    }

    /// Whether the atom at `index` exists and can be read as an unsigned
    /// integer.
    pub fn is_uint(&self, index: usize) -> (b: bool)
        ensures
            b == (index < self.atoms().len() && is_uint_atom(self.atoms()[index as int])),
    {
        if index < self.tokens.len() {
            let atom = &self.tokens[index];
            atom.len() >= 1 && (atom[0] < 0x40 || (0x80 <= atom[0] && atom[0] <= 0x8F && atom.len()
                <= 9))
        } else {
            false
        }
    }

    /// The unsigned integer that the atom at `index` carries: the value of a
    /// tiny atom, or the big-endian number in the value bytes of a short one.
    pub fn get_uint(&self, index: usize) -> (v: u64)
        requires
            index < self.atoms().len(),
            is_uint_atom(self.atoms()[index as int]),
        ensures
            v == decode_uint(self.atoms()[index as int]),
    {
        let atom = &self.tokens[index];
        let lead: u8 = atom[0];
        if lead < 0x40 {
            lead as u64
        } else {
            let v = read_be(atom.as_slice(), 1, atom.len() - 1);
            assert(atom@.subrange(1, atom@.len() as int) =~= atom_payload(atom@));
            v
        }
    }
}

} // verus!
