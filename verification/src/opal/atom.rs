//! The mathematical model of the token stream: how atoms are laid out in
//! bytes, how a byte string splits into atoms, and what an atom denotes.
use vstd::prelude::*;

verus! {

/// 256 to the power `n`.
pub open spec fn pow256(n: nat) -> nat
    decreases n,
{
    if n == 0 {
        1
    } else {
        256 * pow256((n - 1) as nat)
    }
}

/// The `n` low-order bytes of `v`, most significant byte first.
pub open spec fn be_bytes(v: nat, n: nat) -> Seq<u8>
    decreases n,
{
    if n == 0 {
        Seq::empty()
    } else {
        be_bytes(v / 256, (n - 1) as nat).push((v % 256) as u8)
    }
}

/// The number that a big-endian byte string denotes.
pub open spec fn be_value(s: Seq<u8>) -> nat
    decreases s.len(),
{
    if s.len() == 0 {
        0
    } else {
        be_value(s.drop_last()) * 256 + s.last() as nat
    }
}

/// Number of value bytes of the short atom that carries `v` (for `v >= 64`).
pub open spec fn uint_width(v: u64) -> nat {
    if v < 0x100 {
        1
    } else if v < 0x1_0000 {
        2
    } else if v < 0x1_0000_0000 {
        4
    } else {
        8
    }
}

/// Wire form of an unsigned integer: a tiny atom below 64, else the short
/// atom of the smallest of the widths 1, 2, 4 and 8 that holds the value.
pub open spec fn encode_uint(v: u64) -> Seq<u8> {
    if v < 64 {
        seq![v as u8]
    } else {
        seq![(0x80 + uint_width(v)) as u8] + be_bytes(v as nat, uint_width(v))
    }
}

/// Wire form of a byte string shorter than 2048 bytes. The empty string is
/// written as the one-byte string that holds a zero.
pub open spec fn encode_bytestring(s: Seq<u8>) -> Seq<u8>
    recommends
        s.len() < 2048,
{
    if s.len() == 0 {
        seq![0xA1u8, 0x00u8]
    } else if s.len() < 16 {
        seq![(0xA0 + s.len()) as u8] + s
    } else {
        seq![(0xD0 + s.len() / 256) as u8, (s.len() % 256) as u8] + s
    }
}

/// Wire form of an 8-byte identifier: the short byte-string prefix for eight
/// bytes, then the bytes.
pub open spec fn encode_uid(bytes: Seq<u8>) -> Seq<u8> {
    seq![0xA8u8] + bytes
}

/// How many bytes of an atom, counted from its lead byte, fix its length.
pub open spec fn atom_header_len(lead: u8) -> nat {
    if lead < 0xC0 {
        1
    } else if lead < 0xE0 {
        2
    } else if lead < 0xF0 {
        4
    } else {
        1
    }
}

/// Total length of the atom that starts at `pos`, header included.
pub open spec fn atom_len(bytes: Seq<u8>, pos: int) -> nat {
    let lead = bytes[pos];
    if lead < 0x80 {
        1
    } else if lead < 0xC0 {
        (lead % 16) as nat + 1
    } else if lead < 0xE0 {
        ((lead % 8) as nat) * 256 + bytes[pos + 1] as nat + 2
    } else if lead < 0xF0 {
        (bytes[pos + 1] as nat) * 65536 + (bytes[pos + 2] as nat) * 256 + bytes[pos + 3] as nat + 4
    } else {
        1
    }
}

/// Every atom has at least its lead byte.
pub proof fn lemma_atom_len_positive(bytes: Seq<u8>, pos: int)
    ensures
        atom_len(bytes, pos) >= 1,
{
}

/// The atom that starts at `pos` lies within `bytes`.
pub open spec fn atom_fits(bytes: Seq<u8>, pos: int) -> bool {
    &&& 0 <= pos < bytes.len()
    &&& pos + atom_header_len(bytes[pos]) <= bytes.len()
    &&& pos + atom_len(bytes, pos) <= bytes.len()
}

/// Every atom that starts in `pos..end` lies within `bytes`.
pub open spec fn atoms_fit(bytes: Seq<u8>, pos: int, end: int) -> bool
    decreases
        (if pos < end {
            end - pos
        } else {
            0
        }),
{
    if pos >= end {
        true
    } else if !atom_fits(bytes, pos) {
        false
    } else {
        proof {
            lemma_atom_len_positive(bytes, pos);
        }
        atoms_fit(bytes, pos + atom_len(bytes, pos), end)
    }
}

/// The atom at `pos` is the one-byte empty atom, which carries nothing.
pub open spec fn is_empty_atom(bytes: Seq<u8>, pos: int) -> bool {
    bytes[pos] == 0xFF
}

/// The atoms that start in `pos..end`, in order, without the empty atoms.
/// The walk stops early at an atom that does not fit.
pub open spec fn parse_atoms(bytes: Seq<u8>, pos: int, end: int) -> Seq<Seq<u8>>
    decreases
        (if pos < end {
            end - pos
        } else {
            0
        }),
{
    if pos >= end {
        Seq::empty()
    } else if !atom_fits(bytes, pos) {
        Seq::empty()
    } else if is_empty_atom(bytes, pos) {
        proof {
            lemma_atom_len_positive(bytes, pos);
        }
        parse_atoms(bytes, pos + atom_len(bytes, pos), end)
    } else {
        proof {
            lemma_atom_len_positive(bytes, pos);
        }
        seq![bytes.subrange(pos, pos + atom_len(bytes, pos))] + parse_atoms(
            bytes,
            pos + atom_len(bytes, pos),
            end,
        )
    }
}

/// The atom can be read as an unsigned integer: it is a tiny atom without
/// the sign bit, or a short atom with neither the byte-string nor the sign
/// flag and with at most eight value bytes.
pub open spec fn is_uint_atom(atom: Seq<u8>) -> bool {
    &&& atom.len() >= 1
    &&& atom[0] < 0x40 || (0x80 <= atom[0] <= 0x8F && atom.len() <= 9)
}

/// The bytes of an atom that follow its header.
pub open spec fn atom_payload(atom: Seq<u8>) -> Seq<u8>
    recommends
        atom.len() >= 1,
{
    atom.skip(atom_header_len(atom[0]) as int)
}

/// The unsigned integer that a uint atom carries.
pub open spec fn decode_uint(atom: Seq<u8>) -> nat
    recommends
        is_uint_atom(atom),
{
    if atom[0] < 0x40 {
        atom[0] as nat
    } else {
        be_value(atom_payload(atom))
    }
}

/// The `n` low-order bytes of a number are `n` bytes.
pub proof fn lemma_be_bytes_len(v: nat, n: nat)
    ensures
        be_bytes(v, n).len() == n,
    decreases n,
{
    if n > 0 {
        lemma_be_bytes_len(v / 256, (n - 1) as nat);
    }
}

/// A byte string of `n` bytes denotes a number below 256 to the `n`.
pub proof fn lemma_be_value_bound(s: Seq<u8>)
    ensures
        be_value(s) < pow256(s.len()),
    decreases s.len(),
{
    if s.len() > 0 {
        lemma_be_value_bound(s.drop_last());
    }
}

/// Reading back the `n` low-order bytes of a number that fits in `n` bytes
/// gives the number.
pub proof fn lemma_be_round_trip(v: nat, n: nat)
    requires
        v < pow256(n),
    ensures
        be_value(be_bytes(v, n)) == v,
    decreases n,
{
    if n > 0 {
        let head = be_bytes(v / 256, (n - 1) as nat);
        lemma_be_round_trip(v / 256, (n - 1) as nat);
        assert(be_bytes(v, n).drop_last() =~= head);
        assert(be_bytes(v, n).last() == (v % 256) as u8);
    }
}

/// An unsigned integer below 64 is written as the one byte that holds it.
pub proof fn lemma_tiny_uint_is_one_byte(v: u64)
    requires
        v < 64,
    ensures
        encode_uint(v) == seq![v as u8],
        encode_uint(v).len() == 1,
        encode_uint(v)[0] == v,
{
}

/// What is written for an unsigned integer reads back as that integer:
/// the bytes are one atom, the atom is a uint atom, and it carries the
/// integer.
pub proof fn lemma_uint_round_trip(v: u64)
    ensures
        parse_atoms(encode_uint(v), 0, encode_uint(v).len() as int) == seq![encode_uint(v)],
        is_uint_atom(encode_uint(v)),
        decode_uint(encode_uint(v)) == v,
{
    let e = encode_uint(v);
    let w = uint_width(v);
    if v >= 64 {
        lemma_be_bytes_len(v as nat, w);
        lemma_pow256_values();
        lemma_be_round_trip(v as nat, w);
        assert(atom_payload(e) =~= be_bytes(v as nat, w));
    }
    assert(e.subrange(0, e.len() as int) =~= e);
    assert(parse_atoms(e, e.len() as int, e.len() as int) =~= Seq::<Seq<u8>>::empty());
    assert(parse_atoms(e, 0, e.len() as int) =~= seq![e]);
}

/// What is written for a byte string that is not empty and shorter than
/// 2048 bytes reads back as that byte string: the bytes are one atom, and
/// the payload of the atom is the string.
pub proof fn lemma_bytestring_round_trip(s: Seq<u8>)
    requires
        0 < s.len() < 2048,
    ensures
        parse_atoms(encode_bytestring(s), 0, encode_bytestring(s).len() as int) == seq![
            encode_bytestring(s),
        ],
        atom_payload(encode_bytestring(s)) == s,
{
    let e = encode_bytestring(s);
    assert(atom_payload(e) =~= s);
    assert(e.subrange(0, e.len() as int) =~= e);
    assert(parse_atoms(e, e.len() as int, e.len() as int) =~= Seq::<Seq<u8>>::empty());
    assert(parse_atoms(e, 0, e.len() as int) =~= seq![e]);
}

/// The powers of 256 that bound the widths of the unsigned integers.
pub proof fn lemma_pow256_values()
    ensures
        pow256(1) == 0x100,
        pow256(2) == 0x1_0000,
        pow256(4) == 0x1_0000_0000,
        pow256(8) == 0x1_0000_0000_0000_0000,
{
    reveal_with_fuel(pow256, 9);
}

} // verus!
