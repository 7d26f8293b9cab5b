//! Bytes as text, for the trace of what goes to the drive and comes back.
use vstd::prelude::*;

use crate::text::push_char;

verus! {

/// The sixteen hexadecimal digits, upper case.
pub const HEX_DIGITS: [char; 16] = [
    '0',
    '1',
    '2',
    '3',
    '4',
    '5',
    '6',
    '7',
    '8',
    '9',
    'A',
    'B',
    'C',
    'D',
    'E',
    'F',
];

/// What stands before the byte at index `i`: a line feed at the start of
/// every group of sixteen, a space at the start of every other group of
/// four, and nothing elsewhere.
pub open spec fn dump_separator(i: int) -> Seq<char> {
    if i % 4 != 0 {
        Seq::empty()
    } else if i % 16 == 0 {
        seq!['\n']
    } else {
        seq![' ']
    }
}

/// The two hexadecimal digits of a byte.
pub open spec fn hex_pair(b: u8) -> Seq<char> {
    seq![HEX_DIGITS@[(b / 16) as int], HEX_DIGITS@[(b % 16) as int]]
}

/// The bytes in hexadecimal, four to a group and four groups to a line.
pub open spec fn dump_text(bytes: Seq<u8>) -> Seq<char>
    decreases bytes.len(),
{
    if bytes.len() == 0 {
        Seq::empty()
    } else {
        dump_text(bytes.drop_last()) + dump_separator(bytes.len() - 1) + hex_pair(bytes.last())
    }
}

/// The bytes in hexadecimal, four to a group and four groups to a line;
/// every line starts with a line feed.
pub fn dump(buffer: &[u8]) -> (text: String)
    ensures
        text@ == dump_text(buffer@),
{
    let n: usize = buffer.len();
    let mut text = String::new();
    let mut i: usize = 0;
    assert(buffer@.take(0) =~= Seq::<u8>::empty());
    while i < n
        invariant
            i <= n,
            n == buffer@.len(),
            text@ == dump_text(buffer@.take(i as int)),
        decreases n - i,
    {
        let ghost before = text@;
        let b: u8 = buffer[i];
        if i % 4 == 0 {
            if i % 16 == 0 {
                push_char(&mut text, '\n');
            } else {
                push_char(&mut text, ' ');
            }
        }
        push_char(&mut text, HEX_DIGITS[(b / 16) as usize]);
        push_char(&mut text, HEX_DIGITS[(b % 16) as usize]);
        proof {
            let next = buffer@.take(i + 1);
            assert(next.drop_last() =~= buffer@.take(i as int));
            assert(next.last() == b);
            assert(text@ =~= before + dump_separator(i as int) + hex_pair(b));
        }
        i += 1;
    }
    assert(buffer@.take(n as int) =~= buffer@);
    text
}

} // verus!
