use opal_uefi_greeter::opal::command::OpalResponse;
use opal_uefi_greeter::opal::{short_atom, tiny_atom, token, uid};
use opal_uefi_greeter::opal::{LockingState, OpalHeader, SimpleToken, Token, TokenList};
use opal_uefi_greeter::opal::{TokenName, TokenStream, TokensNil, TokensPush, BS8};

fn encode<T: Token>(value: T) -> Vec<u8> {
    let mut buffer = Vec::new();
    value.write(&mut buffer);
    buffer
}

fn response(body: &[u8]) -> OpalResponse {
    let mut header = OpalHeader::default();
    header.subpkt.length = body.len() as u32;
    let mut buffer = vec![0u8; 56];
    buffer.extend_from_slice(body);
    OpalResponse::parse(header, &buffer)
}

#[test]
fn tiny_uint_is_the_byte_itself() {
    for v in 0u64..64 {
        assert_eq!(encode(v), vec![v as u8]);
    }
}

#[test]
fn uint_scenarios() {
    assert_eq!(encode(5u64), vec![0x05]);
    assert_eq!(encode(63u64), vec![0x3F]);
    assert_eq!(encode(64u64), vec![0x81, 0x40]);
    assert_eq!(encode(0x1234u64), vec![0x82, 0x12, 0x34]);
}

#[test]
fn uint_picks_the_smallest_width() {
    assert_eq!(encode(0xFFu64), vec![0x81, 0xFF]);
    assert_eq!(encode(0x100u64), vec![0x82, 0x01, 0x00]);
    assert_eq!(encode(0xFFFFu64), vec![0x82, 0xFF, 0xFF]);
    assert_eq!(encode(0x1_0000u64), vec![0x84, 0x00, 0x01, 0x00, 0x00]);
    assert_eq!(encode(0xFFFF_FFFFu64), vec![0x84, 0xFF, 0xFF, 0xFF, 0xFF]);
    assert_eq!(
        encode(0x1_0000_0000u64),
        vec![0x88, 0x00, 0x00, 0x00, 0x01, 0x00, 0x00, 0x00, 0x00]
    );
    assert_eq!(
        encode(0x0102_0304_0506_0708u64),
        vec![0x88, 0x01, 0x02, 0x03, 0x04, 0x05, 0x06, 0x07, 0x08]
    );
    assert_eq!(encode(u64::MAX), vec![0x88, 0xFF, 0xFF, 0xFF, 0xFF, 0xFF, 0xFF, 0xFF, 0xFF]);
}

#[test]
fn bytestring_scenarios() {
    let empty: &[u8] = &[];
    assert_eq!(encode(empty), vec![0xA1, 0x00]);
    let three: &[u8] = &[0x01, 0x02, 0x03];
    assert_eq!(encode(three), vec![0xA3, 0x01, 0x02, 0x03]);
    let id = BS8::new([0x00, 0x00, 0x02, 0x05, 0x00, 0x00, 0x00, 0x02], "OPAL_LOCKINGSP");
    assert_eq!(encode(id), vec![0xA8, 0x00, 0x00, 0x02, 0x05, 0x00, 0x00, 0x00, 0x02]);
}

#[test]
fn bytestring_length_classes() {
    let data = vec![0x5Au8; 2047];
    let fifteen: &[u8] = &data[..15];
    let mut expected = vec![0xAF];
    expected.extend_from_slice(fifteen);
    assert_eq!(encode(fifteen), expected);

    let sixteen: &[u8] = &data[..16];
    let mut expected = vec![0xD0, 0x10];
    expected.extend_from_slice(sixteen);
    assert_eq!(encode(sixteen), expected);

    let page: &[u8] = &data[..256];
    let mut expected = vec![0xD1, 0x00];
    expected.extend_from_slice(page);
    assert_eq!(encode(page), expected);

    let longest: &[u8] = &data[..];
    let mut expected = vec![0xD7, 0xFF];
    expected.extend_from_slice(longest);
    assert_eq!(encode(longest), expected);
}

#[test]
fn byte_array_encodes_as_its_slice() {
    assert_eq!(encode(&[0x0Au8, 0x0B]), vec![0xA2, 0x0A, 0x0B]);
    assert_eq!(encode(&[0u8; 0]), vec![0xA1, 0x00]);
}

#[test]
fn uid_from_number_is_big_endian() {
    let id = BS8::from_u64(uid::OPAL_LOCKINGSP);
    assert_eq!(id.bytes, [0x00, 0x00, 0x02, 0x05, 0x00, 0x00, 0x00, 0x02]);
    assert_eq!(BS8::from_u64(uid::OPAL_SMUID).bytes, [0, 0, 0, 0, 0, 0, 0, 0xFF]);
    assert_eq!(BS8::from_u64(uid::OPAL_ADMIN1).bytes, [0, 0, 0, 0x09, 0, 0x01, 0, 0x01]);
    assert_eq!(BS8::from_u64(uid::OPAL_UID_HEXFF).bytes, [0xFF; 8]);
    assert_eq!(BS8::from_u64(0x0102_0304_0506_0708).bytes, [1, 2, 3, 4, 5, 6, 7, 8]);
    assert_eq!(short_atom::BYTESTRING8, 0xA8);
}

#[test]
fn simple_tokens_write_one_byte() {
    assert_eq!(encode(SimpleToken::new(token::CALL, "CALL")), vec![0xF8]);
    assert_eq!(encode(SimpleToken::from(true)), vec![0x01]);
    assert_eq!(encode(SimpleToken::from(false)), vec![0x00]);
    assert_eq!(encode(LockingState::ReadWrite), vec![0x01]);
    assert_eq!(encode(LockingState::ReadOnly), vec![0x02]);
    assert_eq!(encode(LockingState::Locked), vec![0x03]);
    assert_eq!(encode(LockingState::ArchiveLocked), vec![0x04]);
    assert_eq!(encode(LockingState::ArchiveUnlocked), vec![0x05]);
}

#[test]
fn named_token_is_bracketed() {
    let name = TokenName(SimpleToken::new(tiny_atom::UINT_03, "UINT_03"), 0x1234u64);
    assert_eq!(encode(name), vec![0xF2, 0x03, 0x82, 0x12, 0x34, 0xF3]);
}

#[test]
fn list_keeps_the_order_of_its_items() {
    assert_eq!(encode(TokensNil), vec![0xF0, 0xF1]);
    let list = TokensNil.push(1u64).push(2u64).push(SimpleToken::new(0x03, "three"));
    assert_eq!(encode(list), vec![0xF0, 0x01, 0x02, 0x03, 0xF1]);
    let bare = TokensNil.push(1u64).push(2u64).to_bare_token_stream();
    assert_eq!(bare.into_bytes(), vec![0x01, 0x02]);
    assert_eq!(TokensNil.to_bare_token_stream().into_bytes(), Vec::<u8>::new());
}

#[test]
fn token_streams_nest() {
    let inner = TokensNil.push(7u64).to_token_stream();
    let outer = TokensNil.push(inner).push(TokenStream::empty()).push(8u64).to_token_stream();
    assert_eq!(outer.into_bytes(), vec![0xF0, 0xF0, 0x07, 0xF1, 0x08, 0xF1]);
    assert_eq!(TokenStream::empty().into_bytes(), Vec::<u8>::new());
    assert_eq!(encode(TokenStream::empty()), Vec::<u8>::new());
}

#[test]
fn uint_round_trip() {
    let values = [
        0u64,
        1,
        63,
        64,
        105,
        255,
        256,
        60000,
        0xFFFF,
        0x1_0000,
        0xFFFF_FFFF,
        0x1_0000_0000,
        0x0123_4567_89AB_CDEF,
        u64::MAX,
    ];
    for v in values {
        let parsed = response(&encode(v));
        assert_eq!(parsed.len(), 1);
        assert!(parsed.is_uint(0));
        assert_eq!(parsed.get_uint(0), v);
    }
}

#[test]
fn bytestring_round_trip() {
    for len in [1usize, 2, 15, 16, 17, 255, 256, 1000, 2047] {
        let data: Vec<u8> = (0..len).map(|i| (i % 251) as u8).collect();
        let encoded = encode(&data[..]);
        let parsed = response(&encoded);
        assert_eq!(parsed.len(), 1);
        assert_eq!(parsed.tokens[0], encoded);
        let header = if len < 16 { 1 } else { 2 };
        assert_eq!(&parsed.tokens[0][header..], &data[..]);
    }
}

#[test]
fn empty_bytestring_reads_back_as_one_zero_byte() {
    let empty: &[u8] = &[];
    let parsed = response(&encode(empty));
    assert_eq!(parsed.tokens, vec![vec![0xA1, 0x00]]);
}

#[test]
fn parse_splits_every_atom_class() {
    let mut body = vec![0x05, 0x82, 0x12, 0x34, 0xD0, 0x02, 0xAA, 0xBB];
    body.extend_from_slice(&[0xE2, 0x00, 0x00, 0x03, 0x01, 0x02, 0x03]);
    body.extend_from_slice(&[0xF0, 0xF1]);
    let parsed = response(&body);
    assert_eq!(
        parsed.tokens,
        vec![
            vec![0x05],
            vec![0x82, 0x12, 0x34],
            vec![0xD0, 0x02, 0xAA, 0xBB],
            vec![0xE2, 0x00, 0x00, 0x03, 0x01, 0x02, 0x03],
            vec![0xF0],
            vec![0xF1],
        ]
    );
    assert_eq!(parsed.len(), 6);
    assert!(!parsed.is_empty());
}

#[test]
fn parse_drops_empty_atoms() {
    let parsed = response(&[0xFF, 0x05, 0xFF, 0xFF, 0x06, 0xFF]);
    assert_eq!(parsed.tokens, vec![vec![0x05], vec![0x06]]);
    let nothing = response(&[0xFF, 0xFF]);
    assert!(nothing.is_empty());
    assert_eq!(nothing.len(), 0);
}

#[test]
fn parse_stops_at_the_announced_length() {
    let mut header = OpalHeader::default();
    header.subpkt.length = 2;
    let mut buffer = vec![0u8; 56];
    buffer.extend_from_slice(&[0x01, 0x02, 0x03, 0x04]);
    let parsed = OpalResponse::parse(header, &buffer);
    assert_eq!(parsed.tokens, vec![vec![0x01], vec![0x02]]);
    assert_eq!(parsed.header.subpkt.length, 2);
}

#[test]
fn parse_lets_the_last_atom_run_past_the_announced_length() {
    let mut header = OpalHeader::default();
    header.subpkt.length = 1;
    let mut buffer = vec![0u8; 56];
    buffer.extend_from_slice(&[0x82, 0x12, 0x34, 0x07]);
    let parsed = OpalResponse::parse(header, &buffer);
    assert_eq!(parsed.tokens, vec![vec![0x82, 0x12, 0x34]]);
}

#[test]
fn try_parse_refuses_what_does_not_fit() {
    let mut header = OpalHeader::default();
    header.subpkt.length = 3;
    let mut buffer = vec![0u8; 56];
    buffer.extend_from_slice(&[0x84, 0x01, 0x02]);
    assert!(OpalResponse::try_parse(header, &buffer).is_none());

    let mut header = OpalHeader::default();
    header.subpkt.length = 1;
    let mut buffer = vec![0u8; 56];
    buffer.push(0xD0);
    assert!(OpalResponse::try_parse(header, &buffer).is_none());

    let mut header = OpalHeader::default();
    header.subpkt.length = 10;
    let buffer = vec![0u8; 60];
    assert!(OpalResponse::try_parse(header, &buffer).is_none());

    let mut header = OpalHeader::default();
    header.subpkt.length = 4;
    let buffer = vec![0u8; 60];
    let parsed = OpalResponse::try_parse(header, &buffer).unwrap();
    assert_eq!(parsed.len(), 4);
}

#[test]
fn get_uint_reads_tiny_and_short_atoms() {
    let parsed = response(&[0x3F, 0x84, 0x00, 0x00, 0x00, 0x69, 0x81, 0x00, 0x80]);
    assert_eq!(parsed.get_uint(0), 63);
    assert_eq!(parsed.get_uint(1), 105);
    assert_eq!(parsed.get_uint(2), 0);
    assert_eq!(parsed.get_uint(3), 0);
}

#[test]
fn is_uint_tells_the_atom_classes_apart() {
    let parsed = response(&[0x00, 0x3F, 0x40, 0x7F, 0x81, 0x05, 0xA1, 0x05, 0x91, 0x05, 0xF0, 0x80]);
    assert!(parsed.is_uint(0));
    assert!(parsed.is_uint(1));
    assert!(!parsed.is_uint(2));
    assert!(!parsed.is_uint(3));
    assert!(parsed.is_uint(4));
    assert!(!parsed.is_uint(5));
    assert!(!parsed.is_uint(6));
    assert!(!parsed.is_uint(7));
    assert!(parsed.is_uint(8));
    assert!(!parsed.is_uint(9));
}

#[test]
fn is_matches_one_byte_tokens_only() {
    let parsed = response(&[0xF0, 0x81, 0xF0, 0xF1]);
    assert!(parsed.is(0, SimpleToken::new(token::STARTLIST, "STARTLIST")));
    assert!(!parsed.is(0, SimpleToken::new(token::ENDLIST, "ENDLIST")));
    assert!(!parsed.is(1, SimpleToken::new(0x81, "short")));
    assert!(parsed.is(2, SimpleToken::new(token::ENDLIST, "ENDLIST")));
    assert!(!parsed.is(3, SimpleToken::new(token::ENDLIST, "ENDLIST")));
}
