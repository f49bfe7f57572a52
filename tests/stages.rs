use chat1::args::{AppArgs, ArgsError};
use chat1::compress::{compress_block, logical_function, HashState};
use chat1::hex::state_to_hex;
use chat1::padding::pad_message;
use chat1::schedule::message_schedule;
use chat1::words::{hex_digit, rotate_left, word_from_be};

#[test]
fn padding_of_abc() {
    let p = pad_message(b"abc".to_vec());
    assert_eq!(p.len(), 64);
    assert_eq!(&p[0..3], b"abc");
    assert_eq!(p[3], 0x80);
    assert!(p[4..56].iter().all(|&b| b == 0));
    assert_eq!(&p[56..64], &24u64.to_be_bytes());
}

#[test]
fn padding_lengths_around_block_boundary() {
    let cases = [(0usize, 64usize), (55, 64), (56, 128), (57, 128), (63, 128), (64, 128), (119, 128), (120, 192)];
    for (len, padded_len) in cases {
        let p = pad_message(vec![0xFF; len]);
        assert_eq!(p.len(), padded_len, "length {}", len);
        assert_eq!(p[len], 0x80);
        assert!(p[len + 1..padded_len - 8].iter().all(|&b| b == 0));
        assert_eq!(&p[padded_len - 8..], &((8 * len) as u64).to_be_bytes());
    }
}

#[test]
fn padding_length_field_big_endian() {
    let p = pad_message(vec![1u8; 300]);
    assert_eq!(p.len(), 320);
    assert_eq!(&p[312..], &[0, 0, 0, 0, 0, 0, 0x09, 0x60]);
}

#[test]
fn round_functions_by_range() {
    let (b, c, d) = (0xF0F0_F0F0u32, 0xCCCC_CCCCu32, 0xAAAA_AAAAu32);
    assert_eq!(logical_function(0, b, c, d), ((b & c) | (!b & d), 0x5A827999));
    assert_eq!(logical_function(19, b, c, d), ((b & c) | (!b & d), 0x5A827999));
    assert_eq!(logical_function(20, b, c, d), (b ^ c ^ d, 0x6ED9EBA1));
    assert_eq!(logical_function(39, b, c, d), (b ^ c ^ d, 0x6ED9EBA1));
    assert_eq!(logical_function(40, b, c, d), ((b & c) | (b & d) | (c & d), 0x8F1BBCDC));
    assert_eq!(logical_function(59, b, c, d), ((b & c) | (b & d) | (c & d), 0x8F1BBCDC));
    assert_eq!(logical_function(60, b, c, d), (b ^ c ^ d, 0xCA62C1D6));
    assert_eq!(logical_function(79, b, c, d), (b ^ c ^ d, 0xCA62C1D6));
    assert_eq!(logical_function(0, b, c, d).0, 0xCACA_CACA);
    assert_eq!(logical_function(40, b, c, d).0, 0xE8E8_E8E8);
    assert_eq!(logical_function(20, b, c, d).0, 0x9696_9696);
}

#[test]
fn schedule_of_abc_block() {
    let p = pad_message(b"abc".to_vec());
    let w = message_schedule(&p, 0);
    assert_eq!(w.len(), 80);
    assert_eq!(w[0], 0x6162_6380);
    assert!(w[1..15].iter().all(|&x| x == 0));
    assert_eq!(w[15], 0x18);
    assert_eq!(w[16], 0xC2C4_C700);
    for i in 16..80 {
        assert_eq!(w[i], (w[i - 3] ^ w[i - 8] ^ w[i - 14] ^ w[i - 16]).rotate_left(1));
    }
}

#[test]
fn compression_of_abc_block() {
    let p = pad_message(b"abc".to_vec());
    let h = compress_block(HashState::initial(), &p, 0);
    assert_eq!(
        h,
        HashState { h0: 0xA9993E36, h1: 0x4706816A, h2: 0xBA3E2571, h3: 0x7850C26C, h4: 0x9CD0D89D }
    );
}

#[test]
fn initial_state_values() {
    let h = HashState::initial();
    assert_eq!(
        h,
        HashState { h0: 0x67452301, h1: 0xEFCDAB89, h2: 0x98BADCFE, h3: 0x10325476, h4: 0xC3D2E1F0 }
    );
}

#[test]
fn hex_rendering_is_zero_padded() {
    let s = HashState { h0: 0, h1: 0x1, h2: 0xABCDEF12, h3: 0x00F0_0F00, h4: 0xFFFF_FFFF };
    assert_eq!(state_to_hex(s), "0000000000000001abcdef1200f00f00ffffffff");
}

#[test]
fn word_utilities() {
    assert_eq!(rotate_left(0x8000_0001, 1), 0x0000_0003);
    assert_eq!(rotate_left(0x1234_5678, 5), 0x1234_5678u32.rotate_left(5));
    assert_eq!(rotate_left(0x1234_5678, 30), 0x048D_159E);
    assert_eq!(word_from_be(0x01, 0x02, 0x03, 0x04), 0x0102_0304);
    assert_eq!(word_from_be(0xFF, 0, 0, 0x80), 0xFF00_0080);
    assert_eq!(hex_digit(0), '0');
    assert_eq!(hex_digit(9), '9');
    assert_eq!(hex_digit(10), 'a');
    assert_eq!(hex_digit(15), 'f');
}

fn strings(v: &[&str]) -> Vec<String> {
    v.iter().map(|s| s.to_string()).collect()
}

#[test]
fn parse_text_and_file() {
    match AppArgs::parse(&strings(&["t", "ilingu"])) {
        Ok(AppArgs::Text(s)) => assert_eq!(s, "ilingu"),
        _ => panic!("expected text"),
    }
    match AppArgs::parse(&strings(&["f", "./ilovecat.mp3"])) {
        Ok(AppArgs::File(p)) => assert_eq!(p, "./ilovecat.mp3"),
        _ => panic!("expected file"),
    }
}

#[test]
fn parse_errors() {
    assert!(matches!(AppArgs::parse(&strings(&[])), Err(ArgsError::WrongCount)));
    assert!(matches!(AppArgs::parse(&strings(&["t"])), Err(ArgsError::WrongCount)));
    assert!(matches!(AppArgs::parse(&strings(&["t", "a", "b"])), Err(ArgsError::WrongCount)));
    assert!(matches!(AppArgs::parse(&strings(&["x", "a"])), Err(ArgsError::InvalidDoctype)));
    assert!(matches!(AppArgs::parse(&strings(&["tt", "a"])), Err(ArgsError::InvalidDoctype)));
}
