use noto_m::encoding::{decode_hex_16, decode_hex_32};
use noto_m::profile::{decode_backup, encode_backup};
use noto_m::protocol::{open_container, seal_container, MessagePayload};
use noto_m::text::{default_username_of, join_text, same_text, starts_with_text, trim_text, white_space};

fn nonce_hex_of(nonce: [u8; 16]) -> String {
    match seal_container(&[7u8; 32], &nonce, b"") {
        MessagePayload::EncryptedContainer { ciphertext_hex, nonce_hex } => {
            assert_eq!(ciphertext_hex, "");
            nonce_hex
        }
        other => panic!("unexpected {:?}", other),
    }
}

#[test]
fn hex_encode_is_lowercase_pairs() {
    let mut nonce = [0u8; 16];
    nonce[..4].copy_from_slice(&[0x00, 0x0f, 0xa5, 0xff]);
    assert_eq!(nonce_hex_of(nonce), "000fa5ff000000000000000000000000");
}

#[test]
fn hex_decode_accepts_either_case() {
    assert_eq!(
        decode_hex_16("000FA5ff000000000000000000000000").map(|n| n.to_vec()),
        Some({
            let mut v = vec![0u8; 16];
            v[..4].copy_from_slice(&[0x00, 0x0f, 0xa5, 0xff]);
            v
        })
    );
    assert_eq!(decode_hex_16("abc"), None);
    assert_eq!(decode_hex_16("zz000000000000000000000000000000"), None);
    assert_eq!(decode_hex_16("é0000000000000000000000000000000"), None);
    assert_eq!(open_container(&[7u8; 32], "", &"00".repeat(16)), Some(vec![]));
    assert_eq!(open_container(&[7u8; 32], "0", &"00".repeat(16)), None);
}

#[test]
fn hex_round_trip() {
    let nonce: [u8; 16] = core::array::from_fn(|i| (i * 17) as u8);
    assert_eq!(decode_hex_16(&nonce_hex_of(nonce)), Some(nonce));
}

#[test]
fn fixed_length_hex() {
    let key: Vec<u8> = (0..32u8).collect();
    let key_hex: String = key.iter().map(|b| format!("{:02x}", b)).collect();
    assert_eq!(decode_hex_32(&key_hex).map(|k| k.to_vec()), Some(key.clone()));
    assert_eq!(decode_hex_32(&key_hex[..62]), None);
    assert_eq!(decode_hex_32("xyz"), None);
    assert_eq!(decode_hex_16(&key_hex[..32]).map(|n| n.to_vec()), Some(key[..16].to_vec()));
    assert_eq!(decode_hex_16(&key_hex), None);
}

#[test]
fn base64_standard_padded() {
    assert_eq!(encode_backup(b"hello world~"), "aGVsbG8gd29ybGR+");
    assert_eq!(encode_backup(&[0u8; 4]), "AAAAAA==");
    assert_eq!(decode_backup("aGVsbG8gd29ybGR+Cg=="), Some(b"hello world~\n".to_vec()));
    assert_eq!(decode_backup("not base64!"), None);
}

#[test]
fn trim_removes_unicode_white_space() {
    assert_eq!(trim_text("  abc \t\n"), "abc");
    assert_eq!(trim_text("\u{3000}a b\u{a0}"), "a b");
    assert_eq!(trim_text("   "), "");
    assert_eq!(trim_text(""), "");
    assert_eq!(trim_text("x"), "x");
    for c in ['\t', '\n', ' ', '\u{85}', '\u{2029}', '\u{3000}', 'a', '_', '\u{200b}'] {
        assert_eq!(white_space(c), c.is_whitespace(), "{:?}", c);
    }
}

#[test]
fn small_text_helpers() {
    assert_eq!(join_text("ab", "cd"), "abcd");
    assert!(same_text("dat", "dat"));
    assert!(!same_text("dat", "dab"));
    assert!(starts_with_text("noto_profile_x", "noto_profile_"));
    assert!(!starts_with_text("noto", "noto_profile_"));
    let peer = "12D3KooWDpJ7As7BWAwRMfu1VU2WCqNjvq387JEYKDBj4kx6nXTN".to_string();
    assert_eq!(default_username_of(&peer), "@user_12D3K");
}

#[test]
fn short_peer_ids() {
    assert_eq!(
        noto_m::text::short_peer_id("12D3KooWDpJ7As7BWAwRMfu1VU2WCqNjvq387JEYKDBj4kx6nXTN"),
        "12D3Koo...kx6nXTN"
    );
    assert_eq!(noto_m::text::short_peer_id("abcdefg"), "abcdefg...abcdefg");
}

#[test]
fn only_canonical_base64_is_accepted() {
    assert_eq!(decode_backup("TQ=="), Some(b"M".to_vec()));
    assert_eq!(decode_backup("  TWFu\n"), Some(b"Man".to_vec()));
    assert_eq!(decode_backup("TQ="), None);
    assert_eq!(decode_backup("TQ"), None);
    assert_eq!(decode_backup("TR=="), None);
    assert_eq!(decode_backup("TQ==TQ=="), None);
    assert_eq!(decode_backup("T Q=="), None);
    assert_eq!(decode_backup("TW-u"), None);
    assert_eq!(decode_backup(""), Some(Vec::new()));
    assert_eq!(encode_backup(&[0xff, 0xfe, 0x3f]), "//4/");
}
