use noto_m::crypto::CustomCipher;
use noto_m::protocol::{open_audio_frame, open_container, seal_audio_frame, seal_bytes, seal_container, unseal_bytes, MessagePayload};
use sha2::{Digest, Sha256, Sha512};

/// The cipher written out step by step with the `sha2` crate, word for word
/// as the protocol describes it, to compare against.
struct Reference {
    state: [u8; 64],
}

impl Reference {
    fn new(secret: &[u8; 32], nonce: &[u8; 16]) -> Self {
        let mut h = Sha512::new();
        h.update(secret);
        h.update(nonce);
        let mut state = [0u8; 64];
        state.copy_from_slice(&h.finalize());
        Reference { state }
    }

    fn permute(&mut self) {
        let mut words = [0u64; 8];
        for i in 0..8 {
            words[i] = u64::from_le_bytes(self.state[i * 8..(i + 1) * 8].try_into().unwrap());
        }
        for i in 0..8 {
            words[i] = words[i]
                .wrapping_mul(6364136223846793005)
                .wrapping_add(1442695040888963407);
            words[i] ^= words[(i + 1) % 8].rotate_left(17);
        }
        for i in 0..8 {
            self.state[i * 8..(i + 1) * 8].copy_from_slice(&words[i].to_le_bytes());
        }
        let mut h = Sha512::new();
        h.update(self.state);
        self.state.copy_from_slice(&h.finalize());
    }

    fn run(&mut self, input: &[u8], encrypting: bool) -> Vec<u8> {
        let mut out = Vec::new();
        for chunk in input.chunks(32) {
            self.permute();
            let mut h = Sha256::new();
            h.update(self.state);
            let ks = h.finalize();
            let piece: Vec<u8> = chunk.iter().zip(ks.iter()).map(|(a, b)| a ^ b).collect();
            out.extend_from_slice(&piece);
            let mut h = Sha512::new();
            h.update(self.state);
            if encrypting {
                h.update(&piece);
            } else {
                h.update(chunk);
            }
            self.state.copy_from_slice(&h.finalize());
        }
        out
    }
}

fn secret() -> [u8; 32] {
    let mut s = [0u8; 32];
    for (i, b) in s.iter_mut().enumerate() {
        *b = (i as u8).wrapping_mul(7).wrapping_add(3);
    }
    s
}

fn nonce() -> [u8; 16] {
    let mut n = [0u8; 16];
    for (i, b) in n.iter_mut().enumerate() {
        *b = 200 - i as u8;
    }
    n
}

#[test]
fn encrypt_matches_reference_for_many_lengths() {
    for len in [0usize, 1, 5, 31, 32, 33, 64, 65, 100, 257] {
        let plaintext: Vec<u8> = (0..len).map(|i| (i * 13 % 251) as u8).collect();
        let mut ours = CustomCipher::new(&secret(), &nonce());
        let mut theirs = Reference::new(&secret(), &nonce());
        assert_eq!(ours.encrypt(&plaintext), theirs.run(&plaintext, true), "length {}", len);
        // the states stay in step: a second message matches too
        assert_eq!(ours.encrypt(b"again"), theirs.run(b"again", true));
    }
}

#[test]
fn decrypt_matches_reference() {
    let ciphertext: Vec<u8> = (0..77u32).map(|i| (i * 31 % 256) as u8).collect();
    let mut ours = CustomCipher::new(&secret(), &nonce());
    let mut theirs = Reference::new(&secret(), &nonce());
    assert_eq!(ours.decrypt(&ciphertext), theirs.run(&ciphertext, false));
}

#[test]
fn decrypt_undoes_encrypt() {
    for len in [0usize, 1, 32, 33, 1000] {
        let plaintext: Vec<u8> = (0..len).map(|i| (i % 256) as u8).collect();
        let mut sender = CustomCipher::new(&secret(), &nonce());
        let mut receiver = CustomCipher::new(&secret(), &nonce());
        let ciphertext = sender.encrypt(&plaintext);
        assert_eq!(ciphertext.len(), plaintext.len());
        assert_eq!(receiver.decrypt(&ciphertext), plaintext);
        // both ends are in the same state afterwards
        let next = sender.encrypt(b"follow-up");
        assert_eq!(receiver.decrypt(&next), b"follow-up".to_vec());
    }
}

#[test]
fn ciphertext_depends_on_key_and_nonce() {
    let plaintext = b"hello there, friend";
    let base = seal_bytes(&secret(), &nonce(), plaintext);
    assert_ne!(base, plaintext.to_vec());
    let mut other_nonce = nonce();
    other_nonce[0] ^= 1;
    assert_ne!(seal_bytes(&secret(), &other_nonce, plaintext), base);
    let mut other_secret = secret();
    other_secret[31] ^= 0x80;
    assert_ne!(seal_bytes(&other_secret, &nonce(), plaintext), base);
    assert_eq!(unseal_bytes(&secret(), &nonce(), &base), plaintext.to_vec());
}

#[test]
fn container_round_trip() {
    let msg = seal_container(&secret(), &nonce(), b"{\"TextMessage\":{\"text\":\"hi\"}}");
    match msg {
        MessagePayload::EncryptedContainer { ciphertext_hex, nonce_hex } => {
            assert_eq!(nonce_hex, hex::encode(nonce()));
            assert_eq!(ciphertext_hex.len(), 2 * 29);
            let opened = open_container(&secret(), &ciphertext_hex, &nonce_hex);
            assert_eq!(opened, Some(b"{\"TextMessage\":{\"text\":\"hi\"}}".to_vec()));
        }
        other => panic!("unexpected {:?}", other),
    }
}

#[test]
fn container_with_bad_fields_does_not_open() {
    assert_eq!(open_container(&secret(), "zz", &hex::encode(nonce())), None);
    assert_eq!(open_container(&secret(), "abc", &hex::encode(nonce())), None);
    assert_eq!(open_container(&secret(), "abcd", "00ff"), None);
    assert_eq!(open_container(&secret(), "", &hex::encode(nonce())), Some(vec![]));
}

#[test]
fn audio_frame_round_trip_with_zero_nonce_only() {
    let raw = vec![1u8, 2, 3, 4, 5, 6, 7, 8, 9];
    let zero = [0u8; 16];
    match seal_audio_frame(&secret(), &zero, 42, &raw) {
        MessagePayload::CallAudioFrame { sequence, audio_data_hex } => {
            assert_eq!(sequence, 42);
            assert_eq!(open_audio_frame(&secret(), &audio_data_hex), Some(raw.clone()));
        }
        other => panic!("unexpected {:?}", other),
    }
    // The receiver decrypts under the zero nonce, so a frame sealed under
    // another nonce comes out scrambled.
    match seal_audio_frame(&secret(), &nonce(), 43, &raw) {
        MessagePayload::CallAudioFrame { audio_data_hex, .. } => {
            let opened = open_audio_frame(&secret(), &audio_data_hex).unwrap();
            assert_eq!(opened.len(), raw.len());
            assert_ne!(opened, raw);
        }
        other => panic!("unexpected {:?}", other),
    }
    assert_eq!(open_audio_frame(&secret(), "not hex"), None);
}

#[test]
fn encrypt_undoes_decrypt() {
    let ciphertext: Vec<u8> = (0..70u32).map(|i| (i * 97 % 256) as u8).collect();
    let mut a = CustomCipher::new(&secret(), &nonce());
    let mut b = CustomCipher::new(&secret(), &nonce());
    let plaintext = a.decrypt(&ciphertext);
    assert_eq!(plaintext.len(), ciphertext.len());
    assert_eq!(b.encrypt(&plaintext), ciphertext);
    assert_eq!(a.encrypt(b"next"), b.encrypt(b"next"));
}
