//! The messages peers exchange, and how payloads are sealed into them and
//! opened again with a shared secret.

use crate::crypto::{
    spec_decrypt_from, spec_encrypt_from, spec_initial_state, law_decrypt_undoes_encrypt,
    CustomCipher,
};
use crate::encoding::{
    decode_hex_16, hex_decode, hex_encode, spec_hex_decode, spec_hex_encode, law_hex_round_trip,
};
use vstd::prelude::*;

verus! {

/// A call-control signal.
#[derive(Debug, Clone, Copy, PartialEq, Eq, Structural)]
pub enum CallSignalType {
    Dial,
    Accept,
    Decline,
    HangUp,
}

/// What a chat message carries once decrypted. Binary contents travel as
/// base64 text.
#[derive(Debug, Clone)]
pub enum InnerPayload {
    TextMessage { text: String },
    FileTransfer { file_name: String, mime_type: String, file_bytes_base64: String },
    PhotoTransfer { file_name: String, image_bytes_base64: String },
    VideoTransfer { file_name: String, video_bytes_base64: String },
    VoiceNoteTransfer { duration_secs: u32, audio_bytes_base64: String },
}

/// A request or response on the wire.
#[derive(Debug, Clone)]
pub enum MessagePayload {
    HandshakeInit { public_key_hex: String, nonce_hex: String, username: String },
    HandshakeResponse { public_key_hex: String, nonce_hex: String, username: String },
    EncryptedContainer { ciphertext_hex: String, nonce_hex: String },
    CallSignal { signal_type: CallSignalType },
    CallAudioFrame { sequence: u64, audio_data_hex: String },
    Ack,
}

/// How far the connection to a friend has come.
#[derive(Debug, Clone, Copy, PartialEq, Eq, Structural)]
pub enum FriendStatus {
    Disconnected,
    Connecting,
    Connected,
    Securing,
    Secure,
}

/// The ciphertext of `plaintext` under a fresh cipher for `shared_secret` and `nonce`.
pub open spec fn spec_seal(shared_secret: Seq<u8>, nonce: Seq<u8>, plaintext: Seq<u8>) -> Seq<u8> {
    spec_encrypt_from(spec_initial_state(shared_secret, nonce), plaintext).0
}

/// The plaintext of `ciphertext` under a fresh cipher for `shared_secret` and `nonce`.
pub open spec fn spec_unseal(shared_secret: Seq<u8>, nonce: Seq<u8>, ciphertext: Seq<u8>) -> Seq<
    u8,
> {
    spec_decrypt_from(spec_initial_state(shared_secret, nonce), ciphertext).0
}

/// The sixteen zero bytes the receiver of an audio frame uses as its nonce.
pub open spec fn zero_nonce() -> Seq<u8> {
    Seq::new(16, |i: int| 0u8)
}

/// What opening an encrypted container gives: nothing when the ciphertext
/// text is not hex or the nonce text is not the hex of 16 bytes, else the
/// decryption of the ciphertext.
pub open spec fn spec_open_container(
    shared_secret: Seq<u8>,
    ciphertext_hex: Seq<char>,
    nonce_hex: Seq<char>,
) -> Option<Seq<u8>> {
    match (spec_hex_decode(ciphertext_hex), spec_hex_decode(nonce_hex)) {
        (Some(c), Some(n)) => if n.len() == 16 {
            Some(spec_unseal(shared_secret, n, c))
        } else {
            None
        },
        _ => None,
    }
}

/// What opening an audio frame gives: nothing when the text is not hex, else
/// its decryption under the zero nonce.
pub open spec fn spec_open_audio(shared_secret: Seq<u8>, audio_data_hex: Seq<char>) -> Option<
    Seq<u8>,
> {
    match spec_hex_decode(audio_data_hex) {
        Some(c) => Some(spec_unseal(shared_secret, zero_nonce(), c)),
        None => None,
    }
}

/// Encrypts `plaintext` under a fresh cipher for the secret and nonce.
pub fn seal_bytes(shared_secret: &[u8; 32], nonce: &[u8; 16], plaintext: &[u8]) -> (ciphertext:
    Vec<u8>)
    ensures
        ciphertext@ == spec_seal(shared_secret@, nonce@, plaintext@),
{
    let mut cipher = CustomCipher::new(shared_secret, nonce);
    cipher.encrypt(plaintext)
}

/// Decrypts `ciphertext` under a fresh cipher for the secret and nonce.
pub fn unseal_bytes(shared_secret: &[u8; 32], nonce: &[u8; 16], ciphertext: &[u8]) -> (plaintext:
    Vec<u8>)
    ensures
        plaintext@ == spec_unseal(shared_secret@, nonce@, ciphertext@),
{
    let mut cipher = CustomCipher::new(shared_secret, nonce);
    cipher.decrypt(ciphertext)
}

/// The encrypted container for a serialized payload: the hex of its
/// ciphertext and the hex of the nonce.
pub fn seal_container(shared_secret: &[u8; 32], nonce: &[u8; 16], plaintext: &[u8]) -> (msg:
    MessagePayload)
    ensures
        msg matches MessagePayload::EncryptedContainer { ciphertext_hex, nonce_hex } && ciphertext_hex@
            == spec_hex_encode(spec_seal(shared_secret@, nonce@, plaintext@)) && nonce_hex@
            == spec_hex_encode(nonce@),
{
    let ciphertext = seal_bytes(shared_secret, nonce, plaintext);
    MessagePayload::EncryptedContainer {
        ciphertext_hex: hex_encode(ciphertext.as_slice()),
        nonce_hex: hex_encode(nonce.as_slice()),
    }
}

/// Opens the fields of an encrypted container: `None` when the ciphertext
/// is not hex or the nonce is not the hex of 16 bytes.
pub fn open_container(shared_secret: &[u8; 32], ciphertext_hex: &str, nonce_hex: &str) -> (plaintext:
    Option<Vec<u8>>)
    ensures
        plaintext matches Some(p) ==> spec_open_container(shared_secret@, ciphertext_hex@, nonce_hex@)
            == Some(p@),
        plaintext is None ==> spec_open_container(shared_secret@, ciphertext_hex@, nonce_hex@) is None,
{
    let ciphertext = match hex_decode(ciphertext_hex) {
        Some(c) => c,
        None => return None,
    };
    let nonce = match decode_hex_16(nonce_hex) {
        Some(n) => n,
        None => {
            return None;
        },
    };
    Some(unseal_bytes(shared_secret, &nonce, ciphertext.as_slice()))
}

/// An audio frame: the sequence number and the hex of the encrypted samples.
pub fn seal_audio_frame(shared_secret: &[u8; 32], nonce: &[u8; 16], sequence: u64, raw_audio: &[u8]) -> (msg:
    MessagePayload)
    ensures
        msg matches MessagePayload::CallAudioFrame { sequence: s, audio_data_hex } && s == sequence
            && audio_data_hex@ == spec_hex_encode(spec_seal(shared_secret@, nonce@, raw_audio@)),
{
    let ciphertext = seal_bytes(shared_secret, nonce, raw_audio);
    MessagePayload::CallAudioFrame { sequence, audio_data_hex: hex_encode(ciphertext.as_slice()) }
}

/// Opens the samples of an audio frame, decrypting under the zero nonce:
/// `None` when the text is not hex.
pub fn open_audio_frame(shared_secret: &[u8; 32], audio_data_hex: &str) -> (audio: Option<Vec<u8>>)
    ensures
        audio matches Some(a) ==> spec_open_audio(shared_secret@, audio_data_hex@) == Some(a@),
        audio is None ==> spec_open_audio(shared_secret@, audio_data_hex@) is None,
{
    match hex_decode(audio_data_hex) {
        Some(ciphertext) => {
            let nonce: [u8; 16] = [0u8; 16];
            assert(nonce@ =~= zero_nonce());
            Some(unseal_bytes(shared_secret, &nonce, ciphertext.as_slice()))
        },
        None => None,
    }
}

/// A container sealed with a shared secret and a 16-byte nonce opens, with
/// the same secret, to the bytes that were sealed.
pub proof fn law_container_round_trip(shared_secret: Seq<u8>, nonce: Seq<u8>, plaintext: Seq<u8>)
    requires
        nonce.len() == 16,
    ensures
        spec_open_container(
            shared_secret,
            spec_hex_encode(spec_seal(shared_secret, nonce, plaintext)),
            spec_hex_encode(nonce),
        ) == Some(plaintext),
{
    law_hex_round_trip(spec_seal(shared_secret, nonce, plaintext));
    law_hex_round_trip(nonce);
    law_decrypt_undoes_encrypt(spec_initial_state(shared_secret, nonce), plaintext);
}

/// An audio frame sealed with the zero nonce opens, with the same secret, to
/// the samples that were sealed. (The receiver always decrypts under the zero
/// nonce, so a frame sealed under any other nonce does not come back.)
pub proof fn law_audio_round_trip(shared_secret: Seq<u8>, raw_audio: Seq<u8>)
    ensures
        spec_open_audio(
            shared_secret,
            spec_hex_encode(spec_seal(shared_secret, zero_nonce(), raw_audio)),
        ) == Some(raw_audio),
{
    law_hex_round_trip(spec_seal(shared_secret, zero_nonce(), raw_audio));
    law_decrypt_undoes_encrypt(spec_initial_state(shared_secret, zero_nonce()), raw_audio);
}

} // verus!
