//! The sponge-style stream cipher that protects every message and the saved
//! profile: a 64-byte state, stirred and re-hashed before each 32-byte chunk,
//! whose keystream is the SHA-256 of the stirred state and which then absorbs
//! the ciphertext chunk.

use sha2::Digest;
use vstd::prelude::*;

verus! {

/// The SHA-512 digest of a byte string, as the `sha2` crate computes it.
pub uninterp spec fn spec_sha512(data: Seq<u8>) -> Seq<u8>;

/// The SHA-256 digest of a byte string, as the `sha2` crate computes it.
pub uninterp spec fn spec_sha256(data: Seq<u8>) -> Seq<u8>;

/// `sha2::Sha512::digest` on `data`. Trusted: the result is the digest named
/// `spec_sha512` of the input bytes, and it is 64 bytes long (the output size
/// of SHA-512). Feeding a hasher several slices with `update` digests their
/// concatenation, which is what the callers pass here.
#[verifier::external_body]
pub(crate) fn sha512_digest(data: &[u8]) -> (digest: Vec<u8>)
    ensures
        digest@ == spec_sha512(data@),
        digest@.len() == 64,
{
    sha2::Sha512::digest(data).to_vec()
}

/// `sha2::Sha256::digest` on `data`. Trusted: the result is the digest named
/// `spec_sha256` of the input bytes, and it is 32 bytes long (the output size
/// of SHA-256).
#[verifier::external_body]
pub(crate) fn sha256_digest(data: &[u8]) -> (digest: Vec<u8>)
    ensures
        digest@ == spec_sha256(data@),
        digest@.len() == 32,
{
    sha2::Sha256::digest(data).to_vec()
}

/// Multiplier of the linear-congruential stir applied to every state word.
pub const STIR_MULTIPLIER: u64 = 6364136223846793005u64;

/// Increment of the linear-congruential stir applied to every state word.
pub const STIR_INCREMENT: u64 = 1442695040888963407u64;

/// Number of plaintext bytes handled per keystream block.
pub const CHUNK_LEN: usize = 32;

/// The `i`-th little-endian 64-bit word of a state.
pub open spec fn state_word(s: Seq<u8>, i: int) -> u64 {
    (s[8 * i] as u64) | ((s[8 * i + 1] as u64) << 8u64) | ((s[8 * i + 2] as u64) << 16u64) | ((s[8
        * i + 3] as u64) << 24u64) | ((s[8 * i + 4] as u64) << 32u64) | ((s[8 * i + 5] as u64)
        << 40u64) | ((s[8 * i + 6] as u64) << 48u64) | ((s[8 * i + 7] as u64) << 56u64)
}

/// Rotation of a word 17 bits to the left.
pub open spec fn rotl17(x: u64) -> u64 {
    (x << 17u64) | (x >> 47u64)
}

/// One linear-congruential step on a word, modulo 2^64.
pub open spec fn stir(w: u64) -> u64 {
    w.wrapping_mul(STIR_MULTIPLIER).wrapping_add(STIR_INCREMENT)
}

/// The eight words after the mixing pass: word `i` is stirred and xored with
/// the rotation of its successor; the successor of the last word is the first
/// word as already mixed.
pub open spec fn mixed_words(s: Seq<u8>) -> Seq<u64> {
    let first = stir(state_word(s, 0)) ^ rotl17(state_word(s, 1));
    Seq::new(
        8,
        |i: int|
            if i < 7 {
                stir(state_word(s, i)) ^ rotl17(state_word(s, i + 1))
            } else {
                stir(state_word(s, 7)) ^ rotl17(first)
            },
    )
}

/// The little-endian bytes of eight words, word after word.
pub open spec fn words_le_bytes(w: Seq<u64>) -> Seq<u8> {
    Seq::new(64, |j: int| ((w[j / 8] >> ((8 * (j % 8)) as u64)) & 0xffu64) as u8)
}

/// The state after a permutation: the SHA-512 of the mixed words.
pub open spec fn spec_permute(s: Seq<u8>) -> Seq<u8> {
    spec_sha512(words_le_bytes(mixed_words(s)))
}

/// The state a cipher starts from: the SHA-512 of the shared secret followed by the nonce.
pub open spec fn spec_initial_state(shared_secret: Seq<u8>, nonce: Seq<u8>) -> Seq<u8> {
    spec_sha512(shared_secret + nonce)
}

/// Byte-wise exclusive or of `data` with the leading bytes of `keystream`.
pub open spec fn xor_bytes(data: Seq<u8>, keystream: Seq<u8>) -> Seq<u8> {
    Seq::new(data.len(), |i: int| data[i] ^ keystream[i])
}

/// Length of the next chunk when `n` bytes remain.
pub open spec fn chunk_len(n: nat) -> nat {
    if n < CHUNK_LEN {
        n
    } else {
        CHUNK_LEN as nat
    }
}

/// Encryption from a state: the ciphertext and the state afterwards. Each
/// chunk permutes the state, xors the chunk with the SHA-256 of the permuted
/// state, and absorbs the ciphertext chunk into the state by SHA-512.
pub open spec fn spec_encrypt_from(state: Seq<u8>, plaintext: Seq<u8>) -> (Seq<u8>, Seq<u8>)
    decreases plaintext.len(),
{
    if plaintext.len() == 0 {
        (Seq::empty(), state)
    } else {
        let n = chunk_len(plaintext.len());
        let permuted = spec_permute(state);
        let out = xor_bytes(plaintext.take(n as int), spec_sha256(permuted));
        let rest = spec_encrypt_from(spec_sha512(permuted + out), plaintext.skip(n as int));
        (out + rest.0, rest.1)
    }
}

/// Decryption from a state: the plaintext and the state afterwards. Same as
/// encryption, except that the chunk absorbed is the incoming ciphertext.
pub open spec fn spec_decrypt_from(state: Seq<u8>, ciphertext: Seq<u8>) -> (Seq<u8>, Seq<u8>)
    decreases ciphertext.len(),
{
    if ciphertext.len() == 0 {
        (Seq::empty(), state)
    } else {
        let n = chunk_len(ciphertext.len());
        let permuted = spec_permute(state);
        let chunk = ciphertext.take(n as int);
        let out = xor_bytes(chunk, spec_sha256(permuted));
        let rest = spec_decrypt_from(spec_sha512(permuted + chunk), ciphertext.skip(n as int));
        (out + rest.0, rest.1)
    }
}

/// Encryption keeps the length of the message.
pub proof fn lemma_encrypt_len(state: Seq<u8>, plaintext: Seq<u8>)
    ensures
        spec_encrypt_from(state, plaintext).0.len() == plaintext.len(),
    decreases plaintext.len(),
{
    if plaintext.len() > 0 {
        let n = chunk_len(plaintext.len());
        let permuted = spec_permute(state);
        let out = xor_bytes(plaintext.take(n as int), spec_sha256(permuted));
        lemma_encrypt_len(spec_sha512(permuted + out), plaintext.skip(n as int));
    }
}

/// Decryption keeps the length of the message.
pub proof fn lemma_decrypt_len(state: Seq<u8>, ciphertext: Seq<u8>)
    ensures
        spec_decrypt_from(state, ciphertext).0.len() == ciphertext.len(),
    decreases ciphertext.len(),
{
    if ciphertext.len() > 0 {
        let n = chunk_len(ciphertext.len());
        let permuted = spec_permute(state);
        let chunk = ciphertext.take(n as int);
        lemma_decrypt_len(spec_sha512(permuted + chunk), ciphertext.skip(n as int));
    }
}

/// Xoring twice with the same keystream gives the data back.
proof fn lemma_xor_twice(data: Seq<u8>, keystream: Seq<u8>)
    ensures
        xor_bytes(xor_bytes(data, keystream), keystream) == data,
{
    assert forall|i: int| 0 <= i < data.len() implies #[trigger] xor_bytes(
        xor_bytes(data, keystream),
        keystream,
    )[i] == data[i] by {
        let a = data[i];
        let k = keystream[i];
        assert((a ^ k) ^ k == a) by (bit_vector);
    }
    assert(xor_bytes(xor_bytes(data, keystream), keystream) =~= data);
}

/// Decrypting, from the same state, the ciphertext that encryption produced
/// gives back the plaintext, and both sides end in the same state.
pub proof fn law_decrypt_undoes_encrypt(state: Seq<u8>, plaintext: Seq<u8>)
    ensures
        spec_decrypt_from(state, spec_encrypt_from(state, plaintext).0) == (
            plaintext,
            spec_encrypt_from(state, plaintext).1,
        ),
    decreases plaintext.len(),
{
    if plaintext.len() > 0 {
        let n = chunk_len(plaintext.len());
        let permuted = spec_permute(state);
        let keystream = spec_sha256(permuted);
        let out = xor_bytes(plaintext.take(n as int), keystream);
        let next = spec_sha512(permuted + out);
        let rest = spec_encrypt_from(next, plaintext.skip(n as int));
        law_decrypt_undoes_encrypt(next, plaintext.skip(n as int));
        lemma_encrypt_len(next, plaintext.skip(n as int));
        let c = out + rest.0;
        assert(c.len() == plaintext.len());
        assert(c.take(n as int) =~= out);
        assert(c.skip(n as int) =~= rest.0);
        lemma_xor_twice(plaintext.take(n as int), keystream);
        assert(plaintext.take(n as int) + plaintext.skip(n as int) =~= plaintext);
    }
}

/// Encrypting, from the same state, the plaintext that decryption produced
/// gives back the ciphertext, and both sides end in the same state.
pub proof fn law_encrypt_undoes_decrypt(state: Seq<u8>, ciphertext: Seq<u8>)
    ensures
        spec_encrypt_from(state, spec_decrypt_from(state, ciphertext).0) == (
            ciphertext,
            spec_decrypt_from(state, ciphertext).1,
        ),
    decreases ciphertext.len(),
{
    if ciphertext.len() > 0 {
        let n = chunk_len(ciphertext.len());
        let permuted = spec_permute(state);
        let keystream = spec_sha256(permuted);
        let chunk = ciphertext.take(n as int);
        let out = xor_bytes(chunk, keystream);
        let next = spec_sha512(permuted + chunk);
        let rest = spec_decrypt_from(next, ciphertext.skip(n as int));
        law_encrypt_undoes_decrypt(next, ciphertext.skip(n as int));
        lemma_decrypt_len(next, ciphertext.skip(n as int));
        let p = out + rest.0;
        assert(p.len() == ciphertext.len());
        assert(p.take(n as int) =~= out);
        assert(p.skip(n as int) =~= rest.0);
        lemma_xor_twice(chunk, keystream);
        assert(chunk + ciphertext.skip(n as int) =~= ciphertext);
    }
}

/// Two ciphers made from the same shared secret and nonce agree: the second
/// decrypts what the first encrypted, and both end in the same state.
pub proof fn law_same_key_round_trip(shared_secret: Seq<u8>, nonce: Seq<u8>, plaintext: Seq<u8>)
    ensures
        ({
            let start = spec_initial_state(shared_secret, nonce);
            let sent = spec_encrypt_from(start, plaintext);
            spec_decrypt_from(start, sent.0) == (plaintext, sent.1)
        }),
{
    law_decrypt_undoes_encrypt(spec_initial_state(shared_secret, nonce), plaintext);
}

/// Encryption works in chunks of 32 bytes, the last one shorter: from any
/// state, a nonempty message's first min(32, length) bytes come out xored
/// with the SHA-256 of the permuted state, and encryption goes on with the
/// rest of the message from the SHA-512 of the permuted state followed by
/// those ciphertext bytes.
pub proof fn law_encrypt_chunks_of_32(state: Seq<u8>, plaintext: Seq<u8>)
    requires
        plaintext.len() > 0,
    ensures
        ({
            let n: int = if plaintext.len() < 32 { plaintext.len() as int } else { 32 };
            let permuted = spec_permute(state);
            let keystream = spec_sha256(permuted);
            let sent = spec_encrypt_from(state, plaintext);
            let head = sent.0.take(n);
            let rest = spec_encrypt_from(spec_sha512(permuted + head), plaintext.skip(n));
            &&& sent.0.len() == plaintext.len()
            &&& forall|i: int| 0 <= i < n ==> #[trigger] sent.0[i] == plaintext[i] ^ keystream[i]
            &&& sent.0 == head + rest.0
            &&& sent.1 == rest.1
        }),
{
    let n: int = if plaintext.len() < 32 { plaintext.len() as int } else { 32 };
    let permuted = spec_permute(state);
    let keystream = spec_sha256(permuted);
    assert(chunk_len(plaintext.len()) == n);
    let out = xor_bytes(plaintext.take(n), keystream);
    let next = spec_sha512(permuted + out);
    lemma_encrypt_len(state, plaintext);
    lemma_encrypt_len(next, plaintext.skip(n));
    let sent = spec_encrypt_from(state, plaintext);
    assert(sent.0 == out + spec_encrypt_from(next, plaintext.skip(n)).0);
    assert(sent.0.take(n) =~= out);
}

/// Decryption works in the same chunks of 32 bytes, the last one shorter:
/// from any state, a nonempty ciphertext's first min(32, length) bytes come
/// out xored with the SHA-256 of the permuted state, and decryption goes on
/// with the rest from the SHA-512 of the permuted state followed by those
/// ciphertext bytes.
pub proof fn law_decrypt_chunks_of_32(state: Seq<u8>, ciphertext: Seq<u8>)
    requires
        ciphertext.len() > 0,
    ensures
        ({
            let n: int = if ciphertext.len() < 32 { ciphertext.len() as int } else { 32 };
            let permuted = spec_permute(state);
            let keystream = spec_sha256(permuted);
            let got = spec_decrypt_from(state, ciphertext);
            let rest = spec_decrypt_from(
                spec_sha512(permuted + ciphertext.take(n)),
                ciphertext.skip(n),
            );
            &&& got.0.len() == ciphertext.len()
            &&& forall|i: int| 0 <= i < n ==> #[trigger] got.0[i] == ciphertext[i] ^ keystream[i]
            &&& got.0 == got.0.take(n) + rest.0
            &&& got.1 == rest.1
        }),
{
    let n: int = if ciphertext.len() < 32 { ciphertext.len() as int } else { 32 };
    let permuted = spec_permute(state);
    let keystream = spec_sha256(permuted);
    assert(chunk_len(ciphertext.len()) == n);
    let out = xor_bytes(ciphertext.take(n), keystream);
    let next = spec_sha512(permuted + ciphertext.take(n));
    lemma_decrypt_len(state, ciphertext);
    lemma_decrypt_len(next, ciphertext.skip(n));
    let got = spec_decrypt_from(state, ciphertext);
    assert(got.0 == out + spec_decrypt_from(next, ciphertext.skip(n)).0);
    assert(got.0.take(n) =~= out);
}

/// The cipher. Its view is its 64-byte state.
pub struct CustomCipher {
    state: [u8; 64],
}

impl View for CustomCipher {
    type V = Seq<u8>;

    closed spec fn view(&self) -> Seq<u8> {
        self.state@
    }
}

/// Copies 64 bytes into an array.
fn array64_from(v: &Vec<u8>) -> (a: [u8; 64])
    requires
        v@.len() == 64,
    ensures
        a@ == v@,
{
    let mut a: [u8; 64] = [0u8; 64];
    let mut i: usize = 0;
    while i < 64
        invariant
            i <= 64,
            v@.len() == 64,
            forall|j: int| 0 <= j < i ==> a@[j] == v@[j],
        decreases 64 - i,
    {
        a[i] = v[i];
        i = i + 1;
    }
    assert(a@ =~= v@);
    a
}

/// The `i`-th little-endian word of a state.
fn word_at(s: &[u8; 64], i: usize) -> (w: u64)
    requires
        i < 8,
    ensures
        w == state_word(s@, i as int),
{
    let b: usize = 8 * i;
    (s[b] as u64) | ((s[b + 1] as u64) << 8u64) | ((s[b + 2] as u64) << 16u64) | ((s[b + 3] as u64)
        << 24u64) | ((s[b + 4] as u64) << 32u64) | ((s[b + 5] as u64) << 40u64) | ((s[b
        + 6] as u64) << 48u64) | ((s[b + 7] as u64) << 56u64)
}

fn rotate17(x: u64) -> (r: u64)
    ensures
        r == rotl17(x),
{
    (x << 17u64) | (x >> 47u64)
}

fn stir_word(w: u64) -> (r: u64)
    ensures
        r == stir(w),
{
    w.wrapping_mul(STIR_MULTIPLIER).wrapping_add(STIR_INCREMENT)
}

/// The little-endian bytes of eight words.
fn words_to_bytes(words: &Vec<u64>) -> (bytes: Vec<u8>)
    requires
        words@.len() == 8,
    ensures
        bytes@ == words_le_bytes(words@),
{
    let mut bytes: Vec<u8> = Vec::new();
    let mut j: usize = 0;
    while j < 64
        invariant
            j <= 64,
            words@.len() == 8,
            bytes@.len() == j,
            forall|k: int| 0 <= k < j ==> bytes@[k] == words_le_bytes(words@)[k],
        decreases 64 - j,
    {
        let w: u64 = words[j / 8];
        let shift: u64 = (8 * (j % 8)) as u64;
        bytes.push(((w >> shift) & 0xffu64) as u8);
        j = j + 1;
    }
    assert(bytes@ =~= words_le_bytes(words@));
    bytes
}

/// Byte-wise exclusive or of `data[start..end]` with the leading bytes of `keystream`.
fn xor_chunk(data: &[u8], start: usize, end: usize, keystream: &Vec<u8>) -> (out: Vec<u8>)
    requires
        start <= end <= data@.len(),
        end - start <= keystream@.len(),
    ensures
        out@ == xor_bytes(data@.subrange(start as int, end as int), keystream@),
{
    let mut out: Vec<u8> = Vec::new();
    let mut i: usize = start;
    while i < end
        invariant
            start <= i <= end,
            end <= data@.len(),
            end - start <= keystream@.len(),
            out@.len() == i - start,
            forall|k: int|
                0 <= k < i - start ==> out@[k] == data@[start + k] ^ keystream@[k],
        decreases end - i,
    {
        out.push(data[i] ^ keystream[i - start]);
        i = i + 1;
    }
    assert(out@ =~= xor_bytes(data@.subrange(start as int, end as int), keystream@));
    out
}

/// `prefix` followed by `suffix`, as a new vector.
fn concat_bytes(prefix: &[u8], suffix: &[u8]) -> (out: Vec<u8>)
    ensures
        out@ == prefix@ + suffix@,
{
    let mut out: Vec<u8> = Vec::new();
    let mut i: usize = 0;
    while i < prefix.len()
        invariant
            i <= prefix@.len(),
            out@ == prefix@.take(i as int),
        decreases prefix@.len() - i,
    {
        out.push(prefix[i]);
        i = i + 1;
        assert(out@ =~= prefix@.take(i as int));
    }
    let mut j: usize = 0;
    while j < suffix.len()
        invariant
            j <= suffix@.len(),
            out@ == prefix@ + suffix@.take(j as int),
        decreases suffix@.len() - j,
    {
        out.push(suffix[j]);
        j = j + 1;
        assert(out@ =~= prefix@ + suffix@.take(j as int));
    }
    assert(suffix@.take(suffix@.len() as int) =~= suffix@);
    assert(prefix@.take(prefix@.len() as int) =~= prefix@);
    out
}

/// One chunk of `spec_encrypt_from` on the bytes of `p` from `start` on.
proof fn lemma_encrypt_unfold(state: Seq<u8>, p: Seq<u8>, start: int, end: int)
    requires
        0 <= start < end <= p.len(),
        end - start == chunk_len((p.len() - start) as nat),
    ensures
        spec_encrypt_from(state, p.skip(start)) == ({
            let out = xor_bytes(p.subrange(start, end), spec_sha256(spec_permute(state)));
            let rest = spec_encrypt_from(spec_sha512(spec_permute(state) + out), p.skip(end));
            (out + rest.0, rest.1)
        }),
{
    let rest = p.skip(start);
    assert(rest.take(end - start) =~= p.subrange(start, end));
    assert(rest.skip(end - start) =~= p.skip(end));
}

/// One chunk of `spec_decrypt_from` on the bytes of `c` from `start` on.
proof fn lemma_decrypt_unfold(state: Seq<u8>, c: Seq<u8>, start: int, end: int)
    requires
        0 <= start < end <= c.len(),
        end - start == chunk_len((c.len() - start) as nat),
    ensures
        spec_decrypt_from(state, c.skip(start)) == ({
            let chunk = c.subrange(start, end);
            let out = xor_bytes(chunk, spec_sha256(spec_permute(state)));
            let rest = spec_decrypt_from(spec_sha512(spec_permute(state) + chunk), c.skip(end));
            (out + rest.0, rest.1)
        }),
{
    let rest = c.skip(start);
    assert(rest.take(end - start) =~= c.subrange(start, end));
    assert(rest.skip(end - start) =~= c.skip(end));
}

impl CustomCipher {
    /// A cipher keyed by a 32-byte shared secret and a 16-byte nonce: its
    /// state is the SHA-512 of the secret followed by the nonce.
    pub fn new(shared_secret: &[u8; 32], nonce: &[u8; 16]) -> (cipher: Self)
        ensures
            cipher@ == spec_initial_state(shared_secret@, nonce@),
    {
        let seed = concat_bytes(shared_secret.as_slice(), nonce.as_slice());
        let hash = sha512_digest(seed.as_slice());
        CustomCipher { state: array64_from(&hash) }
    }

    /// Mixes the state words and replaces the state by the SHA-512 of the result.
    fn permute(&mut self)
        ensures
            final(self)@ == spec_permute(old(self)@),
    {
        let w0 = word_at(&self.state, 0);
        let w1 = word_at(&self.state, 1);
        let w2 = word_at(&self.state, 2);
        let w3 = word_at(&self.state, 3);
        let w4 = word_at(&self.state, 4);
        let w5 = word_at(&self.state, 5);
        let w6 = word_at(&self.state, 6);
        let w7 = word_at(&self.state, 7);
        let m0 = stir_word(w0) ^ rotate17(w1);
        let m1 = stir_word(w1) ^ rotate17(w2);
        let m2 = stir_word(w2) ^ rotate17(w3);
        let m3 = stir_word(w3) ^ rotate17(w4);
        let m4 = stir_word(w4) ^ rotate17(w5);
        let m5 = stir_word(w5) ^ rotate17(w6);
        let m6 = stir_word(w6) ^ rotate17(w7);
        let m7 = stir_word(w7) ^ rotate17(m0);
        let mut words: Vec<u64> = Vec::new();
        words.push(m0);
        words.push(m1);
        words.push(m2);
        words.push(m3);
        words.push(m4);
        words.push(m5);
        words.push(m6);
        words.push(m7);
        assert(words@ =~= mixed_words(self.state@));
        let bytes = words_to_bytes(&words);
        let hash = sha512_digest(bytes.as_slice());
        self.state = array64_from(&hash);
    }

    /// One chunk: permute, xor `data[start..end]` with the keystream, and
    /// absorb the ciphertext chunk (the output when encrypting, the input when
    /// decrypting). Returns the output chunk.
    fn process_chunk(&mut self, data: &[u8], start: usize, end: usize, encrypting: bool) -> (out:
        Vec<u8>)
        requires
            start < end <= data@.len(),
            end - start <= CHUNK_LEN,
        ensures
            out@ == xor_bytes(
                data@.subrange(start as int, end as int),
                spec_sha256(spec_permute(old(self)@)),
            ),
            final(self)@ == spec_sha512(
                spec_permute(old(self)@) + (if encrypting {
                    out@
                } else {
                    data@.subrange(start as int, end as int)
                }),
            ),
    {
        self.permute();
        let keystream = sha256_digest(self.state.as_slice());
        let out = xor_chunk(data, start, end, &keystream);
        let absorbed = if encrypting {
            concat_bytes(self.state.as_slice(), out.as_slice())
        } else {
            let chunk = concat_bytes(&[], &data[start..end]);
            concat_bytes(self.state.as_slice(), chunk.as_slice())
        };
        let hash = sha512_digest(absorbed.as_slice());
        self.state = array64_from(&hash);
        out
    }

    /// Encrypts `plaintext` chunk by chunk, advancing the state.
    pub fn encrypt(&mut self, plaintext: &[u8]) -> (ciphertext: Vec<u8>)
        ensures
            (ciphertext@, final(self)@) == spec_encrypt_from(old(self)@, plaintext@),
    {
        let mut ciphertext: Vec<u8> = Vec::new();
        let len = plaintext.len();
        let mut start: usize = 0;
        assert(plaintext@.skip(0) =~= plaintext@);
        assert(ciphertext@ + spec_encrypt_from(self@, plaintext@).0 =~= spec_encrypt_from(
            self@,
            plaintext@,
        ).0);
        while start < len
            invariant
                start <= len,
                len == plaintext@.len(),
                spec_encrypt_from(old(self)@, plaintext@) == (ciphertext@ + spec_encrypt_from(
                    self@,
                    plaintext@.skip(start as int),
                ).0, spec_encrypt_from(self@, plaintext@.skip(start as int)).1),
            decreases len - start,
        {
            let end: usize = if len - start < CHUNK_LEN {
                len
            } else {
                start + CHUNK_LEN
            };
            proof {
                lemma_encrypt_unfold(self@, plaintext@, start as int, end as int);
            }
            let chunk_out = self.process_chunk(plaintext, start, end, true);
            let mut k: usize = 0;
            let ghost prior = ciphertext@;
            while k < chunk_out.len()
                invariant
                    k <= chunk_out@.len(),
                    ciphertext@ == prior + chunk_out@.take(k as int),
                decreases chunk_out@.len() - k,
            {
                ciphertext.push(chunk_out[k]);
                k = k + 1;
                assert(ciphertext@ =~= prior + chunk_out@.take(k as int));
            }
            proof {
                assert(chunk_out@.take(chunk_out@.len() as int) =~= chunk_out@);
                let tail = spec_encrypt_from(self@, plaintext@.skip(end as int));
                assert(prior + (chunk_out@ + tail.0) =~= (prior + chunk_out@) + tail.0);
            }
            start = end;
        }
        proof {
            assert(plaintext@.skip(len as int) =~= Seq::<u8>::empty());
            assert(ciphertext@ + Seq::<u8>::empty() =~= ciphertext@);
        }
        ciphertext
    }

    /// Decrypts `ciphertext` chunk by chunk, advancing the state.
    pub fn decrypt(&mut self, ciphertext: &[u8]) -> (plaintext: Vec<u8>)
        ensures
            (plaintext@, final(self)@) == spec_decrypt_from(old(self)@, ciphertext@),
    {
        let mut plaintext: Vec<u8> = Vec::new();
        let len = ciphertext.len();
        let mut start: usize = 0;
        assert(ciphertext@.skip(0) =~= ciphertext@);
        assert(plaintext@ + spec_decrypt_from(self@, ciphertext@).0 =~= spec_decrypt_from(
            self@,
            ciphertext@,
        ).0);
        while start < len
            invariant
                start <= len,
                len == ciphertext@.len(),
                spec_decrypt_from(old(self)@, ciphertext@) == (plaintext@ + spec_decrypt_from(
                    self@,
                    ciphertext@.skip(start as int),
                ).0, spec_decrypt_from(self@, ciphertext@.skip(start as int)).1),
            decreases len - start,
        {
            let end: usize = if len - start < CHUNK_LEN {
                len
            } else {
                start + CHUNK_LEN
            };
            proof {
                lemma_decrypt_unfold(self@, ciphertext@, start as int, end as int);
            }
            let chunk_out = self.process_chunk(ciphertext, start, end, false);
            let mut k: usize = 0;
            let ghost prior = plaintext@;
            while k < chunk_out.len()
                invariant
                    k <= chunk_out@.len(),
                    plaintext@ == prior + chunk_out@.take(k as int),
                decreases chunk_out@.len() - k,
            {
                plaintext.push(chunk_out[k]);
                k = k + 1;
                assert(plaintext@ =~= prior + chunk_out@.take(k as int));
            }
            proof {
                assert(chunk_out@.take(chunk_out@.len() as int) =~= chunk_out@);
                let tail = spec_decrypt_from(self@, ciphertext@.skip(end as int));
                assert(prior + (chunk_out@ + tail.0) =~= (prior + chunk_out@) + tail.0);
            }
            start = end;
        }
        proof {
            assert(ciphertext@.skip(len as int) =~= Seq::<u8>::empty());
            assert(plaintext@ + Seq::<u8>::empty() =~= plaintext@);
        }
        plaintext
    }
}

} // verus!
