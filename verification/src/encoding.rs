//! Text encodings of binary values: lowercase hex (keys, nonces and
//! ciphertexts on the wire) and standard base64 (invite codes, backups and
//! attachments).

use base64::Engine;
use crate::text::is_white_space;
use vstd::prelude::*;

verus! {

/// The lowercase hex digit of a value below 16.
pub open spec fn hex_digit(v: int) -> char {
    seq!['0', '1', '2', '3', '4', '5', '6', '7', '8', '9', 'a', 'b', 'c', 'd', 'e', 'f'][v]
}

/// The value of a hex digit of either case, or -1 for any other character.
pub open spec fn hex_value(c: char) -> int {
    if '0' <= c && c <= '9' {
        c as int - '0' as int
    } else if 'a' <= c && c <= 'f' {
        c as int - 'a' as int + 10
    } else if 'A' <= c && c <= 'F' {
        c as int - 'A' as int + 10
    } else {
        -1
    }
}

/// Hex text of bytes: two lowercase digits per byte, high nibble first.
pub open spec fn spec_hex_encode(data: Seq<u8>) -> Seq<char> {
    Seq::new(
        2 * data.len(),
        |i: int|
            if i % 2 == 0 {
                hex_digit(data[i / 2] as int / 16)
            } else {
                hex_digit(data[i / 2] as int % 16)
            },
    )
}

/// The bytes a hex text stands for: `None` when its length is odd or one of
/// its characters is not a hex digit (either case is accepted).
pub open spec fn spec_hex_decode(text: Seq<char>) -> Option<Seq<u8>> {
    if text.len() % 2 != 0 {
        None
    } else if exists|i: int| 0 <= i < text.len() && hex_value(#[trigger] text[i]) < 0 {
        None
    } else {
        Some(
            Seq::new(
                text.len() / 2,
                |i: int| (hex_value(text[2 * i]) * 16 + hex_value(text[2 * i + 1])) as u8,
            ),
        )
    }
}

/// `hex::encode`. Trusted: the text is two lowercase hex digits per byte,
/// high nibble first, as the crate's documentation and source give it.
#[verifier::external_body]
pub(crate) fn hex_encode(data: &[u8]) -> (text: String)
    ensures
        text@ == spec_hex_encode(data@),
{
    hex::encode(data)
}

/// `hex::decode`, with the crate's error mapped to `None`. Trusted: an odd
/// length or a character that is not a hex digit of either case is an error;
/// otherwise each pair of digits gives one byte, high nibble first.
#[verifier::external_body]
pub(crate) fn hex_decode(text: &str) -> (data: Option<Vec<u8>>)
    ensures
        match data {
            Some(d) => spec_hex_decode(text@) == Some(d@),
            None => spec_hex_decode(text@) is None,
        },
{
    hex::decode(text).ok()
}

/// Hex-decoding what hex encoding produced gives the bytes back.
pub proof fn law_hex_round_trip(data: Seq<u8>)
    ensures
        spec_hex_decode(spec_hex_encode(data)) == Some(data),
{
    let text = spec_hex_encode(data);
    assert forall|i: int| 0 <= i < text.len() implies hex_value(#[trigger] text[i]) == (if i % 2
        == 0 {
        data[i / 2] as int / 16
    } else {
        data[i / 2] as int % 16
    }) by {
        let b = data[i / 2] as int;
        assert(0 <= b / 16 < 16 && 0 <= b % 16 < 16);
        let v: int = if i % 2 == 0 { b / 16 } else { b % 16 };
        assert(0 <= v < 16);
        assert(hex_value(hex_digit(v)) == v) by {
            if v == 0 {} else if v == 1 {} else if v == 2 {} else if v == 3 {} else if v == 4 {}
            else if v == 5 {} else if v == 6 {} else if v == 7 {} else if v == 8 {} else if v == 9 {}
            else if v == 10 {} else if v == 11 {} else if v == 12 {} else if v == 13 {}
            else if v == 14 {} else {}
        }
    }
    assert(!(exists|i: int| 0 <= i < text.len() && hex_value(#[trigger] text[i]) < 0));
    let decoded = Seq::new(
        text.len() / 2,
        |i: int| (hex_value(text[2 * i]) * 16 + hex_value(text[2 * i + 1])) as u8,
    );
    assert forall|i: int| 0 <= i < data.len() implies #[trigger] decoded[i] == data[i] by {
        assert(hex_value(text[2 * i]) == data[i] as int / 16);
        assert(hex_value(text[2 * i + 1]) == data[i] as int % 16);
    }
    assert(decoded =~= data);
}

/// Decodes hex text that must stand for exactly 32 bytes (a public key).
pub fn decode_hex_32(text: &str) -> (key: Option<[u8; 32]>)
    ensures
        match key {
            Some(k) => spec_hex_decode(text@) == Some(k@),
            None => !(spec_hex_decode(text@) matches Some(d) && d.len() == 32),
        },
{
    match hex_decode(text) {
        Some(bytes) => {
            if bytes.len() == 32 {
                let mut key: [u8; 32] = [0u8; 32];
                let mut i: usize = 0;
                while i < 32
                    invariant
                        i <= 32,
                        bytes@.len() == 32,
                        forall|j: int| 0 <= j < i ==> key@[j] == bytes@[j],
                    decreases 32 - i,
                {
                    key[i] = bytes[i];
                    i = i + 1;
                }
                assert(key@ =~= bytes@);
                Some(key)
            } else {
                None
            }
        },
        None => None,
    }
}

/// Decodes hex text that must stand for exactly 16 bytes (a nonce).
pub fn decode_hex_16(text: &str) -> (nonce: Option<[u8; 16]>)
    ensures
        match nonce {
            Some(n) => spec_hex_decode(text@) == Some(n@),
            None => !(spec_hex_decode(text@) matches Some(d) && d.len() == 16),
        },
{
    match hex_decode(text) {
        Some(bytes) => {
            if bytes.len() == 16 {
                let mut nonce: [u8; 16] = [0u8; 16];
                let mut i: usize = 0;
                while i < 16
                    invariant
                        i <= 16,
                        bytes@.len() == 16,
                        forall|j: int| 0 <= j < i ==> nonce@[j] == bytes@[j],
                    decreases 16 - i,
                {
                    nonce[i] = bytes[i];
                    i = i + 1;
                }
                assert(nonce@ =~= bytes@);
                Some(nonce)
            } else {
                None
            }
        },
        None => None,
    }
}

/// The character of the standard base64 alphabet for a value below 64:
/// `A`-`Z`, `a`-`z`, `0`-`9`, `+`, `/`.
pub open spec fn base64_digit(v: int) -> char {
    if v < 26 {
        ('A' as int + v) as char
    } else if v < 52 {
        ('a' as int + (v - 26)) as char
    } else if v < 62 {
        ('0' as int + (v - 52)) as char
    } else if v == 62 {
        '+'
    } else {
        '/'
    }
}

/// The standard-alphabet, padded base64 text of bytes: each group of three
/// bytes gives four characters of six bits each, high bits first; a last
/// group of one or two bytes is filled with zero bits and padded with `=` to
/// four characters.
pub open spec fn spec_base64_encode(data: Seq<u8>) -> Seq<char>
    decreases data.len(),
{
    if data.len() == 0 {
        Seq::empty()
    } else if data.len() == 1 {
        let b0 = data[0] as int;
        seq![base64_digit(b0 / 4), base64_digit((b0 % 4) * 16), '=', '=']
    } else if data.len() == 2 {
        let b0 = data[0] as int;
        let b1 = data[1] as int;
        seq![
            base64_digit(b0 / 4),
            base64_digit((b0 % 4) * 16 + b1 / 16),
            base64_digit((b1 % 16) * 4),
            '=',
        ]
    } else {
        let b0 = data[0] as int;
        let b1 = data[1] as int;
        let b2 = data[2] as int;
        seq![
            base64_digit(b0 / 4),
            base64_digit((b0 % 4) * 16 + b1 / 16),
            base64_digit((b1 % 16) * 4 + b2 / 64),
            base64_digit(b2 % 64),
        ] + spec_base64_encode(data.subrange(3, data.len() as int))
    }
}

/// No character of base64 text is white space.
pub proof fn lemma_base64_text_not_white(data: Seq<u8>)
    ensures
        forall|j: int|
            0 <= j < spec_base64_encode(data).len() ==> !is_white_space(
                #[trigger] spec_base64_encode(data)[j],
            ),
    decreases data.len(),
{
    assert forall|v: int| 0 <= v < 64 implies !is_white_space(#[trigger] base64_digit(v)) by {
        if v < 26 {
            assert(('A' as int + v) as char as int == 65 + v);
        } else if v < 52 {
            assert(('a' as int + (v - 26)) as char as int == 71 + v);
        } else if v < 62 {
            assert(('0' as int + (v - 52)) as char as int == v - 4);
        }
    }
    let text = spec_base64_encode(data);
    if data.len() == 0 {
    } else if data.len() == 1 {
        let b0 = data[0] as int;
        assert(0 <= b0 / 4 < 64 && 0 <= (b0 % 4) * 16 < 64);
        assert forall|j: int| 0 <= j < text.len() implies !is_white_space(#[trigger] text[j]) by {
            if j == 0 {
            } else if j == 1 {
            }
        }
    } else if data.len() == 2 {
        let b0 = data[0] as int;
        let b1 = data[1] as int;
        assert(0 <= b0 / 4 < 64 && 0 <= (b0 % 4) * 16 + b1 / 16 < 64 && 0 <= (b1 % 16) * 4 < 64);
        assert forall|j: int| 0 <= j < text.len() implies !is_white_space(#[trigger] text[j]) by {
            if j == 0 {
            } else if j == 1 {
            } else if j == 2 {
            }
        }
    } else {
        let b0 = data[0] as int;
        let b1 = data[1] as int;
        let b2 = data[2] as int;
        assert(0 <= b0 / 4 < 64 && 0 <= (b0 % 4) * 16 + b1 / 16 < 64);
        assert(0 <= (b1 % 16) * 4 + b2 / 64 < 64 && 0 <= b2 % 64 < 64);
        let rest = data.subrange(3, data.len() as int);
        lemma_base64_text_not_white(rest);
        assert forall|j: int| 0 <= j < text.len() implies !is_white_space(#[trigger] text[j]) by {
            if j == 0 {
            } else if j == 1 {
            } else if j == 2 {
            } else if j == 3 {
            } else {
                assert(text[j] == spec_base64_encode(rest)[j - 4]);
            }
        }
    }
}

/// The bytes a text stands for in standard-alphabet, padded base64: those
/// whose encoding it is, or `None` when it is the encoding of no bytes.
pub open spec fn spec_base64_decode(text: Seq<char>) -> Option<Seq<u8>> {
    if exists|b: Seq<u8>| #[trigger] spec_base64_encode(b) == text {
        Some(choose|b: Seq<u8>| #[trigger] spec_base64_encode(b) == text)
    } else {
        None
    }
}

/// `base64::engine::general_purpose::STANDARD.encode`. Trusted: the text is
/// the padded standard base64 of the bytes, `spec_base64_encode`. The crate
/// panics when the encoded length overflows `usize`, which the bound on the
/// length excludes.
#[verifier::external_body]
pub(crate) fn base64_encode(data: &[u8]) -> (text: String)
    requires
        data@.len() <= (usize::MAX / 4) * 3,
    ensures
        text@ == spec_base64_encode(data@),
{
    base64::engine::general_purpose::STANDARD.encode(data)
}

/// `base64::engine::general_purpose::STANDARD.decode`, with the crate's error
/// mapped to `None`. Trusted: the crate accepts exactly the texts its
/// encoder writes and gives back the bytes they were written for. With this
/// engine's settings it refuses any character outside the alphabet, padding
/// that is not canonical, and filler bits that are not zero, and every quad
/// it reads decodes to the bytes it encodes.
#[verifier::external_body]
fn standard_base64_decode(text: &str) -> (data: Option<Vec<u8>>)
    ensures
        data is Some ==> spec_base64_encode(data->0@) == text@,
        data is None ==> forall|b: Seq<u8>| #[trigger] spec_base64_encode(b) != text@,
        forall|b: Seq<u8>| #[trigger] spec_base64_encode(b) == text@ ==> data is Some && data->0@ == b,
{
    base64::engine::general_purpose::STANDARD.decode(text).ok()
}

/// The bytes a standard base64 text stands for, or `None` when it is the
/// encoding of no bytes.
pub(crate) fn base64_decode(text: &str) -> (data: Option<Vec<u8>>)
    ensures
        match data {
            Some(d) => spec_base64_decode(text@) == Some(d@),
            None => spec_base64_decode(text@) is None,
        },
        forall|b: Seq<u8>| #[trigger] spec_base64_encode(b) == text@ ==> data is Some && data->0@ == b,
{
    let data = standard_base64_decode(text);
    proof {
        if data is Some {
            let c = choose|b: Seq<u8>| #[trigger] spec_base64_encode(b) == text@;
            assert(spec_base64_encode(data->0@) == text@);
            assert(spec_base64_encode(c) == text@);
        }
    }
    data
}

} // verus!
