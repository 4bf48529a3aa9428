//! Reading peer ids and network addresses, as libp2p reads them.

use crate::text::valid_peer_text;
use vstd::prelude::*;

verus! {

/// The text libp2p writes for the peer id it reads from a text (base58 of
/// the id's bytes), or `None` where it reads none.
pub uninterp spec fn spec_peer_id_text(text: Seq<char>) -> Option<Seq<char>>;

/// Whether libp2p reads a text as a network address.
pub uninterp spec fn spec_address_parses(text: Seq<char>) -> bool;

/// The text of the peer id of the keypair a protobuf encoding holds, or
/// `None` where libp2p reads no keypair from the bytes.
pub uninterp spec fn spec_keypair_peer_id(keypair_protobuf: Seq<u8>) -> Option<Seq<char>>;

/// `libp2p::identity::Keypair::from_protobuf_encoding`, then the `Display`
/// text of `PeerId::from(keypair.public())`. Trusted: the result is the one
/// named `spec_keypair_peer_id` of the bytes (decoding and hashing the public
/// key depend on them alone), and an id text is ASCII and longer than five
/// characters: the crate's ids are multihashes of at least 34 bytes written
/// in base58.
#[verifier::external_body]
pub(crate) fn keypair_peer_id(keypair_protobuf: &[u8]) -> (id: Option<String>)
    ensures
        match id {
            Some(t) => spec_keypair_peer_id(keypair_protobuf@) == Some(t@) && valid_peer_text(t@),
            None => spec_keypair_peer_id(keypair_protobuf@) is None,
        },
{
    match libp2p::identity::Keypair::from_protobuf_encoding(keypair_protobuf) {
        Ok(keypair) => Some(libp2p::PeerId::from(keypair.public()).to_string()),
        Err(_) => None,
    }
}

/// `libp2p::identity::Keypair::generate_ed25519`, as its protobuf encoding.
/// Trusted: the key is random, so only what holds of every outcome is
/// stated: the crate encodes an Ed25519 keypair without fail, and reads the
/// encoding back as a keypair.
#[verifier::external_body]
pub(crate) fn fresh_keypair() -> (keypair_protobuf: Vec<u8>)
    ensures
        spec_keypair_peer_id(keypair_protobuf@) is Some,
{
    libp2p::identity::Keypair::generate_ed25519().to_protobuf_encoding().unwrap()
}

/// `<libp2p::PeerId as FromStr>::from_str`, and on success the id's
/// `Display` text. Trusted: the result is the one named `spec_peer_id_text`
/// of the text (reading base58 and a multihash depends on the text alone).
#[verifier::external_body]
pub(crate) fn peer_id_text(text: &str) -> (id: Option<String>)
    ensures
        match id {
            Some(t) => spec_peer_id_text(text@) == Some(t@),
            None => spec_peer_id_text(text@) is None,
        },
{
    match text.parse::<libp2p::PeerId>() {
        Ok(peer) => Some(peer.to_string()),
        Err(_) => None,
    }
}

/// `<libp2p::Multiaddr as FromStr>::from_str`, whether it succeeds.
/// Trusted: the result is the one named `spec_address_parses` of the text,
/// and a non-empty text that does not start with `/` is refused, as the
/// crate's source shows.
#[verifier::external_body]
pub(crate) fn address_parses(text: &str) -> (ok: bool)
    ensures
        ok == spec_address_parses(text@),
        text@.len() > 0 && text@[0] != '/' ==> !ok,
{
    text.parse::<libp2p::Multiaddr>().is_ok()
}

} // verus!
