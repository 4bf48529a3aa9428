//! The decisions of the network service. Each event from the swarm or
//! command from the interface is turned, against the session's key tables,
//! into the list of actions the service performs in order: events for the
//! interface, requests and responses on the wire, and dials.

use crate::encoding::{
    base64_decode, base64_encode, decode_hex_32, lemma_base64_text_not_white, spec_base64_encode, hex_encode, spec_base64_decode, spec_hex_decode, spec_hex_encode,
};
use crate::protocol::{
    open_audio_frame, open_container, seal_audio_frame, seal_container, spec_open_audio,
    spec_open_container, spec_seal, CallSignalType, FriendStatus, InnerPayload, MessagePayload,
};
use crate::peer::{
    address_parses, keypair_peer_id, peer_id_text, spec_address_parses, spec_keypair_peer_id,
    spec_peer_id_text,
};
use crate::table::PeerTable;
use crate::text::{
    default_username, default_username_of, join_text, lemma_trim_without_white, spec_trim, trim_text,
    valid_peer_text,
};
use rand::RngCore;
use vstd::prelude::*;

verus! {

#[verifier::external_type_specification]
#[verifier::external_body]
pub struct ExEphemeralSecret(x25519_dalek::EphemeralSecret);

/// Sixteen bytes from `rand::thread_rng().fill_bytes`. Nothing is promised
/// of them: they are random.
#[verifier::external_body]
pub(crate) fn random_nonce() -> (nonce: [u8; 16]) {
    let mut nonce = [0u8; 16];
    rand::thread_rng().fill_bytes(&mut nonce);
    nonce
}

/// `x25519_dalek::EphemeralSecret::random_from_rng(OsRng)`: a fresh secret.
/// Nothing is promised of it: it is random and opaque.
#[verifier::external_body]
pub(crate) fn fresh_ephemeral_secret() -> (secret: x25519_dalek::EphemeralSecret) {
    x25519_dalek::EphemeralSecret::random_from_rng(&mut rand::rngs::OsRng)
}

/// The 32 bytes of the X25519 public key of an ephemeral secret
/// (`PublicKey::from(&secret)`): the secret's clamped scalar times the base
/// point.
pub uninterp spec fn spec_x25519_public(secret: x25519_dalek::EphemeralSecret) -> Seq<u8>;

/// The 32 bytes of the X25519 agreement of an ephemeral secret with a peer's
/// public key given by its bytes (`EphemeralSecret::diffie_hellman`).
pub uninterp spec fn spec_x25519_shared(
    secret: x25519_dalek::EphemeralSecret,
    their_public: Seq<u8>,
) -> Seq<u8>;

/// `x25519_dalek::PublicKey::from(&secret)` as its 32 bytes. Trusted: the
/// key is the one named `spec_x25519_public` of the secret (a function of
/// the secret alone).
#[verifier::external_body]
pub(crate) fn ephemeral_public_key(secret: &x25519_dalek::EphemeralSecret) -> (key: [u8; 32])
    ensures
        key@ == spec_x25519_public(*secret),
{
    x25519_dalek::PublicKey::from(secret).to_bytes()
}

/// `EphemeralSecret::diffie_hellman` with the peer's public key given by its
/// 32 bytes, as the shared secret's 32 bytes. Trusted: the result is the one
/// named `spec_x25519_shared` of the secret and the key; and when the key is
/// the public key of another secret `b`, the result is what `b` agrees with
/// this secret's public key. That is X25519's agreement (the crate computes
/// the clamped scalar times the peer's point, and its documentation states
/// that both sides reach the same shared secret).
#[verifier::external_body]
pub(crate) fn diffie_hellman(secret: x25519_dalek::EphemeralSecret, their_public: &[u8; 32]) -> (shared:
    [u8; 32])
    ensures
        shared@ == spec_x25519_shared(secret, their_public@),
        forall|b: x25519_dalek::EphemeralSecret| #[trigger] spec_x25519_public(b) == their_public@
            ==> shared@ == spec_x25519_shared(b, spec_x25519_public(secret)),
{
    secret.diffie_hellman(&x25519_dalek::PublicKey::from(*their_public)).to_bytes()
}

/// What the network service tells the interface. Peers are given by the
/// text of their id, addresses by their text.
#[derive(Debug, Clone)]
pub enum NetworkEvent {
    MyPeerId(String),
    NewRelayedAddress(String),
    FriendStatus { peer_id: String, status: FriendStatus },
    FriendUsername { peer_id: String, username: String },
    IncomingPayload { peer_id: String, payload: InnerPayload },
    IncomingCallSignal { peer_id: String, signal: CallSignalType },
    IncomingAudioFrame { peer_id: String, sequence: u64, audio_data: Vec<u8> },
    Log(String),
}

/// What the interface asks of the network service.
#[derive(Debug)]
pub enum UiCommand {
    AddFriend { invite_code: String },
    SendPayload { peer_id: String, payload: InnerPayload },
    SendCallSignal { peer_id: String, signal: CallSignalType },
    SendAudioFrame { peer_id: String, sequence: u64, raw_audio: Vec<u8> },
    UpdateUsername { username: String },
}

/// A command from the interface as the session takes it: the invite already
/// read from its code and JSON, the payload already serialized.
#[derive(Debug)]
pub enum SessionCommand {
    UpdateUsername(String),
    AddFriend(ParsedInvite),
    SendPayload { peer_id: String, plaintext: Vec<u8> },
    SendCallSignal { peer_id: String, signal: CallSignalType },
    SendAudioFrame { peer_id: String, sequence: u64, raw_audio: Vec<u8> },
}

/// One step the network service performs.
#[derive(Debug)]
pub enum NetAction {
    /// Send an event to the interface.
    Emit(NetworkEvent),
    /// Send a request to a peer.
    SendRequest { peer_id: String, payload: MessagePayload },
    /// Answer the request being handled.
    SendResponse(MessagePayload),
    /// Record an address for a peer and dial it (skipped when the text is
    /// not an address).
    Dial { peer_id: String, address: String },
    /// Decrypted bytes from a peer: when they are the JSON of an
    /// `InnerPayload`, emit it as an incoming payload.
    DeliverPayload { peer_id: String, plaintext: Vec<u8> },
}

/// How far an invite code got before the service acts on it.
#[derive(Debug)]
pub enum ParsedInvite {
    /// The code is not base64.
    BadEncoding,
    /// The decoded bytes are not an invite.
    BadSchema,
    /// The invite's peer id is not a peer id.
    BadPeerId,
    /// A well-formed invite.
    Valid { peer_id: String, addresses: Vec<String>, username: Option<String> },
}

/// The action emitting a log line with the given text.
pub open spec fn is_log(a: NetAction, text: Seq<char>) -> bool {
    a matches NetAction::Emit(NetworkEvent::Log(t)) && t@ == text
}

/// The action emitting a status change of a peer.
pub open spec fn is_status(a: NetAction, peer: Seq<char>, status: FriendStatus) -> bool {
    a matches NetAction::Emit(NetworkEvent::FriendStatus { peer_id, status: s }) && peer_id@ == peer
        && s == status
}

/// A handshake message carrying a public key, a nonce and a display name, in hex where binary.
pub open spec fn is_handshake_init(
    p: MessagePayload,
    public_key: Seq<u8>,
    nonce: Seq<u8>,
    name: Seq<char>,
) -> bool {
    p matches MessagePayload::HandshakeInit { public_key_hex, nonce_hex, username }
        && public_key_hex@ == spec_hex_encode(public_key) && nonce_hex@ == spec_hex_encode(nonce)
        && username@ == name
}

/// The answer to a handshake, carrying a public key, a nonce and a display name.
pub open spec fn is_handshake_response(
    p: MessagePayload,
    public_key: Seq<u8>,
    nonce: Seq<u8>,
    name: Seq<char>,
) -> bool {
    p matches MessagePayload::HandshakeResponse { public_key_hex, nonce_hex, username }
        && public_key_hex@ == spec_hex_encode(public_key) && nonce_hex@ == spec_hex_encode(nonce)
        && username@ == name
}

/// The action sending a request to a peer.
pub open spec fn request_to(a: NetAction, peer: Seq<char>) -> bool {
    a matches NetAction::SendRequest { peer_id, payload } && peer_id@ == peer
}

/// From position `start` on, the actions dial each address in order, and
/// nothing else.
pub open spec fn dials_from(actions: Seq<NetAction>, start: int, peer_id: String, addresses: Seq<
    String,
>) -> bool {
    &&& actions.len() == start + addresses.len()
    &&& forall|i: int|
        0 <= i < addresses.len() ==> actions[start + i] == (NetAction::Dial {
            peer_id,
            address: #[trigger] addresses[i],
        })
}

/// The addresses of a list that libp2p reads as network addresses, in
/// order.
pub open spec fn dialable(addresses: Seq<String>) -> Seq<String>
    decreases addresses.len(),
{
    if addresses.len() == 0 {
        Seq::empty()
    } else if spec_address_parses(addresses.last()@) {
        dialable(addresses.drop_last()).push(addresses.last())
    } else {
        dialable(addresses.drop_last())
    }
}

/// The addresses libp2p reads, kept in order: `dialable` is the filter of
/// the list by `spec_address_parses`.
proof fn lemma_dialable_is_filter(addresses: Seq<String>)
    ensures
        dialable(addresses) == addresses.filter(|a: String| spec_address_parses(a@)),
    decreases addresses.len(),
{
    reveal(Seq::filter);
    if addresses.len() > 0 {
        lemma_dialable_is_filter(addresses.drop_last());
    }
}

/// The payload of a request action.
pub open spec fn request_payload(a: NetAction) -> MessagePayload
    recommends
        a is SendRequest,
{
    a->SendRequest_payload
}

/// What sending a serialized payload does: without a secret shared with the
/// peer, one log line; else one request to the peer carrying the payload
/// sealed with that secret under some nonce, and the nonce, in hex.
pub open spec fn payload_sent(
    session: NetSession,
    peer: Seq<char>,
    plaintext: Seq<u8>,
    actions: Seq<NetAction>,
) -> bool {
    &&& actions.len() == 1
    &&& !session.shared_secrets@.contains_key(peer) ==> is_log(
        actions[0],
        "No established keys. Unable to encrypt payload."@,
    )
    &&& session.shared_secrets@.contains_key(peer) ==> {
        &&& request_to(actions[0], peer)
        &&& exists|nonce: [u8; 16]|
            #![trigger spec_seal(session.shared_secrets@[peer]@, nonce@, plaintext)]
            request_payload(actions[0]) matches MessagePayload::EncryptedContainer {
                ciphertext_hex,
                nonce_hex,
            } && ciphertext_hex@ == spec_hex_encode(
                spec_seal(session.shared_secrets@[peer]@, nonce@, plaintext),
            ) && nonce_hex@ == spec_hex_encode(nonce@)
    }
}

/// What sending audio samples does: nothing without a secret shared with the
/// peer; else one request to the peer carrying the sequence number and the
/// samples sealed with that secret under some nonce, in hex.
pub open spec fn audio_sent(
    session: NetSession,
    peer: Seq<char>,
    sequence: u64,
    raw_audio: Seq<u8>,
    actions: Seq<NetAction>,
) -> bool {
    &&& !session.shared_secrets@.contains_key(peer) ==> actions.len() == 0
    &&& session.shared_secrets@.contains_key(peer) ==> {
        &&& actions.len() == 1
        &&& request_to(actions[0], peer)
        &&& exists|nonce: [u8; 16]|
            #![trigger spec_seal(session.shared_secrets@[peer]@, nonce@, raw_audio)]
            request_payload(actions[0]) matches MessagePayload::CallAudioFrame {
                sequence: s,
                audio_data_hex,
            } && s == sequence && audio_data_hex@ == spec_hex_encode(
                spec_seal(session.shared_secrets@[peer]@, nonce@, raw_audio),
            )
    }
}

/// What sending a call signal does: one request to the peer carrying it.
pub open spec fn call_signal_sent(peer: String, signal: CallSignalType, actions: Seq<NetAction>) -> bool {
    &&& actions.len() == 1
    &&& actions[0] == (NetAction::SendRequest {
        peer_id: peer,
        payload: MessagePayload::CallSignal { signal_type: signal },
    })
}

/// What acting on an invite does: each way it can fail is logged; a good
/// invite passes on the friend's name when it has one, logs that its route
/// is being resolved, marks the friend as connecting, and dials each of its
/// addresses that libp2p reads as an address, in order.
pub open spec fn invite_acted(invite: ParsedInvite, actions: Seq<NetAction>) -> bool {
    &&& invite is BadEncoding ==> actions.len() == 1 && is_log(
        actions[0],
        "Invalid invite code encoding."@,
    )
    &&& invite is BadSchema ==> actions.len() == 1 && is_log(actions[0], "Invalid invite schema."@)
    &&& invite is BadPeerId ==> actions.len() == 1 && is_log(
        actions[0],
        "Malformed invite PeerId."@,
    )
    &&& invite matches ParsedInvite::Valid { peer_id, addresses, username } ==> {
        let named: int = match username {
            Some(_) => 1,
            None => 0,
        };
        &&& username matches Some(name) ==> actions[0] == NetAction::Emit(
            NetworkEvent::FriendUsername { peer_id, username: name },
        )
        &&& is_log(actions[named], "Resolving routing for: "@ + peer_id@)
        &&& is_status(actions[named + 1], peer_id@, FriendStatus::Connecting)
        &&& dials_from(actions, named + 2, peer_id, dialable(addresses@))
    }
}

/// What answering a handshake does: the peer's name is passed on; when
/// its public key is the hex of 32 bytes, a fresh secret is agreed with that
/// key and the result kept, and the answer carries the fresh secret's public
/// key, a nonce and this side's name; the kept bytes are also what any
/// secret with the peer's key agrees with that public key. Else the failure
/// is logged and nothing is kept.
pub open spec fn init_outcome(
    before: NetSession,
    after: NetSession,
    peer: String,
    public_key_hex: Seq<char>,
    username: String,
    actions: Seq<NetAction>,
) -> bool {
    let key_ok = spec_hex_decode(public_key_hex) matches Some(k) && k.len() == 32;
    let k = spec_hex_decode(public_key_hex).unwrap();
    &&& after.my_username == before.my_username
    &&& after.pending_secrets == before.pending_secrets
    &&& is_log(actions[0], "Incoming handshake invitation."@)
    &&& is_status(actions[1], peer@, FriendStatus::Securing)
    &&& actions[2] == NetAction::Emit(NetworkEvent::FriendUsername { peer_id: peer, username })
    &&& !key_ok ==> {
        &&& actions.len() == 4
        &&& is_log(actions[3], "Key conversion failed."@)
        &&& after.shared_secrets == before.shared_secrets
    }
    &&& key_ok ==> {
        &&& actions.len() == 6
        &&& is_status(actions[4], peer@, FriendStatus::Secure)
        &&& is_log(actions[5], "Handshake finished. Secure channel active."@)
        &&& after.shared_secrets@ == before.shared_secrets@.insert(
            peer@,
            after.shared_secrets@[peer@],
        )
        &&& exists|secret: x25519_dalek::EphemeralSecret, nonce: Seq<u8>|
            #![trigger spec_x25519_shared(secret, k), spec_hex_encode(nonce)]
            {
                &&& after.shared_secrets@[peer@]@ == spec_x25519_shared(secret, k)
                &&& forall|b: x25519_dalek::EphemeralSecret| #[trigger] spec_x25519_public(b) == k
                    ==> after.shared_secrets@[peer@]@ == spec_x25519_shared(
                    b,
                    spec_x25519_public(secret),
                )
                &&& spec_x25519_public(secret).len() == 32
                &&& nonce.len() == 16
                &&& actions[3] matches NetAction::SendResponse(p) && is_handshake_response(
                    p,
                    spec_x25519_public(secret),
                    nonce,
                    before.my_username@,
                )
            }
    }
}

/// What a handshake answer does: without a pending secret for the peer,
/// nothing. Otherwise the pending secret is used up; when the peer's key is
/// the hex of 32 bytes, the pending secret's agreement with that key is kept
/// and its name and the secure status are passed on; else the failure is
/// logged.
pub open spec fn response_outcome(
    before: NetSession,
    after: NetSession,
    peer: String,
    public_key_hex: Seq<char>,
    username: String,
    actions: Seq<NetAction>,
) -> bool {
    let pending = before.pending_secrets@.contains_key(peer@);
    let key_ok = spec_hex_decode(public_key_hex) matches Some(k) && k.len() == 32;
    &&& after.my_username == before.my_username
    &&& after.pending_secrets@ =~= before.pending_secrets@.remove(peer@)
    &&& !pending ==> actions.len() == 0 && after.shared_secrets == before.shared_secrets
    &&& pending && !key_ok ==> {
        &&& actions.len() == 1
        &&& is_log(actions[0], "Response key conversion failed."@)
        &&& after.shared_secrets == before.shared_secrets
    }
    &&& pending && key_ok ==> {
        &&& actions.len() == 3
        &&& actions[0] == NetAction::Emit(NetworkEvent::FriendUsername { peer_id: peer, username })
        &&& is_status(actions[1], peer@, FriendStatus::Secure)
        &&& is_log(actions[2], "Secure handshake finished. Cryptography active."@)
        &&& after.shared_secrets@ == before.shared_secrets@.insert(
            peer@,
            after.shared_secrets@[peer@],
        )
        &&& after.shared_secrets@[peer@]@ == spec_x25519_shared(
            before.pending_secrets@[peer@],
            spec_hex_decode(public_key_hex).unwrap(),
        )
    }
}

/// What an encrypted container does: with a secret shared with the peer and
/// fields that open, the decrypted bytes are delivered and the request is
/// acknowledged; otherwise nothing happens.
pub open spec fn container_outcome(
    session: NetSession,
    peer: Seq<char>,
    ciphertext_hex: Seq<char>,
    nonce_hex: Seq<char>,
    actions: Seq<NetAction>,
) -> bool {
    match (if session.shared_secrets@.contains_key(peer) {
        spec_open_container(session.shared_secrets@[peer]@, ciphertext_hex, nonce_hex)
    } else {
        None
    }) {
        None => actions.len() == 0,
        Some(p) => {
            &&& actions.len() == 2
            &&& actions[0] matches NetAction::DeliverPayload { peer_id: q, plaintext } && q@ == peer
                && plaintext@ == p
            &&& actions[1] matches NetAction::SendResponse(MessagePayload::Ack)
        },
    }
}

/// What a call signal does: it is passed on and acknowledged.
pub open spec fn call_signal_outcome(peer: String, signal: CallSignalType, actions: Seq<NetAction>) -> bool {
    &&& actions.len() == 2
    &&& actions[0] == NetAction::Emit(NetworkEvent::IncomingCallSignal { peer_id: peer, signal })
    &&& actions[1] matches NetAction::SendResponse(MessagePayload::Ack)
}

/// What an audio frame does: with a secret shared with the peer and samples
/// in hex, the samples decrypted under the zero nonce are passed on; the
/// frame is acknowledged in every case.
pub open spec fn audio_outcome(
    session: NetSession,
    peer: Seq<char>,
    sequence: u64,
    audio_data_hex: Seq<char>,
    actions: Seq<NetAction>,
) -> bool {
    match (if session.shared_secrets@.contains_key(peer) {
        spec_open_audio(session.shared_secrets@[peer]@, audio_data_hex)
    } else {
        None
    }) {
        None => actions.len() == 1 && actions[0] matches NetAction::SendResponse(MessagePayload::Ack),
        Some(a) => {
            &&& actions.len() == 2
            &&& actions[0] matches NetAction::Emit(
                NetworkEvent::IncomingAudioFrame { peer_id: q, sequence: s, audio_data },
            ) && q@ == peer && s == sequence && audio_data@ == a
            &&& actions[1] matches NetAction::SendResponse(MessagePayload::Ack)
        },
    }
}

/// The network service's own state: its display name, the secrets of the
/// handshakes it started, and the secrets it shares with peers.
pub struct NetSession {
    pub my_username: String,
    pub pending_secrets: PeerTable<x25519_dalek::EphemeralSecret>,
    pub shared_secrets: PeerTable<[u8; 32]>,
}

impl NetSession {
    /// Well-formedness of both tables.
    pub open spec fn wf(&self) -> bool {
        self.pending_secrets.wf() && self.shared_secrets.wf()
    }

    /// A session for the local peer: its display name is the default one
    /// for its id, and no handshake is under way.
    pub fn new(local_peer_id: &String) -> (session: Self)
        requires
            valid_peer_text(local_peer_id@),
        ensures
            session.wf(),
            session.my_username@ == default_username(local_peer_id@),
            session.pending_secrets@ == Map::<Seq<char>, x25519_dalek::EphemeralSecret>::empty(),
            session.shared_secrets@ == Map::<Seq<char>, [u8; 32]>::empty(),
    {
        NetSession {
            my_username: default_username_of(local_peer_id),
            pending_secrets: PeerTable::new(),
            shared_secrets: PeerTable::new(),
        }
    }

    /// The session for the stored identity key: the peer id of the keypair
    /// its bytes encode, and a session under that id; `None` when libp2p
    /// reads no keypair from the bytes.
    pub fn session_for_keypair(keypair_protobuf: &[u8]) -> (session: Option<(String, NetSession)>)
        ensures
            session is None <==> spec_keypair_peer_id(keypair_protobuf@) is None,
            session matches Some((id, s)) ==> {
                &&& spec_keypair_peer_id(keypair_protobuf@) == Some(id@)
                &&& s.wf()
                &&& s.my_username@ == default_username(id@)
                &&& s.pending_secrets@ == Map::<Seq<char>, x25519_dalek::EphemeralSecret>::empty()
                &&& s.shared_secrets@ == Map::<Seq<char>, [u8; 32]>::empty()
            },
    {
        match keypair_peer_id(keypair_protobuf) {
            None => None,
            Some(id) => {
                let session = NetSession::new(&id);
                Some((id, session))
            },
        }
    }

    /// Takes a new display name.
    pub fn update_username(&mut self, username: String)
        ensures
            final(self).my_username == username,
            final(self).pending_secrets == old(self).pending_secrets,
            final(self).shared_secrets == old(self).shared_secrets,
    {
        self.my_username = username;
    }

    /// A listening address was assigned: log it and pass it on.
    pub fn on_new_listen_addr(address: &String) -> (actions: Vec<NetAction>)
        ensures
            actions@.len() == 2,
            is_log(actions@[0], "Assigned network address: "@ + address@),
            actions@[1] == NetAction::Emit(NetworkEvent::NewRelayedAddress(*address)),
    {
        let mut actions: Vec<NetAction> = Vec::new();
        actions.push(
            NetAction::Emit(
                NetworkEvent::Log(join_text("Assigned network address: ", address.as_str())),
            ),
        );
        actions.push(NetAction::Emit(NetworkEvent::NewRelayedAddress(address.clone())));
        actions
    }

    /// The link to a peer was lost: report it, and forget the secret shared with it.
    pub fn on_connection_closed(&mut self, peer_id: &String) -> (actions: Vec<NetAction>)
        requires
            old(self).wf(),
        ensures
            final(self).wf(),
            final(self).my_username == old(self).my_username,
            final(self).pending_secrets == old(self).pending_secrets,
            final(self).shared_secrets@ == old(self).shared_secrets@.remove(peer_id@),
            actions@.len() == 2,
            is_log(actions@[0], "Lost transport link to "@ + peer_id@),
            is_status(actions@[1], peer_id@, FriendStatus::Disconnected),
    {
        let mut actions: Vec<NetAction> = Vec::new();
        actions.push(
            NetAction::Emit(NetworkEvent::Log(join_text("Lost transport link to ", peer_id.as_str()))),
        );
        actions.push(
            NetAction::Emit(
                NetworkEvent::FriendStatus {
                    peer_id: peer_id.clone(),
                    status: FriendStatus::Disconnected,
                },
            ),
        );
        self.shared_secrets.remove(peer_id);
        actions
    }

    /// A connection to a peer was established. When this side dialed, it
    /// starts the key exchange with the given ephemeral secret, its public
    /// key and a nonce: the secret is kept until the peer answers, and a
    /// handshake request carries the public key, the nonce and this side's
    /// display name.
    pub fn connection_established_with(
        &mut self,
        peer_id: &String,
        keys: Option<(x25519_dalek::EphemeralSecret, [u8; 32], [u8; 16])>,
    ) -> (actions: Vec<NetAction>)
        requires
            old(self).wf(),
        ensures
            final(self).wf(),
            final(self).my_username == old(self).my_username,
            final(self).shared_secrets == old(self).shared_secrets,
            is_log(actions@[0], "Established basic transport with "@ + peer_id@),
            is_status(actions@[1], peer_id@, FriendStatus::Connected),
            match keys {
                None => actions@.len() == 2 && final(self).pending_secrets
                    == old(self).pending_secrets,
                Some((secret, public_key, nonce)) => {
                    &&& actions@.len() == 5
                    &&& is_log(actions@[2], "Initiating key exchange agreement..."@)
                    &&& is_status(actions@[3], peer_id@, FriendStatus::Securing)
                    &&& request_to(actions@[4], peer_id@)
                    &&& is_handshake_init(
                        request_payload(actions@[4]),
                        public_key@,
                        nonce@,
                        old(self).my_username@,
                    )
                    &&& final(self).pending_secrets@ == old(self).pending_secrets@.insert(
                        peer_id@,
                        secret,
                    )
                },
            },
    {
        let mut actions: Vec<NetAction> = Vec::new();
        actions.push(
            NetAction::Emit(
                NetworkEvent::Log(join_text("Established basic transport with ", peer_id.as_str())),
            ),
        );
        actions.push(
            NetAction::Emit(
                NetworkEvent::FriendStatus { peer_id: peer_id.clone(), status: FriendStatus::Connected },
            ),
        );
        match keys {
            None => {},
            Some((secret, public_key, nonce)) => {
                actions.push(
                    NetAction::Emit(
                        NetworkEvent::Log(
                            String::from_str("Initiating key exchange agreement..."),
                        ),
                    ),
                );
                actions.push(
                    NetAction::Emit(
                        NetworkEvent::FriendStatus {
                            peer_id: peer_id.clone(),
                            status: FriendStatus::Securing,
                        },
                    ),
                );
                let init = MessagePayload::HandshakeInit {
                    public_key_hex: hex_encode(public_key.as_slice()),
                    nonce_hex: hex_encode(nonce.as_slice()),
                    username: self.my_username.clone(),
                };
                self.pending_secrets.insert(peer_id.clone(), secret);
                actions.push(NetAction::SendRequest { peer_id: peer_id.clone(), payload: init });
            },
        }
        actions
    }

    /// A connection to a peer was established; when this side dialed, a
    /// fresh ephemeral secret and nonce start the key exchange.
    pub fn on_connection_established(&mut self, peer_id: &String, is_dialer: bool) -> (actions: Vec<
        NetAction,
    >)
        requires
            old(self).wf(),
        ensures
            final(self).wf(),
            final(self).my_username == old(self).my_username,
            final(self).shared_secrets == old(self).shared_secrets,
            is_log(actions@[0], "Established basic transport with "@ + peer_id@),
            is_status(actions@[1], peer_id@, FriendStatus::Connected),
            !is_dialer ==> actions@.len() == 2 && final(self).pending_secrets
                == old(self).pending_secrets,
            is_dialer ==> {
                &&& actions@.len() == 5
                &&& is_log(actions@[2], "Initiating key exchange agreement..."@)
                &&& is_status(actions@[3], peer_id@, FriendStatus::Securing)
                &&& request_to(actions@[4], peer_id@)
                &&& exists|secret: x25519_dalek::EphemeralSecret, nonce: Seq<u8>|
                    #![trigger old(self).pending_secrets@.insert(peer_id@, secret), spec_hex_encode(nonce)]
                    {
                        &&& final(self).pending_secrets@ == old(self).pending_secrets@.insert(
                            peer_id@,
                            secret,
                        )
                        &&& spec_x25519_public(secret).len() == 32
                        &&& nonce.len() == 16
                        &&& is_handshake_init(
                            request_payload(actions@[4]),
                            spec_x25519_public(secret),
                            nonce,
                            old(self).my_username@,
                        )
                    }
            },
    {
        if is_dialer {
            let secret = fresh_ephemeral_secret();
            let public_key = ephemeral_public_key(&secret);
            let nonce = random_nonce();
            let ghost g = (secret, public_key, nonce);
            let actions = self.connection_established_with(peer_id, Some((secret, public_key, nonce)));
            assert(final(self).pending_secrets@ == old(self).pending_secrets@.insert(peer_id@, g.0));
            actions
        } else {
            self.connection_established_with(peer_id, None)
        }
    }

    /// The tail of an accepted handshake: the secret agreed with the peer is
    /// kept, and the answer carries this side's public key, a nonce and its
    /// display name.
    pub fn handshake_accepted_with(
        &mut self,
        peer_id: &String,
        shared_secret: [u8; 32],
        public_key: [u8; 32],
        nonce: [u8; 16],
    ) -> (actions: Vec<NetAction>)
        requires
            old(self).wf(),
        ensures
            final(self).wf(),
            final(self).my_username == old(self).my_username,
            final(self).pending_secrets == old(self).pending_secrets,
            final(self).shared_secrets@ == old(self).shared_secrets@.insert(peer_id@, shared_secret),
            actions@.len() == 3,
            actions@[0] matches NetAction::SendResponse(p) && is_handshake_response(
                p,
                public_key@,
                nonce@,
                old(self).my_username@,
            ),
            is_status(actions@[1], peer_id@, FriendStatus::Secure),
            is_log(actions@[2], "Handshake finished. Secure channel active."@),
    {
        self.shared_secrets.insert(peer_id.clone(), shared_secret);
        let response = MessagePayload::HandshakeResponse {
            public_key_hex: hex_encode(public_key.as_slice()),
            nonce_hex: hex_encode(nonce.as_slice()),
            username: self.my_username.clone(),
        };
        let mut actions: Vec<NetAction> = Vec::new();
        actions.push(NetAction::SendResponse(response));
        actions.push(
            NetAction::Emit(
                NetworkEvent::FriendStatus { peer_id: peer_id.clone(), status: FriendStatus::Secure },
            ),
        );
        actions.push(
            NetAction::Emit(
                NetworkEvent::Log(String::from_str("Handshake finished. Secure channel active.")),
            ),
        );
        actions
    }

    /// A peer opened a handshake. Its name is passed on; when its public key
    /// is the hex of 32 bytes, this side agrees a secret with a fresh
    /// ephemeral secret, keeps it, and answers; else it only logs the failure.
    pub fn on_handshake_init(&mut self, peer_id: &String, public_key_hex: &str, username: String) -> (actions:
        Vec<NetAction>)
        requires
            old(self).wf(),
        ensures
            final(self).wf(),
            init_outcome(*old(self), *final(self), *peer_id, public_key_hex@, username, actions@),
    {
        let mut actions: Vec<NetAction> = Vec::new();
        actions.push(
            NetAction::Emit(NetworkEvent::Log(String::from_str("Incoming handshake invitation."))),
        );
        actions.push(
            NetAction::Emit(
                NetworkEvent::FriendStatus { peer_id: peer_id.clone(), status: FriendStatus::Securing },
            ),
        );
        actions.push(
            NetAction::Emit(NetworkEvent::FriendUsername { peer_id: peer_id.clone(), username }),
        );
        let bob_secret = fresh_ephemeral_secret();
        let bob_public = ephemeral_public_key(&bob_secret);
        match decode_hex_32(public_key_hex) {
            None => {
                actions.push(
                    NetAction::Emit(NetworkEvent::Log(String::from_str("Key conversion failed."))),
                );
                actions
            },
            Some(alice_public) => {
                let shared = diffie_hellman(bob_secret, &alice_public);
                let nonce = random_nonce();
                let mut tail = self.handshake_accepted_with(peer_id, shared, bob_public, nonce);
                let ghost head = actions@;
                let ghost tail_seq = tail@;
                actions.append(&mut tail);
                assert(actions@ == head + tail_seq);
                assert(final(self).shared_secrets@ == old(self).shared_secrets@.insert(
                    peer_id@,
                    shared,
                ));
                actions
            },
        }
    }

    /// The end of a handshake this side started: the secret agreed with the
    /// peer is kept, and the peer's name and the secure status are passed on.
    pub fn handshake_completed_with(
        &mut self,
        peer_id: &String,
        username: String,
        shared_secret: [u8; 32],
    ) -> (actions: Vec<NetAction>)
        requires
            old(self).wf(),
        ensures
            final(self).wf(),
            final(self).my_username == old(self).my_username,
            final(self).pending_secrets == old(self).pending_secrets,
            final(self).shared_secrets@ == old(self).shared_secrets@.insert(peer_id@, shared_secret),
            actions@.len() == 3,
            actions@[0] == NetAction::Emit(
                NetworkEvent::FriendUsername { peer_id: *peer_id, username },
            ),
            is_status(actions@[1], peer_id@, FriendStatus::Secure),
            is_log(actions@[2], "Secure handshake finished. Cryptography active."@),
    {
        self.shared_secrets.insert(peer_id.clone(), shared_secret);
        let mut actions: Vec<NetAction> = Vec::new();
        actions.push(
            NetAction::Emit(NetworkEvent::FriendUsername { peer_id: peer_id.clone(), username }),
        );
        actions.push(
            NetAction::Emit(
                NetworkEvent::FriendStatus { peer_id: peer_id.clone(), status: FriendStatus::Secure },
            ),
        );
        actions.push(
            NetAction::Emit(
                NetworkEvent::Log(
                    String::from_str("Secure handshake finished. Cryptography active."),
                ),
            ),
        );
        actions
    }

    /// A peer answered a handshake. Without a pending secret for it nothing
    /// happens. Otherwise the pending secret is used up; when the peer's key
    /// is the hex of 32 bytes the agreed secret is kept, else the failure is
    /// logged.
    pub fn on_handshake_response(
        &mut self,
        peer_id: &String,
        public_key_hex: &str,
        username: String,
    ) -> (actions: Vec<NetAction>)
        requires
            old(self).wf(),
        ensures
            final(self).wf(),
            response_outcome(*old(self), *final(self), *peer_id, public_key_hex@, username, actions@),
    {
        match self.pending_secrets.remove(peer_id) {
            None => Vec::new(),
            Some(secret) => match decode_hex_32(public_key_hex) {
                None => {
                    let mut actions: Vec<NetAction> = Vec::new();
                    actions.push(
                        NetAction::Emit(
                            NetworkEvent::Log(String::from_str("Response key conversion failed.")),
                        ),
                    );
                    actions
                },
                Some(bob_public) => {
                    let shared = diffie_hellman(secret, &bob_public);
                    let actions = self.handshake_completed_with(peer_id, username, shared);
                    assert(final(self).shared_secrets@ == old(self).shared_secrets@.insert(
                        peer_id@,
                        shared,
                    ));
                    actions
                },
            },
        }
    }

    /// An encrypted container from a peer. With a secret shared with it and
    /// fields that decode, the decrypted bytes are delivered and the request
    /// is acknowledged; otherwise nothing happens (no acknowledgement).
    pub fn on_encrypted_container(&self, peer_id: &String, ciphertext_hex: &str, nonce_hex: &str) -> (actions:
        Vec<NetAction>)
        requires
            self.wf(),
        ensures
            container_outcome(*self, peer_id@, ciphertext_hex@, nonce_hex@, actions@),
    {
        let mut actions: Vec<NetAction> = Vec::new();
        match self.shared_secrets.get(peer_id) {
            Some(secret) => match open_container(secret, ciphertext_hex, nonce_hex) {
                Some(plaintext) => {
                    actions.push(NetAction::DeliverPayload { peer_id: peer_id.clone(), plaintext });
                    actions.push(NetAction::SendResponse(MessagePayload::Ack));
                },
                None => {},
            },
            None => {},
        }
        actions
    }

    /// A call signal from a peer is passed on and acknowledged.
    pub fn on_call_signal(peer_id: &String, signal: CallSignalType) -> (actions: Vec<NetAction>)
        ensures
            call_signal_outcome(*peer_id, signal, actions@),
    {
        let mut actions: Vec<NetAction> = Vec::new();
        actions.push(
            NetAction::Emit(NetworkEvent::IncomingCallSignal { peer_id: peer_id.clone(), signal }),
        );
        actions.push(NetAction::SendResponse(MessagePayload::Ack));
        actions
    }

    /// An audio frame from a peer: with a secret shared with it and samples
    /// in hex, the samples decrypted under the zero nonce are passed on; the
    /// frame is acknowledged in every case.
    pub fn on_audio_frame(&self, peer_id: &String, sequence: u64, audio_data_hex: &str) -> (actions:
        Vec<NetAction>)
        requires
            self.wf(),
        ensures
            audio_outcome(*self, peer_id@, sequence, audio_data_hex@, actions@),
    {
        let mut actions: Vec<NetAction> = Vec::new();
        match self.shared_secrets.get(peer_id) {
            Some(secret) => match open_audio_frame(secret, audio_data_hex) {
                Some(audio_data) => {
                    actions.push(
                        NetAction::Emit(
                            NetworkEvent::IncomingAudioFrame {
                                peer_id: peer_id.clone(),
                                sequence,
                                audio_data,
                            },
                        ),
                    );
                },
                None => {},
            },
            None => {},
        }
        actions.push(NetAction::SendResponse(MessagePayload::Ack));
        actions
    }

    /// A request from a peer, by kind. Handshake answers and
    /// acknowledgements sent as requests are ignored.
    pub fn on_request(&mut self, peer_id: &String, request: MessagePayload) -> (actions: Vec<
        NetAction,
    >)
        requires
            old(self).wf(),
        ensures
            final(self).wf(),
            match request {
                MessagePayload::HandshakeInit { public_key_hex, nonce_hex: _, username } => init_outcome(
                    *old(self),
                    *final(self),
                    *peer_id,
                    public_key_hex@,
                    username,
                    actions@,
                ),
                MessagePayload::EncryptedContainer { ciphertext_hex, nonce_hex } => *final(self) == *old(
                    self,
                ) && container_outcome(*old(self), peer_id@, ciphertext_hex@, nonce_hex@, actions@),
                MessagePayload::CallSignal { signal_type } => *final(self) == *old(self)
                    && call_signal_outcome(*peer_id, signal_type, actions@),
                MessagePayload::CallAudioFrame { sequence, audio_data_hex } => *final(self) == *old(
                    self,
                ) && audio_outcome(*old(self), peer_id@, sequence, audio_data_hex@, actions@),
                _ => *final(self) == *old(self) && actions@.len() == 0,
            },
    {
        match request {
            MessagePayload::HandshakeInit { public_key_hex, nonce_hex: _, username } => {
                self.on_handshake_init(peer_id, public_key_hex.as_str(), username)
            },
            MessagePayload::EncryptedContainer { ciphertext_hex, nonce_hex } => {
                self.on_encrypted_container(peer_id, ciphertext_hex.as_str(), nonce_hex.as_str())
            },
            MessagePayload::CallSignal { signal_type } => NetSession::on_call_signal(
                peer_id,
                signal_type,
            ),
            MessagePayload::CallAudioFrame { sequence, audio_data_hex } => {
                self.on_audio_frame(peer_id, sequence, audio_data_hex.as_str())
            },
            _ => Vec::new(),
        }
    }

    /// A response from a peer: only a handshake answer is acted on.
    pub fn on_response(&mut self, peer_id: &String, response: MessagePayload) -> (actions: Vec<
        NetAction,
    >)
        requires
            old(self).wf(),
        ensures
            final(self).wf(),
            match response {
                MessagePayload::HandshakeResponse { public_key_hex, nonce_hex: _, username } => response_outcome(
                    *old(self),
                    *final(self),
                    *peer_id,
                    public_key_hex@,
                    username,
                    actions@,
                ),
                _ => *final(self) == *old(self) && actions@.len() == 0,
            },
    {
        match response {
            MessagePayload::HandshakeResponse { public_key_hex, nonce_hex: _, username } => {
                self.on_handshake_response(peer_id, public_key_hex.as_str(), username)
            },
            _ => Vec::new(),
        }
    }

    /// The request carrying a serialized payload sealed with the secret
    /// shared with the peer and the given nonce; without such a secret, a
    /// log line saying so.
    pub fn payload_request_with(&self, peer_id: &String, plaintext: &[u8], nonce: &[u8; 16]) -> (actions:
        Vec<NetAction>)
        requires
            self.wf(),
        ensures
            actions@.len() == 1,
            !self.shared_secrets@.contains_key(peer_id@) ==> is_log(
                actions@[0],
                "No established keys. Unable to encrypt payload."@,
            ),
            self.shared_secrets@.contains_key(peer_id@) ==> {
                &&& request_to(actions@[0], peer_id@)
                &&& request_payload(actions@[0]) matches MessagePayload::EncryptedContainer {
                    ciphertext_hex,
                    nonce_hex,
                } && ciphertext_hex@ == spec_hex_encode(
                    spec_seal(self.shared_secrets@[peer_id@]@, nonce@, plaintext@),
                ) && nonce_hex@ == spec_hex_encode(nonce@)
            },
    {
        let mut actions: Vec<NetAction> = Vec::new();
        match self.shared_secrets.get(peer_id) {
            Some(secret) => {
                let container = seal_container(secret, nonce, plaintext);
                actions.push(NetAction::SendRequest { peer_id: peer_id.clone(), payload: container });
            },
            None => {
                actions.push(
                    NetAction::Emit(
                        NetworkEvent::Log(
                            String::from_str("No established keys. Unable to encrypt payload."),
                        ),
                    ),
                );
            },
        }
        actions
    }

    /// Sends a serialized payload to a peer, sealed under a fresh nonce.
    pub fn send_payload(&self, peer_id: &String, plaintext: &[u8]) -> (actions: Vec<NetAction>)
        requires
            self.wf(),
        ensures
            payload_sent(*self, peer_id@, plaintext@, actions@),
    {
        if self.shared_secrets.contains_key(peer_id) {
            let nonce = random_nonce();
            self.payload_request_with(peer_id, plaintext, &nonce)
        } else {
            let nonce: [u8; 16] = [0u8; 16];
            self.payload_request_with(peer_id, plaintext, &nonce)
        }
    }

    /// A call signal for a peer.
    pub fn send_call_signal(peer_id: &String, signal: CallSignalType) -> (actions: Vec<NetAction>)
        ensures
            call_signal_sent(*peer_id, signal, actions@),
    {
        let mut actions: Vec<NetAction> = Vec::new();
        actions.push(
            NetAction::SendRequest {
                peer_id: peer_id.clone(),
                payload: MessagePayload::CallSignal { signal_type: signal },
            },
        );
        actions
    }

    /// The request carrying audio samples sealed with the secret shared with
    /// the peer and the given nonce; nothing without such a secret.
    pub fn audio_frame_request_with(
        &self,
        peer_id: &String,
        sequence: u64,
        raw_audio: &[u8],
        nonce: &[u8; 16],
    ) -> (actions: Vec<NetAction>)
        requires
            self.wf(),
        ensures
            !self.shared_secrets@.contains_key(peer_id@) ==> actions@.len() == 0,
            self.shared_secrets@.contains_key(peer_id@) ==> {
                &&& actions@.len() == 1
                &&& request_to(actions@[0], peer_id@)
                &&& request_payload(actions@[0]) matches MessagePayload::CallAudioFrame {
                    sequence: s,
                    audio_data_hex,
                } && s == sequence && audio_data_hex@ == spec_hex_encode(
                    spec_seal(self.shared_secrets@[peer_id@]@, nonce@, raw_audio@),
                )
            },
    {
        let mut actions: Vec<NetAction> = Vec::new();
        match self.shared_secrets.get(peer_id) {
            Some(secret) => {
                let frame = seal_audio_frame(secret, nonce, sequence, raw_audio);
                actions.push(NetAction::SendRequest { peer_id: peer_id.clone(), payload: frame });
            },
            None => {},
        }
        actions
    }

    /// Sends audio samples to a peer, sealed under a fresh nonce.
    pub fn send_audio_frame(&self, peer_id: &String, sequence: u64, raw_audio: &[u8]) -> (actions:
        Vec<NetAction>)
        requires
            self.wf(),
        ensures
            audio_sent(*self, peer_id@, sequence, raw_audio@, actions@),
    {
        if self.shared_secrets.contains_key(peer_id) {
            let nonce = random_nonce();
            self.audio_frame_request_with(peer_id, sequence, raw_audio, &nonce)
        } else {
            Vec::new()
        }
    }

    /// Carries out a command from the interface. No command touches the
    /// key tables, and only a new display name changes the session; each
    /// command's actions are those of its own step.
    pub fn on_command(&mut self, command: SessionCommand) -> (actions: Vec<NetAction>)
        requires
            old(self).wf(),
        ensures
            final(self).wf(),
            final(self).pending_secrets == old(self).pending_secrets,
            final(self).shared_secrets == old(self).shared_secrets,
            !(command is UpdateUsername) ==> final(self).my_username == old(self).my_username,
            match command {
                SessionCommand::UpdateUsername(username) => final(self).my_username == username
                    && actions@.len() == 0,
                SessionCommand::AddFriend(invite) => invite_acted(invite, actions@),
                SessionCommand::SendPayload { peer_id, plaintext } => payload_sent(
                    *old(self),
                    peer_id@,
                    plaintext@,
                    actions@,
                ),
                SessionCommand::SendCallSignal { peer_id, signal } => call_signal_sent(
                    peer_id,
                    signal,
                    actions@,
                ),
                SessionCommand::SendAudioFrame { peer_id, sequence, raw_audio } => audio_sent(
                    *old(self),
                    peer_id@,
                    sequence,
                    raw_audio@,
                    actions@,
                ),
            },
    {
        match command {
            SessionCommand::UpdateUsername(username) => {
                self.update_username(username);
                Vec::new()
            },
            SessionCommand::AddFriend(invite) => NetSession::add_friend_actions(invite),
            SessionCommand::SendPayload { peer_id, plaintext } => self.send_payload(
                &peer_id,
                plaintext.as_slice(),
            ),
            SessionCommand::SendCallSignal { peer_id, signal } => NetSession::send_call_signal(
                &peer_id,
                signal,
            ),
            SessionCommand::SendAudioFrame { peer_id, sequence, raw_audio } => self.send_audio_frame(
                &peer_id,
                sequence,
                raw_audio.as_slice(),
            ),
        }
    }

    /// The invite code for the JSON of an invite: its base64.
    pub fn encode_invite_code(invite_json: &[u8]) -> (code: String)
        requires
            invite_json@.len() <= (usize::MAX / 4) * 3,
        ensures
            code@ == spec_base64_encode(invite_json@),
    {
        base64_encode(invite_json)
    }

    /// The bytes an invite code stands for: the base64 of the code without
    /// surrounding white space. A code that `encode_invite_code` wrote gives
    /// back the JSON it was written for.
    pub fn decode_invite_code(invite_code: &str) -> (decoded: Option<Vec<u8>>)
        ensures
            match decoded {
                Some(d) => spec_base64_decode(spec_trim(invite_code@)) == Some(d@),
                None => spec_base64_decode(spec_trim(invite_code@)) is None,
            },
            forall|b: Seq<u8>| #[trigger] spec_base64_encode(b) == spec_trim(invite_code@) ==> decoded
                is Some && decoded->0@ == b,
            forall|b: Seq<u8>| #[trigger] spec_base64_encode(b) == invite_code@ ==> decoded is Some
                && decoded->0@ == b,
    {
        let trimmed = trim_text(invite_code);
        let decoded = base64_decode(trimmed.as_str());
        proof {
            assert forall|b: Seq<u8>| #[trigger] spec_base64_encode(b) == invite_code@ implies decoded is Some
                && decoded->0@ == b by {
                lemma_base64_text_not_white(b);
                lemma_trim_without_white(invite_code@);
            }
        }
        decoded
    }

    /// The invite read from its fields: `BadPeerId` unless libp2p reads the
    /// peer id, else a valid invite under the id's text as libp2p writes it.
    pub fn parse_invite(peer_id: &str, addresses: Vec<String>, username: Option<String>) -> (invite:
        ParsedInvite)
        ensures
            match spec_peer_id_text(peer_id@) {
                None => invite is BadPeerId,
                Some(t) => invite matches ParsedInvite::Valid { peer_id: p, addresses: a, username: u }
                    && p@ == t && a == addresses && u == username,
            },
    {
        match peer_id_text(peer_id) {
            None => ParsedInvite::BadPeerId,
            Some(target) => ParsedInvite::Valid { peer_id: target, addresses, username },
        }
    }

    /// Acting on an invite: each way it can fail is logged; a good invite
    /// passes on the friend's name when it has one, logs that its route is
    /// being resolved, marks the friend as connecting, and dials each of its
    /// addresses that libp2p reads as an address, in order.
    pub fn add_friend_actions(invite: ParsedInvite) -> (actions: Vec<NetAction>)
        ensures
            invite_acted(invite, actions@),
    {
        let mut actions: Vec<NetAction> = Vec::new();
        match invite {
            ParsedInvite::BadEncoding => {
                actions.push(
                    NetAction::Emit(
                        NetworkEvent::Log(String::from_str("Invalid invite code encoding.")),
                    ),
                );
            },
            ParsedInvite::BadSchema => {
                actions.push(
                    NetAction::Emit(NetworkEvent::Log(String::from_str("Invalid invite schema."))),
                );
            },
            ParsedInvite::BadPeerId => {
                actions.push(
                    NetAction::Emit(NetworkEvent::Log(String::from_str("Malformed invite PeerId."))),
                );
            },
            ParsedInvite::Valid { peer_id, addresses, username } => {
                let ghost named: int = match username {
                    Some(_) => 1,
                    None => 0,
                };
                match username {
                    Some(name) => {
                        actions.push(
                            NetAction::Emit(
                                NetworkEvent::FriendUsername {
                                    peer_id: peer_id.clone(),
                                    username: name,
                                },
                            ),
                        );
                    },
                    None => {},
                }
                actions.push(
                    NetAction::Emit(
                        NetworkEvent::Log(join_text("Resolving routing for: ", peer_id.as_str())),
                    ),
                );
                actions.push(
                    NetAction::Emit(
                        NetworkEvent::FriendStatus {
                            peer_id: peer_id.clone(),
                            status: FriendStatus::Connecting,
                        },
                    ),
                );
                let ghost head = actions@;
                let mut i: usize = 0;
                while i < addresses.len()
                    invariant
                        i <= addresses@.len(),
                        head.len() == named + 2,
                        is_log(head[named], "Resolving routing for: "@ + peer_id@),
                        is_status(head[named + 1], peer_id@, FriendStatus::Connecting),
                        username matches Some(name) ==> head[0] == NetAction::Emit(
                            NetworkEvent::FriendUsername { peer_id, username: name },
                        ),
                        actions@.len() == named + 2 + dialable(addresses@.take(i as int)).len(),
                        forall|j: int| 0 <= j < head.len() ==> actions@[j] == head[j],
                        forall|j: int|
                            0 <= j < dialable(addresses@.take(i as int)).len() ==> actions@[named
                                + 2 + j] == (NetAction::Dial {
                                peer_id,
                                address: #[trigger] dialable(addresses@.take(i as int))[j],
                            }),
                    decreases addresses@.len() - i,
                {
                    let ghost before = dialable(addresses@.take(i as int));
                    assert(addresses@.take(i + 1).drop_last() =~= addresses@.take(i as int));
                    if address_parses(addresses[i].as_str()) {
                        actions.push(
                            NetAction::Dial { peer_id: peer_id.clone(), address: addresses[i].clone() },
                        );
                        assert(dialable(addresses@.take(i + 1)) == before.push(addresses@[i as int]));
                    } else {
                        assert(dialable(addresses@.take(i + 1)) == before);
                    }
                    i = i + 1;
                }
                assert(addresses@.take(addresses@.len() as int) =~= addresses@);

            },
        }
        actions
    }
}

/// Acting on a good invite dials, after the Connecting status and in the
/// invite's order, exactly the invite's addresses that libp2p reads as
/// network addresses: one dial for each of them and nothing else.
pub proof fn law_invite_dials_every_readable_address(invite: ParsedInvite, actions: Seq<NetAction>)
    requires
        invite is Valid,
        invite_acted(invite, actions),
    ensures
        ({
            let peer = invite->Valid_peer_id;
            let readable = invite->Valid_addresses@.filter(|a: String| spec_address_parses(a@));
            let start: int = if invite->Valid_username is Some { 3 } else { 2 };
            &&& is_status(actions[start - 1], peer@, FriendStatus::Connecting)
            &&& actions.len() == start + readable.len()
            &&& forall|i: int|
                0 <= i < readable.len() ==> actions[start + i] == (NetAction::Dial {
                    peer_id: peer,
                    address: #[trigger] readable[i],
                })
            &&& forall|i: int|
                0 <= i < invite->Valid_addresses@.len() && spec_address_parses(
                    invite->Valid_addresses@[i]@,
                ) ==> readable.contains(#[trigger] invite->Valid_addresses@[i])
        }),
{
    let addresses = invite->Valid_addresses@;
    lemma_dialable_is_filter(addresses);
    let pred = |a: String| spec_address_parses(a@);
    assert forall|i: int| 0 <= i < addresses.len() && spec_address_parses(addresses[i]@) implies addresses.filter(
        pred,
    ).contains(#[trigger] addresses[i]) by {
        addresses.lemma_filter_contains(pred, i);
    }
}

/// A key exchange run to its end leaves both peers with the same secret.
/// Peer `a` has a pending secret for `b` and sent the hex of its public key;
/// `b` answered that request, and `a` then read `b`'s answer key: `a` keeps
/// for `b` the same bytes that `b` keeps for `a`, no longer holds a pending
/// secret for `b`, and both sides report the link secure.
pub proof fn law_handshake_secrets_agree(
    a_before: NetSession,
    a_after: NetSession,
    b_before: NetSession,
    b_after: NetSession,
    a_id: String,
    b_id: String,
    a_name: String,
    b_name: String,
    init_key_hex: Seq<char>,
    answer_key_hex: Seq<char>,
    init_actions: Seq<NetAction>,
    response_actions: Seq<NetAction>,
)
    requires
        a_before.pending_secrets@.contains_key(b_id@),
        spec_x25519_public(a_before.pending_secrets@[b_id@]).len() == 32,
        init_key_hex == spec_hex_encode(spec_x25519_public(a_before.pending_secrets@[b_id@])),
        init_outcome(b_before, b_after, a_id, init_key_hex, a_name, init_actions),
        init_actions[3] matches NetAction::SendResponse(
            MessagePayload::HandshakeResponse { public_key_hex, .. },
        ) && public_key_hex@ == answer_key_hex,
        response_outcome(a_before, a_after, b_id, answer_key_hex, b_name, response_actions),
    ensures
        a_after.shared_secrets@.contains_key(b_id@),
        b_after.shared_secrets@.contains_key(a_id@),
        a_after.shared_secrets@[b_id@]@ == b_after.shared_secrets@[a_id@]@,
        !a_after.pending_secrets@.contains_key(b_id@),
        is_status(init_actions[4], a_id@, FriendStatus::Secure),
        is_status(response_actions[1], b_id@, FriendStatus::Secure),
{
    let a_secret = a_before.pending_secrets@[b_id@];
    crate::encoding::law_hex_round_trip(spec_x25519_public(a_secret));
    let k = spec_hex_decode(init_key_hex).unwrap();
    assert(k == spec_x25519_public(a_secret));
    let (b_secret, nonce) = choose|secret: x25519_dalek::EphemeralSecret, nonce: Seq<u8>|
        #![trigger spec_x25519_shared(secret, k), spec_hex_encode(nonce)]
        {
            &&& b_after.shared_secrets@[a_id@]@ == spec_x25519_shared(secret, k)
            &&& forall|b: x25519_dalek::EphemeralSecret| #[trigger] spec_x25519_public(b) == k
                ==> b_after.shared_secrets@[a_id@]@ == spec_x25519_shared(
                b,
                spec_x25519_public(secret),
            )
            &&& spec_x25519_public(secret).len() == 32
            &&& nonce.len() == 16
            &&& init_actions[3] matches NetAction::SendResponse(p) && is_handshake_response(
                p,
                spec_x25519_public(secret),
                nonce,
                b_before.my_username@,
            )
        };
    crate::encoding::law_hex_round_trip(spec_x25519_public(b_secret));
    assert(answer_key_hex == spec_hex_encode(spec_x25519_public(b_secret)));
    assert(spec_x25519_public(a_secret) == k);
    assert(b_after.shared_secrets@[a_id@]@ == spec_x25519_shared(
        a_secret,
        spec_x25519_public(b_secret),
    ));
}

/// A public key sent in a handshake is accepted by the other side: its
/// hex text decodes to the same 32 bytes.
pub proof fn law_handshake_key_accepted(public_key: Seq<u8>)
    requires
        public_key.len() == 32,
    ensures
        spec_hex_decode(spec_hex_encode(public_key)) == Some(public_key),
{
    crate::encoding::law_hex_round_trip(public_key);
}

} // verus!
