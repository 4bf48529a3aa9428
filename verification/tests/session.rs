use noto_m::protocol::{CallSignalType, FriendStatus, MessagePayload};
use noto_m::session::{NetAction, NetSession, NetworkEvent, ParsedInvite, SessionCommand};
use noto_m::table::PeerTable;

const ALICE: &str = "12D3KooWDpJ7As7BWAwRMfu1VU2WCqNjvq387JEYKDBj4kx6nXTN";
const BOB: &str = "12D3KooWRBhwfeP2Y9CDkFRBAZ1pmxUadH36TKuk3KtKm5XXP8mA";

fn log_text(a: &NetAction) -> Option<&str> {
    match a {
        NetAction::Emit(NetworkEvent::Log(t)) => Some(t.as_str()),
        _ => None,
    }
}

fn status_of(a: &NetAction) -> Option<(&str, FriendStatus)> {
    match a {
        NetAction::Emit(NetworkEvent::FriendStatus { peer_id, status }) => Some((peer_id.as_str(), *status)),
        _ => None,
    }
}

#[test]
fn new_session_has_default_name() {
    let s = NetSession::new(&ALICE.to_string());
    assert_eq!(s.my_username, "@user_12D3K");
    assert_eq!(s.shared_secrets.len(), 0);
    assert_eq!(s.pending_secrets.len(), 0);
}

#[test]
fn listening_address_is_logged_and_passed_on() {
    let actions = NetSession::on_new_listen_addr(&"/ip4/127.0.0.1/tcp/4001".to_string());
    assert_eq!(actions.len(), 2);
    assert_eq!(log_text(&actions[0]), Some("Assigned network address: /ip4/127.0.0.1/tcp/4001"));
    assert!(matches!(&actions[1], NetAction::Emit(NetworkEvent::NewRelayedAddress(a)) if a == "/ip4/127.0.0.1/tcp/4001"));
}

#[test]
fn listener_side_does_not_start_handshake() {
    let mut s = NetSession::new(&BOB.to_string());
    let actions = s.on_connection_established(&ALICE.to_string(), false);
    assert_eq!(actions.len(), 2);
    assert_eq!(log_text(&actions[0]), Some(&*format!("Established basic transport with {}", ALICE)));
    assert_eq!(status_of(&actions[1]), Some((ALICE, FriendStatus::Connected)));
    assert_eq!(s.pending_secrets.len(), 0);
}

#[test]
fn full_handshake_gives_both_sides_the_same_secret() {
    let alice_id = ALICE.to_string();
    let bob_id = BOB.to_string();
    let mut alice = NetSession::new(&alice_id);
    let mut bob = NetSession::new(&bob_id);
    bob.update_username("bob".to_string());

    // Alice dials Bob.
    let actions = alice.on_connection_established(&bob_id, true);
    assert_eq!(actions.len(), 5);
    assert_eq!(log_text(&actions[2]), Some("Initiating key exchange agreement..."));
    assert_eq!(status_of(&actions[3]), Some((BOB, FriendStatus::Securing)));
    assert!(alice.pending_secrets.contains_key(&bob_id));
    let init = match &actions[4] {
        NetAction::SendRequest { peer_id, payload } => {
            assert_eq!(peer_id, BOB);
            payload.clone()
        }
        other => panic!("unexpected {:?}", other),
    };
    match &init {
        MessagePayload::HandshakeInit { public_key_hex, nonce_hex, username } => {
            assert_eq!(public_key_hex.len(), 64);
            assert_eq!(nonce_hex.len(), 32);
            assert_eq!(username, "@user_12D3K");
        }
        other => panic!("unexpected {:?}", other),
    }

    // Bob answers.
    let actions = bob.on_request(&alice_id, init);
    assert_eq!(actions.len(), 6);
    assert_eq!(log_text(&actions[0]), Some("Incoming handshake invitation."));
    assert_eq!(status_of(&actions[1]), Some((ALICE, FriendStatus::Securing)));
    assert!(matches!(&actions[2], NetAction::Emit(NetworkEvent::FriendUsername { peer_id, username }) if peer_id == ALICE && username == "@user_12D3K"));
    assert_eq!(status_of(&actions[4]), Some((ALICE, FriendStatus::Secure)));
    assert_eq!(log_text(&actions[5]), Some("Handshake finished. Secure channel active."));
    let response = match &actions[3] {
        NetAction::SendResponse(p) => p.clone(),
        other => panic!("unexpected {:?}", other),
    };
    assert!(matches!(&response, MessagePayload::HandshakeResponse { username, .. } if username == "bob"));

    // Alice completes.
    let actions = alice.on_response(&bob_id, response);
    assert_eq!(actions.len(), 3);
    assert!(matches!(&actions[0], NetAction::Emit(NetworkEvent::FriendUsername { peer_id, username }) if peer_id == BOB && username == "bob"));
    assert_eq!(status_of(&actions[1]), Some((BOB, FriendStatus::Secure)));
    assert_eq!(log_text(&actions[2]), Some("Secure handshake finished. Cryptography active."));
    assert!(!alice.pending_secrets.contains_key(&bob_id));

    let a = alice.shared_secrets.get(&bob_id).copied().unwrap();
    let b = bob.shared_secrets.get(&alice_id).copied().unwrap();
    assert_eq!(a, b);

    // A payload sealed by Alice reaches Bob's application intact.
    let plaintext = b"{\"TextMessage\":{\"text\":\"hello bob\"}}".to_vec();
    let actions = alice.send_payload(&bob_id, &plaintext);
    assert_eq!(actions.len(), 1);
    let container = match &actions[0] {
        NetAction::SendRequest { peer_id, payload } => {
            assert_eq!(peer_id, BOB);
            payload.clone()
        }
        other => panic!("unexpected {:?}", other),
    };
    let actions = bob.on_request(&alice_id, container);
    assert_eq!(actions.len(), 2);
    assert!(matches!(&actions[0], NetAction::DeliverPayload { peer_id, plaintext: p } if peer_id == ALICE && *p == plaintext));
    assert!(matches!(&actions[1], NetAction::SendResponse(MessagePayload::Ack)));

    // Audio frames arrive, but the receiver decrypts under the zero nonce.
    let actions = alice.send_audio_frame(&bob_id, 7, &[1, 2, 3]);
    assert_eq!(actions.len(), 1);
    let frame = match &actions[0] {
        NetAction::SendRequest { payload, .. } => payload.clone(),
        other => panic!("unexpected {:?}", other),
    };
    let actions = bob.on_request(&alice_id, frame);
    assert_eq!(actions.len(), 2);
    assert!(matches!(&actions[0], NetAction::Emit(NetworkEvent::IncomingAudioFrame { sequence: 7, audio_data, .. }) if audio_data.len() == 3));
}

#[test]
fn bad_handshake_key_is_reported() {
    let mut bob = NetSession::new(&BOB.to_string());
    let alice_id = ALICE.to_string();
    let init = MessagePayload::HandshakeInit {
        public_key_hex: "abcd".to_string(),
        nonce_hex: "00".to_string(),
        username: "alice".to_string(),
    };
    let actions = bob.on_request(&alice_id, init);
    assert_eq!(actions.len(), 4);
    assert_eq!(log_text(&actions[3]), Some("Key conversion failed."));
    assert!(!bob.shared_secrets.contains_key(&alice_id));
}

#[test]
fn unexpected_response_is_ignored_and_bad_key_consumes_pending_secret() {
    let mut alice = NetSession::new(&ALICE.to_string());
    let bob_id = BOB.to_string();
    let response = MessagePayload::HandshakeResponse {
        public_key_hex: "00".repeat(32),
        nonce_hex: "00".repeat(16),
        username: "bob".to_string(),
    };
    assert_eq!(alice.on_response(&bob_id, response.clone()).len(), 0);
    assert_eq!(alice.on_response(&bob_id, MessagePayload::Ack).len(), 0);

    alice.on_connection_established(&bob_id, true);
    let bad = MessagePayload::HandshakeResponse {
        public_key_hex: "zz".to_string(),
        nonce_hex: "00".to_string(),
        username: "bob".to_string(),
    };
    let actions = alice.on_response(&bob_id, bad);
    assert_eq!(actions.len(), 1);
    assert_eq!(log_text(&actions[0]), Some("Response key conversion failed."));
    assert!(!alice.pending_secrets.contains_key(&bob_id));
    assert!(!alice.shared_secrets.contains_key(&bob_id));
}

#[test]
fn closing_the_link_forgets_the_secret() {
    let mut bob = NetSession::new(&BOB.to_string());
    let alice_id = ALICE.to_string();
    let pk = "11".repeat(32);
    let init = MessagePayload::HandshakeInit { public_key_hex: pk, nonce_hex: "00".repeat(16), username: "a".to_string() };
    bob.on_request(&alice_id, init);
    assert!(bob.shared_secrets.contains_key(&alice_id));
    let actions = bob.on_connection_closed(&alice_id);
    assert_eq!(log_text(&actions[0]), Some(&*format!("Lost transport link to {}", ALICE)));
    assert_eq!(status_of(&actions[1]), Some((ALICE, FriendStatus::Disconnected)));
    assert!(!bob.shared_secrets.contains_key(&alice_id));
    let actions = bob.send_payload(&alice_id, b"x");
    assert_eq!(actions.len(), 1);
    assert_eq!(log_text(&actions[0]), Some("No established keys. Unable to encrypt payload."));
    assert_eq!(bob.send_audio_frame(&alice_id, 1, b"x").len(), 0);
}

#[test]
fn requests_without_secret() {
    let mut bob = NetSession::new(&BOB.to_string());
    let alice_id = ALICE.to_string();
    let container = MessagePayload::EncryptedContainer { ciphertext_hex: "00".to_string(), nonce_hex: "00".repeat(16) };
    assert_eq!(bob.on_request(&alice_id, container).len(), 0);
    let frame = MessagePayload::CallAudioFrame { sequence: 1, audio_data_hex: "00".to_string() };
    let actions = bob.on_request(&alice_id, frame);
    assert_eq!(actions.len(), 1);
    assert!(matches!(&actions[0], NetAction::SendResponse(MessagePayload::Ack)));
    let actions = bob.on_request(&alice_id, MessagePayload::CallSignal { signal_type: CallSignalType::Dial });
    assert_eq!(actions.len(), 2);
    assert!(matches!(&actions[0], NetAction::Emit(NetworkEvent::IncomingCallSignal { peer_id, signal: CallSignalType::Dial }) if peer_id == ALICE));
    assert_eq!(bob.on_request(&alice_id, MessagePayload::Ack).len(), 0);
}

#[test]
fn call_signal_request() {
    let actions = NetSession::send_call_signal(&BOB.to_string(), CallSignalType::HangUp);
    assert_eq!(actions.len(), 1);
    assert!(matches!(&actions[0], NetAction::SendRequest { peer_id, payload: MessagePayload::CallSignal { signal_type: CallSignalType::HangUp } } if peer_id == BOB));
}

#[test]
fn invite_codes() {
    let code = NetSession::encode_invite_code(b"{\"peer_id\":\"x\"}");
    assert_eq!(code, "eyJwZWVyX2lkIjoieCJ9");
    assert_eq!(NetSession::decode_invite_code(&format!("  {}\n", code)), Some(b"{\"peer_id\":\"x\"}".to_vec()));
    assert_eq!(NetSession::decode_invite_code("%%%"), None);

    let a = NetSession::add_friend_actions(ParsedInvite::BadEncoding);
    assert_eq!(a.len(), 1);
    assert_eq!(log_text(&a[0]), Some("Invalid invite code encoding."));
    assert_eq!(log_text(&NetSession::add_friend_actions(ParsedInvite::BadSchema)[0]), Some("Invalid invite schema."));
    assert_eq!(log_text(&NetSession::add_friend_actions(ParsedInvite::BadPeerId)[0]), Some("Malformed invite PeerId."));

    let a = NetSession::add_friend_actions(ParsedInvite::Valid {
        peer_id: BOB.to_string(),
        addresses: vec!["/ip4/1.2.3.4/tcp/1".to_string(), "garbage".to_string()],
        username: Some("bob".to_string()),
    });
    assert_eq!(a.len(), 4);
    assert!(matches!(&a[0], NetAction::Emit(NetworkEvent::FriendUsername { username, .. }) if username == "bob"));
    assert_eq!(log_text(&a[1]), Some(&*format!("Resolving routing for: {}", BOB)));
    assert_eq!(status_of(&a[2]), Some((BOB, FriendStatus::Connecting)));
    assert!(matches!(&a[3], NetAction::Dial { peer_id, address } if peer_id == BOB && address == "/ip4/1.2.3.4/tcp/1"));

    let a = NetSession::add_friend_actions(ParsedInvite::Valid { peer_id: BOB.to_string(), addresses: vec![], username: None });
    assert_eq!(a.len(), 2);
    assert_eq!(status_of(&a[1]), Some((BOB, FriendStatus::Connecting)));
}

#[test]
fn peer_table_behaves_as_a_map() {
    let mut t: PeerTable<u32> = PeerTable::new();
    let a = "a".to_string();
    let b = "b".to_string();
    assert_eq!(t.insert(a.clone(), 1), None);
    assert_eq!(t.insert(b.clone(), 2), None);
    assert_eq!(t.insert(a.clone(), 3), Some(1));
    assert_eq!(t.len(), 2);
    assert_eq!(t.get(&a), Some(&3));
    assert_eq!(t.remove(&a), Some(3));
    assert_eq!(t.get(&a), None);
    assert_eq!(t.remove(&a), None);
    assert_eq!(t.entry_at(0), (&b, &2));
    assert!(t.contains_key(&b));
}

#[test]
fn invite_fields_are_read_with_libp2p() {
    match NetSession::parse_invite(BOB, vec!["/ip4/1.2.3.4/tcp/1".to_string()], Some("bob".to_string())) {
        ParsedInvite::Valid { peer_id, addresses, username } => {
            assert_eq!(peer_id, BOB);
            assert_eq!(addresses, vec!["/ip4/1.2.3.4/tcp/1".to_string()]);
            assert_eq!(username.as_deref(), Some("bob"));
        }
        _ => panic!("a valid peer id was refused"),
    }
    assert!(matches!(NetSession::parse_invite("not-a-peer", vec![], None), ParsedInvite::BadPeerId));
    assert!(matches!(NetSession::parse_invite("", vec![], None), ParsedInvite::BadPeerId));
}

#[test]
fn invite_code_round_trip() {
    let json = b"{\"peer_id\":\"12D3KooWRBhwfeP2Y9CDkFRBAZ1pmxUadH36TKuk3KtKm5XXP8mA\",\"addresses\":[]}";
    let code = NetSession::encode_invite_code(json);
    assert_eq!(NetSession::decode_invite_code(&code), Some(json.to_vec()));
    for n in 0..5usize {
        let bytes: Vec<u8> = (0..n as u8).map(|b| b.wrapping_mul(77)).collect();
        assert_eq!(NetSession::decode_invite_code(&NetSession::encode_invite_code(&bytes)), Some(bytes));
    }
}

#[test]
fn session_from_the_stored_keypair() {
    let keypair = libp2p::identity::Keypair::generate_ed25519();
    let bytes = keypair.to_protobuf_encoding().unwrap();
    let expected = libp2p::PeerId::from(keypair.public()).to_string();
    let (id, session) = NetSession::session_for_keypair(&bytes).unwrap();
    assert_eq!(id, expected);
    assert_eq!(session.my_username, format!("@user_{}", &expected[..5]));
    assert_eq!(session.pending_secrets.len(), 0);
    assert_eq!(session.shared_secrets.len(), 0);
    assert!(NetSession::session_for_keypair(b"not a key").is_none());
    assert!(NetSession::session_for_keypair(&[]).is_none());
}

#[test]
fn commands_leave_the_key_tables_alone() {
    let mut s = NetSession::new(&ALICE.to_string());
    assert!(s.on_command(SessionCommand::UpdateUsername("alice".to_string())).is_empty());
    assert_eq!(s.my_username, "alice");

    let a = s.on_command(SessionCommand::SendPayload { peer_id: BOB.to_string(), plaintext: b"{}".to_vec() });
    assert_eq!(a.len(), 1);
    assert_eq!(log_text(&a[0]), Some("No established keys. Unable to encrypt payload."));
    assert!(s.on_command(SessionCommand::SendAudioFrame { peer_id: BOB.to_string(), sequence: 1, raw_audio: vec![1, 2] }).is_empty());
    let a = s.on_command(SessionCommand::SendCallSignal { peer_id: BOB.to_string(), signal: CallSignalType::Dial });
    assert!(matches!(&a[0], NetAction::SendRequest { peer_id, payload: MessagePayload::CallSignal { signal_type: CallSignalType::Dial } } if peer_id == BOB));
    let a = s.on_command(SessionCommand::AddFriend(ParsedInvite::BadSchema));
    assert_eq!(log_text(&a[0]), Some("Invalid invite schema."));
    assert_eq!(s.my_username, "alice");
    assert_eq!(s.pending_secrets.len(), 0);
    assert_eq!(s.shared_secrets.len(), 0);
}
