use noto_m::chat::{initial_auth_state, next_call_state, status_text, AppAuthState, CallState, ChatMessageContent, ChatState};
use noto_m::protocol::{CallSignalType, FriendStatus, InnerPayload};
use noto_m::session::{NetworkEvent, UiCommand};

const BOB: &str = "12D3KooWRBhwfeP2Y9CDkFRBAZ1pmxUadH36TKuk3KtKm5XXP8mA";

fn bob() -> String {
    BOB.to_string()
}

#[test]
fn first_screen_depends_on_profiles() {
    assert_eq!(initial_auth_state(0), AppAuthState::CreateProfile);
    assert_eq!(initial_auth_state(3), AppAuthState::SelectProfile);
}

#[test]
fn call_state_after_signals() {
    assert_eq!(next_call_state(CallSignalType::Dial), CallState::Ringing);
    assert_eq!(next_call_state(CallSignalType::Accept), CallState::Active { duration_secs: 0, is_muted: false });
    assert_eq!(next_call_state(CallSignalType::Decline), CallState::Idle);
    assert_eq!(next_call_state(CallSignalType::HangUp), CallState::Idle);
}

#[test]
fn own_peer_id_and_addresses() {
    let mut s = ChatState::new();
    assert!(!s.apply_event(NetworkEvent::MyPeerId(bob())));
    assert_eq!(s.local_peer_id.as_deref(), Some(BOB));
    s.apply_event(NetworkEvent::NewRelayedAddress("/ip4/1.1.1.1/tcp/1".to_string()));
    s.apply_event(NetworkEvent::NewRelayedAddress("/ip4/1.1.1.1/tcp/1".to_string()));
    s.apply_event(NetworkEvent::NewRelayedAddress("/ip4/2.2.2.2/tcp/2".to_string()));
    assert_eq!(s.my_addresses, vec!["/ip4/1.1.1.1/tcp/1".to_string(), "/ip4/2.2.2.2/tcp/2".to_string()]);
    assert!(!s.apply_event(NetworkEvent::Log("x".to_string())));
}

#[test]
fn status_of_unknown_peer_adds_a_pending_friend() {
    let mut s = ChatState::new();
    assert!(s.apply_event(NetworkEvent::FriendStatus { peer_id: bob(), status: FriendStatus::Connecting }));
    let f = s.friends.get(&bob()).unwrap();
    assert_eq!(f.username, "@user_12D3K");
    assert_eq!(f.status, FriendStatus::Connecting);
    assert!(f.is_pending_approval);
    assert_eq!(f.call, CallState::Idle);
    assert!(!s.apply_event(NetworkEvent::FriendStatus { peer_id: bob(), status: FriendStatus::Secure }));
    assert_eq!(s.friends.get(&bob()).unwrap().status, FriendStatus::Secure);
    assert_eq!(s.friends.len(), 1);
}

#[test]
fn username_changes_only_when_different() {
    let mut s = ChatState::new();
    assert!(s.apply_event(NetworkEvent::FriendUsername { peer_id: bob(), username: "bob".to_string() }));
    let f = s.friends.get(&bob()).unwrap();
    assert_eq!(f.status, FriendStatus::Disconnected);
    assert!(f.is_pending_approval);
    assert!(!s.apply_event(NetworkEvent::FriendUsername { peer_id: bob(), username: "bob".to_string() }));
    assert!(s.apply_event(NetworkEvent::FriendUsername { peer_id: bob(), username: "robert".to_string() }));
    assert_eq!(s.friends.get(&bob()).unwrap().username, "robert");
}

#[test]
fn incoming_payloads_become_messages() {
    let mut s = ChatState::new();
    assert!(s.apply_event(NetworkEvent::IncomingPayload {
        peer_id: bob(),
        payload: InnerPayload::TextMessage { text: "hi".to_string() },
    }));
    let f = s.friends.get(&bob()).unwrap();
    assert_eq!(f.status, FriendStatus::Secure);
    assert!(f.is_pending_approval);
    assert_eq!(f.messages.len(), 1);
    assert!(!f.messages[0].is_ours);
    assert_eq!(f.messages[0].timestamp, "now");
    assert!(matches!(&f.messages[0].content, ChatMessageContent::Text(t) if t == "hi"));

    s.apply_event(NetworkEvent::IncomingPayload {
        peer_id: bob(),
        payload: InnerPayload::FileTransfer {
            file_name: "a.txt".to_string(),
            mime_type: "text/plain".to_string(),
            file_bytes_base64: "aGVsbG8=".to_string(),
        },
    });
    s.apply_event(NetworkEvent::IncomingPayload {
        peer_id: bob(),
        payload: InnerPayload::PhotoTransfer { file_name: "p.png".to_string(), image_bytes_base64: "###".to_string() },
    });
    s.apply_event(NetworkEvent::IncomingPayload {
        peer_id: bob(),
        payload: InnerPayload::VoiceNoteTransfer { duration_secs: 9, audio_bytes_base64: "AAA=".to_string() },
    });
    let f = s.friends.get(&bob()).unwrap();
    assert_eq!(f.messages.len(), 4);
    assert!(matches!(&f.messages[1].content, ChatMessageContent::File { name, mime, bytes } if name == "a.txt" && mime == "text/plain" && bytes == b"hello"));
    assert!(matches!(&f.messages[2].content, ChatMessageContent::Photo { bytes, .. } if bytes.is_empty()));
    assert!(matches!(&f.messages[3].content, ChatMessageContent::VoiceNote { duration: 9, bytes, is_playing: false } if bytes == &vec![0u8, 0]));
}

#[test]
fn call_signals_from_peer() {
    let mut s = ChatState::new();
    assert!(s.apply_event(NetworkEvent::IncomingCallSignal { peer_id: bob(), signal: CallSignalType::Dial }));
    assert_eq!(s.friends.get(&bob()).unwrap().call, CallState::Ringing);
    assert!(!s.apply_event(NetworkEvent::IncomingCallSignal { peer_id: bob(), signal: CallSignalType::Accept }));
    assert_eq!(s.friends.get(&bob()).unwrap().call, CallState::Active { duration_secs: 0, is_muted: false });
    s.toggle_mute(&bob());
    assert_eq!(s.friends.get(&bob()).unwrap().call, CallState::Active { duration_secs: 0, is_muted: true });
    s.apply_event(NetworkEvent::IncomingCallSignal { peer_id: bob(), signal: CallSignalType::HangUp });
    assert_eq!(s.friends.get(&bob()).unwrap().call, CallState::Idle);
    s.toggle_mute(&bob());
    assert_eq!(s.friends.get(&bob()).unwrap().call, CallState::Idle);
}

#[test]
fn placing_and_ending_calls() {
    let mut s = ChatState::new();
    s.apply_event(NetworkEvent::FriendStatus { peer_id: bob(), status: FriendStatus::Secure });
    let c = s.send_call_signal(&bob(), CallSignalType::Dial);
    assert!(matches!(c, UiCommand::SendCallSignal { ref peer_id, signal: CallSignalType::Dial } if peer_id == BOB));
    assert_eq!(s.friends.get(&bob()).unwrap().call, CallState::Dialing);
    s.send_call_signal(&bob(), CallSignalType::HangUp);
    assert_eq!(s.friends.get(&bob()).unwrap().call, CallState::Idle);
    s.send_call_signal(&bob(), CallSignalType::Accept);
    assert_eq!(s.friends.get(&bob()).unwrap().call, CallState::Active { duration_secs: 0, is_muted: false });
    // an unknown peer is only signalled
    let other = "12D3KooWDpJ7As7BWAwRMfu1VU2WCqNjvq387JEYKDBj4kx6nXTN".to_string();
    s.send_call_signal(&other, CallSignalType::Dial);
    assert!(!s.friends.contains_key(&other));
}

#[test]
fn approving_and_declining_requests() {
    let mut s = ChatState::new();
    s.apply_event(NetworkEvent::FriendStatus { peer_id: bob(), status: FriendStatus::Secure });
    s.accept_request(&bob());
    assert!(!s.friends.get(&bob()).unwrap().is_pending_approval);
    s.active_friend = Some(bob());
    s.decline_request(&bob());
    assert!(!s.friends.contains_key(&bob()));
    assert_eq!(s.active_friend, None);
}

#[test]
fn sending_messages_and_attachments() {
    let mut s = ChatState::new();
    s.apply_event(NetworkEvent::FriendStatus { peer_id: bob(), status: FriendStatus::Secure });
    assert!(s.send_text(&bob(), String::new()).is_none());
    let c = s.send_text(&bob(), "hello".to_string()).unwrap();
    assert!(matches!(c, UiCommand::SendPayload { payload: InnerPayload::TextMessage { ref text }, .. } if text == "hello"));

    let c = s.attach_document(&bob());
    match c {
        UiCommand::SendPayload { payload: InnerPayload::FileTransfer { file_name, mime_type, file_bytes_base64 }, .. } => {
            assert_eq!(file_name, "Document.txt");
            assert_eq!(mime_type, "text/plain");
            assert_eq!(file_bytes_base64, "Tk9UT19TRUNVUkVfTUVESUFfUDJQX1NUUkVBTV9URVNUX0NPTlRFTlQ=");
        }
        other => panic!("unexpected {:?}", other),
    }
    let c = s.attach_photo(&bob());
    assert!(matches!(c, UiCommand::SendPayload { payload: InnerPayload::PhotoTransfer { ref file_name, ref image_bytes_base64 }, .. } if file_name == "Photo.png" && image_bytes_base64.len() == 1368));
    let c = s.attach_video(&bob());
    assert!(matches!(c, UiCommand::SendPayload { payload: InnerPayload::VideoTransfer { ref file_name, .. }, .. } if file_name == "Video.mp4"));

    assert!(s.toggle_voice_recording(&bob()).is_none());
    assert!(s.recording_voice_note);
    assert_eq!(s.recorded_secs, 5);
    let c = s.toggle_voice_recording(&bob()).unwrap();
    assert!(matches!(c, UiCommand::SendPayload { payload: InnerPayload::VoiceNoteTransfer { duration_secs: 5, ref audio_bytes_base64 }, .. } if audio_bytes_base64.len() == 684));
    assert!(!s.recording_voice_note);

    let f = s.friends.get(&bob()).unwrap();
    assert_eq!(f.messages.len(), 5);
    assert!(f.messages.iter().all(|m| m.is_ours && m.timestamp == "now"));
    assert!(matches!(&f.messages[0].content, ChatMessageContent::Text(t) if t == "hello"));
    assert!(matches!(&f.messages[1].content, ChatMessageContent::File { bytes, .. } if bytes == b"NOTO_SECURE_MEDIA_P2P_STREAM_TEST_CONTENT"));
    assert!(matches!(&f.messages[2].content, ChatMessageContent::Photo { bytes, .. } if bytes.len() == 1024 && bytes.iter().all(|b| *b == 0)));
    assert!(matches!(&f.messages[4].content, ChatMessageContent::VoiceNote { duration: 5, bytes, is_playing: false } if bytes.len() == 512));
}

#[test]
fn status_lines() {
    assert_eq!(status_text(true, FriendStatus::Secure), "Pending Approval");
    assert_eq!(status_text(false, FriendStatus::Secure), "Online (Secure)");
    assert_eq!(status_text(false, FriendStatus::Securing), "Connecting...");
    assert_eq!(status_text(false, FriendStatus::Connecting), "Connecting...");
    assert_eq!(status_text(false, FriendStatus::Connected), "Connected");
    assert_eq!(status_text(false, FriendStatus::Disconnected), "Offline");
}

#[test]
fn draining_a_queue_of_events() {
    let mut s = ChatState::new();
    s.my_addresses.push("/ip4/9.9.9.9/tcp/9".to_string());
    let changed = s.apply_events(vec![
        NetworkEvent::NewRelayedAddress("/ip4/1.1.1.1/tcp/1".to_string()),
        NetworkEvent::MyPeerId(bob()),
        NetworkEvent::NewRelayedAddress("/ip4/9.9.9.9/tcp/9".to_string()),
        NetworkEvent::NewRelayedAddress("/ip4/2.2.2.2/tcp/2".to_string()),
        NetworkEvent::NewRelayedAddress("/ip4/1.1.1.1/tcp/1".to_string()),
        NetworkEvent::Log("x".to_string()),
    ]);
    assert!(!changed);
    assert_eq!(
        s.my_addresses,
        vec!["/ip4/9.9.9.9/tcp/9", "/ip4/1.1.1.1/tcp/1", "/ip4/2.2.2.2/tcp/2"]
    );
    assert_eq!(s.local_peer_id.as_deref(), Some(BOB));

    assert!(s.apply_events(vec![
        NetworkEvent::Log("y".to_string()),
        NetworkEvent::FriendStatus { peer_id: bob(), status: FriendStatus::Secure },
        NetworkEvent::FriendStatus { peer_id: bob(), status: FriendStatus::Connected },
    ]));
    assert_eq!(s.friends.get(&bob()).unwrap().status, FriendStatus::Connected);
    assert!(!s.apply_events(Vec::new()));
}

#[test]
fn sending_keeps_the_friend_otherwise_unchanged() {
    let mut s = ChatState::new();
    s.apply_event(NetworkEvent::FriendStatus { peer_id: bob(), status: FriendStatus::Secure });
    s.apply_event(NetworkEvent::IncomingCallSignal { peer_id: bob(), signal: CallSignalType::Dial });
    s.send_text(&bob(), "hi".to_string());
    s.attach_photo(&bob());
    s.toggle_voice_recording(&bob());
    s.toggle_voice_recording(&bob());
    let f = s.friends.get(&bob()).unwrap();
    assert!(f.is_pending_approval);
    assert_eq!(f.status, FriendStatus::Secure);
    assert_eq!(f.call, CallState::Ringing);
    assert_eq!(f.username, format!("@user_{}", &BOB[..5]));
    assert_eq!(f.messages.len(), 3);
    assert!(f.messages.iter().all(|m| m.is_ours && m.timestamp == "now"));
}
