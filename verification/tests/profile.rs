use noto_m::chat::{AppAuthState, CallState, ChatMessage, ChatMessageContent, ChatState};
use noto_m::profile::{
    accepted_friends, create_profile_check, profile_text, restore_saved_profile, LoginEvent, LoginScreen, restore_profile_check, LoginError,
    decode_backup, encode_backup, get_profile_path, open_profile, profile_fields_missing, profile_key,
    profile_name_of_file, restore_profile, sanitize_profile_name, saved_profile, seal_profile, SavedFriend,
    SavedProfile,
};
use noto_m::protocol::{FriendStatus, InnerPayload};
use noto_m::session::NetworkEvent;
use sha2::Digest;

const BOB: &str = "12D3KooWRBhwfeP2Y9CDkFRBAZ1pmxUadH36TKuk3KtKm5XXP8mA";

#[test]
fn profile_paths() {
    assert_eq!(get_profile_path("Work"), "noto_profile_Work.dat");
    assert_eq!(get_profile_path(""), "noto_profile_.dat");
}

#[test]
fn profile_names_from_file_names() {
    assert_eq!(profile_name_of_file("noto_profile_Work.dat"), Some("Work".to_string()));
    assert_eq!(profile_name_of_file("noto_profile_a.b.dat"), Some("a.b".to_string()));
    assert_eq!(profile_name_of_file("noto_profile_.dat"), Some(String::new()));
    assert_eq!(profile_name_of_file("noto_profile_Work.txt"), None);
    assert_eq!(profile_name_of_file("noto_profile_Work"), None);
    assert_eq!(profile_name_of_file("other_Work.dat"), None);
    assert_eq!(profile_name_of_file(".dat"), None);
    assert_eq!(profile_name_of_file("Cargo.toml"), None);
    assert_eq!(profile_name_of_file(""), None);
    let path = get_profile_path("My_Name");
    assert_eq!(profile_name_of_file(&path), Some("My_Name".to_string()));
}

#[test]
fn sanitizing_names() {
    assert_eq!(sanitize_profile_name("  my work profile \n"), "my_work_profile");
    assert_eq!(sanitize_profile_name("plain"), "plain");
    assert_eq!(sanitize_profile_name("a\tb"), "a\tb");
    assert!(profile_fields_missing("", "u", "p"));
    assert!(profile_fields_missing("n", "", "p"));
    assert!(profile_fields_missing("n", "u", ""));
    assert!(!profile_fields_missing("n", "u", "p"));
}

#[test]
fn profile_key_is_sha256_of_password() {
    let key = profile_key("hunter2");
    let expected = sha2::Sha256::digest(b"hunter2");
    assert_eq!(key.to_vec(), expected.to_vec());
}

#[test]
fn sealed_profile_opens_with_same_password_only() {
    let json = b"{\"keypair_protobuf_hex\":\"00\",\"username\":\"me\",\"friends\":[]}";
    let sealed = seal_profile("correct horse", json);
    assert_ne!(sealed, json.to_vec());
    assert_eq!(open_profile("correct horse", &sealed), json.to_vec());
    assert_ne!(open_profile("wrong", &sealed), json.to_vec());
    let code = encode_backup(&sealed);
    assert_eq!(decode_backup(&format!("\n {} \n", code)), Some(sealed));
    assert_eq!(decode_backup("!!"), None);
}

#[test]
fn saving_and_restoring_friends() {
    let mut s = ChatState::new();
    s.apply_event(NetworkEvent::IncomingPayload {
        peer_id: BOB.to_string(),
        payload: InnerPayload::TextMessage { text: "hi".to_string() },
    });
    s.accept_request(&BOB.to_string());
    let saved = saved_profile(&[1, 2, 255], &"me".to_string(), &s.friends);
    assert_eq!(saved.keypair_protobuf_hex, "0102ff");
    assert_eq!(saved.username, "me");
    assert_eq!(saved.friends.len(), 1);
    assert_eq!(saved.friends[0].peer_id, BOB);
    assert_eq!(saved.friends[0].is_pending_approval, Some(false));
    assert_eq!(saved.friends[0].messages.len(), 1);

    let mut fresh = ChatState::new();
    let n = saved.friends.len();
    let (name, key) = restore_profile(&mut fresh, saved, &vec![true; n]);
    assert_eq!(name, "me");
    assert_eq!(key, vec![1, 2, 255]);
    let f = fresh.friends.get(&BOB.to_string()).unwrap();
    assert_eq!(f.status, FriendStatus::Disconnected);
    assert_eq!(f.call, CallState::Idle);
    assert!(!f.is_pending_approval);
    assert!(matches!(&f.messages[0].content, ChatMessageContent::Text(t) if t == "hi"));
}

#[test]
fn restoring_skips_rejected_ids_and_defaults() {
    let friend = |id: &str, pending: Option<bool>| SavedFriend {
        peer_id: id.to_string(),
        username: format!("name of {}", id),
        is_pending_approval: pending,
        messages: vec![ChatMessage { is_ours: true, timestamp: "now".to_string(), content: ChatMessageContent::Text("x".to_string()) }],
    };
    let profile = SavedProfile {
        keypair_protobuf_hex: "not hex".to_string(),
        username: "me".to_string(),
        friends: vec![friend("bad id", Some(true)), friend(BOB, None), friend(BOB, Some(true))],
    };
    let mut s = ChatState::new();
    let (_, key) = restore_profile(&mut s, profile, &[false, true, true]);
    assert!(key.is_empty());
    assert_eq!(s.friends.len(), 1);
    assert!(s.friends.get(&BOB.to_string()).unwrap().is_pending_approval);
    assert!(!s.friends.contains_key(&"bad id".to_string()));

    let profile = SavedProfile {
        keypair_protobuf_hex: "ab".to_string(),
        username: "me".to_string(),
        friends: vec![friend(BOB, None)],
    };
    let mut s = ChatState::new();
    restore_profile(&mut s, profile, &[true]);
    assert!(!s.friends.get(&BOB.to_string()).unwrap().is_pending_approval);
}

#[test]
fn backup_round_trip() {
    let sealed = seal_profile("pw", b"{\"username\":\"me\"}");
    let code = encode_backup(&sealed);
    assert_eq!(decode_backup(&code), Some(sealed.clone()));
    assert_eq!(encode_backup(b"Man"), "TWFu");
    assert_eq!(encode_backup(b"Ma"), "TWE=");
    assert_eq!(encode_backup(b"M"), "TQ==");
    assert_eq!(encode_backup(b""), "");
    assert_eq!(decode_backup("TWE="), Some(b"Ma".to_vec()));
}

#[test]
fn friends_taken_back_only_with_peer_ids() {
    let friend = |id: &str| SavedFriend {
        peer_id: id.to_string(),
        username: "x".to_string(),
        is_pending_approval: None,
        messages: vec![],
    };
    let flags = accepted_friends(&vec![friend(BOB), friend("nope"), friend("")]);
    assert_eq!(flags, vec![true, false, false]);
}

#[test]
fn login_checks() {
    assert_eq!(create_profile_check("", "me", "pw", false), Err(LoginError::FieldsMissing));
    assert_eq!(create_profile_check("Work", "me", "", false), Err(LoginError::FieldsMissing));
    assert_eq!(create_profile_check(" My Work ", "me", "pw", true), Err(LoginError::NameTaken));
    let (name, keypair) = create_profile_check(" My Work ", "me", "pw", false).unwrap();
    assert_eq!(name, "My_Work");
    assert!(libp2p::identity::Keypair::from_protobuf_encoding(&keypair).is_ok());

    assert_eq!(restore_profile_check("Work", "", "pw", false), None);
    assert_eq!(restore_profile_check("Work", "abcd", "pw", true), Some(Err(LoginError::NameTaken)));
    assert_eq!(restore_profile_check("Work", "%%%", "pw", false), Some(Err(LoginError::BadBackupEncoding)));
    let sealed = seal_profile("pw", b"{}");
    let code = encode_backup(&sealed);
    assert_eq!(
        restore_profile_check("My Work", &code, "pw", false),
        Some(Ok(("My_Work".to_string(), b"{}".to_vec())))
    );

    assert_eq!(LoginError::FieldsMissing.message(), "All fields must be filled.");
    assert_eq!(LoginError::NameTaken.message(), "A profile with this name already exists.");
    assert_eq!(LoginError::BadBackupEncoding.message(), "Invalid backup code encoding (not base64).");
    assert_eq!(LoginError::BadPasswordOrBackup.message(), "Incorrect password or corrupted backup code.");
    assert_eq!(LoginError::NotAProfile.message(), "Decrypted data is not a valid profile.");
    assert_eq!(LoginError::WrongPassword.message(), "Incorrect Master Password.");
}

#[test]
fn decrypted_profile_text() {
    assert_eq!(profile_text(b"{\"a\":1}".to_vec()), Ok("{\"a\":1}".to_string()));
    assert_eq!(profile_text("h\u{e9}".as_bytes().to_vec()), Ok("h\u{e9}".to_string()));
    assert_eq!(profile_text(vec![0xff, 0x00]), Err(LoginError::BadPasswordOrBackup));
    assert_eq!(profile_text(vec![0xc0, 0x80]), Err(LoginError::BadPasswordOrBackup));
}

#[test]
fn restoring_a_saved_profile_keeps_only_peer_ids() {
    let friend = |id: &str| SavedFriend {
        peer_id: id.to_string(),
        username: "x".to_string(),
        is_pending_approval: Some(true),
        messages: vec![],
    };
    let profile = SavedProfile {
        keypair_protobuf_hex: "0aff".to_string(),
        username: "me".to_string(),
        friends: vec![friend("bad id"), friend(BOB), friend("")],
    };
    let mut s = ChatState::new();
    let (name, key) = restore_saved_profile(&mut s, profile);
    assert_eq!(name, "me");
    assert_eq!(key, vec![0x0a, 0xff]);
    assert_eq!(s.friends.len(), 1);
    assert!(s.friends.contains_key(&BOB.to_string()));
}

#[test]
fn login_screen_steps() {
    let mut l = LoginScreen::new(2);
    assert_eq!(l.auth_state, AppAuthState::SelectProfile);
    assert_eq!(LoginScreen::new(0).auth_state, AppAuthState::CreateProfile);

    l.password_input = "typed".to_string();
    l.step(LoginEvent::ProfileChosen("Work".to_string()));
    assert_eq!(l.auth_state, AppAuthState::UnlockProfile);
    assert_eq!(l.selected_profile_name, "Work");
    assert_eq!(l.password_input, "");
    assert_eq!(l.password_error, None);

    l.password_input = "wrong".to_string();
    l.step(LoginEvent::Failed(LoginError::WrongPassword));
    assert_eq!(l.auth_state, AppAuthState::UnlockProfile);
    assert_eq!(l.password_error.as_deref(), Some("Incorrect Master Password."));
    assert_eq!(l.password_input, "wrong");

    l.step(LoginEvent::UnlockCancelled);
    assert_eq!(l.auth_state, AppAuthState::SelectProfile);

    l.step(LoginEvent::CreateChosen);
    assert_eq!(l.auth_state, AppAuthState::CreateProfile);
    assert_eq!(l.password_error, None);
    assert_eq!(l.selected_profile_name, "Work");

    l.step(LoginEvent::BackToSelector(0));
    assert_eq!(l.auth_state, AppAuthState::CreateProfile);
    l.step(LoginEvent::BackToSelector(3));
    assert_eq!(l.auth_state, AppAuthState::SelectProfile);

    l.step(LoginEvent::Opened("Home".to_string()));
    assert_eq!(l.auth_state, AppAuthState::Unlocked);
    assert_eq!(l.selected_profile_name, "Home");
}
