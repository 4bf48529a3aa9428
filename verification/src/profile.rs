//! Local profiles: where they are stored, how their names are cleaned, how
//! the saved form is built from the conversation state and taken back, and
//! how the saved bytes are sealed under a key derived from the password.

use crate::chat::{
    initial_auth_state, AppAuthState, CallState, ChatMessage, ChatMessageContent, ChatState,
    FriendState,
};
use crate::crypto::{
    law_decrypt_undoes_encrypt, sha256_digest, spec_initial_state, spec_sha256, CustomCipher,
};
use crate::encoding::{
    base64_decode, base64_encode, hex_decode, hex_encode, lemma_base64_text_not_white,
    spec_base64_decode, spec_base64_encode,
    spec_hex_decode, spec_hex_encode,
};
use crate::protocol::{spec_seal, spec_unseal, zero_nonce, FriendStatus};
use crate::table::PeerTable;
use crate::peer::{fresh_keypair, peer_id_text, spec_keypair_peer_id, spec_peer_id_text};
use crate::text::{
    join_text, lemma_trim_without_white, push_char, same_text, spec_trim, starts_with_text, trim_text,
};
use vstd::prelude::*;
use vstd::utf8::{decode_utf8, valid_utf8};
use vstd::string::*;

verus! {

/// A friend as saved in a profile.
#[derive(Debug, Clone)]
pub struct SavedFriend {
    pub peer_id: String,
    pub username: String,
    pub is_pending_approval: Option<bool>,
    pub messages: Vec<ChatMessage>,
}

/// What a profile file holds once decrypted: the identity key in hex, the
/// display name and the friends with their conversations.
#[derive(Debug, Clone)]
pub struct SavedProfile {
    pub keypair_protobuf_hex: String,
    pub username: String,
    pub friends: Vec<SavedFriend>,
}

/// The prefix of every profile file's name.
pub open spec fn profile_prefix() -> Seq<char> {
    "noto_profile_"@
}

/// The file a profile is stored in.
pub open spec fn spec_profile_path(profile_name: Seq<char>) -> Seq<char> {
    profile_prefix() + profile_name + ".dat"@
}

/// The path of the file a profile is stored in: `noto_profile_<name>.dat`.
pub fn get_profile_path(profile_name: &str) -> (path: String)
    ensures
        path@ == spec_profile_path(profile_name@),
{
    let mut path = join_text("noto_profile_", profile_name);
    path.append(".dat");
    path
}

/// Position of the last `.` in a file name, -1 when there is none.
pub open spec fn last_dot(f: Seq<char>) -> int
    decreases f.len(),
{
    if f.len() == 0 {
        -1
    } else if f.last() == '.' {
        f.len() - 1
    } else {
        last_dot(f.drop_last())
    }
}

/// The profile a file name stands for: its extension (after the last dot,
/// when that dot does not open the name) is `dat` and its stem begins with
/// the profile prefix; the name is the rest of the stem.
pub open spec fn spec_profile_name_of_file(f: Seq<char>) -> Option<Seq<char>> {
    let k = last_dot(f);
    if k <= 0 {
        None
    } else {
        let stem = f.take(k);
        if f.skip(k + 1) == ".dat"@.skip(1) && profile_prefix().len() <= stem.len() && stem.take(
            profile_prefix().len() as int,
        ) == profile_prefix() {
            Some(stem.skip(profile_prefix().len() as int))
        } else {
            None
        }
    }
}

proof fn lemma_last_dot(f: Seq<char>, k: int)
    requires
        -1 <= k < f.len(),
        k >= 0 ==> f[k] == '.',
        forall|j: int| k < j < f.len() ==> #[trigger] f[j] != '.',
    ensures
        last_dot(f) == k,
    decreases f.len(),
{
    if f.len() > 0 && k < f.len() - 1 {
        let g = f.drop_last();
        assert forall|j: int| k < j < g.len() implies #[trigger] g[j] != '.' by {
            assert(g[j] == f[j]);
        }
        if k >= 0 {
            assert(g[k] == f[k]);
        }
        lemma_last_dot(g, k);
    }
}

/// The file a profile is saved to is listed under the same profile name.
pub proof fn law_profile_path_lists_name(profile_name: Seq<char>)
    ensures
        spec_profile_name_of_file(spec_profile_path(profile_name)) == Some(profile_name),
{
    reveal_strlit("noto_profile_");
    reveal_strlit(".dat");
    let path = spec_profile_path(profile_name);
    let k: int = 13 + profile_name.len() as int;
    assert(path[k] == '.');
    assert forall|j: int| k < j < path.len() implies #[trigger] path[j] != '.' by {
        assert(path[j] == ".dat"@[j - k]);
    }
    lemma_last_dot(path, k);
    assert(path.skip(k + 1) =~= ".dat"@.skip(1));
    assert(path.take(k).take(13) =~= profile_prefix());
    assert(path.take(k).skip(13) =~= profile_name);
}

/// The profile a file in the working directory stands for, if any.
pub fn profile_name_of_file(file_name: &str) -> (profile_name: Option<String>)
    ensures
        match profile_name {
            Some(p) => spec_profile_name_of_file(file_name@) == Some(p@),
            None => spec_profile_name_of_file(file_name@) is None,
        },
{
    let n = file_name.unicode_len();
    let mut k: usize = n;
    while k > 0 && file_name.get_char(k - 1) != '.'
        invariant
            k <= n,
            n == file_name@.len(),
            forall|j: int| k <= j < n ==> #[trigger] file_name@[j] != '.',
        decreases k,
    {
        k = k - 1;
    }
    proof {
        lemma_last_dot(file_name@, k - 1);
    }
    if k <= 1 {
        return None;
    }
    let dot: usize = k - 1;
    let extension = file_name.substring_char(dot + 1, n);
    let stem = file_name.substring_char(0, dot);
    proof {
        reveal_strlit(".dat");
        reveal_strlit("dat");
        assert(".dat"@.skip(1) =~= "dat"@);
        assert(file_name@.take(dot as int).take(13) =~= file_name@.subrange(0, dot as int).take(
            13,
        ));
    }
    if same_text(extension, "dat") && starts_with_text(stem, "noto_profile_") {
        proof {
            reveal_strlit("noto_profile_");
        }
        let name_len = stem.unicode_len();
        Some(String::from_str(stem.substring_char(13, name_len)))
    } else {
        None
    }
}

/// A profile name as typed, cleaned: surrounding white space removed and
/// each space replaced by an underscore.
pub open spec fn spec_sanitize_profile_name(input: Seq<char>) -> Seq<char> {
    spec_trim(input).map_values(
        |c: char|
            if c == ' ' {
                '_'
            } else {
                c
            },
    )
}

/// Cleaning a typed name keeps every character of the trimmed name, in
/// place, whatever its length: the result is exactly as long as the trimmed
/// input, and each position holds the trimmed input's character, a space
/// turned into `_`.
pub proof fn law_sanitized_name_replaces_only_spaces(input: Seq<char>)
    ensures
        spec_sanitize_profile_name(input).len() == spec_trim(input).len(),
        forall|i: int|
            0 <= i < spec_trim(input).len() ==> #[trigger] spec_sanitize_profile_name(input)[i] == (
            if spec_trim(input)[i] == ' ' {
                '_'
            } else {
                spec_trim(input)[i]
            }),
{
}

/// Cleans a typed profile name.
pub fn sanitize_profile_name(input: &str) -> (name: String)
    ensures
        name@ == spec_sanitize_profile_name(input@),
        name@.len() == spec_trim(input@).len(),
        forall|i: int|
            0 <= i < name@.len() ==> #[trigger] name@[i] == (if spec_trim(input@)[i] == ' ' {
                '_'
            } else {
                spec_trim(input@)[i]
            }),
{
    proof {
        law_sanitized_name_replaces_only_spaces(input@);
    }
    let trimmed = trim_text(input);
    let t = trimmed.as_str();
    let n = t.unicode_len();
    let mut name = String::new();
    let mut i: usize = 0;
    while i < n
        invariant
            i <= n,
            n == t@.len(),
            t@ == spec_trim(input@),
            name@ == t@.take(i as int).map_values(
                |c: char|
                    if c == ' ' {
                        '_'
                    } else {
                        c
                    },
            ),
        decreases n - i,
    {
        let c = t.get_char(i);
        if c == ' ' {
            push_char(&mut name, '_');
        } else {
            push_char(&mut name, c);
        }
        i = i + 1;
        assert(name@ =~= t@.take(i as int).map_values(
            |c: char|
                if c == ' ' {
                    '_'
                } else {
                    c
                },
        ));
    }
    assert(t@.take(n as int) =~= t@);
    name
}

/// Whether one of the fields needed to create a profile is empty.
pub fn profile_fields_missing(profile_name: &str, username: &str, password: &str) -> (missing:
    bool)
    ensures
        missing == (profile_name@.len() == 0 || username@.len() == 0 || password@.len() == 0),
{
    profile_name.unicode_len() == 0 || username.unicode_len() == 0 || password.unicode_len() == 0
}

/// The key a profile is sealed under: the SHA-256 of the password's bytes.
pub open spec fn spec_profile_key(password: &str) -> Seq<u8> {
    spec_sha256(password.spec_bytes())
}

/// The key a profile is sealed under is the SHA-256 of the password's exact
/// UTF-8 bytes, for every password: no byte is changed or dropped first, so
/// passwords that differ only in letter case get different inputs.
pub proof fn law_profile_key_is_sha256_of_password_bytes(password: &str)
    ensures
        spec_profile_key(password) == spec_sha256(password.spec_bytes()),
{
}

/// The key a profile is sealed under.
pub fn profile_key(password: &str) -> (key: [u8; 32])
    ensures
        key@ == spec_profile_key(password),
        key@ == spec_sha256(password.spec_bytes()),
{
    proof {
        law_profile_key_is_sha256_of_password_bytes(password);
    }
    let digest = sha256_digest(password.as_bytes());
    let mut key: [u8; 32] = [0u8; 32];
    let mut i: usize = 0;
    while i < 32
        invariant
            i <= 32,
            digest@.len() == 32,
            forall|j: int| 0 <= j < i ==> key@[j] == digest@[j],
        decreases 32 - i,
    {
        key[i] = digest[i];
        i = i + 1;
    }
    assert(key@ =~= digest@);
    key
}

/// The bytes stored for a profile: its serialized form encrypted under the
/// password's key and the zero nonce.
pub fn seal_profile(password: &str, serialized: &[u8]) -> (sealed: Vec<u8>)
    ensures
        sealed@ == spec_seal(spec_profile_key(password), zero_nonce(), serialized@),
{
    let key = profile_key(password);
    let nonce: [u8; 16] = [0u8; 16];
    assert(nonce@ =~= zero_nonce());
    let mut cipher = CustomCipher::new(&key, &nonce);
    cipher.encrypt(serialized)
}

/// The serialized form a profile's stored bytes decrypt to under a password.
pub fn open_profile(password: &str, sealed: &[u8]) -> (serialized: Vec<u8>)
    ensures
        serialized@ == spec_unseal(spec_profile_key(password), zero_nonce(), sealed@),
{
    let key = profile_key(password);
    let nonce: [u8; 16] = [0u8; 16];
    assert(nonce@ =~= zero_nonce());
    let mut cipher = CustomCipher::new(&key, &nonce);
    cipher.decrypt(sealed)
}

/// A profile sealed under a password opens, under the same password, to
/// what was sealed.
pub proof fn law_profile_round_trip(password: &str, serialized: Seq<u8>)
    ensures
        spec_unseal(
            spec_profile_key(password),
            zero_nonce(),
            spec_seal(spec_profile_key(password), zero_nonce(), serialized),
        ) == serialized,
{
    law_decrypt_undoes_encrypt(
        spec_initial_state(spec_profile_key(password), zero_nonce()),
        serialized,
    );
}

/// The backup code of a profile: the base64 of its stored bytes.
pub fn encode_backup(sealed: &[u8]) -> (code: String)
    requires
        sealed@.len() <= (usize::MAX / 4) * 3,
    ensures
        code@ == spec_base64_encode(sealed@),
{
    base64_encode(sealed)
}

/// The stored bytes a pasted backup code stands for: the base64 of the code
/// without surrounding white space. A code that `encode_backup` wrote gives
/// back the bytes it was written for.
pub fn decode_backup(code: &str) -> (sealed: Option<Vec<u8>>)
    ensures
        match sealed {
            Some(s) => spec_base64_decode(spec_trim(code@)) == Some(s@),
            None => spec_base64_decode(spec_trim(code@)) is None,
        },
        forall|b: Seq<u8>| #[trigger] spec_base64_encode(b) == spec_trim(code@) ==> sealed is Some
            && sealed->0@ == b,
        forall|b: Seq<u8>| #[trigger] spec_base64_encode(b) == code@ ==> sealed is Some && sealed->0@ == b,
{
    let trimmed = trim_text(code);
    let sealed = base64_decode(trimmed.as_str());
    proof {
        assert forall|b: Seq<u8>| #[trigger] spec_base64_encode(b) == code@ implies sealed is Some
            && sealed->0@ == b by {
            lemma_base64_text_not_white(b);
            lemma_trim_without_white(code@);
        }
    }
    sealed
}

/// Why a profile could not be created, restored or unlocked.
#[derive(Debug, Clone, Copy, PartialEq, Eq, Structural)]
pub enum LoginError {
    FieldsMissing,
    NameTaken,
    BadBackupEncoding,
    BadPasswordOrBackup,
    NotAProfile,
    WrongPassword,
}

/// The message the interface shows for a login error.
pub open spec fn spec_login_message(error: LoginError) -> Seq<char> {
    match error {
        LoginError::FieldsMissing => "All fields must be filled."@,
        LoginError::NameTaken => "A profile with this name already exists."@,
        LoginError::BadBackupEncoding => "Invalid backup code encoding (not base64)."@,
        LoginError::BadPasswordOrBackup => "Incorrect password or corrupted backup code."@,
        LoginError::NotAProfile => "Decrypted data is not a valid profile."@,
        LoginError::WrongPassword => "Incorrect Master Password."@,
    }
}

impl LoginError {
    /// The message shown for the error.
    pub fn message(&self) -> (text: String)
        ensures
            text@ == spec_login_message(*self),
    {
        match self {
            LoginError::FieldsMissing => String::from_str("All fields must be filled."),
            LoginError::NameTaken => String::from_str("A profile with this name already exists."),
            LoginError::BadBackupEncoding => String::from_str(
                "Invalid backup code encoding (not base64).",
            ),
            LoginError::BadPasswordOrBackup => String::from_str(
                "Incorrect password or corrupted backup code.",
            ),
            LoginError::NotAProfile => String::from_str("Decrypted data is not a valid profile."),
            LoginError::WrongPassword => String::from_str("Incorrect Master Password."),
        }
    }
}

/// What happens on the login screens: a profile is picked for unlocking,
/// profile creation is chosen, an attempt fails, a profile is opened (made,
/// restored or unlocked, under its name), unlocking is cancelled, or the
/// selector is asked for again with the number of profiles now on disk.
#[derive(Debug, Clone)]
pub enum LoginEvent {
    ProfileChosen(String),
    CreateChosen,
    Failed(LoginError),
    Opened(String),
    UnlockCancelled,
    BackToSelector(usize),
}

/// The state of the login screens: which screen is shown, the profile it is
/// about, the typed password and the error on show.
pub struct LoginScreen {
    pub auth_state: AppAuthState,
    pub selected_profile_name: String,
    pub password_input: String,
    pub password_error: Option<String>,
}

impl LoginScreen {
    /// The screens at start, for the number of profiles on disk.
    pub fn new(profile_count: usize) -> (screen: Self)
        ensures
            screen.auth_state == (if profile_count == 0 {
                AppAuthState::CreateProfile
            } else {
                AppAuthState::SelectProfile
            }),
            screen.selected_profile_name@.len() == 0,
            screen.password_input@.len() == 0,
            screen.password_error is None,
    {
        LoginScreen {
            auth_state: initial_auth_state(profile_count),
            selected_profile_name: String::new(),
            password_input: String::new(),
            password_error: None,
        }
    }

    /// One step of the login screens. Picking a profile or choosing to
    /// create one clears the password and the error and shows that screen; a
    /// failure shows its message; an opened profile becomes the selected one
    /// and the chat is shown; cancelling an unlock shows the selector; going
    /// back shows the first screen for the profiles on disk.
    pub fn step(&mut self, event: LoginEvent)
        ensures
            match event {
                LoginEvent::ProfileChosen(name) => {
                    &&& final(self).auth_state == AppAuthState::UnlockProfile
                    &&& final(self).selected_profile_name == name
                    &&& final(self).password_input@.len() == 0
                    &&& final(self).password_error is None
                },
                LoginEvent::CreateChosen => {
                    &&& final(self).auth_state == AppAuthState::CreateProfile
                    &&& final(self).selected_profile_name == old(self).selected_profile_name
                    &&& final(self).password_input@.len() == 0
                    &&& final(self).password_error is None
                },
                LoginEvent::Failed(error) => {
                    &&& final(self).auth_state == old(self).auth_state
                    &&& final(self).selected_profile_name == old(self).selected_profile_name
                    &&& final(self).password_input == old(self).password_input
                    &&& final(self).password_error matches Some(text) && text@ == spec_login_message(
                        error,
                    )
                },
                LoginEvent::Opened(name) => {
                    &&& final(self).auth_state == AppAuthState::Unlocked
                    &&& final(self).selected_profile_name == name
                    &&& final(self).password_input == old(self).password_input
                    &&& final(self).password_error == old(self).password_error
                },
                LoginEvent::UnlockCancelled => {
                    &&& final(self).auth_state == AppAuthState::SelectProfile
                    &&& final(self).selected_profile_name == old(self).selected_profile_name
                    &&& final(self).password_input == old(self).password_input
                    &&& final(self).password_error == old(self).password_error
                },
                LoginEvent::BackToSelector(count) => {
                    &&& final(self).auth_state == (if count == 0 {
                        AppAuthState::CreateProfile
                    } else {
                        AppAuthState::SelectProfile
                    })
                    &&& final(self).selected_profile_name == old(self).selected_profile_name
                    &&& final(self).password_input == old(self).password_input
                    &&& final(self).password_error == old(self).password_error
                },
            },
    {
        match event {
            LoginEvent::ProfileChosen(name) => {
                self.selected_profile_name = name;
                self.password_error = None;
                self.password_input = String::new();
                self.auth_state = AppAuthState::UnlockProfile;
            },
            LoginEvent::CreateChosen => {
                self.auth_state = AppAuthState::CreateProfile;
                self.password_error = None;
                self.password_input = String::new();
            },
            LoginEvent::Failed(error) => {
                self.password_error = Some(error.message());
            },
            LoginEvent::Opened(name) => {
                self.selected_profile_name = name;
                self.auth_state = AppAuthState::Unlocked;
            },
            LoginEvent::UnlockCancelled => {
                self.auth_state = AppAuthState::SelectProfile;
            },
            LoginEvent::BackToSelector(count) => {
                self.auth_state = initial_auth_state(count);
            },
        }
    }
}

/// `String::from_utf8`, with the error mapped to `None`. Trusted: std's
/// documentation says it fails exactly when the bytes are not UTF-8 and
/// otherwise holds the characters they encode; `valid_utf8` and
/// `decode_utf8` are vstd's statement of that encoding.
#[verifier::external_body]
fn utf8_text(bytes: Vec<u8>) -> (text: Option<String>)
    ensures
        match text {
            Some(t) => valid_utf8(bytes@) && t@ == decode_utf8(bytes@),
            None => !valid_utf8(bytes@),
        },
{
    String::from_utf8(bytes).ok()
}

/// The text of a decrypted profile, to be read as JSON: bytes that are not
/// UTF-8 mean a wrong password or a damaged backup.
pub fn profile_text(decrypted: Vec<u8>) -> (text: Result<String, LoginError>)
    ensures
        valid_utf8(decrypted@) ==> (text matches Ok(t) && t@ == decode_utf8(decrypted@)),
        !valid_utf8(decrypted@) ==> text == Err::<String, LoginError>(
            LoginError::BadPasswordOrBackup,
        ),
{
    match utf8_text(decrypted) {
        Some(t) => Ok(t),
        None => Err(LoginError::BadPasswordOrBackup),
    }
}

/// The create button: every field must be filled, and no profile may stand
/// under the cleaned name (`name_taken`: its file exists); then the profile
/// is created under the cleaned name with a fresh identity keypair (in its
/// protobuf encoding, which reads back as a keypair).
pub fn create_profile_check(name: &str, username: &str, password: &str, name_taken: bool) -> (result:
    Result<(String, Vec<u8>), LoginError>)
    ensures
        (name@.len() == 0 || username@.len() == 0 || password@.len() == 0) ==> result == Err::<
            (String, Vec<u8>),
            LoginError,
        >(LoginError::FieldsMissing),
        !(name@.len() == 0 || username@.len() == 0 || password@.len() == 0) && name_taken ==> result
            == Err::<(String, Vec<u8>), LoginError>(LoginError::NameTaken),
        !(name@.len() == 0 || username@.len() == 0 || password@.len() == 0) && !name_taken ==> (
        result matches Ok((n, keypair)) && n@ == spec_sanitize_profile_name(name@)
            && spec_keypair_peer_id(keypair@) is Some),
{
    if profile_fields_missing(name, username, password) {
        Err(LoginError::FieldsMissing)
    } else if name_taken {
        Err(LoginError::NameTaken)
    } else {
        Ok((sanitize_profile_name(name), fresh_keypair()))
    }
}

/// The restore button: nothing happens while a field is empty; a profile
/// standing under the cleaned name (`name_taken`) or a code that is not
/// base64 is refused; otherwise the cleaned name and the code's bytes
/// decrypted under the password are given, to be read as a profile.
pub fn restore_profile_check(name: &str, backup: &str, password: &str, name_taken: bool) -> (result:
    Option<Result<(String, Vec<u8>), LoginError>>)
    ensures
        (name@.len() == 0 || backup@.len() == 0 || password@.len() == 0) <==> result is None,
        result is Some && name_taken ==> result == Some(
            Err::<(String, Vec<u8>), LoginError>(LoginError::NameTaken),
        ),
        result is Some && !name_taken ==> match spec_base64_decode(spec_trim(backup@)) {
            None => result == Some(Err::<(String, Vec<u8>), LoginError>(LoginError::BadBackupEncoding)),
            Some(sealed) => result matches Some(Ok((n, bytes))) && n@ == spec_sanitize_profile_name(
                name@,
            ) && bytes@ == spec_unseal(spec_profile_key(password), zero_nonce(), sealed),
        },
{
    if name.unicode_len() == 0 || backup.unicode_len() == 0 || password.unicode_len() == 0 {
        return None;
    }
    if name_taken {
        return Some(Err(LoginError::NameTaken));
    }
    match decode_backup(backup) {
        Some(sealed) => {
            let serialized = open_profile(password, sealed.as_slice());
            Some(Ok((sanitize_profile_name(name), serialized)))
        },
        None => Some(Err(LoginError::BadBackupEncoding)),
    }
}

/// A copy of bytes.
fn copy_bytes(v: &Vec<u8>) -> (c: Vec<u8>)
    ensures
        c@ == v@,
{
    let mut c: Vec<u8> = Vec::new();
    let mut i: usize = 0;
    while i < v.len()
        invariant
            i <= v@.len(),
            c@ == v@.take(i as int),
        decreases v@.len() - i,
    {
        c.push(v[i]);
        i = i + 1;
        assert(c@ =~= v@.take(i as int));
    }
    assert(v@.take(v@.len() as int) =~= v@);
    c
}

/// A copy of a message.
pub fn copy_message(m: &ChatMessage) -> (c: ChatMessage)
    ensures
        c.is_ours == m.is_ours,
        c.timestamp == m.timestamp,
        c.content matches ChatMessageContent::Text(t) ==> m.content == ChatMessageContent::Text(t),
        same_content(c.content, m.content),
{
    let content = match &m.content {
        ChatMessageContent::Text(t) => ChatMessageContent::Text(t.clone()),
        ChatMessageContent::File { name, mime, bytes } => ChatMessageContent::File {
            name: name.clone(),
            mime: mime.clone(),
            bytes: copy_bytes(bytes),
        },
        ChatMessageContent::Photo { name, bytes } => ChatMessageContent::Photo {
            name: name.clone(),
            bytes: copy_bytes(bytes),
        },
        ChatMessageContent::Video { name, bytes } => ChatMessageContent::Video {
            name: name.clone(),
            bytes: copy_bytes(bytes),
        },
        ChatMessageContent::VoiceNote { duration, bytes, is_playing } => {
            ChatMessageContent::VoiceNote {
                duration: *duration,
                bytes: copy_bytes(bytes),
                is_playing: *is_playing,
            }
        },
    };
    ChatMessage { is_ours: m.is_ours, timestamp: m.timestamp.clone(), content }
}

/// Two message contents hold the same values (bytes compared by their contents).
pub open spec fn same_content(a: ChatMessageContent, b: ChatMessageContent) -> bool {
    match (a, b) {
        (ChatMessageContent::Text(x), ChatMessageContent::Text(y)) => x == y,
        (
            ChatMessageContent::File { name: n1, mime: m1, bytes: b1 },
            ChatMessageContent::File { name: n2, mime: m2, bytes: b2 },
        ) => n1 == n2 && m1 == m2 && b1@ == b2@,
        (
            ChatMessageContent::Photo { name: n1, bytes: b1 },
            ChatMessageContent::Photo { name: n2, bytes: b2 },
        ) => n1 == n2 && b1@ == b2@,
        (
            ChatMessageContent::Video { name: n1, bytes: b1 },
            ChatMessageContent::Video { name: n2, bytes: b2 },
        ) => n1 == n2 && b1@ == b2@,
        (
            ChatMessageContent::VoiceNote { duration: d1, bytes: b1, is_playing: p1 },
            ChatMessageContent::VoiceNote { duration: d2, bytes: b2, is_playing: p2 },
        ) => d1 == d2 && b1@ == b2@ && p1 == p2,
        _ => false,
    }
}

/// Two messages hold the same values.
pub open spec fn same_message(a: ChatMessage, b: ChatMessage) -> bool {
    a.is_ours == b.is_ours && a.timestamp == b.timestamp && same_content(a.content, b.content)
}

/// Two conversations hold the same messages in the same order.
pub open spec fn same_messages(a: Seq<ChatMessage>, b: Seq<ChatMessage>) -> bool {
    a.len() == b.len() && forall|i: int| 0 <= i < a.len() ==> same_message(#[trigger] a[i], b[i])
}

/// A copy of a conversation.
pub fn copy_messages(v: &Vec<ChatMessage>) -> (c: Vec<ChatMessage>)
    ensures
        same_messages(c@, v@),
{
    let mut c: Vec<ChatMessage> = Vec::new();
    let mut i: usize = 0;
    while i < v.len()
        invariant
            i <= v@.len(),
            c@.len() == i,
            forall|j: int| 0 <= j < i ==> same_message(#[trigger] c@[j], v@[j]),
        decreases v@.len() - i,
    {
        c.push(copy_message(&v[i]));
        i = i + 1;
    }
    c
}

/// How a friend is saved: its id, name, approval state and conversation.
pub open spec fn is_saved_friend(s: SavedFriend, peer: Seq<char>, f: FriendState) -> bool {
    &&& s.peer_id@ == peer
    &&& s.username == f.username
    &&& s.is_pending_approval == Some(f.is_pending_approval)
    &&& same_messages(s.messages@, f.messages@)
}

/// The saved form of the conversation state: the identity key in hex, the
/// display name, and each friend in the list's order.
pub fn saved_profile(keypair_protobuf: &[u8], username: &String, friends: &PeerTable<FriendState>) -> (profile:
    SavedProfile)
    requires
        friends.wf(),
    ensures
        profile.keypair_protobuf_hex@ == spec_hex_encode(keypair_protobuf@),
        profile.username == *username,
        profile.friends@.len() == friends.entry_seq().len(),
        forall|i: int|
            0 <= i < profile.friends@.len() ==> is_saved_friend(
                #[trigger] profile.friends@[i],
                friends.entry_seq()[i].0,
                friends.entry_seq()[i].1,
            ),
{
    let mut saved: Vec<SavedFriend> = Vec::new();
    let n = friends.len();
    let mut i: usize = 0;
    while i < n
        invariant
            i <= n,
            n == friends.entry_seq().len(),
            friends.wf(),
            saved@.len() == i,
            forall|j: int|
                0 <= j < i ==> is_saved_friend(
                    #[trigger] saved@[j],
                    friends.entry_seq()[j].0,
                    friends.entry_seq()[j].1,
                ),
        decreases n - i,
    {
        let (peer_id, friend) = friends.entry_at(i);
        saved.push(
            SavedFriend {
                peer_id: peer_id.clone(),
                username: friend.username.clone(),
                is_pending_approval: Some(friend.is_pending_approval),
                messages: copy_messages(&friend.messages),
            },
        );
        i = i + 1;
    }
    SavedProfile {
        keypair_protobuf_hex: hex_encode(keypair_protobuf),
        username: username.clone(),
        friends: saved,
    }
}

/// The friend a saved friend is restored as: shown offline, with no call,
/// approved unless saved as awaiting approval.
pub open spec fn restored_friend(s: SavedFriend) -> FriendState {
    FriendState {
        peer_id: s.peer_id,
        username: s.username,
        status: FriendStatus::Disconnected,
        is_pending_approval: match s.is_pending_approval {
            Some(b) => b,
            None => false,
        },
        messages: s.messages,
        call: CallState::Idle,
    }
}

/// The friend list after restoring saved friends in order, those whose id
/// is accepted; a later friend with the same id replaces an earlier one.
pub open spec fn restored_friends(
    start: Map<Seq<char>, FriendState>,
    saved: Seq<SavedFriend>,
    accepted: Seq<bool>,
) -> Map<Seq<char>, FriendState>
    decreases saved.len(),
{
    if saved.len() == 0 {
        start
    } else {
        let before = restored_friends(start, saved.drop_last(), accepted.drop_last());
        if accepted.last() {
            before.insert(saved.last().peer_id@, restored_friend(saved.last()))
        } else {
            before
        }
    }
}

/// Restoring a saved profile takes back every friend whose saved id libp2p
/// reads as a peer id, wherever it stands in the list, the last one
/// included.
#[verifier::spinoff_prover]
#[verifier::rlimit(40)]
pub proof fn law_restore_keeps_every_peer_id(start: Map<Seq<char>, FriendState>, saved: Seq<SavedFriend>)
    ensures
        forall|i: int|
            0 <= i < saved.len() && spec_peer_id_text((#[trigger] saved[i]).peer_id@) is Some
                ==> restored_friends(start, saved, peer_id_flags(saved)).contains_key(
                saved[i].peer_id@,
            ),
    decreases saved.len(),
{
    if saved.len() > 0 {
        let n = saved.len() - 1;
        let shorter = saved.drop_last();
        assert(peer_id_flags(saved).drop_last() =~= peer_id_flags(shorter));
        let before = restored_friends(start, shorter, peer_id_flags(shorter));
        let result = restored_friends(start, saved, peer_id_flags(saved));
        let last_ok = spec_peer_id_text(saved[n].peer_id@) is Some;
        assert(peer_id_flags(saved).last() == last_ok);
        assert(result == (if last_ok {
            before.insert(saved[n].peer_id@, restored_friend(saved[n]))
        } else {
            before
        }));
        law_restore_keeps_every_peer_id(start, shorter);
        assert forall|i: int|
            0 <= i < saved.len() && spec_peer_id_text((#[trigger] saved[i]).peer_id@) is Some
                implies result.contains_key(saved[i].peer_id@) by {
            if i < n {
                assert(shorter[i] == saved[i]);
            }
        }
    }
}

/// A friend taken back shows what was saved for it: the last saved friend
/// whose id libp2p reads as a peer id gives the entry under that id its
/// name, its approval (unapproved when none was saved) and its messages,
/// shown offline with no call.
#[verifier::spinoff_prover]
#[verifier::rlimit(40)]
pub proof fn law_restored_friend_is_last_saved(start: Map<Seq<char>, FriendState>, saved: Seq<SavedFriend>)
    ensures
        forall|i: int|
            0 <= i < saved.len() && spec_peer_id_text((#[trigger] saved[i]).peer_id@) is Some && (
            forall|j: int| i < j < saved.len() ==> saved[j].peer_id@ != saved[i].peer_id@) ==> {
                let f = restored_friends(start, saved, peer_id_flags(saved))[saved[i].peer_id@];
                &&& f.peer_id == saved[i].peer_id
                &&& f.username == saved[i].username
                &&& f.status == FriendStatus::Disconnected
                &&& f.is_pending_approval == (saved[i].is_pending_approval == Some(true))
                &&& f.messages == saved[i].messages
                &&& f.call == CallState::Idle
            },
    decreases saved.len(),
{
    if saved.len() > 0 {
        let n = saved.len() - 1;
        let shorter = saved.drop_last();
        assert(peer_id_flags(saved).drop_last() =~= peer_id_flags(shorter));
        let before = restored_friends(start, shorter, peer_id_flags(shorter));
        let result = restored_friends(start, saved, peer_id_flags(saved));
        let last_ok = spec_peer_id_text(saved[n].peer_id@) is Some;
        assert(peer_id_flags(saved).last() == last_ok);
        assert(result == (if last_ok {
            before.insert(saved[n].peer_id@, restored_friend(saved[n]))
        } else {
            before
        }));
        law_restored_friend_is_last_saved(start, shorter);
        assert forall|i: int|
            0 <= i < saved.len() && spec_peer_id_text((#[trigger] saved[i]).peer_id@) is Some && (
            forall|j: int| i < j < saved.len() ==> saved[j].peer_id@ != saved[i].peer_id@) implies ({
            let f = result[saved[i].peer_id@];
            &&& f.peer_id == saved[i].peer_id
            &&& f.username == saved[i].username
            &&& f.status == FriendStatus::Disconnected
            &&& f.is_pending_approval == (saved[i].is_pending_approval == Some(true))
            &&& f.messages == saved[i].messages
            &&& f.call == CallState::Idle
        }) by {
            if i < n {
                assert(shorter[i] == saved[i]);
                assert(saved[n].peer_id@ != saved[i].peer_id@);
                assert forall|j: int| i < j < shorter.len() implies shorter[j].peer_id@
                    != shorter[i].peer_id@ by {
                    assert(shorter[j] == saved[j]);
                }
            }
        }
    }
}

/// Restoring touches no other id: an id that no saved friend with a
/// readable peer id has stays in the list, with its entry, exactly when it
/// was there before.
#[verifier::spinoff_prover]
#[verifier::rlimit(40)]
pub proof fn law_restore_keeps_other_ids(
    start: Map<Seq<char>, FriendState>,
    saved: Seq<SavedFriend>,
    k: Seq<char>,
)
    requires
        forall|i: int|
            0 <= i < saved.len() && spec_peer_id_text((#[trigger] saved[i]).peer_id@) is Some
                ==> saved[i].peer_id@ != k,
    ensures
        restored_friends(start, saved, peer_id_flags(saved)).contains_key(k) == start.contains_key(k),
        start.contains_key(k) ==> restored_friends(start, saved, peer_id_flags(saved))[k] == start[k],
    decreases saved.len(),
{
    if saved.len() > 0 {
        let n = saved.len() - 1;
        let shorter = saved.drop_last();
        assert(peer_id_flags(saved).drop_last() =~= peer_id_flags(shorter));
        let before = restored_friends(start, shorter, peer_id_flags(shorter));
        let result = restored_friends(start, saved, peer_id_flags(saved));
        let last_ok = spec_peer_id_text(saved[n].peer_id@) is Some;
        assert(peer_id_flags(saved).last() == last_ok);
        assert(result == (if last_ok {
            before.insert(saved[n].peer_id@, restored_friend(saved[n]))
        } else {
            before
        }));
        assert forall|i: int|
            0 <= i < shorter.len() && spec_peer_id_text((#[trigger] shorter[i]).peer_id@) is Some
                implies shorter[i].peer_id@ != k by {
            assert(shorter[i] == saved[i]);
        }
        law_restore_keeps_other_ids(start, shorter, k);
        if last_ok {
            assert(saved[n].peer_id@ != k);
        }
    }
}

/// The identity key of a saved profile: the bytes of its hex, none when
/// that is not hex.
pub open spec fn restored_keypair(hex: Seq<char>) -> Seq<u8> {
    match spec_hex_decode(hex) {
        Some(k) => k,
        None => Seq::empty(),
    }
}

/// Which saved friends can be taken back: those whose saved id libp2p reads
/// as a peer id.
pub fn accepted_friends(friends: &Vec<SavedFriend>) -> (accepted: Vec<bool>)
    ensures
        accepted@.len() == friends@.len(),
        forall|i: int|
            0 <= i < friends@.len() ==> accepted@[i] == (spec_peer_id_text(
                (#[trigger] friends@[i]).peer_id@,
            ) is Some),
{
    let mut accepted: Vec<bool> = Vec::new();
    let mut i: usize = 0;
    while i < friends.len()
        invariant
            i <= friends@.len(),
            accepted@.len() == i,
            forall|j: int|
                0 <= j < i ==> accepted@[j] == (spec_peer_id_text(
                    (#[trigger] friends@[j]).peer_id@,
                ) is Some),
        decreases friends@.len() - i,
    {
        let ok = match peer_id_text(friends[i].peer_id.as_str()) {
            Some(_) => true,
            None => false,
        };
        accepted.push(ok);
        i = i + 1;
    }
    accepted
}

/// Takes a decrypted profile back: the friends whose saved id is accepted
/// (`accepted[i]` for the `i`-th saved friend: its id is a peer id) join the
/// friend list; the display name and the identity key are returned.
pub fn restore_profile(state: &mut ChatState, profile: SavedProfile, accepted: &[bool]) -> (restored: (
    String,
    Vec<u8>,
))
    requires
        old(state).wf(),
        accepted@.len() == profile.friends@.len(),
    ensures
        final(state).wf(),
        final(state).local_peer_id == old(state).local_peer_id,
        final(state).my_addresses == old(state).my_addresses,
        final(state).active_friend == old(state).active_friend,
        final(state).friends@ == restored_friends(
            old(state).friends@,
            profile.friends@,
            accepted@,
        ),
        restored.0 == profile.username,
        restored.1@ == restored_keypair(profile.keypair_protobuf_hex@),
{
    let keypair = match hex_decode(profile.keypair_protobuf_hex.as_str()) {
        Some(k) => k,
        None => Vec::new(),
    };
    let ghost all = profile.friends@;
    let ghost ok = accepted@;
    let mut remaining = profile.friends;
    let mut i: usize = 0;
    let n = accepted.len();
    assert(all.take(0) =~= Seq::<SavedFriend>::empty());
    while i < n
        invariant
            i <= n,
            n == all.len(),
            ok == accepted@,
            ok.len() == n,
            remaining@ == all.skip(i as int),
            state.wf(),
            state.local_peer_id == old(state).local_peer_id,
            state.my_addresses == old(state).my_addresses,
            state.active_friend == old(state).active_friend,
            state.friends@ == restored_friends(
                old(state).friends@,
                all.take(i as int),
                ok.take(i as int),
            ),
        decreases n - i,
    {
        let saved = remaining.remove(0);
        assert(saved == all[i as int]);
        assert(all.take(i + 1).drop_last() =~= all.take(i as int));
        assert(ok.take(i + 1).drop_last() =~= ok.take(i as int));
        if accepted[i] {
            let is_pending = match saved.is_pending_approval {
                Some(b) => b,
                None => false,
            };
            let friend = FriendState {
                peer_id: saved.peer_id.clone(),
                username: saved.username,
                status: FriendStatus::Disconnected,
                is_pending_approval: is_pending,
                messages: saved.messages,
                call: CallState::Idle,
            };
            state.friends.insert(saved.peer_id, friend);
        }
        i = i + 1;
        assert(remaining@ =~= all.skip(i as int));
    }
    assert(all.take(n as int) =~= all);
    assert(ok.take(n as int) =~= ok);
    (profile.username, keypair)
}

/// For each saved friend, whether libp2p reads its saved id as a peer id.
pub open spec fn peer_id_flags(saved: Seq<SavedFriend>) -> Seq<bool> {
    Seq::new(saved.len(), |i: int| spec_peer_id_text(saved[i].peer_id@) is Some)
}

/// Takes a decrypted profile back: exactly the friends whose saved id
/// libp2p reads as a peer id join the friend list; the display name and the
/// identity key are returned.
pub fn restore_saved_profile(state: &mut ChatState, profile: SavedProfile) -> (restored: (
    String,
    Vec<u8>,
))
    requires
        old(state).wf(),
    ensures
        final(state).wf(),
        final(state).local_peer_id == old(state).local_peer_id,
        final(state).my_addresses == old(state).my_addresses,
        final(state).active_friend == old(state).active_friend,
        final(state).friends@ == restored_friends(
            old(state).friends@,
            profile.friends@,
            peer_id_flags(profile.friends@),
        ),
        forall|i: int|
            0 <= i < profile.friends@.len() && spec_peer_id_text(
                (#[trigger] profile.friends@[i]).peer_id@,
            ) is Some ==> final(state).friends@.contains_key(profile.friends@[i].peer_id@),
        restored.0 == profile.username,
        restored.1@ == restored_keypair(profile.keypair_protobuf_hex@),
{
    let accepted = accepted_friends(&profile.friends);
    assert(accepted@ =~= peer_id_flags(profile.friends@));
    proof {
        law_restore_keeps_every_peer_id(state.friends@, profile.friends@);
    }
    restore_profile(state, profile, accepted.as_slice())
}

/// The identity key saved in a profile is the one restored from it.
pub proof fn law_save_restore_keeps_key(keypair_protobuf: Seq<u8>)
    ensures
        restored_keypair(spec_hex_encode(keypair_protobuf)) == keypair_protobuf,
{
    crate::encoding::law_hex_round_trip(keypair_protobuf);
}

/// Every saved friend is accepted.
pub open spec fn all_accepted(n: nat) -> Seq<bool> {
    Seq::new(n, |i: int| true)
}

/// Restoring saved friends with distinct ids, all accepted, into an empty
/// list gives each saved friend under its id, and nothing else.
proof fn lemma_restored_all(saved: Seq<SavedFriend>)
    requires
        forall|i: int, j: int|
            0 <= i < j < saved.len() ==> saved[i].peer_id@ != saved[j].peer_id@,
    ensures
        forall|k: Seq<char>|
            #[trigger] restored_friends(Map::empty(), saved, all_accepted(saved.len())).contains_key(
                k,
            ) <==> exists|i: int| 0 <= i < saved.len() && saved[i].peer_id@ == k,
        forall|i: int|
            0 <= i < saved.len() ==> restored_friends(
                Map::empty(),
                saved,
                all_accepted(saved.len()),
            )[#[trigger] saved[i].peer_id@] == restored_friend(saved[i]),
    decreases saved.len(),
{
    if saved.len() > 0 {
        let front = saved.drop_last();
        assert(all_accepted(saved.len()).drop_last() =~= all_accepted(front.len()));
        lemma_restored_all(front);
        let r = restored_friends(Map::empty(), saved, all_accepted(saved.len()));
        let rf = restored_friends(Map::empty(), front, all_accepted(front.len()));
        assert(r == rf.insert(saved.last().peer_id@, restored_friend(saved.last())));
        assert forall|k: Seq<char>| #[trigger] r.contains_key(k) <==> exists|i: int|
            0 <= i < saved.len() && saved[i].peer_id@ == k by {
            if r.contains_key(k) && k != saved.last().peer_id@ {
                let i = choose|i: int| 0 <= i < front.len() && front[i].peer_id@ == k;
                assert(saved[i].peer_id@ == k);
            }
            if exists|i: int| 0 <= i < saved.len() && saved[i].peer_id@ == k {
                let i = choose|i: int| 0 <= i < saved.len() && saved[i].peer_id@ == k;
                if i < saved.len() - 1 {
                    assert(front[i].peer_id@ == k);
                }
            }
        }
        assert forall|i: int| 0 <= i < saved.len() implies r[#[trigger] saved[i].peer_id@]
            == restored_friend(saved[i]) by {
            if i < saved.len() - 1 {
                assert(front[i] == saved[i]);
                assert(saved[i].peer_id@ != saved.last().peer_id@);
            }
        }
    }
}

/// A friend list saved to a profile and restored from it (every id
/// accepted) has the same friends: each keeps its id, name, approval and
/// messages, and comes back offline with no call.
pub proof fn law_save_restore_keeps_friends(table: PeerTable<FriendState>, saved: Seq<SavedFriend>)
    requires
        table.wf(),
        saved.len() == table.entry_seq().len(),
        forall|i: int|
            0 <= i < saved.len() ==> is_saved_friend(
                #[trigger] saved[i],
                table.entry_seq()[i].0,
                table.entry_seq()[i].1,
            ),
    ensures
        ({
            let r = restored_friends(Map::empty(), saved, all_accepted(saved.len()));
            &&& r.dom() == table@.dom()
            &&& forall|k: Seq<char>|
                #[trigger] table@.contains_key(k) ==> {
                    &&& r[k].peer_id@ == k
                    &&& r[k].username == table@[k].username
                    &&& r[k].is_pending_approval == table@[k].is_pending_approval
                    &&& same_messages(r[k].messages@, table@[k].messages@)
                    &&& r[k].status == FriendStatus::Disconnected
                    &&& r[k].call == CallState::Idle
                }
        }),
{
    table.lemma_entries_are_the_map();
    let e = table.entry_seq();
    assert forall|i: int, j: int| 0 <= i < j < saved.len() implies saved[i].peer_id@
        != saved[j].peer_id@ by {
        assert(is_saved_friend(saved[i], e[i].0, e[i].1));
        assert(is_saved_friend(saved[j], e[j].0, e[j].1));
    }
    lemma_restored_all(saved);
    let r = restored_friends(Map::empty(), saved, all_accepted(saved.len()));
    assert forall|k: Seq<char>| r.contains_key(k) <==> table@.contains_key(k) by {
        if r.contains_key(k) {
            let i = choose|i: int| 0 <= i < saved.len() && saved[i].peer_id@ == k;
            assert(is_saved_friend(saved[i], e[i].0, e[i].1));
            assert(table@.contains_key(e[i].0));
        }
        if table@.contains_key(k) {
            let i = choose|i: int| 0 <= i < e.len() && e[i].0 == k;
            assert(is_saved_friend(saved[i], e[i].0, e[i].1));
            assert(r.contains_key(saved[i].peer_id@));
        }
    }
    assert(r.dom() =~= table@.dom());
    assert forall|k: Seq<char>| #[trigger] table@.contains_key(k) implies {
        &&& r[k].peer_id@ == k
        &&& r[k].username == table@[k].username
        &&& r[k].is_pending_approval == table@[k].is_pending_approval
        &&& same_messages(r[k].messages@, table@[k].messages@)
        &&& r[k].status == FriendStatus::Disconnected
        &&& r[k].call == CallState::Idle
    } by {
        let i = choose|i: int| 0 <= i < e.len() && e[i].0 == k;
        assert(is_saved_friend(saved[i], e[i].0, e[i].1));
        assert(table@.contains_key(e[i].0) && table@[e[i].0] == e[i].1);
        assert(r[saved[i].peer_id@] == restored_friend(saved[i]));
    }
}

} // verus!
