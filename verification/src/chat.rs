//! The conversation state behind the interface: the friend list with each
//! friend's messages and call, how events from the network service change
//! it, and what the interface's buttons do to it.

use crate::encoding::{base64_encode, spec_base64_decode, spec_base64_encode, base64_decode};
use crate::protocol::{CallSignalType, FriendStatus, InnerPayload};
use crate::session::{NetworkEvent, UiCommand};
use crate::table::PeerTable;
use crate::text::{default_username, default_username_of, valid_peer_text};
use vstd::prelude::*;
use vstd::string::*;

verus! {

/// What a chat message holds.
#[derive(Debug, Clone)]
pub enum ChatMessageContent {
    Text(String),
    File { name: String, mime: String, bytes: Vec<u8> },
    Photo { name: String, bytes: Vec<u8> },
    Video { name: String, bytes: Vec<u8> },
    VoiceNote { duration: u32, bytes: Vec<u8>, is_playing: bool },
}

/// A chat message, with who sent it and when.
#[derive(Debug, Clone)]
pub struct ChatMessage {
    pub is_ours: bool,
    pub timestamp: String,
    pub content: ChatMessageContent,
}

/// The state of a voice call with a friend.
#[derive(Debug, Clone, Copy, PartialEq, Eq, Structural)]
pub enum CallState {
    Idle,
    Dialing,
    Ringing,
    Active { duration_secs: u32, is_muted: bool },
}

/// Everything kept about a friend.
#[derive(Debug, Clone)]
pub struct FriendState {
    pub peer_id: String,
    pub username: String,
    pub status: FriendStatus,
    pub is_pending_approval: bool,
    pub messages: Vec<ChatMessage>,
    pub call: CallState,
}

/// Which screen the interface shows before and after unlocking a profile.
#[derive(Debug, Clone, Copy, PartialEq, Eq, Structural)]
pub enum AppAuthState {
    SelectProfile,
    CreateProfile,
    UnlockProfile,
    Unlocked,
}

/// The bytes an attachment's base64 text stands for, or none when it is not
/// base64.
pub open spec fn decoded_or_empty(text: Seq<char>) -> Seq<u8> {
    match spec_base64_decode(text) {
        Some(b) => b,
        None => Seq::empty(),
    }
}

/// The message content shown for an incoming payload: binary contents are
/// decoded from base64 (empty when that fails), a voice note is not playing.
pub open spec fn content_matches(c: ChatMessageContent, p: InnerPayload) -> bool {
    match p {
        InnerPayload::TextMessage { text } => c == ChatMessageContent::Text(text),
        InnerPayload::FileTransfer { file_name, mime_type, file_bytes_base64 } => c matches ChatMessageContent::File { name, mime, bytes }
            && name == file_name && mime == mime_type && bytes@ == decoded_or_empty(
            file_bytes_base64@,
        ),
        InnerPayload::PhotoTransfer { file_name, image_bytes_base64 } => c matches ChatMessageContent::Photo { name, bytes }
            && name == file_name && bytes@ == decoded_or_empty(image_bytes_base64@),
        InnerPayload::VideoTransfer { file_name, video_bytes_base64 } => c matches ChatMessageContent::Video { name, bytes }
            && name == file_name && bytes@ == decoded_or_empty(video_bytes_base64@),
        InnerPayload::VoiceNoteTransfer { duration_secs, audio_bytes_base64 } => c matches ChatMessageContent::VoiceNote { duration, bytes, is_playing }
            && duration == duration_secs && bytes@ == decoded_or_empty(audio_bytes_base64@)
            && !is_playing,
    }
}

/// A message received from a peer now, showing a payload.
pub open spec fn is_incoming_message(m: ChatMessage, p: InnerPayload) -> bool {
    !m.is_ours && m.timestamp@ == "now"@ && content_matches(m.content, p)
}

/// A message sent by this side now.
pub open spec fn is_outgoing_message(m: ChatMessage, c: ChatMessageContent) -> bool {
    m.is_ours && m.timestamp@ == "now"@ && m.content == c
}

/// A friend first heard of: awaiting approval, with no call.
pub open spec fn is_new_friend(
    f: FriendState,
    peer: Seq<char>,
    name: Seq<char>,
    status: FriendStatus,
    messages: Seq<ChatMessage>,
) -> bool {
    &&& f.peer_id@ == peer
    &&& f.username@ == name
    &&& f.status == status
    &&& f.is_pending_approval
    &&& f.messages@ == messages
    &&& f.call == CallState::Idle
}

/// The call state a signal from a peer leads to.
pub open spec fn call_after_signal(signal: CallSignalType) -> CallState {
    match signal {
        CallSignalType::Dial => CallState::Ringing,
        CallSignalType::Accept => CallState::Active { duration_secs: 0, is_muted: false },
        CallSignalType::Decline => CallState::Idle,
        CallSignalType::HangUp => CallState::Idle,
    }
}

/// The call state this side is in after sending a signal.
pub open spec fn call_after_sending(signal: CallSignalType) -> CallState {
    match signal {
        CallSignalType::Dial => CallState::Dialing,
        CallSignalType::Accept => CallState::Active { duration_secs: 0, is_muted: false },
        CallSignalType::Decline => CallState::Idle,
        CallSignalType::HangUp => CallState::Idle,
    }
}

/// Both sides of a call agree: after a signal is sent and received, the
/// sender and the receiver are in the same call state, except for a dial,
/// which leaves the caller dialing and the callee ringing.
pub proof fn law_call_sides_agree(signal: CallSignalType)
    ensures
        signal != CallSignalType::Dial ==> call_after_sending(signal) == call_after_signal(signal),
        signal == CallSignalType::Dial ==> call_after_sending(signal) == CallState::Dialing
            && call_after_signal(signal) == CallState::Ringing,
        (signal == CallSignalType::Decline || signal == CallSignalType::HangUp)
            ==> call_after_signal(signal) == CallState::Idle,
{
}

/// The call state after a signal from a peer.
pub fn next_call_state(signal: CallSignalType) -> (state: CallState)
    ensures
        state == call_after_signal(signal),
{
    match signal {
        CallSignalType::Dial => CallState::Ringing,
        CallSignalType::Accept => CallState::Active { duration_secs: 0, is_muted: false },
        CallSignalType::Decline | CallSignalType::HangUp => CallState::Idle,
    }
}

/// The bytes of an attachment's base64 text, empty when it is not base64.
fn decode_or_empty(text: &String) -> (bytes: Vec<u8>)
    ensures
        bytes@ == decoded_or_empty(text@),
{
    match base64_decode(text.as_str()) {
        Some(b) => b,
        None => Vec::new(),
    }
}

/// The message content shown for an incoming payload.
pub fn content_of_payload(payload: InnerPayload) -> (content: ChatMessageContent)
    ensures
        content_matches(content, payload),
{
    match payload {
        InnerPayload::TextMessage { text } => ChatMessageContent::Text(text),
        InnerPayload::FileTransfer { file_name, mime_type, file_bytes_base64 } => {
            let bytes = decode_or_empty(&file_bytes_base64);
            ChatMessageContent::File { name: file_name, mime: mime_type, bytes }
        },
        InnerPayload::PhotoTransfer { file_name, image_bytes_base64 } => {
            let bytes = decode_or_empty(&image_bytes_base64);
            ChatMessageContent::Photo { name: file_name, bytes }
        },
        InnerPayload::VideoTransfer { file_name, video_bytes_base64 } => {
            let bytes = decode_or_empty(&video_bytes_base64);
            ChatMessageContent::Video { name: file_name, bytes }
        },
        InnerPayload::VoiceNoteTransfer { duration_secs, audio_bytes_base64 } => {
            let bytes = decode_or_empty(&audio_bytes_base64);
            ChatMessageContent::VoiceNote { duration: duration_secs, bytes, is_playing: false }
        },
    }
}

/// The first screen: the profile selector when there are profiles, else
/// profile creation.
pub fn initial_auth_state(profile_count: usize) -> (state: AppAuthState)
    ensures
        state == (if profile_count == 0 {
            AppAuthState::CreateProfile
        } else {
            AppAuthState::SelectProfile
        }),
{
    if profile_count == 0 {
        AppAuthState::CreateProfile
    } else {
        AppAuthState::SelectProfile
    }
}

/// The status line shown for a friend: approval comes first, then the
/// connection state (connecting and securing read alike).
pub open spec fn spec_status_text(is_pending_approval: bool, status: FriendStatus) -> Seq<char> {
    if is_pending_approval {
        "Pending Approval"@
    } else {
        match status {
            FriendStatus::Secure => "Online (Secure)"@,
            FriendStatus::Securing => "Connecting..."@,
            FriendStatus::Connecting => "Connecting..."@,
            FriendStatus::Connected => "Connected"@,
            FriendStatus::Disconnected => "Offline"@,
        }
    }
}

/// The status line shown for a friend.
pub fn status_text(is_pending_approval: bool, status: FriendStatus) -> (text: &'static str)
    ensures
        text@ == spec_status_text(is_pending_approval, status),
{
    if is_pending_approval {
        "Pending Approval"
    } else {
        match status {
            FriendStatus::Secure => "Online (Secure)",
            FriendStatus::Securing | FriendStatus::Connecting => "Connecting...",
            FriendStatus::Connected => "Connected",
            FriendStatus::Disconnected => "Offline",
        }
    }
}

/// Whether a text is in a list of texts.
fn contains_text(list: &Vec<String>, item: &String) -> (found: bool)
    ensures
        found == exists|i: int| 0 <= i < list@.len() && (#[trigger] list@[i])@ == item@,
{
    let mut i: usize = 0;
    while i < list.len()
        invariant
            i <= list@.len(),
            forall|j: int| 0 <= j < i ==> (#[trigger] list@[j])@ != item@,
        decreases list@.len() - i,
    {
        if list[i] == *item {
            return true;
        }
        i = i + 1;
    }
    false
}

/// The conversation side of the interface: who this peer is, the addresses
/// it is reachable at, its friends, and the conversation on screen.
pub struct ChatState {
    pub local_peer_id: Option<String>,
    pub my_addresses: Vec<String>,
    pub friends: PeerTable<FriendState>,
    pub active_friend: Option<String>,
    pub recording_voice_note: bool,
    pub recorded_secs: u32,
}

/// The peer id an event is about, if any.
pub open spec fn event_peer(event: NetworkEvent) -> Option<String> {
    match event {
        NetworkEvent::FriendStatus { peer_id, .. } => Some(peer_id),
        NetworkEvent::FriendUsername { peer_id, .. } => Some(peer_id),
        NetworkEvent::IncomingPayload { peer_id, .. } => Some(peer_id),
        NetworkEvent::IncomingCallSignal { peer_id, .. } => Some(peer_id),
        _ => None,
    }
}

/// The text of the document attachment the interface sends.
pub open spec fn simulated_document() -> Seq<u8> {
    "NOTO_SECURE_MEDIA_P2P_STREAM_TEST_CONTENT"@.map_values(|c: char| c as u8)
}

/// `n` zero bytes, the stand-in for recorded media.
pub open spec fn zero_bytes(n: nat) -> Seq<u8> {
    Seq::new(n, |i: int| 0u8)
}

/// `n` zero bytes.
fn zeros(n: usize) -> (bytes: Vec<u8>)
    ensures
        bytes@ == zero_bytes(n as nat),
{
    let mut bytes: Vec<u8> = Vec::new();
    let mut i: usize = 0;
    while i < n
        invariant
            i <= n,
            bytes@ == zero_bytes(i as nat),
        decreases n - i,
    {
        bytes.push(0u8);
        i = i + 1;
        assert(bytes@ =~= zero_bytes(i as nat));
    }
    bytes
}

/// The bytes of the document attachment.
fn document_bytes() -> (bytes: Vec<u8>)
    ensures
        bytes@ == simulated_document(),
        bytes@.len() == 41,
{
    let text = "NOTO_SECURE_MEDIA_P2P_STREAM_TEST_CONTENT";
    proof {
        reveal_strlit("NOTO_SECURE_MEDIA_P2P_STREAM_TEST_CONTENT");
    }
    let n = text.unicode_len();
    let mut bytes: Vec<u8> = Vec::new();
    let mut i: usize = 0;
    while i < n
        invariant
            i <= n,
            n == text@.len(),
            text@ == "NOTO_SECURE_MEDIA_P2P_STREAM_TEST_CONTENT"@,
            bytes@ == text@.take(i as int).map_values(|c: char| c as u8),
        decreases n - i,
    {
        let c = text.get_char(i);
        bytes.push(c as u8);
        i = i + 1;
        assert(bytes@ =~= text@.take(i as int).map_values(|c: char| c as u8));
    }
    assert(text@.take(n as int) =~= text@);
    bytes
}

/// The command asking the network service to send a payload to a peer.
pub open spec fn is_send_payload(c: UiCommand, peer: Seq<char>, p: InnerPayload) -> bool {
    c matches UiCommand::SendPayload { peer_id, payload } && peer_id@ == peer && payload == p
}

/// The two states agree on everything but the friend list.
pub open spec fn same_but_friends(a: ChatState, b: ChatState) -> bool {
    &&& a.local_peer_id == b.local_peer_id
    &&& a.my_addresses == b.my_addresses
    &&& a.active_friend == b.active_friend
    &&& a.recording_voice_note == b.recording_voice_note
    &&& a.recorded_secs == b.recorded_secs
}

/// The effect of a friend's status change: the friend takes the status; an
/// unknown peer becomes a new friend awaiting approval under its default
/// name; only that adds to what must be saved.
pub open spec fn after_status(
    before: ChatState,
    after: ChatState,
    peer_id: Seq<char>,
    status: FriendStatus,
    changed: bool,
) -> bool {
    let known = before.friends@.contains_key(peer_id);
    &&& same_but_friends(before, after)
    &&& changed == !known
    &&& after.friends@ =~= before.friends@.insert(peer_id, after.friends@[peer_id])
    &&& known ==> after.friends@[peer_id] == (FriendState { status, ..before.friends@[peer_id] })
    &&& !known ==> is_new_friend(
        after.friends@[peer_id],
        peer_id,
        default_username(peer_id),
        status,
        Seq::empty(),
    )
}

/// The effect of a friend telling its name: a new name replaces the old one
/// (and must be saved); an unknown peer becomes a new friend awaiting
/// approval, shown offline.
pub open spec fn after_username(
    before: ChatState,
    after: ChatState,
    peer_id: Seq<char>,
    username: String,
    changed: bool,
) -> bool {
    let known = before.friends@.contains_key(peer_id);
    &&& same_but_friends(before, after)
    &&& after.friends@ =~= before.friends@.insert(peer_id, after.friends@[peer_id])
    &&& known ==> {
        &&& changed == (before.friends@[peer_id].username@ != username@)
        &&& after.friends@[peer_id] == (if changed {
            FriendState { username, ..before.friends@[peer_id] }
        } else {
            before.friends@[peer_id]
        })
    }
    &&& !known ==> changed && is_new_friend(
        after.friends@[peer_id],
        peer_id,
        username@,
        FriendStatus::Disconnected,
        Seq::empty(),
    )
}

/// The effect of a payload from a peer: it is appended to the conversation
/// as a received message; an unknown peer becomes a new friend awaiting
/// approval, shown secure, with that one message.
pub open spec fn after_payload(
    before: ChatState,
    after: ChatState,
    peer_id: Seq<char>,
    payload: InnerPayload,
) -> bool {
    let f = after.friends@[peer_id];
    let n = f.messages@.len();
    &&& same_but_friends(before, after)
    &&& after.friends@ =~= before.friends@.insert(peer_id, f)
    &&& n > 0
    &&& is_incoming_message(f.messages@[n - 1], payload)
    &&& before.friends@.contains_key(peer_id) ==> f == (FriendState {
        messages: f.messages,
        ..before.friends@[peer_id]
    }) && f.messages@.drop_last() =~= before.friends@[peer_id].messages@
    &&& !before.friends@.contains_key(peer_id) ==> is_new_friend(
        f,
        peer_id,
        default_username(peer_id),
        FriendStatus::Secure,
        f.messages@,
    ) && n == 1
}

/// The effect of a call signal from a peer: the call moves to the state the
/// signal leads to; an unknown peer becomes a new friend awaiting approval,
/// shown secure, and must be saved.
pub open spec fn after_call_signal(
    before: ChatState,
    after: ChatState,
    peer_id: Seq<char>,
    signal: CallSignalType,
    changed: bool,
) -> bool {
    let known = before.friends@.contains_key(peer_id);
    let f = after.friends@[peer_id];
    &&& same_but_friends(before, after)
    &&& changed == !known
    &&& after.friends@ =~= before.friends@.insert(peer_id, f)
    &&& f.call == call_after_signal(signal)
    &&& known ==> f == (FriendState { call: call_after_signal(signal), ..before.friends@[peer_id] })
    &&& !known ==> {
        &&& f.peer_id@ == peer_id
        &&& f.username@ == default_username(peer_id)
        &&& f.status == FriendStatus::Secure
        &&& f.is_pending_approval
        &&& f.messages@.len() == 0
    }
}

/// What one event from the network service does to the state, and whether
/// it asks for the friend list to be saved: the local id is recorded; a
/// relayed address is added unless already known; the friend events act as
/// their own functions say; logs and audio frames change nothing.
pub open spec fn event_effect(
    before: ChatState,
    after: ChatState,
    event: NetworkEvent,
    changed: bool,
) -> bool {
    match event {
        NetworkEvent::MyPeerId(p) => {
            &&& after.local_peer_id == Some(p)
            &&& after.my_addresses == before.my_addresses
            &&& after.friends == before.friends
            &&& after.active_friend == before.active_friend
            &&& after.recording_voice_note == before.recording_voice_note
            &&& after.recorded_secs == before.recorded_secs
            &&& !changed
        },
        NetworkEvent::NewRelayedAddress(a) => {
            &&& after.local_peer_id == before.local_peer_id
            &&& after.friends == before.friends
            &&& after.active_friend == before.active_friend
            &&& after.recording_voice_note == before.recording_voice_note
            &&& after.recorded_secs == before.recorded_secs
            &&& !changed
            &&& if exists|i: int|
                0 <= i < before.my_addresses@.len()
                    && (#[trigger] before.my_addresses@[i])@ == a@ {
                after.my_addresses == before.my_addresses
            } else {
                after.my_addresses@ == before.my_addresses@.push(a)
            }
        },
        NetworkEvent::FriendStatus { peer_id, status } => after_status(
            before,
            after,
            peer_id@,
            status,
            changed,
        ),
        NetworkEvent::FriendUsername { peer_id, username } => after_username(
            before,
            after,
            peer_id@,
            username,
            changed,
        ),
        NetworkEvent::IncomingPayload { peer_id, payload } => changed && after_payload(
            before,
            after,
            peer_id@,
            payload,
        ),
        NetworkEvent::IncomingCallSignal { peer_id, signal } => after_call_signal(
            before,
            after,
            peer_id@,
            signal,
            changed,
        ),
        _ => same_but_friends(before, after) && after.friends == before.friends && !changed,
    }
}

/// The texts of a list of addresses.
pub open spec fn address_texts(addresses: Seq<String>) -> Seq<Seq<char>> {
    addresses.map_values(|a: String| a@)
}

/// The address list after one event: a relayed address not yet in the list
/// is appended; nothing else touches the list.
pub open spec fn relayed_step(addresses: Seq<Seq<char>>, event: NetworkEvent) -> Seq<Seq<char>> {
    match event {
        NetworkEvent::NewRelayedAddress(a) => if addresses.contains(a@) {
            addresses
        } else {
            addresses.push(a@)
        },
        _ => addresses,
    }
}

/// The address list after a queue of events, taken in arrival order.
pub open spec fn relayed_after(addresses: Seq<Seq<char>>, events: Seq<NetworkEvent>) -> Seq<
    Seq<char>,
>
    decreases events.len(),
{
    if events.len() == 0 {
        addresses
    } else {
        relayed_step(relayed_after(addresses, events.drop_last()), events.last())
    }
}

/// A run of the state through a queue of events: `states[i + 1]` is what
/// event `i` makes of `states[i]`, with `flags[i]` its request to save.
pub open spec fn is_event_run(
    states: Seq<ChatState>,
    flags: Seq<bool>,
    events: Seq<NetworkEvent>,
) -> bool {
    &&& states.len() == events.len() + 1
    &&& flags.len() == events.len()
    &&& forall|i: int|
        0 <= i < events.len() ==> event_effect(states[i], states[i + 1], #[trigger] events[i], flags[i])
}

/// One event moves the address list as `relayed_step` says.
proof fn lemma_event_addresses(before: ChatState, after: ChatState, event: NetworkEvent, changed: bool)
    requires
        event_effect(before, after, event, changed),
    ensures
        address_texts(after.my_addresses@) == relayed_step(address_texts(before.my_addresses@), event),
{
    let old_texts = address_texts(before.my_addresses@);
    match event {
        NetworkEvent::NewRelayedAddress(a) => {
            if exists|i: int|
                0 <= i < before.my_addresses@.len() && (#[trigger] before.my_addresses@[i])@ == a@ {
                let i = choose|i: int|
                    0 <= i < before.my_addresses@.len() && (#[trigger] before.my_addresses@[i])@ == a@;
                assert(old_texts[i] == a@);
                assert(old_texts.contains(a@));
            } else {
                if old_texts.contains(a@) {
                    let j = choose|j: int| 0 <= j < old_texts.len() && old_texts[j] == a@;
                    assert(before.my_addresses@[j]@ == a@);
                }
                assert(address_texts(after.my_addresses@) =~= old_texts.push(a@));
            }
        },
        _ => {},
    }
}

/// A relayed address is only appended when absent, so a list without
/// repeats keeps none.
proof fn lemma_step_keeps_distinct(addresses: Seq<Seq<char>>, event: NetworkEvent)
    requires
        addresses.no_duplicates(),
    ensures
        relayed_step(addresses, event).no_duplicates(),
        relayed_step(addresses, event).take(addresses.len() as int) == addresses,
{
    let next = relayed_step(addresses, event);
    match event {
        NetworkEvent::NewRelayedAddress(a) => {
            if !addresses.contains(a@) {
                assert forall|i: int, j: int|
                    0 <= i < next.len() && 0 <= j < next.len() && i != j implies next[i]
                    != next[j] by {
                    if i == addresses.len() as int {
                        assert(addresses[j] != a@);
                    } else if j == addresses.len() as int {
                        assert(addresses[i] != a@);
                    }
                }
            }
        },
        _ => {},
    }
    assert(next.take(addresses.len() as int) =~= addresses);
}

/// Draining a queue of events: the address list ends as the old list
/// followed by each relayed address that was not yet in it, in the order
/// the addresses arrived; a list without repeats stays without repeats.
pub proof fn law_relayed_addresses_in_arrival_order(
    states: Seq<ChatState>,
    flags: Seq<bool>,
    events: Seq<NetworkEvent>,
)
    requires
        is_event_run(states, flags, events),
    ensures
        address_texts(states.last().my_addresses@) == relayed_after(
            address_texts(states[0].my_addresses@),
            events,
        ),
        address_texts(states[0].my_addresses@).no_duplicates() ==> address_texts(
            states.last().my_addresses@,
        ).no_duplicates(),
        relayed_after(address_texts(states[0].my_addresses@), events).len()
            >= states[0].my_addresses@.len(),
        relayed_after(address_texts(states[0].my_addresses@), events).take(
            states[0].my_addresses@.len() as int,
        ) == address_texts(states[0].my_addresses@),
    decreases events.len(),
{
    let start = address_texts(states[0].my_addresses@);
    if events.len() == 0 {
        assert(start.take(start.len() as int) =~= start);
    } else {
        let n = events.len() - 1;
        let shorter = events.drop_last();
        assert forall|i: int| 0 <= i < shorter.len() implies event_effect(
            states.drop_last()[i],
            states.drop_last()[i + 1],
            #[trigger] shorter[i],
            flags.drop_last()[i],
        ) by {
            assert(events[i] == shorter[i]);
        }
        law_relayed_addresses_in_arrival_order(states.drop_last(), flags.drop_last(), shorter);
        assert(event_effect(states[n], states[n + 1], events[n], flags[n]));
        lemma_event_addresses(states[n], states[n + 1], events[n], flags[n]);
        let prev = relayed_after(start, shorter);
        assert(states.drop_last().last() == states[n]);
        lemma_step_prefix(prev, events.last());
        assert(relayed_after(start, events).take(start.len() as int) =~= start) by {
            assert(prev.take(start.len() as int) == start);
            assert(relayed_step(prev, events.last()).take(prev.len() as int) == prev);
        }
        if start.no_duplicates() {
            lemma_step_keeps_distinct(prev, events.last());
        }
    }
}

/// One event keeps the list it starts from as a prefix.
proof fn lemma_step_prefix(addresses: Seq<Seq<char>>, event: NetworkEvent)
    ensures
        relayed_step(addresses, event).take(addresses.len() as int) == addresses,
        relayed_step(addresses, event).len() >= addresses.len(),
{
    assert(relayed_step(addresses, event).take(addresses.len() as int) =~= addresses);
}

impl ChatState {
    /// Well-formedness of the friend list.
    pub open spec fn wf(&self) -> bool {
        self.friends.wf()
    }

    /// Nothing known yet: no id, no address, no friend, nothing on screen.
    pub fn new() -> (state: Self)
        ensures
            state.wf(),
            state.local_peer_id is None,
            state.my_addresses@.len() == 0,
            state.friends@ == Map::<Seq<char>, FriendState>::empty(),
            state.active_friend is None,
            !state.recording_voice_note,
            state.recorded_secs == 0,
    {
        ChatState {
            local_peer_id: None,
            my_addresses: Vec::new(),
            friends: PeerTable::new(),
            active_friend: None,
            recording_voice_note: false,
            recorded_secs: 0,
        }
    }

    /// A friend's status changed. An unknown peer becomes a new friend
    /// awaiting approval under its default name. Returns whether the friend
    /// list changed in a way worth saving.
    pub fn friend_status_changed(&mut self, peer_id: String, status: FriendStatus) -> (changed: bool)
        requires
            old(self).wf(),
            valid_peer_text(peer_id@),
        ensures
            final(self).wf(),
            after_status(*old(self), *final(self), peer_id@, status, changed),
    {
        match self.friends.remove(&peer_id) {
            Some(friend) => {
                let updated = FriendState { status, ..friend };
                self.friends.insert(peer_id, updated);
                false
            },
            None => {
                let friend = FriendState {
                    peer_id: peer_id.clone(),
                    username: default_username_of(&peer_id),
                    status,
                    is_pending_approval: true,
                    messages: Vec::new(),
                    call: CallState::Idle,
                };
                self.friends.insert(peer_id, friend);
                true
            },
        }
    }

    /// A friend told its display name. A new name replaces the old one; an
    /// unknown peer becomes a new friend awaiting approval, shown offline.
    /// Returns whether the friend list changed.
    pub fn friend_username_changed(&mut self, peer_id: String, username: String) -> (changed: bool)
        requires
            old(self).wf(),
        ensures
            final(self).wf(),
            after_username(*old(self), *final(self), peer_id@, username, changed),
    {
        match self.friends.remove(&peer_id) {
            Some(friend) => {
                if friend.username != username {
                    let updated = FriendState { username, ..friend };
                    self.friends.insert(peer_id, updated);
                    true
                } else {
                    self.friends.insert(peer_id, friend);
                    false
                }
            },
            None => {
                let friend = FriendState {
                    peer_id: peer_id.clone(),
                    username,
                    status: FriendStatus::Disconnected,
                    is_pending_approval: true,
                    messages: Vec::new(),
                    call: CallState::Idle,
                };
                self.friends.insert(peer_id, friend);
                true
            },
        }
    }

    /// A payload arrived from a peer: it is appended to the conversation as
    /// a received message; an unknown peer becomes a new friend awaiting
    /// approval, shown secure. The list always changes.
    pub fn payload_received(&mut self, peer_id: String, payload: InnerPayload)
        requires
            old(self).wf(),
            valid_peer_text(peer_id@),
        ensures
            final(self).wf(),
            after_payload(*old(self), *final(self), peer_id@, payload),
    {
        let ghost p = payload;
        let content = content_of_payload(payload);
        let msg = ChatMessage { is_ours: false, timestamp: String::from_str("now"), content };
        match self.friends.remove(&peer_id) {
            Some(friend) => {
                let mut updated = friend;
                let ghost before = updated.messages@;
                updated.messages.push(msg);
                assert(updated.messages@.drop_last() == before);
                self.friends.insert(peer_id, updated);
            },
            None => {
                let mut messages: Vec<ChatMessage> = Vec::new();
                messages.push(msg);
                let friend = FriendState {
                    peer_id: peer_id.clone(),
                    username: default_username_of(&peer_id),
                    status: FriendStatus::Secure,
                    is_pending_approval: true,
                    messages,
                    call: CallState::Idle,
                };
                self.friends.insert(peer_id, friend);
            },
        }
    }

    /// A call signal arrived from a peer: the call moves to the state the
    /// signal leads to; an unknown peer becomes a new friend awaiting
    /// approval, shown secure. Returns whether a friend was added.
    pub fn call_signal_received(&mut self, peer_id: String, signal: CallSignalType) -> (changed: bool)
        requires
            old(self).wf(),
            valid_peer_text(peer_id@),
        ensures
            final(self).wf(),
            after_call_signal(*old(self), *final(self), peer_id@, signal, changed),
    {
        let call = next_call_state(signal);
        match self.friends.remove(&peer_id) {
            Some(friend) => {
                let updated = FriendState { call, ..friend };
                self.friends.insert(peer_id, updated);
                false
            },
            None => {
                let friend = FriendState {
                    peer_id: peer_id.clone(),
                    username: default_username_of(&peer_id),
                    status: FriendStatus::Secure,
                    is_pending_approval: true,
                    messages: Vec::new(),
                    call,
                };
                self.friends.insert(peer_id, friend);
                true
            },
        }
    }

    /// Applies an event from the network service; returns whether the
    /// friend list changed in a way that must be saved. Logs and audio
    /// frames change nothing here.
    pub fn apply_event(&mut self, event: NetworkEvent) -> (changed: bool)
        requires
            old(self).wf(),
            event_peer(event) matches Some(p) ==> valid_peer_text(p@),
        ensures
            final(self).wf(),
            event_effect(*old(self), *final(self), event, changed),
    {
        match event {
            NetworkEvent::MyPeerId(peer_id) => {
                self.local_peer_id = Some(peer_id);
                false
            },
            NetworkEvent::NewRelayedAddress(address) => {
                if !contains_text(&self.my_addresses, &address) {
                    self.my_addresses.push(address);
                }
                false
            },
            NetworkEvent::FriendStatus { peer_id, status } => self.friend_status_changed(
                peer_id,
                status,
            ),
            NetworkEvent::FriendUsername { peer_id, username } => self.friend_username_changed(
                peer_id,
                username,
            ),
            NetworkEvent::IncomingPayload { peer_id, payload } => {
                self.payload_received(peer_id, payload);
                true
            },
            NetworkEvent::IncomingCallSignal { peer_id, signal } => self.call_signal_received(
                peer_id,
                signal,
            ),
            _ => false,
        }
    }
    /// Applies a queue of events from the network service in arrival order;
    /// returns whether any of them asks for the friend list to be saved.
    pub fn apply_events(&mut self, events: Vec<NetworkEvent>) -> (changed: bool)
        requires
            old(self).wf(),
            forall|i: int|
                0 <= i < events@.len() ==> (event_peer(#[trigger] events@[i]) matches Some(p)
                    ==> valid_peer_text(p@)),
        ensures
            final(self).wf(),
            exists|states: Seq<ChatState>, flags: Seq<bool>|
                {
                    &&& #[trigger] is_event_run(states, flags, events@)
                    &&& states[0] == *old(self)
                    &&& states.last() == *final(self)
                    &&& changed == flags.contains(true)
                },
            address_texts(final(self).my_addresses@) == relayed_after(
                address_texts(old(self).my_addresses@),
                events@,
            ),
            address_texts(old(self).my_addresses@).no_duplicates() ==> address_texts(
                final(self).my_addresses@,
            ).no_duplicates(),
    {
        let mut queue = events;
        let mut changed = false;
        let ghost mut states: Seq<ChatState> = seq![*self];
        let ghost mut flags: Seq<bool> = Seq::empty();
        while queue.len() > 0
            invariant
                self.wf(),
                queue@.len() <= events@.len(),
                queue@ == events@.skip(events@.len() - queue@.len()),
                forall|i: int|
                    0 <= i < events@.len() ==> (event_peer(#[trigger] events@[i]) matches Some(p)
                        ==> valid_peer_text(p@)),
                is_event_run(states, flags, events@.take(events@.len() - queue@.len())),
                states[0] == *old(self),
                states.last() == *self,
                changed == flags.contains(true),
            decreases queue@.len(),
        {
            let ghost done: int = events@.len() - queue@.len();
            let ghost prev_flags = flags;
            let event = queue.remove(0);
            assert(event == events@[done]);
            let c = self.apply_event(event);
            proof {
                states = states.push(*self);
                flags = flags.push(c);
                let taken = events@.take(done + 1);
                assert forall|i: int| 0 <= i < taken.len() implies event_effect(
                    states[i],
                    states[i + 1],
                    #[trigger] taken[i],
                    flags[i],
                ) by {
                    if i < done {
                        assert(taken[i] == events@.take(done)[i]);
                    }
                }
                assert(queue@ =~= events@.skip(done + 1));
                if c {
                    assert(flags[flags.len() - 1] == true);
                }
                if flags.contains(true) {
                    let j = choose|j: int| 0 <= j < flags.len() && flags[j] == true;
                    if j < prev_flags.len() {
                        assert(prev_flags[j] == true);
                    }
                }
                if prev_flags.contains(true) {
                    let j = choose|j: int| 0 <= j < prev_flags.len() && prev_flags[j] == true;
                    assert(flags[j] == true);
                }
            }
            changed = changed || c;
        }
        proof {
            assert(events@.take(events@.len() as int) =~= events@);
            law_relayed_addresses_in_arrival_order(states, flags, events@);
        }
        changed
    }

    /// Appends a message this side sent to a friend's conversation (nothing
    /// for an unknown peer).
    pub fn push_own_message(&mut self, peer_id: &String, content: ChatMessageContent)
        requires
            old(self).wf(),
        ensures
            final(self).wf(),
            same_but_friends(*old(self), *final(self)),
            !old(self).friends@.contains_key(peer_id@) ==> final(self).friends@ == old(self).friends@,
            old(self).friends@.contains_key(peer_id@) ==> ({
                let f = final(self).friends@[peer_id@];
                &&& final(self).friends@ == old(self).friends@.insert(peer_id@, f)
                &&& f == (FriendState { messages: f.messages, ..old(self).friends@[peer_id@] })
                &&& f.messages@.len() == old(self).friends@[peer_id@].messages@.len() + 1
                &&& f.messages@.drop_last() == old(self).friends@[peer_id@].messages@
                &&& is_outgoing_message(f.messages@.last(), content)
            }),
    {
        let ghost c = content;
        match self.friends.remove(peer_id) {
            Some(friend) => {
                let mut updated = friend;
                let ghost before = updated.messages@;
                updated.messages.push(
                    ChatMessage { is_ours: true, timestamp: String::from_str("now"), content },
                );
                assert(updated.messages@.drop_last() == before);
                self.friends.insert(peer_id.clone(), updated);
            },
            None => {
                assert(self.friends@ =~= old(self).friends@);
            },
        }
    }

    /// Sends a call signal to a friend and moves the call to the state this
    /// side is in after it (nothing changes for an unknown peer).
    pub fn send_call_signal(&mut self, peer_id: &String, signal: CallSignalType) -> (command:
        UiCommand)
        requires
            old(self).wf(),
        ensures
            final(self).wf(),
            same_but_friends(*old(self), *final(self)),
            command == (UiCommand::SendCallSignal { peer_id: *peer_id, signal }),
            !old(self).friends@.contains_key(peer_id@) ==> final(self).friends@ == old(self).friends@,
            old(self).friends@.contains_key(peer_id@) ==> final(self).friends@ == old(
                self,
            ).friends@.insert(
                peer_id@,
                FriendState { call: call_after_sending(signal), ..old(self).friends@[peer_id@] },
            ),
    {
        let call = match signal {
            CallSignalType::Dial => CallState::Dialing,
            CallSignalType::Accept => CallState::Active { duration_secs: 0, is_muted: false },
            CallSignalType::Decline | CallSignalType::HangUp => CallState::Idle,
        };
        match self.friends.remove(peer_id) {
            Some(friend) => {
                self.friends.insert(peer_id.clone(), FriendState { call, ..friend });
            },
            None => {
                assert(self.friends@ =~= old(self).friends@);
            },
        }
        UiCommand::SendCallSignal { peer_id: peer_id.clone(), signal }
    }

    /// Mutes or unmutes an active call with a friend; any other call state
    /// stays as it is.
    pub fn toggle_mute(&mut self, peer_id: &String)
        requires
            old(self).wf(),
        ensures
            final(self).wf(),
            same_but_friends(*old(self), *final(self)),
            !old(self).friends@.contains_key(peer_id@) ==> final(self).friends@ == old(self).friends@,
            old(self).friends@.contains_key(peer_id@) ==> final(self).friends@ == old(
                self,
            ).friends@.insert(
                peer_id@,
                FriendState {
                    call: match old(self).friends@[peer_id@].call {
                        CallState::Active { duration_secs, is_muted } => CallState::Active {
                            duration_secs,
                            is_muted: !is_muted,
                        },
                        other => other,
                    },
                    ..old(self).friends@[peer_id@]
                },
            ),
    {
        match self.friends.remove(peer_id) {
            Some(friend) => {
                let call = match friend.call {
                    CallState::Active { duration_secs, is_muted } => CallState::Active {
                        duration_secs,
                        is_muted: !is_muted,
                    },
                    other => other,
                };
                self.friends.insert(peer_id.clone(), FriendState { call, ..friend });
            },
            None => {
                assert(self.friends@ =~= old(self).friends@);
            },
        }
    }

    /// Accepts a friend's connection request: the friend is no longer
    /// awaiting approval.
    pub fn accept_request(&mut self, peer_id: &String)
        requires
            old(self).wf(),
        ensures
            final(self).wf(),
            same_but_friends(*old(self), *final(self)),
            !old(self).friends@.contains_key(peer_id@) ==> final(self).friends@ == old(self).friends@,
            old(self).friends@.contains_key(peer_id@) ==> final(self).friends@ == old(
                self,
            ).friends@.insert(
                peer_id@,
                FriendState { is_pending_approval: false, ..old(self).friends@[peer_id@] },
            ),
    {
        match self.friends.remove(peer_id) {
            Some(friend) => {
                self.friends.insert(
                    peer_id.clone(),
                    FriendState { is_pending_approval: false, ..friend },
                );
            },
            None => {
                assert(self.friends@ =~= old(self).friends@);
            },
        }
    }

    /// Declines a friend's connection request: the friend is dropped and no
    /// conversation is on screen.
    pub fn decline_request(&mut self, peer_id: &String)
        requires
            old(self).wf(),
        ensures
            final(self).recording_voice_note == old(self).recording_voice_note,
            final(self).recorded_secs == old(self).recorded_secs,
            final(self).wf(),
            final(self).local_peer_id == old(self).local_peer_id,
            final(self).my_addresses == old(self).my_addresses,
            final(self).friends@ == old(self).friends@.remove(peer_id@),
            final(self).active_friend is None,
    {
        self.friends.remove(peer_id);
        self.active_friend = None;
    }

    /// Sends a text to a friend: nothing for an empty text; otherwise the
    /// text is appended to the conversation as sent by this side, and the
    /// command to send it is returned.
    pub fn send_text(&mut self, peer_id: &String, text: String) -> (command: Option<UiCommand>)
        requires
            old(self).wf(),
        ensures
            final(self).wf(),
            same_but_friends(*old(self), *final(self)),
            text@.len() == 0 ==> command is None && final(self).friends == old(self).friends,
            text@.len() > 0 ==> {
                &&& command matches Some(c) && is_send_payload(
                    c,
                    peer_id@,
                    InnerPayload::TextMessage { text },
                )
                &&& old(self).friends@.contains_key(peer_id@) ==> ({
                    let f = final(self).friends@[peer_id@];
                    &&& final(self).friends@ == old(self).friends@.insert(peer_id@, f)
                    &&& f == (FriendState { messages: f.messages, ..old(self).friends@[peer_id@] })
                    &&& f.messages@.drop_last() == old(self).friends@[peer_id@].messages@
                    &&& f.messages@.len() > 0
                    &&& is_outgoing_message(f.messages@.last(), ChatMessageContent::Text(text))
                })
                &&& !old(self).friends@.contains_key(peer_id@) ==> final(self).friends@ == old(
                    self,
                ).friends@
            },
    {
        if text.as_str().unicode_len() == 0 {
            return None;
        }
        let command = UiCommand::SendPayload {
            peer_id: peer_id.clone(),
            payload: InnerPayload::TextMessage { text: text.clone() },
        };
        self.push_own_message(peer_id, ChatMessageContent::Text(text));
        Some(command)
    }

    /// Attaches the document to a conversation: the command carries its
    /// bytes in base64, the conversation shows them as sent.
    pub fn attach_document(&mut self, peer_id: &String) -> (command: UiCommand)
        requires
            old(self).wf(),
        ensures
            final(self).wf(),
            same_but_friends(*old(self), *final(self)),
            command matches UiCommand::SendPayload { peer_id: q, payload } && q@ == peer_id@
                && (payload matches InnerPayload::FileTransfer {
                file_name,
                mime_type,
                file_bytes_base64,
            } && file_name@ == "Document.txt"@ && mime_type@ == "text/plain"@
                && file_bytes_base64@ == spec_base64_encode(simulated_document())),
            old(self).friends@.contains_key(peer_id@) ==> ({
                let f = final(self).friends@[peer_id@];
                &&& final(self).friends@ == old(self).friends@.insert(peer_id@, f)
                &&& f == (FriendState { messages: f.messages, ..old(self).friends@[peer_id@] })
                &&& f.messages@.drop_last() == old(self).friends@[peer_id@].messages@
                &&& f.messages@.len() > 0
                &&& f.messages@.last().is_ours
                &&& f.messages@.last().timestamp@ == "now"@
                &&& f.messages@.last().content matches ChatMessageContent::File { name, mime, bytes }
                    && name@ == "Document.txt"@ && mime@ == "text/plain"@ && bytes@
                    == simulated_document()
            }),
            !old(self).friends@.contains_key(peer_id@) ==> final(self).friends@ == old(self).friends@,
    {
        let bytes = document_bytes();
        let encoded = base64_encode(bytes.as_slice());
        let command = UiCommand::SendPayload {
            peer_id: peer_id.clone(),
            payload: InnerPayload::FileTransfer {
                file_name: String::from_str("Document.txt"),
                mime_type: String::from_str("text/plain"),
                file_bytes_base64: encoded,
            },
        };
        self.push_own_message(
            peer_id,
            ChatMessageContent::File {
                name: String::from_str("Document.txt"),
                mime: String::from_str("text/plain"),
                bytes,
            },
        );
        command
    }

    /// Attaches the photo (1024 zero bytes) to a conversation.
    pub fn attach_photo(&mut self, peer_id: &String) -> (command: UiCommand)
        requires
            old(self).wf(),
        ensures
            final(self).wf(),
            same_but_friends(*old(self), *final(self)),
            command matches UiCommand::SendPayload { peer_id: q, payload } && q@ == peer_id@
                && (payload matches InnerPayload::PhotoTransfer { file_name, image_bytes_base64 }
                && file_name@ == "Photo.png"@ && image_bytes_base64@ == spec_base64_encode(
                zero_bytes(1024),
            )),
            old(self).friends@.contains_key(peer_id@) ==> ({
                let f = final(self).friends@[peer_id@];
                &&& final(self).friends@ == old(self).friends@.insert(peer_id@, f)
                &&& f == (FriendState { messages: f.messages, ..old(self).friends@[peer_id@] })
                &&& f.messages@.drop_last() == old(self).friends@[peer_id@].messages@
                &&& f.messages@.len() > 0
                &&& f.messages@.last().is_ours
                &&& f.messages@.last().timestamp@ == "now"@
                &&& f.messages@.last().content matches ChatMessageContent::Photo { name, bytes }
                    && name@ == "Photo.png"@ && bytes@ == zero_bytes(1024)
            }),
            !old(self).friends@.contains_key(peer_id@) ==> final(self).friends@ == old(self).friends@,
    {
        let bytes = zeros(1024);
        let encoded = base64_encode(bytes.as_slice());
        let command = UiCommand::SendPayload {
            peer_id: peer_id.clone(),
            payload: InnerPayload::PhotoTransfer {
                file_name: String::from_str("Photo.png"),
                image_bytes_base64: encoded,
            },
        };
        self.push_own_message(
            peer_id,
            ChatMessageContent::Photo { name: String::from_str("Photo.png"), bytes },
        );
        command
    }

    /// Attaches the video (1024 zero bytes) to a conversation.
    pub fn attach_video(&mut self, peer_id: &String) -> (command: UiCommand)
        requires
            old(self).wf(),
        ensures
            final(self).wf(),
            same_but_friends(*old(self), *final(self)),
            command matches UiCommand::SendPayload { peer_id: q, payload } && q@ == peer_id@
                && (payload matches InnerPayload::VideoTransfer { file_name, video_bytes_base64 }
                && file_name@ == "Video.mp4"@ && video_bytes_base64@ == spec_base64_encode(
                zero_bytes(1024),
            )),
            old(self).friends@.contains_key(peer_id@) ==> ({
                let f = final(self).friends@[peer_id@];
                &&& final(self).friends@ == old(self).friends@.insert(peer_id@, f)
                &&& f == (FriendState { messages: f.messages, ..old(self).friends@[peer_id@] })
                &&& f.messages@.drop_last() == old(self).friends@[peer_id@].messages@
                &&& f.messages@.len() > 0
                &&& f.messages@.last().is_ours
                &&& f.messages@.last().timestamp@ == "now"@
                &&& f.messages@.last().content matches ChatMessageContent::Video { name, bytes }
                    && name@ == "Video.mp4"@ && bytes@ == zero_bytes(1024)
            }),
            !old(self).friends@.contains_key(peer_id@) ==> final(self).friends@ == old(self).friends@,
    {
        let bytes = zeros(1024);
        let encoded = base64_encode(bytes.as_slice());
        let command = UiCommand::SendPayload {
            peer_id: peer_id.clone(),
            payload: InnerPayload::VideoTransfer {
                file_name: String::from_str("Video.mp4"),
                video_bytes_base64: encoded,
            },
        };
        self.push_own_message(
            peer_id,
            ChatMessageContent::Video { name: String::from_str("Video.mp4"), bytes },
        );
        command
    }

    /// The record button. When not recording, recording starts with a
    /// five-second length and nothing is sent. When recording, it stops: a
    /// voice note of that length (512 zero bytes) is sent and shown.
    pub fn toggle_voice_recording(&mut self, peer_id: &String) -> (command: Option<UiCommand>)
        requires
            old(self).wf(),
        ensures
            final(self).my_addresses == old(self).my_addresses,
            final(self).wf(),
            final(self).local_peer_id == old(self).local_peer_id,
            final(self).active_friend == old(self).active_friend,
            final(self).recording_voice_note == !old(self).recording_voice_note,
            !old(self).recording_voice_note ==> command is None && final(self).recorded_secs == 5
                && final(self).friends == old(self).friends,
            old(self).recording_voice_note ==> {
                &&& final(self).recorded_secs == old(self).recorded_secs
                &&& command matches Some(UiCommand::SendPayload { peer_id: q, payload }) && q@
                    == peer_id@ && (payload matches InnerPayload::VoiceNoteTransfer {
                    duration_secs,
                    audio_bytes_base64,
                } && duration_secs == old(self).recorded_secs && audio_bytes_base64@
                    == spec_base64_encode(zero_bytes(512)))
                &&& old(self).friends@.contains_key(peer_id@) ==> ({
                    let f = final(self).friends@[peer_id@];
                    &&& final(self).friends@ == old(self).friends@.insert(peer_id@, f)
                    &&& f == (FriendState { messages: f.messages, ..old(self).friends@[peer_id@] })
                    &&& f.messages@.drop_last() == old(self).friends@[peer_id@].messages@
                    &&& f.messages@.len() > 0
                    &&& f.messages@.last().is_ours
                    &&& f.messages@.last().timestamp@ == "now"@
                    &&& f.messages@.last().content matches ChatMessageContent::VoiceNote {
                        duration,
                        bytes,
                        is_playing,
                    } && duration == old(self).recorded_secs && bytes@ == zero_bytes(512)
                        && !is_playing
                })
                &&& !old(self).friends@.contains_key(peer_id@) ==> final(self).friends@ == old(
                    self,
                ).friends@
            },
    {
        if !self.recording_voice_note {
            self.recording_voice_note = true;
            self.recorded_secs = 5;
            None
        } else {
            self.recording_voice_note = false;
            let bytes = zeros(512);
            let encoded = base64_encode(bytes.as_slice());
            let command = UiCommand::SendPayload {
                peer_id: peer_id.clone(),
                payload: InnerPayload::VoiceNoteTransfer {
                    duration_secs: self.recorded_secs,
                    audio_bytes_base64: encoded,
                },
            };
            self.push_own_message(
                peer_id,
                ChatMessageContent::VoiceNote {
                    duration: self.recorded_secs,
                    bytes,
                    is_playing: false,
                },
            );
            Some(command)
        }
    }
}

} // verus!
