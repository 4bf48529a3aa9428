# noto_m

The verified core of a peer-to-peer chat client: a sponge-style stream
cipher, the wire messages and how they are sealed, the per-peer session with
its key exchange, the conversation state behind the interface, and local
encrypted profiles.

- `src/crypto.rs` — the cipher, its state transitions and its round-trip laws.
- `src/encoding.rs` — hex and base64 text forms of bytes.
- `src/protocol.rs` — message types; sealing and opening containers and audio frames.
- `src/table.rs` — a map from peer-id text to values, kept as a vector of distinct keys. It
  stands where a `HashMap` keyed by peer id would: Verus specifies `std`'s maps well only for
  integer keys, while this table's contracts are proved for text keys. They state the map it
  holds; the entries can be walked in a fixed order (`len`, `entry_at`), but which order
  `insert` and `remove` leave is not stated, as a `HashMap`'s is not.
- `src/peer.rs` — peer ids, identity keypairs and network addresses as libp2p reads them.
- `src/session.rs` — what the network service does on each event or command.
- `src/chat.rs` — the friend list, messages and calls, and the interface's actions.
- `src/profile.rs` — profile files, names, the login screens and checks, saving, restoring and sealing.
- `src/text.rs` — trimming, joining and default display names.
- `app/` — the libp2p service, the egui interface and the serde forms of the types.
- `tests/` — tests of the library against concrete values.
