pub mod text;
pub mod table;
pub mod crypto;
pub mod encoding;
pub mod protocol;
pub mod peer;
pub mod session;
pub mod chat;
pub mod profile;
