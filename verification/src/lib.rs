//! A deny-list filter for relayed notes: a note is rejected when its author's
//! public key, the literal text of its source address, or a CIDR range that
//! holds its source address is on a list fixed at load time.

pub mod filter;
pub mod lemmas;
pub mod message;
pub mod net;

pub use filter::Blacklist;
pub use filter::BlacklistConfig;
pub use message::Action;
pub use message::InputMessage;
pub use message::Note;
pub use message::NoteFilter;
pub use message::OutputMessage;
pub use net::Address;
pub use net::Network;
