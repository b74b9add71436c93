//! Signaling relay for peer-to-peer connection setup: a shared room of
//! sessions and the per-session protocol that relays negotiation messages
//! between them.
pub mod room;
pub mod message;
pub mod session;
