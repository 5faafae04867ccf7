//! JSON-RPC over Nostr relays.
pub mod client;
pub mod server;
