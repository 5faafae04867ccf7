//! Verified core of a NIP-55 JSON-RPC transport library.
pub mod json;
pub mod json_rpc;
pub mod keys;
pub mod nip04;
pub mod nip46;
pub mod nip_46;
pub mod nostr_connect;
pub mod relay_transport;
pub mod server;
pub mod uds;
pub mod uds_req_res;

pub use uds_req_res::client::UdsClientError;
