//! Verified core of a Jito block-engine test server and its validator client:
//! bundle and packet-batch hashing, token checks and issuance, the bundle
//! proxy's request handling, bundle and packet generation, the blockhash
//! source, and the client's reconnection state machines.

pub mod be_proxy;
pub mod block_engine;
pub mod proto;
pub mod transaction;
pub mod text;
pub mod utils;
pub mod validator_client;
