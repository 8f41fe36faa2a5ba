//! Utilities shared by the servers and the client.

pub mod auth;
pub mod hash_utils;
pub mod keypair_manager;
pub mod rng;
pub mod solana_blockhash_fetcher;
