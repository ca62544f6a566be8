//! Core logic of an anonymous publishing network: Hashcash proof-of-work,
//! Ed25519 identities, signed message envelopes, the gateway's spam filter
//! and the bookkeeping around the gateway's message cache and mesh sync.

pub mod api;
pub mod cache;
pub mod crypto;
pub mod dht;
pub mod envelope;
pub mod filter;
pub mod hex;
pub mod identity;
pub mod models;
pub mod network;
pub mod pow;
pub mod text;

pub use identity::{verify_signature, Identity, IdentityError};
pub use models::{Comment, Post, SignedEnvelope, Vote};
pub use network::NETWORK_ID_LEN;
pub use pow::{solve_pow, PowChallenge, PowError, PowSolution};
