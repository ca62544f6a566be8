//! Errors of the gateway's DHT adapter (BEP 44 mutable items).

use vstd::prelude::*;
use crate::hex::{hex_encode, hex_encode_spec};

verus! {

/// The I/O error type of `std`.
#[verifier::external_type_specification]
#[verifier::external_body]
pub struct ExIoError(std::io::Error);

/// Why a DHT operation failed.
#[derive(Debug)]
pub enum DhtError {
    /// The node could not start.
    Init(std::io::Error),
    /// Storing a mutable item failed; holds the description.
    PutMutable(String),
    /// No mutable item was found for the key and salt (both in hex).
    NotFound { public_key_hex: String, salt: Option<String> },
}

impl DhtError {
    /// The error for a missing item, with the key and salt written in hex.
    pub fn not_found(public_key: &[u8; 32], salt: Option<&[u8]>) -> (r: Self)
        ensures
            r matches DhtError::NotFound { public_key_hex, salt: s } && public_key_hex@
                == hex_encode_spec(public_key@) && match salt {
                None => s is None,
                Some(b) => s matches Some(t) && t@ == hex_encode_spec(b@),
            },
    {
        let salt_hex = match salt {
            Some(s) => Some(hex_encode(s)),
            None => None,
        };
        DhtError::NotFound { public_key_hex: hex_encode(public_key.as_slice()), salt: salt_hex }
    }
}

} // verus!
