//! The cryptographic and system primitives the library builds on: SHA-256,
//! Ed25519 (keys, signatures, verification), BEP 44 item signatures, the
//! system clock and the system random source.
//!
//! Each primitive is a thin call into its crate. What it computes is named by
//! an uninterpreted spec function; the few facts that callers rely on are
//! stated beside the call.

use vstd::prelude::*;
use ed25519_dalek::Signer;
use ed25519_dalek::Verifier;
use sha2::Digest;

verus! {

/// SHA-256 digest of a byte string.
pub uninterp spec fn sha256(data: Seq<u8>) -> Seq<u8>;

/// The Ed25519 public key (compressed point) of a 32-byte secret seed.
pub uninterp spec fn ed25519_public_key(seed: Seq<u8>) -> Seq<u8>;

/// The deterministic Ed25519 signature of `message` under the secret seed.
pub uninterp spec fn ed25519_sign(seed: Seq<u8>, message: Seq<u8>) -> Seq<u8>;

/// Whether `signature` is a valid Ed25519 signature of `message` under the
/// encoded public key (false when the key does not decode to a point).
pub uninterp spec fn ed25519_verify(public_key: Seq<u8>, message: Seq<u8>, signature: Seq<u8>) -> bool;

/// Calls `sha2::Sha256::digest`.
#[verifier::external_body]
pub(crate) fn sha256_digest(data: &[u8]) -> (r: [u8; 32])
    ensures
        r@ == sha256(data@),
{
    sha2::Sha256::digest(data).into()
}

/// Calls `SigningKey::from_bytes(seed).verifying_key().to_bytes()` of
/// `ed25519_dalek`: the public key that belongs to the seed.
#[verifier::external_body]
pub(crate) fn ed25519_public_key_of(seed: &[u8; 32]) -> (r: [u8; 32])
    ensures
        r@ == ed25519_public_key(seed@),
{
    ed25519_dalek::SigningKey::from_bytes(seed).verifying_key().to_bytes()
}

/// Calls `SigningKey::from_bytes(seed).sign(message).to_bytes()` of
/// `ed25519_dalek`. Ed25519 signing is deterministic, and a signature made
/// with a seed verifies under the public key of that seed.
#[verifier::external_body]
pub(crate) fn ed25519_sign_with(seed: &[u8; 32], message: &[u8]) -> (r: [u8; 64])
    ensures
        r@ == ed25519_sign(seed@, message@),
        ed25519_verify(ed25519_public_key(seed@), message@, r@),
{
    ed25519_dalek::SigningKey::from_bytes(seed).sign(message).to_bytes()
}

/// Calls `VerifyingKey::from_bytes`, `Signature::from_bytes` and `verify` of
/// `ed25519_dalek`; an undecodable key gives `false`.
#[verifier::external_body]
pub(crate) fn ed25519_verify_with(public_key: &[u8; 32], message: &[u8], signature: &[u8; 64]) -> (r: bool)
    ensures
        r == ed25519_verify(public_key@, message@, signature@),
{
    match ed25519_dalek::VerifyingKey::from_bytes(public_key) {
        Ok(pk) => pk.verify(message, &ed25519_dalek::Signature::from_bytes(signature)).is_ok(),
        Err(_) => false,
    }
}

/// The decimal digits of a natural number.
pub open spec fn decimal_digits(n: nat) -> Seq<u8>
    decreases n,
{
    if n < 10 {
        seq![(48 + n) as u8]
    } else {
        decimal_digits(n / 10) + seq![(48 + n % 10) as u8]
    }
}

/// The decimal text of an integer, with a leading `-` when negative.
pub open spec fn decimal_i64(n: i64) -> Seq<u8> {
    if n < 0 {
        seq![45u8] + decimal_digits((-(n as int)) as nat)
    } else {
        decimal_digits(n as nat)
    }
}

/// The bytes a BEP 44 mutable item without salt signs:
/// `3:seqi<seq>e1:v<len>:<value>`.
pub open spec fn bep44_signable(seq: i64, value: Seq<u8>) -> Seq<u8> {
    seq![51u8, 58u8, 115u8, 101u8, 113u8, 105u8] + decimal_i64(seq) + seq![101u8, 49u8, 58u8, 118u8]
        + decimal_digits(value.len()) + seq![58u8] + value
}

/// Calls `mainline::MutableItem::new(SigningKey::from_bytes(seed), value, seq,
/// None).signature()`: the item signs `bep44_signable(seq, value)` with the
/// seed's Ed25519 key, so the signature verifies under the seed's public key.
#[verifier::external_body]
pub(crate) fn bep44_sign(seed: &[u8; 32], value: &[u8], seq: i64) -> (r: [u8; 64])
    ensures
        r@ == ed25519_sign(seed@, bep44_signable(seq, value@)),
        ed25519_verify(ed25519_public_key(seed@), bep44_signable(seq, value@), r@),
{
    *mainline::MutableItem::new(mainline::SigningKey::from_bytes(seed), value, seq, None).signature()
}

/// Calls `SigningKey::generate` of `ed25519_dalek` with the operating
/// system's random source and returns the seed. Nothing is known of the value.
#[verifier::external_body]
pub(crate) fn random_ed25519_seed() -> (r: [u8; 32]) {
    ed25519_dalek::SigningKey::generate(&mut rand::rngs::OsRng).to_bytes()
}

/// Calls `chrono::Utc::now().timestamp()`: the current Unix time in seconds.
/// Nothing is known of the value.
#[verifier::external_body]
pub(crate) fn unix_now() -> (r: i64) {
    chrono::Utc::now().timestamp()
}

} // verus!
