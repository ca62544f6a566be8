//! Building signed envelopes on the client side: proof of work, then the
//! Ed25519 signature, then the BEP 44 signature with which a gateway can put
//! the envelope into the DHT.

use vstd::prelude::*;
use vstd::bytes::u64_to_le_bytes;
use crate::crypto::{bep44_sign, bep44_signable, ed25519_public_key, ed25519_sign, ed25519_verify};
use crate::filter::{envelope_pow_prefix, filter_outcome, time_distance, FilterConfig};
use crate::hex::{hex_encode, hex_encode_spec};
use crate::identity::Identity;
use crate::models::{signing_message, SignedEnvelope};
use crate::pow::{has_leading_zero_bits, pow_digest, PowChallenge, PowError};

verus! {

/// A built envelope, ready to publish.
pub struct BuildResult {
    /// The hex text of the bencode of the whole envelope.
    pub envelope_hex: String,
    /// The hex text of the BEP 44 signature (64 bytes, 128 digits).
    pub bep44_sig_hex: String,
}

/// Builds envelopes for each kind of message.
pub struct EnvelopeBuilder;

impl EnvelopeBuilder {
    /// Solves the proof of work for `public_key || timestamp_le8` at the given
    /// difficulty and signs the payload with the identity.
    ///
    /// `payload_bencode` is the bencode text of `payload`. The envelope built
    /// passes the gateway filter of any configuration whose minimum difficulty
    /// is at most `difficulty`, at any clock reading within the allowed drift
    /// of `timestamp`.
    pub fn sign_envelope<T>(
        identity: &Identity,
        payload: T,
        payload_bencode: &[u8],
        timestamp: i64,
        difficulty: u8,
    ) -> (r: Result<SignedEnvelope<T>, PowError>)
        ensures
            r matches Ok(env) ==> {
                let pk = ed25519_public_key(identity@);
                &&& env.well_formed()
                &&& env.payload == payload
                &&& env.timestamp == timestamp
                &&& env.public_key@ == pk
                &&& env.pow_hash@ == pow_digest(envelope_pow_prefix(pk, timestamp), env.pow_nonce)
                &&& has_leading_zero_bits(env.pow_hash@, difficulty)
                &&& forall|n: u64|
                    n < env.pow_nonce ==> !has_leading_zero_bits(
                        #[trigger] pow_digest(envelope_pow_prefix(pk, timestamp), n),
                        difficulty,
                    )
                &&& env.signature@ == ed25519_sign(
                    identity@,
                    signing_message(payload_bencode@, timestamp, env.pow_nonce, pk),
                )
                &&& forall|config: FilterConfig, now: i64|
                    config.min_difficulty <= difficulty && time_distance(now, timestamp)
                        <= config.max_timestamp_drift_secs ==> #[trigger] filter_outcome(
                        env,
                        payload_bencode@,
                        config,
                        difficulty,
                        now,
                    ) == Ok::<(), crate::filter::FilterError>(())
            },
            r is Err ==> forall|n: u64|
                !has_leading_zero_bits(
                    #[trigger] pow_digest(
                        envelope_pow_prefix(ed25519_public_key(identity@), timestamp),
                        n,
                    ),
                    difficulty,
                ),
    {
        // 1. proof of work
        let public_key = identity.public_key_bytes();
        let mut pow_prefix = vstd::slice::slice_to_vec(public_key.as_slice());
        let mut ts = u64_to_le_bytes(timestamp as u64);
        pow_prefix.append(&mut ts);
        let challenge = PowChallenge::new(pow_prefix, difficulty);
        let solution = match challenge.solve() {
            Ok(s) => s,
            Err(e) => {
                return Err(e);
            },
        };
        // 2. signature

        let signing_bytes = SignedEnvelope::<T>::signing_bytes(
            payload_bencode,
            timestamp,
            solution.nonce,
            &public_key,
        );
        let sig = identity.sign(signing_bytes.as_slice());
        // 3. assembly
        let env = SignedEnvelope::new(
            payload,
            timestamp,
            solution.nonce,
            solution.hash,
            public_key,
            sig,
        );
        Ok(env)
    }

    /// The hex text of the BEP 44 signature of `bencode_data` at sequence
    /// number `seq`, made with the identity's key.
    pub fn bep44_signature_hex(identity: &Identity, bencode_data: &[u8], seq: i64) -> (r: String)
        ensures
            r@ == hex_encode_spec(ed25519_sign(identity@, bep44_signable(seq, bencode_data@))),
            ed25519_verify(
                ed25519_public_key(identity@),
                bep44_signable(seq, bencode_data@),
                ed25519_sign(identity@, bep44_signable(seq, bencode_data@)),
            ),
    {
        let secret = identity.to_bytes();
        let sig = bep44_sign(&secret, bencode_data, seq);
        hex_encode(sig.as_slice())
    }
}

} // verus!
