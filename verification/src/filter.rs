//! The gateway's spam filter: an envelope is accepted only when its proof of
//! work is hard enough and valid, its timestamp is recent, and its signature
//! verifies.

use vstd::prelude::*;
use vstd::bytes::{spec_u64_to_le_bytes, u64_to_le_bytes};
use vstd::slice::slice_to_vec;
use crate::crypto::{ed25519_verify, unix_now};
use crate::identity::verify_signature;
use crate::models::{signing_message, timestamp_le_bytes, SignedEnvelope};
use crate::pow::{has_leading_zero_bits, pow_digest, PowChallenge, PowSolution};

verus! {

/// Why an envelope was rejected.
#[derive(Debug, Clone, PartialEq)]
pub enum FilterError {
    /// The claimed difficulty is below the gateway's minimum.
    InsufficientDifficulty { required: u8, actual: u8 },
    /// The nonce and hash do not solve the challenge.
    InvalidPow,
    /// The signature does not verify.
    InvalidSignature,
    /// The payload could not be serialised.
    SerializationError(String),
    /// The timestamp is too far from the gateway's clock.
    TimestampDrift { ts: i64, max_drift_secs: i64 },
}

/// The filter's settings.
#[derive(Debug, Clone)]
pub struct FilterConfig {
    /// Envelopes claiming fewer leading zero bits are dropped.
    pub min_difficulty: u8,
    /// The largest accepted distance, in seconds, between an envelope's
    /// timestamp and the gateway's clock.
    pub max_timestamp_drift_secs: i64,
}

impl Default for FilterConfig {
    /// At least one zero byte of work, and at most ten minutes of drift.
    fn default() -> (r: Self)
        ensures
            r.min_difficulty == 8,
            r.max_timestamp_drift_secs == 600,
    {
        FilterConfig { min_difficulty: 8, max_timestamp_drift_secs: 600 }
    }
}

/// The challenge prefix of an envelope: `public_key || timestamp_le8`.
pub open spec fn envelope_pow_prefix(public_key: Seq<u8>, timestamp: i64) -> Seq<u8> {
    public_key + timestamp_le_bytes(timestamp)
}

/// The distance between two instants.
pub open spec fn time_distance(a: i64, b: i64) -> int {
    if a >= b {
        a - b
    } else {
        b - a
    }
}

/// The envelope's nonce and hash solve its challenge at the claimed
/// difficulty.
pub open spec fn envelope_pow_ok<T>(envelope: SignedEnvelope<T>, reported_difficulty: u8) -> bool {
    &&& envelope.pow_hash@ == pow_digest(
        envelope_pow_prefix(envelope.public_key@, envelope.timestamp),
        envelope.pow_nonce,
    )
    &&& has_leading_zero_bits(envelope.pow_hash@, reported_difficulty)
}

/// The inputs on which the filter reads a fixed-size field that does not have
/// its size: the hash, once the difficulty passes; the key and the signature,
/// once the proof of work and the clock check pass as well.
pub open spec fn filter_reads_malformed<T>(
    envelope: SignedEnvelope<T>,
    config: FilterConfig,
    reported_difficulty: u8,
    now: i64,
) -> bool {
    &&& reported_difficulty >= config.min_difficulty
    &&& {
        ||| envelope.pow_hash@.len() != 32
        ||| {
            &&& envelope_pow_ok(envelope, reported_difficulty)
            &&& time_distance(now, envelope.timestamp) <= config.max_timestamp_drift_secs
            &&& (envelope.public_key@.len() != 32 || envelope.signature@.len() != 64)
        }
    }
}

/// What the filter answers for an envelope, the bencode text of its payload,
/// a claimed difficulty and the gateway's clock reading `now`. The checks run
/// in order and the first that fails decides.
pub open spec fn filter_outcome<T>(
    envelope: SignedEnvelope<T>,
    payload_bencode: Seq<u8>,
    config: FilterConfig,
    reported_difficulty: u8,
    now: i64,
) -> Result<(), FilterError> {
    if reported_difficulty < config.min_difficulty {
        Err(
            FilterError::InsufficientDifficulty {
                required: config.min_difficulty,
                actual: reported_difficulty,
            },
        )
    } else if !envelope_pow_ok(envelope, reported_difficulty) {
        Err(FilterError::InvalidPow)
    } else if time_distance(now, envelope.timestamp) > config.max_timestamp_drift_secs {
        Err(
            FilterError::TimestampDrift {
                ts: envelope.timestamp,
                max_drift_secs: config.max_timestamp_drift_secs,
            },
        )
    } else if !ed25519_verify(
        envelope.public_key@,
        signing_message(
            payload_bencode,
            envelope.timestamp,
            envelope.pow_nonce,
            envelope.public_key@,
        ),
        envelope.signature@,
    ) {
        Err(FilterError::InvalidSignature)
    } else {
        Ok(())
    }
}

/// The filter accepts an envelope exactly when the claimed difficulty meets
/// the minimum, the hash is the SHA-256 of `public_key || timestamp_le8 ||
/// nonce_le8` with that many leading zero bits, the timestamp is within the
/// drift of the clock, and the signature over `payload || timestamp_le8 ||
/// nonce_le8 || public_key` verifies; a stale envelope with valid work is
/// rejected for its timestamp.
pub proof fn lemma_filter_accepts_exactly<T>(
    envelope: SignedEnvelope<T>,
    payload_bencode: Seq<u8>,
    config: FilterConfig,
    reported_difficulty: u8,
    now: i64,
)
    ensures
        filter_outcome(envelope, payload_bencode, config, reported_difficulty, now) == Ok::<
            (),
            FilterError,
        >(()) <==> {
            &&& reported_difficulty >= config.min_difficulty
            &&& envelope.pow_hash@ == crate::crypto::sha256(
                envelope.public_key@ + spec_u64_to_le_bytes(envelope.timestamp as u64)
                    + spec_u64_to_le_bytes(envelope.pow_nonce),
            )
            &&& forall|i: int|
                0 <= i < reported_difficulty ==> #[trigger] crate::pow::hash_bit(
                    envelope.pow_hash@,
                    i,
                ) == 0
            &&& (if now >= envelope.timestamp {
                now - envelope.timestamp
            } else {
                envelope.timestamp - now
            }) <= config.max_timestamp_drift_secs
            &&& ed25519_verify(
                envelope.public_key@,
                payload_bencode + spec_u64_to_le_bytes(envelope.timestamp as u64)
                    + spec_u64_to_le_bytes(envelope.pow_nonce) + envelope.public_key@,
                envelope.signature@,
            )
        },
        reported_difficulty >= config.min_difficulty && envelope_pow_ok(
            envelope,
            reported_difficulty,
        ) && (if now >= envelope.timestamp {
            now - envelope.timestamp
        } else {
            envelope.timestamp - now
        }) > config.max_timestamp_drift_secs ==> filter_outcome(
            envelope,
            payload_bencode,
            config,
            reported_difficulty,
            now,
        ) == Err::<(), FilterError>(
            FilterError::TimestampDrift {
                ts: envelope.timestamp,
                max_drift_secs: config.max_timestamp_drift_secs,
            },
        ),
{
    assert(envelope.public_key@ + spec_u64_to_le_bytes(envelope.timestamp as u64)
        + spec_u64_to_le_bytes(envelope.pow_nonce) =~= crate::pow::pow_input(
        envelope_pow_prefix(envelope.public_key@, envelope.timestamp),
        envelope.pow_nonce,
    ));
}

/// The challenge prefix of an envelope.
fn build_pow_prefix<T>(envelope: &SignedEnvelope<T>) -> (r: Vec<u8>)
    ensures
        r@ == envelope_pow_prefix(envelope.public_key@, envelope.timestamp),
{
    let mut prefix = slice_to_vec(envelope.public_key.as_slice());
    let mut ts = u64_to_le_bytes(envelope.timestamp as u64);
    prefix.append(&mut ts);
    prefix
}

/// Whether two instants are further apart than `max`, computed without
/// overflow.
fn exceeds_drift(now: i64, timestamp: i64, max: i64) -> (r: bool)
    ensures
        r == (time_distance(now, timestamp) > max),
{
    let drift: i128 = if now >= timestamp {
        now as i128 - timestamp as i128
    } else {
        timestamp as i128 - now as i128
    };
    drift > max as i128
}

/// Whether the envelope's proof of work is valid at the claimed difficulty.
fn check_pow<T>(envelope: &SignedEnvelope<T>, reported_difficulty: u8) -> (r: bool)
    requires
        envelope.pow_hash@.len() == 32,
    ensures
        r == envelope_pow_ok(*envelope, reported_difficulty),
{
    let challenge = PowChallenge::new(build_pow_prefix(envelope), reported_difficulty);
    let pow_solution = PowSolution { nonce: envelope.pow_nonce, hash: envelope.pow_hash_array() };
    challenge.verify(&pow_solution)
}

/// Runs the filter with the clock reading `now`.
///
/// `payload_bencode` is the bencode text of `envelope.payload`, which the
/// signature covers. The filter reads the hash as 32 bytes once the
/// difficulty passes, and the key and signature as 32 and 64 bytes once the
/// proof of work and the clock check pass too.
pub fn validate_envelope_at<T>(
    envelope: &SignedEnvelope<T>,
    payload_bencode: &[u8],
    config: &FilterConfig,
    reported_difficulty: u8,
    now: i64,
) -> (r: Result<(), FilterError>)
    requires
        !filter_reads_malformed(*envelope, *config, reported_difficulty, now),
    ensures
        r == filter_outcome(*envelope, payload_bencode@, *config, reported_difficulty, now),
{
    // 1. difficulty threshold
    if reported_difficulty < config.min_difficulty {
        return Err(
            FilterError::InsufficientDifficulty {
                required: config.min_difficulty,
                actual: reported_difficulty,
            },
        );
    }
    // 2. proof of work

    if !check_pow(envelope, reported_difficulty) {
        return Err(FilterError::InvalidPow);
    }
    // 3. timestamp drift

    if exceeds_drift(now, envelope.timestamp, config.max_timestamp_drift_secs) {
        return Err(
            FilterError::TimestampDrift {
                ts: envelope.timestamp,
                max_drift_secs: config.max_timestamp_drift_secs,
            },
        );
    }
    // 4. signature

    let public_key = envelope.public_key_array();
    let signing_bytes = SignedEnvelope::<T>::signing_bytes(
        payload_bencode,
        envelope.timestamp,
        envelope.pow_nonce,
        &public_key,
    );
    if !verify_signature(&public_key, signing_bytes.as_slice(), &envelope.signature_array()) {
        return Err(FilterError::InvalidSignature);
    }
    Ok(())
}

/// Runs the filter against the system clock: the answer is the filter's
/// answer for some clock reading. As the clock reading is not known to the
/// caller, the key and signature must have their sizes whenever the proof of
/// work passes.
pub fn validate_envelope<T>(
    envelope: &SignedEnvelope<T>,
    payload_bencode: &[u8],
    config: &FilterConfig,
    reported_difficulty: u8,
) -> (r: Result<(), FilterError>)
    requires
        reported_difficulty >= config.min_difficulty ==> {
            &&& envelope.pow_hash@.len() == 32
            &&& envelope_pow_ok(*envelope, reported_difficulty) ==> envelope.public_key@.len()
                == 32 && envelope.signature@.len() == 64
        },
    ensures
        exists|now: i64|
            r == #[trigger] filter_outcome(
                *envelope,
                payload_bencode@,
                *config,
                reported_difficulty,
                now,
            ),
{
    let now = unix_now();
    validate_envelope_at(envelope, payload_bencode, config, reported_difficulty, now)
}

/// Runs the filter against the system clock on any envelope. `None` stands
/// for the inputs on which the filter would read a malformed field
/// (`filter_reads_malformed`); otherwise the answer is the filter's answer,
/// both for one and the same clock reading.
pub fn validate_envelope_checked<T>(
    envelope: &SignedEnvelope<T>,
    payload_bencode: &[u8],
    config: &FilterConfig,
    reported_difficulty: u8,
) -> (r: Option<Result<(), FilterError>>)
    ensures
        exists|now: i64|
            {
                &&& #[trigger] filter_reads_malformed(
                    *envelope,
                    *config,
                    reported_difficulty,
                    now,
                ) ==> r is None
                &&& !filter_reads_malformed(*envelope, *config, reported_difficulty, now) ==> r
                    == Some(filter_outcome(
                    *envelope,
                    payload_bencode@,
                    *config,
                    reported_difficulty,
                    now,
                ))
            },
{
    if reported_difficulty >= config.min_difficulty {
        if envelope.pow_hash.len() != 32 {
            proof {
                assert(filter_reads_malformed(*envelope, *config, reported_difficulty, 0));
            }
            return None;
        }
        if envelope.public_key.len() != 32 || envelope.signature.len() != 64 {
            if check_pow(envelope, reported_difficulty) {
                let now = unix_now();
                if exceeds_drift(now, envelope.timestamp, config.max_timestamp_drift_secs) {
                    let r = Some(
                        Err(
                            FilterError::TimestampDrift {
                                ts: envelope.timestamp,
                                max_drift_secs: config.max_timestamp_drift_secs,
                            },
                        ),
                    );
                    proof {
                        assert(!filter_reads_malformed(
                            *envelope,
                            *config,
                            reported_difficulty,
                            now,
                        ));
                        assert(r == Some(
                            filter_outcome(
                                *envelope,
                                payload_bencode@,
                                *config,
                                reported_difficulty,
                                now,
                            ),
                        ));
                    }
                    return r;
                }
                proof {
                    assert(filter_reads_malformed(*envelope, *config, reported_difficulty, now));
                }
                return None;
            }
        }
    }
    let r = validate_envelope(envelope, payload_bencode, config, reported_difficulty);
    proof {
        let now = choose|now: i64|
            r == #[trigger] filter_outcome(
                *envelope,
                payload_bencode@,
                *config,
                reported_difficulty,
                now,
            );
        assert(!filter_reads_malformed(*envelope, *config, reported_difficulty, now));
    }
    Some(r)
}

} // verus!
