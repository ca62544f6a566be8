use actinium::envelope::EnvelopeBuilder;
use actinium::filter::{
    validate_envelope, validate_envelope_at, validate_envelope_checked, FilterConfig, FilterError,
};
use actinium::{Identity, PowChallenge, Post, SignedEnvelope};

fn post_bencode(post: &Post) -> Vec<u8> {
    format!(
        "d7:content{}:{}10:difficultyi{}e5:title{}:{}e",
        post.content.len(),
        post.content,
        post.difficulty,
        post.title.len(),
        post.title
    )
    .into_bytes()
}

/// A complete, valid post envelope, with the bencode text of its payload.
fn make_valid_post_envelope(difficulty: u8) -> (SignedEnvelope<Post>, Vec<u8>) {
    let identity = Identity::generate();
    let timestamp = chrono::Utc::now().timestamp();
    let post = Post {
        title: "Test Post".to_string(),
        content: "Hello from filter test".to_string(),
        difficulty,
    };
    let payload = post_bencode(&post);

    let mut pow_prefix = Vec::with_capacity(40);
    pow_prefix.extend_from_slice(&identity.public_key_bytes());
    pow_prefix.extend_from_slice(&timestamp.to_le_bytes());
    let challenge = PowChallenge::new(pow_prefix, difficulty);
    let solution = challenge.solve().expect("PoW solve should succeed");

    let signing_bytes = SignedEnvelope::<Post>::signing_bytes(
        &payload,
        timestamp,
        solution.nonce,
        &identity.public_key_bytes(),
    );
    let sig = identity.sign(&signing_bytes);

    let env = SignedEnvelope::new(
        post,
        timestamp,
        solution.nonce,
        solution.hash,
        identity.public_key_bytes(),
        sig,
    );
    (env, payload)
}

#[test]
fn test_valid_envelope_passes() {
    let (envelope, payload) = make_valid_post_envelope(8);
    let config = FilterConfig::default();
    assert!(validate_envelope(&envelope, &payload, &config, 8).is_ok());
}

#[test]
fn test_insufficient_difficulty_rejected() {
    let (envelope, payload) = make_valid_post_envelope(4);
    let config = FilterConfig { min_difficulty: 8, ..Default::default() };
    let result = validate_envelope(&envelope, &payload, &config, 4);
    assert!(matches!(result, Err(FilterError::InsufficientDifficulty { .. })));
}

#[test]
fn test_tampered_signature_rejected() {
    let (mut envelope, payload) = make_valid_post_envelope(8);
    let last = envelope.signature.len() - 1;
    envelope.signature[last] ^= 0xFF;

    let config = FilterConfig::default();
    let result = validate_envelope(&envelope, &payload, &config, 8);
    assert!(matches!(result, Err(FilterError::InvalidSignature)));
}

#[test]
fn test_tampered_pow_rejected() {
    let (mut envelope, payload) = make_valid_post_envelope(8);
    envelope.pow_nonce = envelope.pow_nonce.wrapping_add(1);

    let config = FilterConfig::default();
    let result = validate_envelope(&envelope, &payload, &config, 8);
    assert!(matches!(result, Err(FilterError::InvalidPow)));
}

#[test]
fn default_config_values() {
    let c = FilterConfig::default();
    assert_eq!(c.min_difficulty, 8);
    assert_eq!(c.max_timestamp_drift_secs, 600);
}

#[test]
fn insufficient_difficulty_reports_both_values() {
    let (envelope, payload) = make_valid_post_envelope(8);
    let config = FilterConfig { min_difficulty: 10, max_timestamp_drift_secs: 600 };
    let r = validate_envelope_at(&envelope, &payload, &config, 9, envelope.timestamp);
    assert_eq!(r, Err(FilterError::InsufficientDifficulty { required: 10, actual: 9 }));
}

#[test]
fn drift_boundary() {
    let (envelope, payload) = make_valid_post_envelope(8);
    let config = FilterConfig::default();
    let ts = envelope.timestamp;
    assert_eq!(validate_envelope_at(&envelope, &payload, &config, 8, ts + 600), Ok(()));
    assert_eq!(validate_envelope_at(&envelope, &payload, &config, 8, ts - 600), Ok(()));
    assert_eq!(
        validate_envelope_at(&envelope, &payload, &config, 8, ts + 601),
        Err(FilterError::TimestampDrift { ts, max_drift_secs: 600 })
    );
    assert_eq!(
        validate_envelope_at(&envelope, &payload, &config, 8, ts - 601),
        Err(FilterError::TimestampDrift { ts, max_drift_secs: 600 })
    );
}

#[test]
fn extreme_clock_readings_do_not_overflow() {
    let (envelope, payload) = make_valid_post_envelope(8);
    let config = FilterConfig::default();
    let ts = envelope.timestamp;
    assert_eq!(
        validate_envelope_at(&envelope, &payload, &config, 8, i64::MIN),
        Err(FilterError::TimestampDrift { ts, max_drift_secs: 600 })
    );
}

#[test]
fn payload_change_breaks_signature() {
    let (envelope, mut payload) = make_valid_post_envelope(8);
    payload.push(b' ');
    let config = FilterConfig::default();
    let r = validate_envelope_at(&envelope, &payload, &config, 8, envelope.timestamp);
    assert_eq!(r, Err(FilterError::InvalidSignature));
}

#[test]
fn claimed_difficulty_above_solved_is_invalid_pow() {
    // the first byte of the solved hash is zero; claim far more work than done
    let (envelope, payload) = make_valid_post_envelope(8);
    let config = FilterConfig::default();
    let r = validate_envelope_at(&envelope, &payload, &config, 200, envelope.timestamp);
    assert_eq!(r, Err(FilterError::InvalidPow));
}

#[test]
fn envelope_builder_output_passes_filter() {
    let identity = Identity::from_bytes(&[3u8; 32]);
    let post = Post { title: "t".to_string(), content: "c".to_string(), difficulty: 9 };
    let payload = post_bencode(&post);
    let ts = 1_700_000_000i64;
    let env = EnvelopeBuilder::sign_envelope(&identity, post, &payload, ts, 9).unwrap();
    let config = FilterConfig::default();
    assert_eq!(validate_envelope_at(&env, &payload, &config, 9, ts + 10), Ok(()));
    assert_eq!(env.public_key, identity.public_key_bytes().to_vec());
    assert_eq!(env.timestamp, ts);
}

#[test]
fn malformed_fields_are_read_only_when_reached() {
    let config = FilterConfig::default();
    // a key of another length, with a valid proof of work over it and an old timestamp
    let key = vec![7u8; 31];
    let ts = 1_000_000_000i64;
    let mut prefix = key.clone();
    prefix.extend_from_slice(&ts.to_le_bytes());
    let solution = PowChallenge::new(prefix, 8).solve().unwrap();
    let envelope = SignedEnvelope {
        payload: Post { title: String::new(), content: String::new(), difficulty: 8 },
        timestamp: ts,
        pow_nonce: solution.nonce,
        pow_hash: solution.hash.to_vec(),
        public_key: key,
        signature: vec![0u8; 64],
    };
    assert_eq!(
        validate_envelope_at(&envelope, b"", &config, 8, ts + 601),
        Err(FilterError::TimestampDrift { ts, max_drift_secs: 600 })
    );
    // against the real clock the timestamp is far too old
    assert_eq!(
        validate_envelope_checked(&envelope, b"", &config, 8),
        Some(Err(FilterError::TimestampDrift { ts, max_drift_secs: 600 }))
    );
    // a fresh timestamp would reach the key: the filter would read it at 32 bytes
    let now = chrono::Utc::now().timestamp();
    let mut prefix = vec![7u8; 31];
    prefix.extend_from_slice(&now.to_le_bytes());
    let solution = PowChallenge::new(prefix, 8).solve().unwrap();
    let fresh = SignedEnvelope { timestamp: now, pow_nonce: solution.nonce, pow_hash: solution.hash.to_vec(), ..envelope.clone() };
    assert_eq!(validate_envelope_checked(&fresh, b"", &config, 8), None);
    // a short hash below the difficulty threshold is not read
    let mut short = envelope.clone();
    short.pow_hash.truncate(3);
    assert_eq!(
        validate_envelope_checked(&short, b"", &config, 4),
        Some(Err(FilterError::InsufficientDifficulty { required: 8, actual: 4 }))
    );
    assert_eq!(validate_envelope_checked(&short, b"", &config, 8), None);
    // a wrong key length with an invalid proof of work is an InvalidPow
    let mut bad_pow = envelope.clone();
    bad_pow.pow_nonce = bad_pow.pow_nonce.wrapping_add(1);
    assert_eq!(validate_envelope_checked(&bad_pow, b"", &config, 8), Some(Err(FilterError::InvalidPow)));
}
