use actinium::envelope::EnvelopeBuilder;
use actinium::filter::{validate_envelope, FilterConfig, FilterError};
use actinium::network::dev_network_id;
use actinium::{Post, SignedEnvelope};
use actinium::identity::IdentityError;
use actinium::{verify_signature, Identity};
use ed25519_dalek::{Signer, SigningKey};

#[test]
fn test_generate_and_sign() {
    let identity = Identity::generate();
    let message = b"hello actinium cast";

    let sig_bytes = identity.sign(message);
    let pk_bytes = identity.public_key_bytes();

    assert!(verify_signature(&pk_bytes, message, &sig_bytes));

    let tampered = b"hello actinium cast!";
    assert!(!verify_signature(&pk_bytes, tampered, &sig_bytes));
}

#[test]
fn test_hex_roundtrip() {
    let id1 = Identity::generate();
    let hex = id1.to_hex();

    assert_eq!(hex.len(), 64);
    assert!(hex.chars().all(|c| c.is_ascii_hexdigit()));

    let id2 = Identity::from_hex(&hex).expect("from_hex should succeed");
    assert_eq!(id1.to_bytes(), id2.to_bytes());
    assert_eq!(id1.public_key_bytes(), id2.public_key_bytes());
}

#[test]
fn test_from_hex_invalid() {
    assert!(Identity::from_hex("not-hex").is_err());
    assert!(Identity::from_hex(&"aa".repeat(31)).is_err());
}

#[test]
fn test_public_key_hex() {
    let id = Identity::generate();
    let pk_hex = id.public_key_hex();
    assert_eq!(pk_hex.len(), 64);
    assert_eq!(hex::decode(&pk_hex).unwrap(), id.public_key_bytes().to_vec());
}

#[test]
fn from_hex_error_variants() {
    assert!(matches!(Identity::from_hex("abc"), Err(IdentityError::HexDecode(_))));
    assert!(matches!(Identity::from_hex("zz"), Err(IdentityError::HexDecode(_))));
    assert!(matches!(
        Identity::from_hex(&"aa".repeat(31)),
        Err(IdentityError::InvalidKeyLength(31))
    ));
    assert!(matches!(
        Identity::from_hex(&"00".repeat(33)),
        Err(IdentityError::InvalidKeyLength(33))
    ));
    let upper = "AB".repeat(32);
    let id = Identity::from_hex(&upper).unwrap();
    assert_eq!(id.to_bytes(), [0xABu8; 32]);
}

#[test]
fn seed_export_is_lowercase_hex() {
    let id = Identity::from_bytes(&[0xDEu8; 32]);
    assert_eq!(id.to_hex(), "de".repeat(32));
    assert_eq!(id.to_bytes(), [0xDEu8; 32]);
}

#[test]
fn known_key_matches_ed25519_dalek() {
    let seed = [7u8; 32];
    let id = Identity::from_bytes(&seed);
    let key = SigningKey::from_bytes(&seed);
    assert_eq!(id.public_key_bytes(), key.verifying_key().to_bytes());
    assert_eq!(id.public_key().to_bytes(), key.verifying_key().to_bytes());
    assert_eq!(id.public_key_hex(), hex::encode(key.verifying_key().to_bytes()));
    assert_eq!(id.sign(b"m"), key.sign(b"m").to_bytes());
}

#[test]
fn invalid_key_does_not_verify() {
    // y = 2 is not the encoding of a curve point
    let mut bad = [0u8; 32];
    bad[0] = 2;
    assert!(!verify_signature(&bad, b"m", &[0u8; 64]));
}

#[test]
fn sha256_of_dev_network_seed() {
    assert_eq!(
        hex::encode(dev_network_id()),
        hex::encode(<sha2::Sha256 as sha2::Digest>::digest(b"actinium-cast-dev-network-v1"))
    );
}

#[test]
fn bep44_signature_covers_seq_and_value() {
    let seed = [9u8; 32];
    let key = SigningKey::from_bytes(&seed);
    let sig_hex = EnvelopeBuilder::bep44_signature_hex(&Identity::from_bytes(&seed), b"hello", -5);
    let expected = key.sign(b"3:seqi-5e1:v5:hello").to_bytes();
    assert_eq!(sig_hex, hex::encode(expected));
}

#[test]
fn filter_reads_the_system_clock() {
    let identity = Identity::from_bytes(&[1u8; 32]);
    let payload = b"d5:title1:te".to_vec();
    let post = Post { title: "t".to_string(), content: String::new(), difficulty: 8 };
    // a timestamp in 2001 is far outside the allowed drift of the real clock
    let old: SignedEnvelope<Post> =
        EnvelopeBuilder::sign_envelope(&identity, post.clone(), &payload, 1_000_000_000, 8).unwrap();
    let config = FilterConfig::default();
    assert_eq!(
        validate_envelope(&old, &payload, &config, 8),
        Err(FilterError::TimestampDrift { ts: 1_000_000_000, max_drift_secs: 600 })
    );
    let now = chrono::Utc::now().timestamp();
    let fresh = EnvelopeBuilder::sign_envelope(&identity, post, &payload, now, 8).unwrap();
    assert_eq!(validate_envelope(&fresh, &payload, &config, 8), Ok(()));
}

#[test]
fn public_key_object_has_the_identity_key() {
    let id = Identity::from_bytes(&[0x11u8; 32]);
    assert_eq!(id.public_key().to_bytes(), id.public_key_bytes());
    let other = Identity::from_bytes(&[0u8; 32]);
    assert_ne!(id.public_key().to_bytes(), other.public_key().to_bytes());
}
