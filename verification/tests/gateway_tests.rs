use actinium::api::{
    check_publish, decode_comment_summary, decode_envelope_hex, decode_post_summary,
    extract_difficulty, tally_votes, ApiResponse, PaginationParams, PublishFailure,
};
use actinium::cache::{comments_mentioning, CachedMessage, MessageType};
use actinium::dht::DhtError;
use actinium::envelope::EnvelopeBuilder;
use actinium::filter::{FilterConfig, FilterError};
use actinium::network::{
    dev_network_id, mesh_info_hash, parse_network_id_hex, plan_sync_batch, NetworkIdError,
    SyncMessage, peers_to_sync, sync_start,
};
use actinium::text::{contains_subslice, str_equal};
use actinium::{Comment, Identity, Post, SignedEnvelope, Vote};
use ed25519_dalek::{Signer, SigningKey};
use sha2::{Digest, Sha256};

fn msg(id: i64, ty: &str, data: &[u8]) -> CachedMessage {
    CachedMessage {
        id,
        msg_type: ty.to_string(),
        public_key: format!("pk{id}"),
        timestamp: 1_700_000_000 + id,
        bencode_data: data.to_vec(),
        created_at: "2024-01-01 00:00:00".to_string(),
    }
}

#[test]
fn message_type_names_roundtrip() {
    for t in [MessageType::Post, MessageType::Comment, MessageType::Vote] {
        assert_eq!(MessageType::from_str(t.as_str()), Some(t));
    }
    assert_eq!(MessageType::Post.as_str(), "post");
    assert_eq!(MessageType::Comment.as_str(), "comment");
    assert_eq!(MessageType::Vote.as_str(), "vote");
    assert_eq!(MessageType::from_str("Post"), None);
    assert_eq!(MessageType::from_str(""), None);
}

#[test]
fn comments_are_filtered_by_key_text() {
    let messages = vec![
        msg(1, "comment", b"d7:content2:hi7:post_id4:abcde"),
        msg(2, "comment", b"d7:content2:hi7:post_id4:zzzze"),
        msg(3, "comment", b"abc"),
        msg(4, "comment", b"ab"),
    ];
    let kept = comments_mentioning(messages, "abcd");
    let ids: Vec<i64> = kept.iter().map(|m| m.id).collect();
    assert_eq!(ids, vec![1]);
    assert!(comments_mentioning(vec![], "").is_empty());
    let messages = vec![msg(1, "comment", b"xabc"), msg(2, "comment", b"abc"), msg(3, "comment", b"")];
    let kept = comments_mentioning(messages, "abc");
    let ids: Vec<i64> = kept.iter().map(|m| m.id).collect();
    assert_eq!(ids, vec![1, 2]);
}

#[test]
fn substring_search() {
    assert!(contains_subslice(b"hello", b"llo"));
    assert!(contains_subslice(b"hello", b"hello"));
    assert!(!contains_subslice(b"hello", b"hellox"));
    assert!(!contains_subslice(b"", b"a"));
    assert!(str_equal("post", "post"));
    assert!(!str_equal("post", "posts"));
}

#[test]
fn pagination_defaults_and_caps() {
    let p = PaginationParams { limit: None, offset: None };
    assert_eq!(p.post_page(), (20, 0));
    assert_eq!(p.comment_page(), (50, 0));
    let p = PaginationParams { limit: Some(500), offset: Some(7) };
    assert_eq!(p.post_page(), (100, 7));
    assert_eq!(p.comment_page(), (200, 7));
    let p = PaginationParams { limit: Some(5), offset: Some(-1) };
    assert_eq!(p.post_page(), (5, -1));
}

#[test]
fn api_response_constructors() {
    let ok = ApiResponse::success(3);
    assert!(ok.ok);
    assert_eq!(ok.data, Some(3));
    assert!(ok.error.is_none());
    let err = ApiResponse::error("nope".to_string());
    assert!(!err.ok);
    assert!(err.data.is_none());
    assert_eq!(err.error.as_deref(), Some("nope"));
}

fn vote(target: &str, positive: u8) -> Vote {
    Vote { target_id: target.to_string(), positive }
}

#[test]
fn votes_are_tallied_per_target() {
    let votes = vec![vote("a", 1), vote("b", 1), vote("a", 0), vote("a", 2), vote("ab", 1)];
    let stats = tally_votes("a".to_string(), &votes);
    assert_eq!(stats.target_id, "a");
    assert_eq!(stats.likes, 2);
    assert_eq!(stats.unlikes, 1);
    let none = tally_votes("c".to_string(), &votes);
    assert_eq!((none.likes, none.unlikes), (0, 0));
}

fn env<T>(payload: T) -> SignedEnvelope<T> {
    SignedEnvelope::new(payload, 1_700_000_123, 5, [1u8; 32], [2u8; 32], [3u8; 64])
}

#[test]
fn summaries_take_fields_from_record_and_envelope() {
    let m = msg(9, "post", b"ignored");
    let post = Post { title: "T".to_string(), content: "C".to_string(), difficulty: 12 };
    let s = decode_post_summary(m.clone(), Some(env(post))).unwrap();
    assert_eq!(s.id, 9);
    assert_eq!(s.public_key, "pk9");
    assert_eq!(s.timestamp, 1_700_000_123);
    assert_eq!(s.title, "T");
    assert_eq!(s.content, "C");
    assert_eq!(s.difficulty, 12);
    assert_eq!(s.created_at, "2024-01-01 00:00:00");
    assert!(decode_post_summary(m.clone(), None).is_none());

    let comment = Comment { post_id: "abcd".to_string(), content: "nice".to_string() };
    let c = decode_comment_summary(m.clone(), Some(env(comment))).unwrap();
    assert_eq!(c.post_id, "abcd");
    assert_eq!(c.content, "nice");
    assert_eq!(c.timestamp, 1_700_000_123);
    assert!(decode_comment_summary(m, None).is_none());
}

#[test]
fn difficulty_and_status_codes() {
    let config = FilterConfig::default();
    assert_eq!(extract_difficulty(Some(16), &config), 16);
    assert_eq!(extract_difficulty(None, &config), 8);
    assert_eq!(PublishFailure::BadBencode.status_code(), 400);
    assert_eq!(PublishFailure::StoreFailed.status_code(), 500);
    assert_eq!(PublishFailure::Rejected(FilterError::InvalidPow).status_code(), 403);
    let bad = decode_envelope_hex("not_valid_hex!!!").unwrap_err();
    assert!(matches!(bad, PublishFailure::BadHex(_)));
    assert_eq!(bad.status_code(), 400);
    assert_eq!(decode_envelope_hex("aabbccdd").unwrap(), vec![0xaa, 0xbb, 0xcc, 0xdd]);
}

#[test]
fn publish_check_uses_post_difficulty_or_minimum() {
    let e = env(Vote { target_id: "x".to_string(), positive: 1 });
    let config = FilterConfig::default();
    let r = check_publish(&e, b"d", Some(4), &config);
    assert!(matches!(
        r,
        Some(Err(PublishFailure::Rejected(FilterError::InsufficientDifficulty {
            required: 8,
            actual: 4
        })))
    ));
    let r = check_publish(&e, b"d", None, &config);
    assert!(matches!(r, Some(Err(PublishFailure::Rejected(FilterError::InvalidPow)))));
    // a short hash is read once the difficulty passes
    let mut short = env(Vote { target_id: "x".to_string(), positive: 1 });
    short.pow_hash.pop();
    assert!(check_publish(&short, b"d", None, &config).is_none());
    assert!(check_publish(&short, b"d", Some(4), &config).is_some());
}

#[test]
fn network_ids() {
    let id = parse_network_id_hex(&"0f".repeat(32)).unwrap();
    assert_eq!(id, [0x0fu8; 32]);
    assert!(matches!(parse_network_id_hex("xyz"), Err(NetworkIdError::HexDecode(_))));
    assert!(matches!(parse_network_id_hex("abcd"), Err(NetworkIdError::InvalidLength(2))));
    let expected: [u8; 32] = Sha256::digest(b"actinium-cast-dev-network-v1").into();
    assert_eq!(dev_network_id(), expected);
    let h: [u8; 32] = Sha256::digest([0x0fu8; 32]).into();
    assert_eq!(mesh_info_hash(&[0x0fu8; 32]).to_vec(), h[..20].to_vec());
}

fn sync(id: i64, ty: &str, hex: &str) -> SyncMessage {
    SyncMessage {
        id,
        msg_type: ty.to_string(),
        public_key: format!("k{id}"),
        timestamp: id * 10,
        envelope_hex: hex.to_string(),
    }
}

#[test]
fn sync_batches_are_planned() {
    let batch = vec![
        sync(5, "comment", "aa"),
        sync(9, "vote", "zz"),
        sync(7, "weird", "0102"),
    ];
    let (max_id, records) = plan_sync_batch(3, batch);
    assert_eq!(max_id, 9);
    assert_eq!(records.len(), 2);
    assert_eq!(records[0].msg_type, MessageType::Comment);
    assert_eq!(records[0].public_key, "k5");
    assert_eq!(records[0].timestamp, 50);
    assert_eq!(records[0].bencode_data, vec![0xaa]);
    assert_eq!(records[1].msg_type, MessageType::Post);
    assert_eq!(records[1].bencode_data, vec![1, 2]);
    let (max_id, records) = plan_sync_batch(12, vec![sync(4, "post", "")]);
    assert_eq!(max_id, 12);
    assert_eq!(records.len(), 1);
    let (max_id, records) = plan_sync_batch(0, vec![]);
    assert_eq!((max_id, records.len()), (0, 0));
}

#[test]
fn dht_not_found_error_writes_hex() {
    match DhtError::not_found(&[0xabu8; 32], Some(b"\x01\x02")) {
        DhtError::NotFound { public_key_hex, salt } => {
            assert_eq!(public_key_hex, "ab".repeat(32));
            assert_eq!(salt.as_deref(), Some("0102"));
        }
        _ => panic!("wrong variant"),
    }
    match DhtError::not_found(&[0u8; 32], None) {
        DhtError::NotFound { salt, .. } => assert!(salt.is_none()),
        _ => panic!("wrong variant"),
    }
}

#[test]
fn bep44_signature_hex_is_the_item_signature() {
    let seed = [5u8; 32];
    let identity = Identity::from_bytes(&seed);
    let sig_hex = EnvelopeBuilder::bep44_signature_hex(&identity, b"data", 1_700_000_000);
    let expected = SigningKey::from_bytes(&seed).sign(b"3:seqi1700000000e1:v4:data").to_bytes();
    assert_eq!(sig_hex, hex::encode(expected));
    assert_eq!(sig_hex.len(), 128);
}

#[test]
fn hex_text_through_public_functions() {
    let id = Identity::from_bytes(&[0x7fu8; 32]);
    assert_eq!(id.to_hex(), "7f".repeat(32));
    assert_eq!(decode_envelope_hex("007FFF").unwrap(), vec![0x00, 0x7f, 0xff]);
    assert!(decode_envelope_hex("0").is_err());
    assert!(decode_envelope_hex("é0").is_err());
    assert_eq!(decode_envelope_hex("").unwrap(), Vec::<u8>::new());
}

#[test]
fn peers_on_own_port_are_skipped() {
    assert_eq!(peers_to_sync(&vec![3000, 3001, 3000, 4000], 3000), vec![1, 3]);
    assert!(peers_to_sync(&vec![], 3000).is_empty());
    assert_eq!(sync_start(None), 0);
    assert_eq!(sync_start(Some(42)), 42);
}

#[test]
fn encode_hex_is_lowercase() {
    assert_eq!(actinium::hex::encode_hex(&[0xAB, 0x01]), "ab01");
    assert_eq!(actinium::hex::encode_hex(&[]), "");
}
