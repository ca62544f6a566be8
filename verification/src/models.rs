//! The message payloads and the signed envelope that carries them.
//!
//! An envelope holds `[payload, timestamp, pow_nonce, pow_hash, public_key,
//! signature]`. The signature covers
//! `bencode(payload) || timestamp_le8 || pow_nonce_le8 || public_key`.
//! The bencode text of a payload is produced outside this library; here it is
//! framed into the bytes that are signed.

use vstd::prelude::*;
use vstd::bytes::{
    lemma_auto_spec_u64_to_from_le_bytes, spec_u64_from_le_bytes, spec_u64_to_le_bytes,
    u64_to_le_bytes,
};
use vstd::slice::slice_to_vec;

verus! {

/// A post.
#[derive(Debug, Clone, PartialEq)]
pub struct Post {
    /// The title.
    pub title: String,
    /// The body (Markdown).
    pub content: String,
    /// The proof-of-work difficulty the author committed to.
    pub difficulty: u8,
}

/// A comment on a post.
#[derive(Debug, Clone, PartialEq)]
pub struct Comment {
    /// The hex public key of the post's author, which addresses the post.
    pub post_id: String,
    /// The comment text.
    pub content: String,
}

/// A like (`positive == 1`) or an unlike (`positive == 0`).
///
/// `positive` is a `u8` because bencode has no boolean type.
#[derive(Debug, Clone, PartialEq)]
pub struct Vote {
    /// The hex public key of the post or comment voted on.
    pub target_id: String,
    /// `1` for a like, `0` for an unlike.
    pub positive: u8,
}

impl Vote {
    /// Whether the vote is a like: any non-zero `positive`.
    pub fn is_positive(&self) -> (r: bool)
        ensures
            r == (self.positive != 0),
    {
        self.positive != 0
    }
}

/// The little-endian bytes of a timestamp (two's complement).
pub open spec fn timestamp_le_bytes(timestamp: i64) -> Seq<u8> {
    spec_u64_to_le_bytes(timestamp as u64)
}

/// The bytes an envelope's signature covers.
pub open spec fn signing_message(
    payload_bencode: Seq<u8>,
    timestamp: i64,
    pow_nonce: u64,
    public_key: Seq<u8>,
) -> Seq<u8> {
    payload_bencode + timestamp_le_bytes(timestamp) + spec_u64_to_le_bytes(pow_nonce) + public_key
}

/// The signed bytes lay out, in order and unchanged: the payload's bencode,
/// the timestamp and the nonce as 8 little-endian bytes each (read back as
/// the same numbers), and the public key as given.
pub proof fn lemma_signing_message_layout(
    payload_bencode: Seq<u8>,
    timestamp: i64,
    pow_nonce: u64,
    public_key: Seq<u8>,
)
    ensures
        ({
            let m = signing_message(payload_bencode, timestamp, pow_nonce, public_key);
            let p = payload_bencode.len() as int;
            &&& m.len() == p + 16 + public_key.len()
            &&& m.subrange(0, p) == payload_bencode
            &&& spec_u64_from_le_bytes(m.subrange(p, p + 8)) == timestamp as u64
            &&& spec_u64_from_le_bytes(m.subrange(p + 8, p + 16)) == pow_nonce
            &&& m.subrange(p + 16, m.len() as int) == public_key
            &&& forall|k: int|
                0 <= k < public_key.len() ==> #[trigger] m[p + 16 + k] == public_key[k]
        }),
{
    lemma_auto_spec_u64_to_from_le_bytes();
    let m = signing_message(payload_bencode, timestamp, pow_nonce, public_key);
    let p = payload_bencode.len() as int;
    let t = spec_u64_to_le_bytes(timestamp as u64);
    let n = spec_u64_to_le_bytes(pow_nonce);
    assert(t.len() == 8);
    assert(n.len() == 8);
    assert(m.subrange(0, p) =~= payload_bencode);
    assert(m.subrange(p, p + 8) =~= t);
    assert(m.subrange(p + 8, p + 16) =~= n);
    assert(m.subrange(p + 16, m.len() as int) =~= public_key);
}

/// A payload with its timestamp, proof of work, author key and signature.
///
/// The fixed-size fields are kept as `Vec<u8>` for the wire format; a
/// well-formed envelope has a 32-byte hash, a 32-byte key and a 64-byte
/// signature.
#[derive(Debug, Clone, PartialEq)]
pub struct SignedEnvelope<T> {
    /// The payload (a post, a comment or a vote).
    pub payload: T,
    /// Unix time in seconds.
    pub timestamp: i64,
    /// The proof-of-work nonce.
    pub pow_nonce: u64,
    /// The proof-of-work hash (32 bytes).
    pub pow_hash: Vec<u8>,
    /// The author's Ed25519 public key (32 bytes).
    pub public_key: Vec<u8>,
    /// The Ed25519 signature (64 bytes).
    pub signature: Vec<u8>,
}

/// Copies a fixed-size array into a vector.
fn array_to_vec<const N: usize>(a: &[u8; N]) -> (r: Vec<u8>)
    ensures
        r@ == a@,
{
    slice_to_vec(a.as_slice())
}

/// Copies a 32-byte vector into an array.
fn vec_to_array32(v: &Vec<u8>) -> (r: [u8; 32])
    requires
        v@.len() == 32,
    ensures
        r@ == v@,
{
    let mut a = [0u8; 32];
    let mut i: usize = 0;
    while i < 32
        invariant
            v@.len() == 32,
            0 <= i <= 32,
            a@.len() == 32,
            forall|k: int| 0 <= k < i ==> a@[k] == v@[k],
        decreases 32 - i,
    {
        a.set(i, v[i]);
        i = i + 1;
    }
    assert(a@ =~= v@);
    a
}

/// Copies a 64-byte vector into an array.
fn vec_to_array64(v: &Vec<u8>) -> (r: [u8; 64])
    requires
        v@.len() == 64,
    ensures
        r@ == v@,
{
    let mut a = [0u8; 64];
    let mut i: usize = 0;
    while i < 64
        invariant
            v@.len() == 64,
            0 <= i <= 64,
            a@.len() == 64,
            forall|k: int| 0 <= k < i ==> a@[k] == v@[k],
        decreases 64 - i,
    {
        a.set(i, v[i]);
        i = i + 1;
    }
    assert(a@ =~= v@);
    a
}

impl<T> SignedEnvelope<T> {
    /// The fixed-size fields have their sizes.
    pub open spec fn well_formed(&self) -> bool {
        &&& self.pow_hash@.len() == 32
        &&& self.public_key@.len() == 32
        &&& self.signature@.len() == 64
    }

    /// Builds an envelope from fixed-size arrays.
    pub fn new(
        payload: T,
        timestamp: i64,
        pow_nonce: u64,
        pow_hash: [u8; 32],
        public_key: [u8; 32],
        signature: [u8; 64],
    ) -> (r: Self)
        ensures
            r.payload == payload,
            r.timestamp == timestamp,
            r.pow_nonce == pow_nonce,
            r.pow_hash@ == pow_hash@,
            r.public_key@ == public_key@,
            r.signature@ == signature@,
            r.well_formed(),
    {
        SignedEnvelope {
            payload,
            timestamp,
            pow_nonce,
            pow_hash: array_to_vec(&pow_hash),
            public_key: array_to_vec(&public_key),
            signature: array_to_vec(&signature),
        }
    }

    /// The proof-of-work hash as an array.
    pub fn pow_hash_array(&self) -> (r: [u8; 32])
        requires
            self.pow_hash@.len() == 32,
        ensures
            r@ == self.pow_hash@,
    {
        vec_to_array32(&self.pow_hash)
    }

    /// The public key as an array.
    pub fn public_key_array(&self) -> (r: [u8; 32])
        requires
            self.public_key@.len() == 32,
        ensures
            r@ == self.public_key@,
    {
        vec_to_array32(&self.public_key)
    }

    /// The signature as an array.
    pub fn signature_array(&self) -> (r: [u8; 64])
        requires
            self.signature@.len() == 64,
        ensures
            r@ == self.signature@,
    {
        vec_to_array64(&self.signature)
    }

    /// The bytes a signature covers:
    /// `payload_bencode || timestamp_le8 || pow_nonce_le8 || public_key`.
    pub fn signing_bytes(
        payload_bencode: &[u8],
        timestamp: i64,
        pow_nonce: u64,
        public_key: &[u8; 32],
    ) -> (r: Vec<u8>)
        ensures
            r@ == signing_message(payload_bencode@, timestamp, pow_nonce, public_key@),
            r@.len() == payload_bencode@.len() + 48,
            r@.subrange(0, payload_bencode@.len() as int) == payload_bencode@,
            spec_u64_from_le_bytes(
                r@.subrange(payload_bencode@.len() as int, payload_bencode@.len() + 8int),
            ) == timestamp as u64,
            spec_u64_from_le_bytes(
                r@.subrange(payload_bencode@.len() + 8int, payload_bencode@.len() + 16int),
            ) == pow_nonce,
            r@.subrange(payload_bencode@.len() + 16int, r@.len() as int) == public_key@,
    {
        proof {
            lemma_signing_message_layout(payload_bencode@, timestamp, pow_nonce, public_key@);
        }
        let mut bytes = slice_to_vec(payload_bencode);
        let mut ts = u64_to_le_bytes(timestamp as u64);
        let mut nonce = u64_to_le_bytes(pow_nonce);
        let mut key = array_to_vec(public_key);
        bytes.append(&mut ts);
        bytes.append(&mut nonce);
        bytes.append(&mut key);
        bytes
    }
}

} // verus!
