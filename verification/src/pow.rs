//! Hashcash-style proof of work over SHA-256.
//!
//! `hash = SHA-256(prefix || nonce as 8 little-endian bytes)`; a nonce solves
//! a challenge of difficulty `d` when the first `d` bits of `hash` (most
//! significant bit of the first byte first) are all zero.

use vstd::prelude::*;
use vstd::bytes::{spec_u64_to_le_bytes, u64_to_le_bytes};
use vstd::slice::slice_to_vec;
use crate::crypto::{sha256, sha256_digest};

verus! {

/// The bytes that are hashed for a nonce.
pub open spec fn pow_input(prefix: Seq<u8>, nonce: u64) -> Seq<u8> {
    prefix + spec_u64_to_le_bytes(nonce)
}

/// The digest of a nonce under a prefix.
pub open spec fn pow_digest(prefix: Seq<u8>, nonce: u64) -> Seq<u8> {
    sha256(pow_input(prefix, nonce))
}

/// Bit `j` (0 = most significant) of a byte.
pub open spec fn byte_bit(b: u8, j: int) -> u8 {
    (b >> ((7 - j) as u8)) & 1u8
}

/// Bit `i` of a byte string, counting from the most significant bit of the
/// first byte.
pub open spec fn hash_bit(hash: Seq<u8>, i: int) -> u8 {
    byte_bit(hash[i / 8], i % 8)
}

/// The first `difficulty` bits of `hash` are zero.
pub open spec fn has_leading_zero_bits(hash: Seq<u8>, difficulty: u8) -> bool {
    forall|i: int| 0 <= i < difficulty ==> #[trigger] hash_bit(hash, i) == 0
}

/// A proof-of-work challenge.
///
/// `prefix` binds the work to its content; the gateway uses
/// `public_key (32 bytes) || timestamp (8 little-endian bytes)`.
#[derive(Debug, Clone)]
pub struct PowChallenge {
    /// The challenge prefix.
    pub prefix: Vec<u8>,
    /// The number of leading zero bits the hash must have.
    pub difficulty: u8,
}

/// A nonce together with the hash it gives.
#[derive(Debug, Clone, PartialEq, Eq)]
pub struct PowSolution {
    pub nonce: u64,
    pub hash: [u8; 32],
}

/// Why a challenge could not be solved.
#[derive(Debug, Clone, Copy, PartialEq, Eq)]
pub enum PowError {
    /// No nonce in the whole `u64` range gives a hash of the difficulty.
    NonceExhausted,
}

proof fn lemma_zero_byte_bits(j: int)
    requires
        0 <= j < 8,
    ensures
        byte_bit(0u8, j) == 0,
{
    let s = (7 - j) as u8;
    assert((0u8 >> s) & 1u8 == 0u8) by (bit_vector);
}

/// A non-zero byte has a set bit.
proof fn lemma_nonzero_byte_has_bit(b: u8) -> (j: int)
    requires
        b != 0,
    ensures
        0 <= j < 8,
        byte_bit(b, j) != 0,
{
    assert(b != 0 ==> ((b >> 7u8) & 1u8 != 0 || (b >> 6u8) & 1u8 != 0 || (b >> 5u8) & 1u8 != 0
        || (b >> 4u8) & 1u8 != 0 || (b >> 3u8) & 1u8 != 0 || (b >> 2u8) & 1u8 != 0
        || (b >> 1u8) & 1u8 != 0 || (b >> 0u8) & 1u8 != 0)) by (bit_vector);
    if (b >> 7u8) & 1u8 != 0 {
        0
    } else if (b >> 6u8) & 1u8 != 0 {
        1
    } else if (b >> 5u8) & 1u8 != 0 {
        2
    } else if (b >> 4u8) & 1u8 != 0 {
        3
    } else if (b >> 3u8) & 1u8 != 0 {
        4
    } else if (b >> 2u8) & 1u8 != 0 {
        5
    } else if (b >> 1u8) & 1u8 != 0 {
        6
    } else {
        7
    }
}

/// The mask of the top `r` bits selects exactly the bits `0..r`.
proof fn lemma_top_bits_mask(b: u8, r: u8)
    requires
        1 <= r <= 7,
    ensures
        ((b & (0xFFu8 << ((8 - r) as u8))) == 0) <==> (forall|j: int|
            0 <= j < r ==> #[trigger] byte_bit(b, j) == 0),
{
    let s = (8 - r) as u8;
    assert(((b & (0xFFu8 << s)) == 0) <==> ((b >> 7u8) & 1u8 == 0 && (r < 2 || (b >> 6u8) & 1u8
        == 0) && (r < 3 || (b >> 5u8) & 1u8 == 0) && (r < 4 || (b >> 4u8) & 1u8 == 0) && (r < 5
        || (b >> 3u8) & 1u8 == 0) && (r < 6 || (b >> 2u8) & 1u8 == 0) && (r < 7 || (b >> 1u8)
        & 1u8 == 0))) by (bit_vector)
        requires
            1 <= r <= 7,
            s == 8 - r,
    ;
    if (b & (0xFFu8 << s)) == 0 {
        assert forall|j: int| 0 <= j < r implies #[trigger] byte_bit(b, j) == 0 by {
            if j == 0 {} else if j == 1 {} else if j == 2 {} else if j == 3 {}
            else if j == 4 {} else if j == 5 {} else {}
        }
    } else {
        if forall|j: int| 0 <= j < r ==> #[trigger] byte_bit(b, j) == 0 {
            assert(byte_bit(b, 0) == 0);
            assert(r >= 2 ==> byte_bit(b, 1) == 0);
            assert(r >= 3 ==> byte_bit(b, 2) == 0);
            assert(r >= 4 ==> byte_bit(b, 3) == 0);
            assert(r >= 5 ==> byte_bit(b, 4) == 0);
            assert(r >= 6 ==> byte_bit(b, 5) == 0);
            assert(r >= 7 ==> byte_bit(b, 6) == 0);
        }
    }
}

/// Whether two byte strings are equal.
pub fn bytes_equal(a: &[u8], b: &[u8]) -> (r: bool)
    ensures
        r == (a@ == b@),
{
    if a.len() != b.len() {
        return false;
    }
    let mut i: usize = 0;
    while i < a.len()
        invariant
            a@.len() == b@.len(),
            0 <= i <= a@.len(),
            forall|k: int| 0 <= k < i ==> a@[k] == b@[k],
        decreases a@.len() - i,
    {
        if a[i] != b[i] {
            return false;
        }
        i = i + 1;
    }
    assert(a@ =~= b@);
    true
}

impl PowChallenge {
    /// Whether a solution's hash is the digest of its nonce and has the
    /// required leading zero bits.
    pub open spec fn accepts(&self, solution: PowSolution) -> bool {
        &&& solution.hash@ == pow_digest(self.prefix@, solution.nonce)
        &&& has_leading_zero_bits(solution.hash@, self.difficulty)
    }

    /// Builds a challenge.
    pub fn new(prefix: Vec<u8>, difficulty: u8) -> (r: Self)
        ensures
            r.prefix@ == prefix@,
            r.difficulty == difficulty,
    {
        PowChallenge { prefix, difficulty }
    }

    /// Tries nonces `0, 1, 2, ...` and returns the first whose hash has the
    /// required leading zero bits.
    pub fn solve(&self) -> (r: Result<PowSolution, PowError>)
        ensures
            r matches Ok(sol) ==> {
                &&& self.accepts(sol)
                &&& forall|n: u64|
                    n < sol.nonce ==> !has_leading_zero_bits(
                        #[trigger] pow_digest(self.prefix@, n),
                        self.difficulty,
                    )
            },
            r is Err ==> forall|n: u64|
                !has_leading_zero_bits(#[trigger] pow_digest(self.prefix@, n), self.difficulty),
    {
        let mut nonce: u64 = 0;
        loop
            invariant
                forall|n: u64|
                    n < nonce ==> !has_leading_zero_bits(
                        #[trigger] pow_digest(self.prefix@, n),
                        self.difficulty,
                    ),
            decreases u64::MAX - nonce,
        {
            let hash = self.compute_hash(nonce);
            if self.meets_difficulty(&hash) {
                return Ok(PowSolution { nonce, hash });
            }
            if nonce == u64::MAX {
                return Err(PowError::NonceExhausted);
            }
            nonce = nonce + 1;
        }
    }

    /// Checks a solution with a single hash computation.
    pub fn verify(&self, solution: &PowSolution) -> (r: bool)
        ensures
            r == self.accepts(*solution),
    {
        let expected_hash = self.compute_hash(solution.nonce);
        bytes_equal(expected_hash.as_slice(), solution.hash.as_slice())
            && self.meets_difficulty(&solution.hash)
    }

    /// `SHA-256(prefix || nonce_le_bytes)`.
    fn compute_hash(&self, nonce: u64) -> (r: [u8; 32])
        ensures
            r@ == pow_digest(self.prefix@, nonce),
    {
        let mut data = slice_to_vec(self.prefix.as_slice());
        let mut le = u64_to_le_bytes(nonce);
        data.append(&mut le);
        sha256_digest(data.as_slice())
    }

    /// Whether the first `difficulty` bits of `hash` are zero; the prefix
    /// plays no part.
    pub fn meets_difficulty(&self, hash: &[u8; 32]) -> (r: bool)
        ensures
            r == has_leading_zero_bits(hash@, self.difficulty),
    {
        let full_bytes = (self.difficulty / 8) as usize;
        let remainder_bits = self.difficulty % 8;
        let ghost d = self.difficulty;
        assert(hash@.len() == 32);

        let mut k: usize = 0;
        while k < full_bytes
            invariant
                d == self.difficulty,
                full_bytes == d / 8,
                full_bytes <= 31,
                hash@.len() == 32,
                0 <= k <= full_bytes,
                forall|m: int| 0 <= m < k ==> hash@[m] == 0,
            decreases full_bytes - k,
        {
            if hash[k] != 0 {
                proof {
                    let j = lemma_nonzero_byte_has_bit(hash@[k as int]);
                    let i = 8 * k + j;
                    assert(i / 8 == k);
                    assert(i % 8 == j);
                    assert(hash_bit(hash@, i) != 0);
                }
                return false;
            }
            k = k + 1;
        }

        if remainder_bits > 0 {
            let mask = 0xFFu8 << (8 - remainder_bits);
            if hash[full_bytes] & mask != 0 {
                proof {
                    lemma_top_bits_mask(hash@[full_bytes as int], remainder_bits);
                    let j = choose|j: int|
                        0 <= j < remainder_bits && #[trigger] byte_bit(hash@[full_bytes as int], j)
                            != 0;
                    let i = 8 * full_bytes + j;
                    assert(i / 8 == full_bytes);
                    assert(i % 8 == j);
                    assert(hash_bit(hash@, i) != 0);
                }
                return false;
            }
            proof {
                lemma_top_bits_mask(hash@[full_bytes as int], remainder_bits);
            }
        }
        assert forall|i: int| 0 <= i < d implies #[trigger] hash_bit(hash@, i) == 0 by {
            if i / 8 < full_bytes {
                lemma_zero_byte_bits(i % 8);
            } else {
                assert(i / 8 == full_bytes);
                assert(i % 8 < remainder_bits);
            }
        }
        true
    }
}

/// A hash with `d` leading zero bits has every smaller number of them, so a
/// solution at one difficulty solves every lower one.
pub proof fn lemma_leading_zero_bits_monotone(hash: Seq<u8>, d: u8, e: u8)
    requires
        e <= d,
        has_leading_zero_bits(hash, d),
    ensures
        has_leading_zero_bits(hash, e),
{
}

/// A difficulty of `8 * k` bits means exactly that the first `k` bytes of the
/// hash are zero: difficulty 8 is a zero first byte, 16 two zero bytes.
pub proof fn lemma_byte_aligned_difficulty(hash: Seq<u8>, k: u8)
    requires
        hash.len() == 32,
        k <= 31,
    ensures
        has_leading_zero_bits(hash, (8 * k) as u8) <==> (forall|j: int|
            0 <= j < k ==> #[trigger] hash[j] == 0),
{
    let d = (8 * k) as u8;
    if has_leading_zero_bits(hash, d) {
        assert forall|j: int| 0 <= j < k implies #[trigger] hash[j] == 0 by {
            if hash[j] != 0 {
                let b = lemma_nonzero_byte_has_bit(hash[j]);
                let i = 8 * j + b;
                assert(i / 8 == j);
                assert(i % 8 == b);
                assert(hash_bit(hash, i) != 0);
            }
        }
    }
    if forall|j: int| 0 <= j < k ==> #[trigger] hash[j] == 0 {
        assert forall|i: int| 0 <= i < d implies #[trigger] hash_bit(hash, i) == 0 by {
            assert(0 <= i / 8 < k);
            assert(hash[i / 8] == 0);
            lemma_zero_byte_bits(i % 8);
        }
    }
}

/// Builds a challenge and solves it.
pub fn solve_pow(prefix: Vec<u8>, difficulty: u8) -> (r: Result<PowSolution, PowError>)
    ensures
        r matches Ok(sol) ==> {
            &&& sol.hash@ == pow_digest(prefix@, sol.nonce)
            &&& has_leading_zero_bits(sol.hash@, difficulty)
            &&& forall|n: u64|
                n < sol.nonce ==> !has_leading_zero_bits(
                    #[trigger] pow_digest(prefix@, n),
                    difficulty,
                )
        },
        r is Err ==> forall|n: u64|
            !has_leading_zero_bits(#[trigger] pow_digest(prefix@, n), difficulty),
{
    PowChallenge::new(prefix, difficulty).solve()
}

} // verus!
