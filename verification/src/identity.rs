//! Ed25519 identities: generation, import and export of the secret seed,
//! signing, and signature verification.

use vstd::prelude::*;
use crate::crypto::{
    ed25519_public_key, ed25519_public_key_of, ed25519_sign, ed25519_sign_with, ed25519_verify,
    ed25519_verify_with, random_ed25519_seed,
};
use crate::hex::{hex_decode, hex_decode_spec, hex_decodable, hex_encode, hex_encode_spec,
    lemma_hex_roundtrip};

verus! {

/// The error type of `ed25519_dalek` for keys and signatures.
#[verifier::external_type_specification]
#[verifier::external_body]
pub struct ExSignatureError(ed25519_dalek::SignatureError);

/// The public key type of `ed25519_dalek`.
#[verifier::external_type_specification]
#[verifier::external_body]
pub struct ExVerifyingKey(ed25519_dalek::VerifyingKey);

/// Why a secret key could not be imported.
#[derive(Debug)]
pub enum IdentityError {
    /// The text is not hex.
    HexDecode(::hex::FromHexError),
    /// The key does not have 32 bytes; holds the length found.
    InvalidKeyLength(usize),
    /// The public key is not a valid point.
    InvalidPublicKey(ed25519_dalek::SignatureError),
}

/// A 32-byte secret seed kept in `zeroize::Zeroizing`, which wipes it from
/// memory when it is dropped. (Verus refuses a declaration of `Zeroizing`
/// itself: its bound names a trait of the `zeroize` crate.)
#[verifier::external_body]
pub struct SecretSeed {
    bytes: zeroize::Zeroizing<[u8; 32]>,
}

/// The bytes a secret seed holds.
pub uninterp spec fn secret_seed_bytes(seed: SecretSeed) -> Seq<u8>;

/// Calls `zeroize::Zeroizing::new`: the seed holds the given bytes.
#[verifier::external_body]
fn zeroizing_seed(bytes: [u8; 32]) -> (r: SecretSeed)
    ensures
        secret_seed_bytes(r) == bytes@,
{
    SecretSeed { bytes: zeroize::Zeroizing::new(bytes) }
}

/// Calls `Deref::deref` of `zeroize::Zeroizing`: the bytes the seed holds.
#[verifier::external_body]
fn zeroizing_seed_ref(seed: &SecretSeed) -> (r: &[u8; 32])
    ensures
        r@ == secret_seed_bytes(*seed),
{
    &*seed.bytes
}

/// A user's Ed25519 key pair, held as its 32-byte secret seed. The seed is
/// wiped from memory when the identity is dropped.
pub struct Identity {
    secret: SecretSeed,
}

impl View for Identity {
    type V = Seq<u8>;

    /// The secret seed.
    closed spec fn view(&self) -> Seq<u8> {
        secret_seed_bytes(self.secret)
    }
}

/// The 32 bytes (`VerifyingKey::to_bytes`) of a public key object.
pub uninterp spec fn verifying_key_bytes(key: ed25519_dalek::VerifyingKey) -> Seq<u8>;

/// Calls `ed25519_dalek::SigningKey::from_bytes(seed).verifying_key()`: the
/// public key object of the seed, whose bytes are the seed's public key.
#[verifier::external_body]
fn verifying_key_of(seed: &[u8; 32]) -> (r: ed25519_dalek::VerifyingKey)
    ensures
        verifying_key_bytes(r) == ed25519_public_key(seed@),
{
    ed25519_dalek::SigningKey::from_bytes(seed).verifying_key()
}

impl Identity {
    /// A new key pair from the operating system's random source.
    pub fn generate() -> (r: Self)
        ensures
            r@.len() == 32,
    {
        let seed = random_ed25519_seed();
        let r = Identity { secret: zeroizing_seed(seed) };
        assert(r@ == seed@);
        r
    }

    /// The identity of a 32-byte secret seed.
    pub fn from_bytes(bytes: &[u8; 32]) -> (r: Self)
        ensures
            r@ == bytes@,
    {
        Identity { secret: zeroizing_seed(*bytes) }
    }

    /// The identity whose seed is the 64-digit hex text `hex_str`.
    pub fn from_hex(hex_str: &str) -> (r: Result<Self, IdentityError>)
        ensures
            r is Ok <==> hex_decodable(hex_str@) && hex_str@.len() == 64,
            r matches Ok(id) ==> Some(id@) == hex_decode_spec(hex_str@),
            r matches Err(IdentityError::HexDecode(_)) <==> !hex_decodable(hex_str@),
            r matches Err(IdentityError::InvalidKeyLength(n)) ==> hex_decodable(hex_str@) && n
                == hex_str@.len() / 2 && n != 32,
            !(r matches Err(IdentityError::InvalidPublicKey(_))),
    {
        match hex_decode(hex_str) {
            Err(e) => Err(IdentityError::HexDecode(e)),
            Ok(bytes) => {
                if bytes.len() != 32 {
                    return Err(IdentityError::InvalidKeyLength(bytes.len()));
                }
                let mut secret = [0u8; 32];
                let mut i: usize = 0;
                while i < 32
                    invariant
                        bytes@.len() == 32,
                        0 <= i <= 32,
                        secret@.len() == 32,
                        forall|k: int| 0 <= k < i ==> secret@[k] == bytes@[k],
                    decreases 32 - i,
                {
                    secret.set(i, bytes[i]);
                    i = i + 1;
                }
                assert(secret@ =~= bytes@);
                Ok(Identity { secret: zeroizing_seed(secret) })
            },
        }
    }

    /// The secret seed.
    pub fn to_bytes(&self) -> (r: [u8; 32])
        ensures
            r@ == self@,
    {
        *zeroizing_seed_ref(&self.secret)
    }

    /// The secret seed as 64 lowercase hex digits.
    pub fn to_hex(&self) -> (r: String)
        ensures
            r@ == hex_encode_spec(self@),
    {
        hex_encode(zeroizing_seed_ref(&self.secret).as_slice())
    }

    /// The public key object.
    pub fn public_key(&self) -> (r: ed25519_dalek::VerifyingKey)
        ensures
            verifying_key_bytes(r) == ed25519_public_key(self@),
    {
        verifying_key_of(zeroizing_seed_ref(&self.secret))
    }

    /// The public key as 32 bytes.
    pub fn public_key_bytes(&self) -> (r: [u8; 32])
        ensures
            r@ == ed25519_public_key(self@),
    {
        ed25519_public_key_of(zeroizing_seed_ref(&self.secret))
    }

    /// The public key as 64 lowercase hex digits.
    pub fn public_key_hex(&self) -> (r: String)
        ensures
            r@ == hex_encode_spec(ed25519_public_key(self@)),
    {
        let pk = ed25519_public_key_of(zeroizing_seed_ref(&self.secret));
        hex_encode(pk.as_slice())
    }

    /// Signs a message; the signature verifies under this identity's public key.
    pub fn sign(&self, message: &[u8]) -> (r: [u8; 64])
        ensures
            r@ == ed25519_sign(self@, message@),
            ed25519_verify(ed25519_public_key(self@), message@, r@),
    {
        ed25519_sign_with(zeroizing_seed_ref(&self.secret), message)
    }
}

/// Whether `signature_bytes` is a valid signature of `message` under the
/// public key; `false` also when the key is not a valid point.
pub fn verify_signature(
    public_key_bytes: &[u8; 32],
    message: &[u8],
    signature_bytes: &[u8; 64],
) -> (r: bool)
    ensures
        r == ed25519_verify(public_key_bytes@, message@, signature_bytes@),
{
    ed25519_verify_with(public_key_bytes, message, signature_bytes)
}

/// Exporting a seed as hex and importing the text gives back the same seed,
/// hence the same public key.
pub proof fn lemma_hex_export_import(seed: Seq<u8>)
    requires
        seed.len() == 32,
    ensures
        hex_decodable(hex_encode_spec(seed)),
        hex_encode_spec(seed).len() == 64,
        hex_decode_spec(hex_encode_spec(seed)) == Some(seed),
{
    lemma_hex_roundtrip(seed);
}

} // verus!
