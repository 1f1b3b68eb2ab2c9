//! Signing with an Ed25519 key pair.
//!
//! Keys are held as the bytes they are stored as: the 32-byte seed of the
//! secret key, and the 32-byte encoding of the public key.

use vstd::prelude::*;
use ed25519_dalek::{Signer, Verifier};
use crate::bytes::to_array;
use crate::capability::{KeyGenerator, KeyLoader, TextSign, TextVerify};
use crate::error::TextError;

verus! {

/// Length in bytes of the seed of a secret key.
pub const ED25519_SECRET_LEN: usize = 32;

/// Length in bytes of an encoded public key.
pub const ED25519_PUBLIC_LEN: usize = 32;

/// Length in bytes of a signature.
pub const ED25519_SIGNATURE_LEN: usize = 64;

/// The error of the Ed25519 implementation. It says nothing of its cause.
#[verifier::external_type_specification]
#[verifier::external_body]
pub struct ExSignatureError(ed25519_dalek::SignatureError);

/// The Ed25519 signature of `data` under the secret key with seed `secret`.
pub uninterp spec fn ed25519_signature(secret: Seq<u8>, data: Seq<u8>) -> Seq<u8>;

/// The encoded public key that belongs to the secret key with seed `secret`.
pub uninterp spec fn ed25519_public_key(secret: Seq<u8>) -> Seq<u8>;

/// Whether the 32 bytes `public` encode a point that can serve as a public key.
pub uninterp spec fn ed25519_is_key(public: Seq<u8>) -> bool;

/// Whether `sig` is accepted as a signature of `data` under the public key
/// that `public` encodes. Bytes that encode no key accept nothing.
pub uninterp spec fn ed25519_verifies(public: Seq<u8>, data: Seq<u8>, sig: Seq<u8>) -> bool;

/// Calls `SigningKey::from_bytes`, then `Signer::sign` of `ed25519_dalek`,
/// and copies the signature out with `Signature::to_vec`.
///
/// Trusted: signing is deterministic, so the signature is a function of seed
/// and data; it is 64 bytes long; and, as the crate's documentation shows on
/// its first page, the public half of the same key verifies it.
#[verifier::external_body]
fn ed25519_sign(secret: &[u8; 32], data: &[u8]) -> (sig: Vec<u8>)
    ensures
        sig@ == ed25519_signature(secret@, data@),
        sig@.len() == ED25519_SIGNATURE_LEN,
        ed25519_verifies(ed25519_public_key(secret@), data@, sig@),
{
    ed25519_dalek::SigningKey::from_bytes(secret).sign(data).to_vec()
}

/// Calls `SigningKey::from_bytes`, then `SigningKey::verifying_key` and
/// `VerifyingKey::to_bytes` of `ed25519_dalek`.
///
/// Trusted: the public key is a function of the seed, and its encoding is
/// one that `VerifyingKey::from_bytes` reads back.
#[verifier::external_body]
fn ed25519_derive_public(secret: &[u8; 32]) -> (public: [u8; 32])
    ensures
        public@ == ed25519_public_key(secret@),
        ed25519_is_key(public@),
{
    ed25519_dalek::SigningKey::from_bytes(secret).verifying_key().to_bytes()
}

/// Calls `SigningKey::generate` of `ed25519_dalek` on the operating system's
/// random source and returns the seed with `SigningKey::to_bytes`.
///
/// Nothing is claimed of the seed: each call draws another.
#[verifier::external_body]
fn ed25519_fresh_secret() -> (secret: [u8; 32]) {
    ed25519_dalek::SigningKey::generate(&mut rand::rngs::OsRng).to_bytes()
}

/// Calls `VerifyingKey::from_bytes` of `ed25519_dalek` and drops the key.
///
/// Trusted: it succeeds exactly on the encodings of usable public keys.
#[verifier::external_body]
fn ed25519_check_public(public: &[u8; 32]) -> (r: Result<(), ed25519_dalek::SignatureError>)
    ensures
        r is Ok <==> ed25519_is_key(public@),
{
    ed25519_dalek::VerifyingKey::from_bytes(public).map(|_| ())
}

/// Calls `VerifyingKey::from_bytes`, `Signature::from_bytes` and then
/// `Verifier::verify` of `ed25519_dalek`.
///
/// Trusted: whether a signature is accepted depends on key, data and
/// signature alone.
#[verifier::external_body]
fn ed25519_verify(public: &[u8; 32], data: &[u8], sig: &[u8; 64]) -> (r: Result<
    (),
    ed25519_dalek::SignatureError,
>)
    ensures
        r is Ok <==> ed25519_verifies(public@, data@, sig@),
{
    let key = ed25519_dalek::VerifyingKey::from_bytes(public)?;
    key.verify(data, &ed25519_dalek::Signature::from_bytes(sig))
}

/// A signer that holds the seed of an Ed25519 secret key.
pub struct Ed25519Signer {
    key: [u8; 32],
}

/// A verifier that holds an encoded Ed25519 public key.
pub struct Ed25519Verifier {
    key: [u8; 32],
}

impl Ed25519Signer {
    /// The seed of the secret key.
    pub closed spec fn key(&self) -> Seq<u8> {
        self.key@
    }

    /// Takes `key` as the seed.
    pub fn new(key: [u8; 32]) -> (signer: Self)
        ensures
            signer.key() == key@,
    {
        Self { key }
    }

    /// Takes `key` as the seed where it has exactly 32 bytes.
    pub fn try_new(key: &[u8]) -> (r: Result<Self, TextError>)
        ensures
            key@.len() == ED25519_SECRET_LEN ==> (r matches Ok(signer) && signer.key() == key@),
            key@.len() != ED25519_SECRET_LEN ==> (r matches Err(e) && e == TextError::Format),
    {
        if key.len() != ED25519_SECRET_LEN {
            return Err(TextError::Format);
        }
        Ok(Self::new(to_array::<32>(key)))
    }
}

impl Ed25519Verifier {
    /// The encoded public key.
    pub closed spec fn key(&self) -> Seq<u8> {
        self.key@
    }

    /// A verifier holds the encoding of a usable public key, never other bytes.
    #[verifier::type_invariant]
    spec fn holds_a_key(self) -> bool {
        ed25519_is_key(self.key@)
    }

    /// Takes the encoding of a usable public key.
    pub fn new(key: [u8; 32]) -> (verifier: Self)
        requires
            ed25519_is_key(key@),
        ensures
            verifier.key() == key@,
    {
        Self { key }
    }

    /// Takes `key` as the public key where it has exactly 32 bytes and
    /// encodes a usable one.
    pub fn try_new(key: &[u8]) -> (r: Result<Self, TextError>)
        ensures
            match <Self as KeyLoader>::parse(key@) {
                Some(public) => r matches Ok(verifier) && verifier.key() == public,
                None => r matches Err(e) && e == TextError::Format,
            },
    {
        if key.len() != ED25519_PUBLIC_LEN {
            return Err(TextError::Format);
        }
        let public = to_array::<32>(key);
        match ed25519_check_public(&public) {
            Ok(()) => Ok(Self::new(public)),
            Err(_) => Err(TextError::Format),
        }
    }
}

impl TextSign for Ed25519Signer {
    open spec fn signature(&self, data: Seq<u8>) -> Seq<u8> {
        ed25519_signature(self.key(), data)
    }

    /// The signature has 64 bytes. Round trip: it is one that the public
    /// key of this secret key accepts for the data.
    fn sign(&self, data: &[u8]) -> (r: Result<Vec<u8>, TextError>)
        ensures
            r matches Ok(sig) && sig@ == ed25519_signature(self.key(), data@) && sig@.len()
                == ED25519_SIGNATURE_LEN && ed25519_verifies(
                ed25519_public_key(self.key()),
                data@,
                sig@,
            ),
    {
        Ok(ed25519_sign(&self.key, data))
    }
}

impl KeyLoader for Ed25519Signer {
    open spec fn parse(source: Seq<u8>) -> Option<Seq<u8>> {
        if source.len() == ED25519_SECRET_LEN {
            Some(source)
        } else {
            None
        }
    }

    open spec fn material(&self) -> Seq<u8> {
        self.key()
    }

    /// Takes `source` as the seed where it has exactly 32 bytes.
    fn load(source: &[u8]) -> (r: Result<Self, TextError>)
        ensures
            source@.len() == ED25519_SECRET_LEN ==> (r matches Ok(loaded) && loaded.key()
                == source@),
            source@.len() != ED25519_SECRET_LEN ==> (r matches Err(e) && e == TextError::Format),
    {
        Self::try_new(source)
    }
}

impl KeyGenerator for Ed25519Signer {
    /// Two blocks of 32 bytes: a seed, and the public key that belongs to it.
    open spec fn generated(keys: Seq<Seq<u8>>) -> bool {
        &&& keys.len() == 2
        &&& keys[0].len() == ED25519_SECRET_LEN
        &&& keys[1].len() == ED25519_PUBLIC_LEN
        &&& keys[1] == ed25519_public_key(keys[0])
        &&& ed25519_is_key(keys[1])
    }

    /// Draws a seed and derives the public key from it.
    fn generate() -> (r: Result<Vec<Vec<u8>>, TextError>)
        ensures
            r matches Ok(keys) && keys@.len() == 2 && keys@[0]@.len() == ED25519_SECRET_LEN
                && keys@[1]@ == ed25519_public_key(keys@[0]@) && ed25519_is_key(keys@[1]@),
    {
        let secret = ed25519_fresh_secret();
        let public = ed25519_derive_public(&secret);
        let mut keys: Vec<Vec<u8>> = Vec::new();
        keys.push(vstd::slice::slice_to_vec(secret.as_slice()));
        keys.push(vstd::slice::slice_to_vec(public.as_slice()));
        proof {
            assert(keys.deep_view()[0] =~= secret@);
            assert(keys.deep_view()[1] =~= public@);
        }
        Ok(keys)
    }
}

impl TextVerify for Ed25519Verifier {
    /// A signature has exactly 64 bytes.
    open spec fn well_formed(&self, sig: Seq<u8>) -> bool {
        sig.len() == ED25519_SIGNATURE_LEN
    }

    open spec fn accepts(&self, data: Seq<u8>, sig: Seq<u8>) -> bool {
        ed25519_verifies(self.key(), data, sig)
    }

    /// Refuses a signature that has not 64 bytes before anything is
    /// verified; answers for any other whether the key accepts it.
    fn verify(&self, data: &[u8], sig: &[u8]) -> (r: Result<bool, TextError>)
        ensures
            sig@.len() == ED25519_SIGNATURE_LEN ==> r == Ok::<bool, TextError>(
                ed25519_verifies(self.key(), data@, sig@),
            ),
            sig@.len() != ED25519_SIGNATURE_LEN ==> r == Err::<bool, TextError>(TextError::Format),
    {
        if sig.len() != ED25519_SIGNATURE_LEN {
            return Err(TextError::Format);
        }
        let sig = to_array::<64>(sig);
        match ed25519_verify(&self.key, data, &sig) {
            Ok(()) => Ok(true),
            Err(_) => Ok(false),
        }
    }
}

impl KeyLoader for Ed25519Verifier {
    open spec fn parse(source: Seq<u8>) -> Option<Seq<u8>> {
        if source.len() == ED25519_PUBLIC_LEN && ed25519_is_key(source) {
            Some(source)
        } else {
            None
        }
    }

    open spec fn material(&self) -> Seq<u8> {
        self.key()
    }

    /// Takes `source` as the public key where it has exactly 32 bytes and
    /// encodes a usable one.
    fn load(source: &[u8]) -> (r: Result<Self, TextError>)
        ensures
            source@.len() == ED25519_PUBLIC_LEN && ed25519_is_key(source@) ==> (r matches Ok(
                loaded,
            ) && loaded.key() == source@),
            !(source@.len() == ED25519_PUBLIC_LEN && ed25519_is_key(source@)) ==> (r matches Err(
                e,
            ) && e == TextError::Format),
    {
        Self::try_new(source)
    }
}

/// A pair that was generated loads, each half as it is: the first block
/// as a signer, the second as a verifier.
pub proof fn lemma_generated_pair_loads(keys: Seq<Seq<u8>>)
    requires
        <Ed25519Signer as KeyGenerator>::generated(keys),
    ensures
        <Ed25519Signer as KeyLoader>::parse(keys[0]) == Some(keys[0]),
        <Ed25519Verifier as KeyLoader>::parse(keys[1]) == Some(keys[1]),
        keys[1] == ed25519_public_key(keys[0]),
{
}

} // verus!
