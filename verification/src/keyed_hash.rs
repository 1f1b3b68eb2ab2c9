//! Signing with a keyed hash.

use vstd::prelude::*;
use vstd::slice::{slice_subrange, slice_to_vec};
use crate::bytes::{bytes_equal, to_array};
use crate::capability::{KeyGenerator, KeyLoader, TextSign, TextVerify};
use crate::genpass::{ascii_bytes, is_password, process_genpass};
use crate::error::TextError;

verus! {

/// Length in bytes of a key of the keyed hash.
pub const BLAKE3_KEY_LEN: usize = 32;

/// Length in bytes of a digest of the keyed hash.
pub const BLAKE3_OUT_LEN: usize = 32;

/// The digest that BLAKE3 in keyed mode gives to `data` under the 32-byte `key`.
pub uninterp spec fn blake3_keyed_hash(key: Seq<u8>, data: Seq<u8>) -> Seq<u8>;

/// Calls `blake3::keyed_hash` and copies the digest out of `Hash::as_bytes`.
///
/// Trusted: the result is the keyed BLAKE3 digest of `data`, a function of
/// key and data alone, and it is 32 bytes long.
#[verifier::external_body]
fn keyed_hash(key: &[u8; 32], data: &[u8]) -> (digest: Vec<u8>)
    ensures
        digest@ == blake3_keyed_hash(key@, data@),
        digest@.len() == BLAKE3_OUT_LEN,
{
    blake3::keyed_hash(key, data).as_bytes().to_vec()
}

/// A signer and verifier that holds a 32-byte key of the keyed hash.
pub struct Blake3 {
    key: [u8; 32],
}

impl Blake3 {
    /// The key, as a sequence of 32 bytes.
    pub closed spec fn key(&self) -> Seq<u8> {
        self.key@
    }

    /// Takes `key` as the key.
    pub fn new(key: [u8; 32]) -> (signer: Self)
        ensures
            signer.key() == key@,
    {
        Self { key }
    }

    /// Takes the first 32 bytes of `key`; fails where there are fewer.
    pub fn try_new(key: &[u8]) -> (r: Result<Self, TextError>)
        ensures
            key@.len() >= BLAKE3_KEY_LEN ==> (r matches Ok(signer) && signer.key() == key@.take(
                BLAKE3_KEY_LEN as int,
            )),
            key@.len() < BLAKE3_KEY_LEN ==> (r matches Err(e) && e == TextError::Format),
    {
        if key.len() < BLAKE3_KEY_LEN {
            return Err(TextError::Format);
        }
        let bytes = to_array::<32>(slice_subrange(key, 0, BLAKE3_KEY_LEN));
        Ok(Self::new(bytes))
    }
}

impl TextSign for Blake3 {
    open spec fn signature(&self, data: Seq<u8>) -> Seq<u8> {
        blake3_keyed_hash(self.key(), data)
    }

    /// The signature is the 32-byte digest of `data` under the key.
    fn sign(&self, data: &[u8]) -> (r: Result<Vec<u8>, TextError>)
        ensures
            r matches Ok(sig) && sig@ == blake3_keyed_hash(self.key(), data@) && sig@.len()
                == BLAKE3_OUT_LEN,
    {
        Ok(keyed_hash(&self.key, data))
    }
}

impl TextVerify for Blake3 {
    /// Any bytes may be offered as a digest; the wrong ones do not match.
    open spec fn well_formed(&self, sig: Seq<u8>) -> bool {
        true
    }

    open spec fn accepts(&self, data: Seq<u8>, sig: Seq<u8>) -> bool {
        sig == blake3_keyed_hash(self.key(), data)
    }

    /// Answers whether `sig` is, byte for byte, the digest of `data`.
    fn verify(&self, data: &[u8], sig: &[u8]) -> (r: Result<bool, TextError>)
        ensures
            r == Ok::<bool, TextError>(sig@ == blake3_keyed_hash(self.key(), data@)),
    {
        let digest = keyed_hash(&self.key, data);
        Ok(bytes_equal(digest.as_slice(), sig))
    }
}

impl KeyLoader for Blake3 {
    open spec fn parse(source: Seq<u8>) -> Option<Seq<u8>> {
        if source.len() >= BLAKE3_KEY_LEN {
            Some(source.take(BLAKE3_KEY_LEN as int))
        } else {
            None
        }
    }

    open spec fn material(&self) -> Seq<u8> {
        self.key()
    }

    /// Takes the first 32 bytes of `source`; fails where there are fewer.
    fn load(source: &[u8]) -> (r: Result<Self, TextError>)
        ensures
            source@.len() >= BLAKE3_KEY_LEN ==> (r matches Ok(loaded) && loaded.key()
                == source@.take(BLAKE3_KEY_LEN as int)),
            source@.len() < BLAKE3_KEY_LEN ==> (r matches Err(e) && e == TextError::Format),
    {
        Self::try_new(source)
    }
}

impl KeyGenerator for Blake3 {
    /// One block of 32 bytes that spell a password over all four classes
    /// of characters.
    open spec fn generated(keys: Seq<Seq<u8>>) -> bool {
        keys.len() == 1 && is_password(keys[0], 32, true, true, true, true)
    }

    /// Draws the key as a password of 32 characters.
    fn generate() -> (r: Result<Vec<Vec<u8>>, TextError>)
        ensures
            r matches Ok(keys) && keys@.len() == 1 && is_password(
                keys@[0]@,
                32,
                true,
                true,
                true,
                true,
            ),
    {
        match process_genpass(32, true, true, true, true) {
            Ok(text) => {
                let key = slice_to_vec(text.as_str().as_bytes());
                proof {
                    vstd::utf8::is_ascii_chars_encode_utf8(text@);
                    assert(key@ =~= ascii_bytes(text@));
                }
                let mut keys: Vec<Vec<u8>> = Vec::new();
                keys.push(key);
                proof {
                    assert(keys.deep_view()[0] =~= key@);
                }
                Ok(keys)
            },
            Err(e) => Err(e),
        }
    }
}

/// Round trip: whatever the data, a verifier accepts for it the signature
/// that a signer with the same key gives to it.
pub proof fn lemma_sign_verify_round_trip(signer: Blake3, verifier: Blake3, data: Seq<u8>)
    requires
        signer.key() == verifier.key(),
    ensures
        verifier.well_formed(signer.signature(data)),
        verifier.accepts(data, signer.signature(data)),
{
}

/// A key that was generated loads, and loads as it is.
pub proof fn lemma_generated_key_loads(keys: Seq<Seq<u8>>)
    requires
        <Blake3 as KeyGenerator>::generated(keys),
    ensures
        <Blake3 as KeyLoader>::parse(keys[0]) == Some(keys[0]),
{
    assert(keys[0].take(BLAKE3_KEY_LEN as int) =~= keys[0]);
}

} // verus!
