//! The capabilities that a scheme may offer.
//!
//! A scheme implements the ones that mean something for it: a signer never
//! encrypts. Each capability pairs its operation with the spec functions
//! that say what the operation returns.

use vstd::prelude::*;
use crate::error::TextError;

verus! {

/// Signs data.
pub trait TextSign {
    /// The signature that this signer gives to `data`.
    spec fn signature(&self, data: Seq<u8>) -> Seq<u8>;

    /// Signs `data` and returns the signature.
    fn sign(&self, data: &[u8]) -> (r: Result<Vec<u8>, TextError>)
        ensures
            r matches Ok(sig) && sig@ == self.signature(data@),
    ;
}

/// Checks signatures.
pub trait TextVerify {
    /// Whether `sig` has the shape of a signature of this scheme.
    spec fn well_formed(&self, sig: Seq<u8>) -> bool;

    /// Whether `sig` is a signature of `data` for this verifier.
    spec fn accepts(&self, data: Seq<u8>, sig: Seq<u8>) -> bool;

    /// Says whether `sig` signs `data`. A signature that does not match
    /// gives `false`; one that is not even well formed is an error.
    fn verify(&self, data: &[u8], sig: &[u8]) -> (r: Result<bool, TextError>)
        ensures
            r == if self.well_formed(sig@) {
                Ok::<bool, TextError>(self.accepts(data@, sig@))
            } else {
                Err::<bool, TextError>(TextError::Format)
            },
    ;
}

/// Builds a key-bearing instance from the bytes of a key source.
pub trait KeyLoader: Sized {
    /// The key material that `source` holds, where it holds any.
    spec fn parse(source: Seq<u8>) -> Option<Seq<u8>>;

    /// The key material that this instance holds.
    spec fn material(&self) -> Seq<u8>;

    /// Loads the key from `source`, the bytes that were read from the key's
    /// file or given in its place.
    fn load(source: &[u8]) -> (r: Result<Self, TextError>)
        ensures
            match Self::parse(source@) {
                Some(key) => r matches Ok(loaded) && loaded.material() == key,
                None => r matches Err(e) && e == TextError::Format,
            },
    ;
}

/// Makes fresh key material.
pub trait KeyGenerator {
    /// Whether `keys` is a list of blocks that `generate` may return.
    spec fn generated(keys: Seq<Seq<u8>>) -> bool;

    /// Returns fresh key material as a list of blocks: one block for a
    /// symmetric key, the secret block and then the public one for a pair.
    fn generate() -> (r: Result<Vec<Vec<u8>>, TextError>)
        ensures
            r matches Ok(keys) && Self::generated(keys.deep_view()),
    ;
}

/// Seals data into an envelope.
pub trait TextEncryptor {
    /// Whether `data` is short enough to be sealed.
    spec fn sealable(&self, data: Seq<u8>) -> bool;

    /// Whether `envelope` is one of the envelopes that `data` may be sealed into.
    spec fn seals(&self, data: Seq<u8>, envelope: Seq<u8>) -> bool;

    /// Seals `data` under a nonce of its own.
    fn encrypt(&self, data: &[u8]) -> (r: Result<Vec<u8>, TextError>)
        ensures
            self.sealable(data@) ==> (r matches Ok(envelope) && self.seals(data@, envelope@)),
            !self.sealable(data@) ==> (r matches Err(e) && e == TextError::MessageTooLong),
    ;
}

/// Opens an envelope.
pub trait TextDecryptor {
    /// What opening `envelope` gives.
    spec fn opened(&self, envelope: Seq<u8>) -> Result<Seq<u8>, TextError>;

    /// Opens `envelope` and returns the plaintext, or says why it cannot.
    fn decrypt(&self, envelope: &[u8]) -> (r: Result<Vec<u8>, TextError>)
        ensures
            match self.opened(envelope@) {
                Ok(plain) => r matches Ok(bytes) && bytes@ == plain,
                Err(why) => r matches Err(e) && e == why,
            },
    ;
}

} // verus!
