//! Sealing with XChaCha20-Poly1305.
//!
//! An envelope is the 24-byte nonce followed by what the cipher returns for
//! that nonce: the ciphertext, as long as the plaintext, and its 16-byte tag.

use vstd::prelude::*;
use vstd::slice::{slice_subrange, slice_to_vec};
use chacha20poly1305::aead::{Aead, AeadCore, KeyInit};
use crate::b64::{base64_url_bytes, decode_url};
use crate::bytes::to_array;
use crate::capability::{KeyGenerator, KeyLoader, TextDecryptor, TextEncryptor};
use crate::error::TextError;

verus! {

/// Length in bytes of a key of the cipher.
pub const XCHACHA20_KEY_LEN: usize = 32;

/// Length in bytes of a nonce of the cipher.
pub const XCHACHA20_NONCE_LEN: usize = 24;

/// Length in bytes of the authentication tag that the cipher appends.
pub const POLY1305_TAG_LEN: usize = 16;

/// Number of 64-byte blocks at which the cipher refuses a message.
pub const XCHACHA20_MAX_BLOCKS: usize = 0xFFFF_FFFF;

/// The error of the cipher. It says nothing of its cause.
#[verifier::external_type_specification]
#[verifier::external_body]
pub struct ExAeadError(chacha20poly1305::aead::Error);

/// What the cipher returns for `plain` under `key` and `nonce`: ciphertext
/// and tag, or nothing where it refuses the message.
pub uninterp spec fn xchacha20poly1305_sealed(key: Seq<u8>, nonce: Seq<u8>, plain: Seq<u8>) -> Option<
    Seq<u8>,
>;

/// The plaintext that the cipher recovers from `sealed` under `key` and
/// `nonce`, or nothing where the tag does not verify.
pub uninterp spec fn xchacha20poly1305_opened(key: Seq<u8>, nonce: Seq<u8>, sealed: Seq<u8>) -> Option<
    Seq<u8>,
>;

/// Whether a message of `len` bytes can be handed to the cipher: it stays
/// under the cipher's block count, and the sealed message fits a buffer.
pub open spec fn sealable_len(len: int) -> bool {
    len / 64 < XCHACHA20_MAX_BLOCKS && len + POLY1305_TAG_LEN <= isize::MAX
}

/// Whether `envelope` is an envelope of `data` under `key`: a nonce, and
/// then what the cipher returns for the data under that nonce.
pub open spec fn envelope_of(key: Seq<u8>, data: Seq<u8>, envelope: Seq<u8>) -> bool {
    &&& envelope.len() == XCHACHA20_NONCE_LEN + data.len() + POLY1305_TAG_LEN
    &&& xchacha20poly1305_sealed(key, envelope.take(XCHACHA20_NONCE_LEN as int), data) == Some(
        envelope.skip(XCHACHA20_NONCE_LEN as int),
    )
}

/// What opening `envelope` under `key` gives. An envelope too short to hold
/// a nonce and a tag is malformed; any other is split after its first 24
/// bytes and handed to the cipher, which answers for its authenticity.
pub open spec fn envelope_opened(key: Seq<u8>, envelope: Seq<u8>) -> Result<Seq<u8>, TextError> {
    if envelope.len() < XCHACHA20_NONCE_LEN + POLY1305_TAG_LEN {
        Err(TextError::Format)
    } else {
        match xchacha20poly1305_opened(
            key,
            envelope.take(XCHACHA20_NONCE_LEN as int),
            envelope.skip(XCHACHA20_NONCE_LEN as int),
        ) {
            Some(plain) => Ok(plain),
            None => Err(TextError::Authentication),
        }
    }
}

/// Says whether a message of `len` bytes can be sealed.
pub fn check_message_len(len: usize) -> (r: Result<(), TextError>)
    ensures
        r == if sealable_len(len as int) {
            Ok::<(), TextError>(())
        } else {
            Err::<(), TextError>(TextError::MessageTooLong)
        },
{
    if len / 64 >= XCHACHA20_MAX_BLOCKS || len > isize::MAX as usize - POLY1305_TAG_LEN {
        Err(TextError::MessageTooLong)
    } else {
        Ok(())
    }
}

/// Calls `KeyInit::generate_key` of `XChaCha20Poly1305` on the operating
/// system's random source.
///
/// Nothing is claimed of the key: each call draws another.
#[verifier::external_body]
fn xchacha20poly1305_fresh_key() -> (key: [u8; 32]) {
    chacha20poly1305::XChaCha20Poly1305::generate_key(&mut rand::rngs::OsRng).into()
}

/// Calls `AeadCore::generate_nonce` of `XChaCha20Poly1305` on the operating
/// system's random source.
///
/// Nothing is claimed of the nonce: each call draws another.
#[verifier::external_body]
fn xchacha20poly1305_fresh_nonce() -> (nonce: [u8; 24]) {
    chacha20poly1305::XChaCha20Poly1305::generate_nonce(&mut rand::rngs::OsRng).into()
}

/// Calls `KeyInit::new` and then `Aead::encrypt` of `XChaCha20Poly1305`.
///
/// Trusted: the cipher refuses only a message of `XCHACHA20_MAX_BLOCKS`
/// blocks or more; what it returns is a function of key, nonce and message,
/// is 16 bytes longer than the message, and, as the crate's usage example
/// shows, is opened again by `Aead::decrypt` under the same key and nonce.
/// The call allocates the sealed message, hence the bound on the length.
#[verifier::external_body]
fn xchacha20poly1305_seal(key: &[u8; 32], nonce: &[u8; 24], plain: &[u8]) -> (r: Result<
    Vec<u8>,
    chacha20poly1305::aead::Error,
>)
    requires
        plain@.len() + POLY1305_TAG_LEN <= isize::MAX,
    ensures
        r is Ok <==> plain@.len() / 64 < XCHACHA20_MAX_BLOCKS,
        match r {
            Ok(sealed) => {
                &&& xchacha20poly1305_sealed(key@, nonce@, plain@) == Some(sealed@)
                &&& sealed@.len() == plain@.len() + POLY1305_TAG_LEN
                &&& xchacha20poly1305_opened(key@, nonce@, sealed@) == Some(plain@)
            },
            Err(_) => xchacha20poly1305_sealed(key@, nonce@, plain@) is None,
        },
{
    chacha20poly1305::XChaCha20Poly1305::new(key.into()).encrypt(nonce.into(), plain)
}

/// Calls `KeyInit::new` and then `Aead::decrypt` of `XChaCha20Poly1305`.
///
/// Trusted: whether the cipher accepts, and the plaintext, depend on key,
/// nonce and sealed message alone; a plaintext is 16 bytes shorter than the
/// sealed message, so nothing shorter than a tag is accepted.
#[verifier::external_body]
fn xchacha20poly1305_open(key: &[u8; 32], nonce: &[u8; 24], sealed: &[u8]) -> (r: Result<
    Vec<u8>,
    chacha20poly1305::aead::Error,
>)
    ensures
        match r {
            Ok(plain) => {
                &&& xchacha20poly1305_opened(key@, nonce@, sealed@) == Some(plain@)
                &&& plain@.len() + POLY1305_TAG_LEN == sealed@.len()
            },
            Err(_) => xchacha20poly1305_opened(key@, nonce@, sealed@) is None,
        },
{
    chacha20poly1305::XChaCha20Poly1305::new(key.into()).decrypt(nonce.into(), sealed)
}

/// A 32-byte key of the cipher.
pub struct XChaCha20Poly1305Key {
    key: [u8; 32],
}

impl XChaCha20Poly1305Key {
    /// The key, as a sequence of 32 bytes.
    pub closed spec fn key(&self) -> Seq<u8> {
        self.key@
    }

    /// Takes `key` as the key.
    pub fn new(key: [u8; 32]) -> (cipher: Self)
        ensures
            cipher.key() == key@,
    {
        Self { key }
    }

    /// Takes `key` where it has exactly 32 bytes.
    pub fn try_new(key: &[u8]) -> (r: Result<Self, TextError>)
        ensures
            key@.len() == XCHACHA20_KEY_LEN ==> (r matches Ok(cipher) && cipher.key() == key@),
            key@.len() != XCHACHA20_KEY_LEN ==> (r matches Err(e) && e == TextError::Format),
    {
        if key.len() != XCHACHA20_KEY_LEN {
            return Err(TextError::Format);
        }
        Ok(Self::new(to_array::<32>(key)))
    }

    /// A copy of the key's bytes.
    pub fn to_vec(&self) -> (bytes: Vec<u8>)
        ensures
            bytes@ == self.key(),
    {
        slice_to_vec(self.key.as_slice())
    }
}

impl KeyGenerator for XChaCha20Poly1305Key {
    /// One block of 32 bytes.
    open spec fn generated(keys: Seq<Seq<u8>>) -> bool {
        keys.len() == 1 && keys[0].len() == XCHACHA20_KEY_LEN
    }

    /// Draws the key from the operating system's random source.
    fn generate() -> (r: Result<Vec<Vec<u8>>, TextError>)
        ensures
            r matches Ok(keys) && keys@.len() == 1 && keys@[0]@.len() == XCHACHA20_KEY_LEN,
    {
        let key = xchacha20poly1305_fresh_key();
        let mut keys: Vec<Vec<u8>> = Vec::new();
        keys.push(slice_to_vec(key.as_slice()));
        proof {
            assert(keys.deep_view()[0] =~= key@);
        }
        Ok(keys)
    }
}

impl KeyLoader for XChaCha20Poly1305Key {
    /// The source is base64 text, URL-safe and unpadded, of exactly 32 bytes.
    open spec fn parse(source: Seq<u8>) -> Option<Seq<u8>> {
        match base64_url_bytes(source) {
            Some(key) => if key.len() == XCHACHA20_KEY_LEN {
                Some(key)
            } else {
                None
            },
            None => None,
        }
    }

    open spec fn material(&self) -> Seq<u8> {
        self.key()
    }

    /// Decodes `source` and takes the bytes as the key where there are
    /// exactly 32 of them.
    fn load(source: &[u8]) -> (r: Result<Self, TextError>)
        ensures
            match base64_url_bytes(source@) {
                Some(key) => if key.len() == XCHACHA20_KEY_LEN {
                    r matches Ok(loaded) && loaded.key() == key
                } else {
                    r matches Err(e) && e == TextError::Format
                },
                None => r matches Err(e) && e == TextError::Format,
            },
    {
        match decode_url(source) {
            Ok(key) => Self::try_new(key.as_slice()),
            Err(_) => Err(TextError::Format),
        }
    }
}

impl TextEncryptor for XChaCha20Poly1305Key {
    open spec fn sealable(&self, data: Seq<u8>) -> bool {
        sealable_len(data.len() as int)
    }

    open spec fn seals(&self, data: Seq<u8>, envelope: Seq<u8>) -> bool {
        envelope_of(self.key(), data, envelope)
    }

    /// Seals `data` under a nonce drawn for this call and returns the nonce
    /// followed by the sealed message. Round trip: whatever nonce was
    /// drawn, opening the envelope with this key gives the data back.
    fn encrypt(&self, data: &[u8]) -> (r: Result<Vec<u8>, TextError>)
        ensures
            sealable_len(data@.len() as int) ==> (r matches Ok(envelope) && envelope_of(
                self.key(),
                data@,
                envelope@,
            ) && envelope_opened(self.key(), envelope@) == Ok::<Seq<u8>, TextError>(data@)),
            !sealable_len(data@.len() as int) ==> (r matches Err(e) && e
                == TextError::MessageTooLong),
    {
        check_message_len(data.len())?;
        let nonce = xchacha20poly1305_fresh_nonce();
        match xchacha20poly1305_seal(&self.key, &nonce, data) {
            Ok(sealed) => {
                let mut envelope = slice_to_vec(nonce.as_slice());
                envelope.extend_from_slice(sealed.as_slice());
                proof {
                    assert(envelope@.take(XCHACHA20_NONCE_LEN as int) =~= nonce@);
                    assert(envelope@.skip(XCHACHA20_NONCE_LEN as int) =~= sealed@);
                }
                Ok(envelope)
            },
            Err(_) => Err(TextError::MessageTooLong),
        }
    }
}

impl TextDecryptor for XChaCha20Poly1305Key {
    open spec fn opened(&self, envelope: Seq<u8>) -> Result<Seq<u8>, TextError> {
        envelope_opened(self.key(), envelope)
    }

    /// Gives the plaintext of an envelope that is long enough and that the
    /// cipher accepts; the first failing is an error of format, the second
    /// one of authentication.
    fn decrypt(&self, envelope: &[u8]) -> (r: Result<Vec<u8>, TextError>)
        ensures
            match envelope_opened(self.key(), envelope@) {
                Ok(plain) => r matches Ok(bytes) && bytes@ == plain,
                Err(why) => r matches Err(e) && e == why,
            },
    {
        if envelope.len() < XCHACHA20_NONCE_LEN + POLY1305_TAG_LEN {
            return Err(TextError::Format);
        }
        let nonce = to_array::<24>(slice_subrange(envelope, 0, XCHACHA20_NONCE_LEN));
        let sealed = slice_subrange(envelope, XCHACHA20_NONCE_LEN, envelope.len());
        proof {
            assert(envelope@.take(XCHACHA20_NONCE_LEN as int) =~= nonce@);
            assert(envelope@.skip(XCHACHA20_NONCE_LEN as int) =~= sealed@);
        }
        match xchacha20poly1305_open(&self.key, &nonce, sealed) {
            Ok(plain) => Ok(plain),
            Err(_) => Err(TextError::Authentication),
        }
    }
}

/// No byte of an envelope is left out of what the cipher is asked to
/// authenticate: envelopes that differ differ in the nonce or in the sealed
/// message that is handed to the cipher.
pub proof fn lemma_whole_envelope_is_authenticated(a: Seq<u8>, b: Seq<u8>)
    requires
        a.len() >= XCHACHA20_NONCE_LEN,
        b.len() >= XCHACHA20_NONCE_LEN,
        a.take(XCHACHA20_NONCE_LEN as int) == b.take(XCHACHA20_NONCE_LEN as int),
        a.skip(XCHACHA20_NONCE_LEN as int) == b.skip(XCHACHA20_NONCE_LEN as int),
    ensures
        a == b,
{
    assert(a =~= a.take(XCHACHA20_NONCE_LEN as int) + a.skip(XCHACHA20_NONCE_LEN as int));
    assert(b =~= b.take(XCHACHA20_NONCE_LEN as int) + b.skip(XCHACHA20_NONCE_LEN as int));
}

} // verus!
