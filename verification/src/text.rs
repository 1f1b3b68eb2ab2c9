//! The operations of the toolkit on text: each picks the scheme that a
//! format names, loads or makes the key, and hands the bytes to the scheme.

use vstd::prelude::*;
use vstd::string::StringSliceAdditionalSpecFns;
use crate::b64::{base64_url_bytes, base64_url_text, decode_url, encode_url};
use crate::bytes::same_text;
use crate::capability::{
    KeyGenerator, KeyLoader, TextDecryptor, TextEncryptor, TextSign, TextVerify,
};
use crate::cipher::{
    envelope_of, envelope_opened, sealable_len, XChaCha20Poly1305Key, XCHACHA20_KEY_LEN,
};
use crate::error::TextError;
use crate::format::{TextEncryptFormat, TextSignFormat};
use crate::keyed_hash::Blake3;
use crate::signature::{Ed25519Signer, Ed25519Verifier};

verus! {

/// A signer of one of the schemes. The scheme is chosen when the key is
/// loaded, and only a scheme that signs can be chosen.
pub enum TextSigner {
    Blake3(Blake3),
    Ed25519(Ed25519Signer),
}

/// A verifier of one of the schemes.
pub enum TextVerifier {
    Blake3(Blake3),
    Ed25519(Ed25519Verifier),
}

/// A cipher of one of the schemes.
pub enum TextCipher {
    XChaCha20Poly1305(XChaCha20Poly1305Key),
}

/// The key that a signer of the scheme takes from `source`, where it takes one.
pub open spec fn signer_key(source: Seq<u8>, format: TextSignFormat) -> Option<Seq<u8>> {
    match format {
        TextSignFormat::Blake3 => <Blake3 as KeyLoader>::parse(source),
        TextSignFormat::Ed25519 => <Ed25519Signer as KeyLoader>::parse(source),
    }
}

/// The key that a verifier of the scheme takes from `source`, where it
/// takes one.
pub open spec fn verifier_key(source: Seq<u8>, format: TextSignFormat) -> Option<Seq<u8>> {
    match format {
        TextSignFormat::Blake3 => <Blake3 as KeyLoader>::parse(source),
        TextSignFormat::Ed25519 => <Ed25519Verifier as KeyLoader>::parse(source),
    }
}

/// The key that a cipher of the scheme takes from `source`, where it takes one.
pub open spec fn cipher_key(source: Seq<u8>, format: TextEncryptFormat) -> Option<Seq<u8>> {
    match format {
        TextEncryptFormat::XChaCha20Poly1305 => <XChaCha20Poly1305Key as KeyLoader>::parse(source),
    }
}

/// Whether `sig` has the shape of a signature of the scheme.
pub open spec fn signature_well_formed(format: TextSignFormat, sig: Seq<u8>) -> bool {
    match format {
        TextSignFormat::Blake3 => true,
        TextSignFormat::Ed25519 => sig.len() == crate::signature::ED25519_SIGNATURE_LEN,
    }
}

/// Whether the scheme accepts `sig` as a signature of `data` under the key
/// that verifies: the shared key of the keyed hash, the public key of a pair.
pub open spec fn signature_accepted(
    format: TextSignFormat,
    key: Seq<u8>,
    data: Seq<u8>,
    sig: Seq<u8>,
) -> bool {
    match format {
        TextSignFormat::Blake3 => sig == crate::keyed_hash::blake3_keyed_hash(key, data),
        TextSignFormat::Ed25519 => crate::signature::ed25519_verifies(key, data, sig),
    }
}

impl TextSigner {
    /// The key that verifies what the signer signs: its own key for the
    /// keyed hash, the public key that belongs to its secret key for a pair.
    pub open spec fn verifying_key(&self) -> Seq<u8> {
        match self {
            TextSigner::Blake3(signer) => signer.key(),
            TextSigner::Ed25519(signer) => crate::signature::ed25519_public_key(signer.key()),
        }
    }

    /// The scheme of the signer.
    pub open spec fn format(&self) -> TextSignFormat {
        match self {
            TextSigner::Blake3(_) => TextSignFormat::Blake3,
            TextSigner::Ed25519(_) => TextSignFormat::Ed25519,
        }
    }

    /// The key that the signer holds.
    pub open spec fn key(&self) -> Seq<u8> {
        match self {
            TextSigner::Blake3(signer) => signer.key(),
            TextSigner::Ed25519(signer) => signer.key(),
        }
    }

    /// Loads the key of a signer of the given scheme from `source`.
    pub fn load(format: TextSignFormat, source: &[u8]) -> (r: Result<Self, TextError>)
        ensures
            match signer_key(source@, format) {
                Some(key) => r matches Ok(signer) && signer.format() == format && signer.key()
                    == key,
                None => r matches Err(e) && e == TextError::Format,
            },
    {
        match format {
            TextSignFormat::Blake3 => Ok(TextSigner::Blake3(Blake3::load(source)?)),
            TextSignFormat::Ed25519 => Ok(TextSigner::Ed25519(Ed25519Signer::load(source)?)),
        }
    }
}

impl TextSign for TextSigner {
    open spec fn signature(&self, data: Seq<u8>) -> Seq<u8> {
        match self {
            TextSigner::Blake3(signer) => signer.signature(data),
            TextSigner::Ed25519(signer) => signer.signature(data),
        }
    }

    /// Round trip: the signature is well formed, and the scheme accepts it
    /// for the data under the key that verifies.
    fn sign(&self, data: &[u8]) -> (r: Result<Vec<u8>, TextError>)
        ensures
            r matches Ok(sig) && signature_well_formed(self.format(), sig@) && signature_accepted(
                self.format(),
                self.verifying_key(),
                data@,
                sig@,
            ),
    {
        match self {
            TextSigner::Blake3(signer) => signer.sign(data),
            TextSigner::Ed25519(signer) => signer.sign(data),
        }
    }
}

impl TextVerifier {
    /// The scheme of the verifier.
    pub open spec fn format(&self) -> TextSignFormat {
        match self {
            TextVerifier::Blake3(_) => TextSignFormat::Blake3,
            TextVerifier::Ed25519(_) => TextSignFormat::Ed25519,
        }
    }

    /// The key that the verifier holds.
    pub open spec fn key(&self) -> Seq<u8> {
        match self {
            TextVerifier::Blake3(verifier) => verifier.key(),
            TextVerifier::Ed25519(verifier) => verifier.key(),
        }
    }

    /// Loads the key of a verifier of the given scheme from `source`.
    pub fn load(format: TextSignFormat, source: &[u8]) -> (r: Result<Self, TextError>)
        ensures
            match verifier_key(source@, format) {
                Some(key) => r matches Ok(verifier) && verifier.format() == format
                    && verifier.key() == key,
                None => r matches Err(e) && e == TextError::Format,
            },
    {
        match format {
            TextSignFormat::Blake3 => Ok(TextVerifier::Blake3(Blake3::load(source)?)),
            TextSignFormat::Ed25519 => Ok(TextVerifier::Ed25519(Ed25519Verifier::load(source)?)),
        }
    }
}

impl TextVerify for TextVerifier {
    open spec fn well_formed(&self, sig: Seq<u8>) -> bool {
        signature_well_formed(self.format(), sig)
    }

    open spec fn accepts(&self, data: Seq<u8>, sig: Seq<u8>) -> bool {
        signature_accepted(self.format(), self.key(), data, sig)
    }

    /// Answers for a well-formed signature whether the scheme accepts it
    /// under the key of the verifier.
    fn verify(&self, data: &[u8], sig: &[u8]) -> (r: Result<bool, TextError>)
        ensures
            r == if signature_well_formed(self.format(), sig@) {
                Ok::<bool, TextError>(signature_accepted(self.format(), self.key(), data@, sig@))
            } else {
                Err::<bool, TextError>(TextError::Format)
            },
    {
        match self {
            TextVerifier::Blake3(verifier) => verifier.verify(data, sig),
            TextVerifier::Ed25519(verifier) => verifier.verify(data, sig),
        }
    }
}

impl TextCipher {
    /// The scheme of the cipher.
    pub open spec fn format(&self) -> TextEncryptFormat {
        match self {
            TextCipher::XChaCha20Poly1305(_) => TextEncryptFormat::XChaCha20Poly1305,
        }
    }

    /// The key that the cipher holds.
    pub open spec fn key(&self) -> Seq<u8> {
        match self {
            TextCipher::XChaCha20Poly1305(cipher) => cipher.key(),
        }
    }

    /// Loads the key of a cipher of the given scheme from `source`.
    pub fn load(format: TextEncryptFormat, source: &[u8]) -> (r: Result<Self, TextError>)
        ensures
            match cipher_key(source@, format) {
                Some(key) => r matches Ok(cipher) && cipher.format() == format && cipher.key()
                    == key,
                None => r matches Err(e) && e == TextError::Format,
            },
    {
        match format {
            TextEncryptFormat::XChaCha20Poly1305 => Ok(
                TextCipher::XChaCha20Poly1305(XChaCha20Poly1305Key::load(source)?),
            ),
        }
    }

    /// Makes a cipher of the given scheme with a fresh key.
    pub fn fresh(format: TextEncryptFormat) -> (r: Result<Self, TextError>)
        ensures
            r matches Ok(cipher) && cipher.format() == format && cipher.key().len()
                == XCHACHA20_KEY_LEN,
    {
        match format {
            TextEncryptFormat::XChaCha20Poly1305 => {
                let gen = XChaCha20Poly1305Key::generate()?;
                assert(gen.deep_view()[0] == gen@[0]@);
                Ok(TextCipher::XChaCha20Poly1305(XChaCha20Poly1305Key::try_new(gen[0].as_slice())?))
            },
        }
    }

    /// A copy of the key's bytes.
    pub fn key_bytes(&self) -> (bytes: Vec<u8>)
        ensures
            bytes@ == self.key(),
    {
        match self {
            TextCipher::XChaCha20Poly1305(cipher) => cipher.to_vec(),
        }
    }
}

impl TextEncryptor for TextCipher {
    open spec fn sealable(&self, data: Seq<u8>) -> bool {
        match self {
            TextCipher::XChaCha20Poly1305(cipher) => cipher.sealable(data),
        }
    }

    open spec fn seals(&self, data: Seq<u8>, envelope: Seq<u8>) -> bool {
        match self {
            TextCipher::XChaCha20Poly1305(cipher) => cipher.seals(data, envelope),
        }
    }

    /// Round trip: whatever nonce was drawn, opening the envelope with this
    /// cipher gives the data back.
    fn encrypt(&self, data: &[u8]) -> (r: Result<Vec<u8>, TextError>)
        ensures
            sealable_len(data@.len() as int) ==> (r matches Ok(envelope) && envelope_of(
                self.key(),
                data@,
                envelope@,
            ) && envelope_opened(self.key(), envelope@) == Ok::<Seq<u8>, TextError>(data@)),
            !sealable_len(data@.len() as int) ==> (r matches Err(e) && e
                == TextError::MessageTooLong),
    {
        match self {
            TextCipher::XChaCha20Poly1305(cipher) => cipher.encrypt(data),
        }
    }
}

impl TextDecryptor for TextCipher {
    open spec fn opened(&self, envelope: Seq<u8>) -> Result<Seq<u8>, TextError> {
        match self {
            TextCipher::XChaCha20Poly1305(cipher) => cipher.opened(envelope),
        }
    }

    fn decrypt(&self, envelope: &[u8]) -> (r: Result<Vec<u8>, TextError>)
        ensures
            match envelope_opened(self.key(), envelope@) {
                Ok(plain) => r matches Ok(bytes) && bytes@ == plain,
                Err(why) => r matches Err(e) && e == why,
            },
    {
        match self {
            TextCipher::XChaCha20Poly1305(cipher) => cipher.decrypt(envelope),
        }
    }
}

/// The signature that the scheme gives to `input` under the key that `key`
/// holds, where it holds one.
pub open spec fn text_signature(input: Seq<u8>, key: Seq<u8>, format: TextSignFormat) -> Option<
    Seq<u8>,
> {
    match signer_key(key, format) {
        Some(k) => Some(
            match format {
                TextSignFormat::Blake3 => crate::keyed_hash::blake3_keyed_hash(k, input),
                TextSignFormat::Ed25519 => crate::signature::ed25519_signature(k, input),
            },
        ),
        None => None,
    }
}

/// Signs `input` with the key read from `key` and returns the signature as
/// base64 text, URL-safe and unpadded.
pub fn process_text_sign(input: &[u8], key: &[u8], format: TextSignFormat) -> (r: Result<
    String,
    TextError,
>)
    ensures
        match text_signature(input@, key@, format) {
            Some(sig) => r matches Ok(text) && text@ == base64_url_text(sig),
            None => r matches Err(e) && e == TextError::Format,
        },
{
    let signer = TextSigner::load(format, key)?;
    let signed = signer.sign(input)?;
    Ok(encode_url(signed.as_slice()))
}

/// What verifying gives: the signature text has to be base64, the key has to
/// load, and the signature has to be well formed for the scheme; then the
/// answer is whether the scheme accepts it.
pub open spec fn text_verdict(
    input: Seq<u8>,
    key: Seq<u8>,
    format: TextSignFormat,
    sig: Seq<u8>,
) -> Result<bool, TextError> {
    match base64_url_bytes(sig) {
        None => Err(TextError::Format),
        Some(sig) => match verifier_key(key, format) {
            None => Err(TextError::Format),
            Some(k) => if signature_well_formed(format, sig) {
                Ok(signature_accepted(format, k, input, sig))
            } else {
                Err(TextError::Format)
            },
        },
    }
}

/// Says whether `sig`, a signature as base64 text, signs `input` for the
/// key read from `key`.
pub fn process_text_verify(input: &[u8], key: &[u8], format: TextSignFormat, sig: &str) -> (r:
    Result<bool, TextError>)
    ensures
        r == text_verdict(input@, key@, format, sig.spec_bytes()),
{
    let sig = match decode_url(sig.as_bytes()) {
        Ok(sig) => sig,
        Err(_) => {
            return Err(TextError::Format);
        },
    };
    let verifier = TextVerifier::load(format, key)?;
    verifier.verify(input, sig.as_slice())
}

/// Whether `keys` may come out of key generation for the scheme.
pub open spec fn text_generated(keys: Seq<Seq<u8>>, format: TextSignFormat) -> bool {
    match format {
        TextSignFormat::Blake3 => <Blake3 as KeyGenerator>::generated(keys),
        TextSignFormat::Ed25519 => <Ed25519Signer as KeyGenerator>::generated(keys),
    }
}

/// Makes fresh key material for the scheme.
pub fn process_text_generate(format: TextSignFormat) -> (r: Result<Vec<Vec<u8>>, TextError>)
    ensures
        r matches Ok(keys) && text_generated(keys.deep_view(), format),
{
    match format {
        TextSignFormat::Blake3 => Blake3::generate(),
        TextSignFormat::Ed25519 => Ed25519Signer::generate(),
    }
}

/// The names of the files that the blocks of a fresh key are stored in, in
/// the order of the blocks. A key file holds the raw bytes of its block.
pub open spec fn key_file_names_spec(format: TextSignFormat) -> Seq<Seq<char>> {
    match format {
        TextSignFormat::Blake3 => seq!["blake3.txt"@],
        TextSignFormat::Ed25519 => seq!["ed25519.sk"@, "ed25519.pk"@],
    }
}

/// The names of the files that the blocks of a fresh key are stored in.
pub fn key_file_names(format: TextSignFormat) -> (names: Vec<&'static str>)
    ensures
        names@.len() == key_file_names_spec(format).len(),
        forall|i: int| 0 <= i < names@.len() ==> (#[trigger] names@[i])@ == key_file_names_spec(format)[i],
{
    let mut names: Vec<&'static str> = Vec::new();
    match format {
        TextSignFormat::Blake3 => {
            names.push("blake3.txt");
        },
        TextSignFormat::Ed25519 => {
            names.push("ed25519.sk");
            names.push("ed25519.pk");
        },
    }
    names
}

/// The names of the files that a key and an envelope are stored in as
/// base64 text, in this order.
pub fn envelope_file_names(format: TextEncryptFormat) -> (names: (&'static str, &'static str))
    ensures
        names.0@ == "xchacha20poly1305_k.txt"@,
        names.1@ == "xchacha20poly1305_t.txt"@,
{
    match format {
        TextEncryptFormat::XChaCha20Poly1305 => ("xchacha20poly1305_k.txt", "xchacha20poly1305_t.txt"),
    }
}

/// Whether a key argument asks for a fresh key: it is empty or a lone hyphen.
pub open spec fn asks_fresh_key(key: Seq<char>) -> bool {
    key == "-"@ || key.len() == 0
}

/// Whether a key argument asks for a fresh key.
pub fn wants_fresh_key(key: &str) -> (fresh: bool)
    ensures
        fresh == asks_fresh_key(key@),
{
    same_text(key, "-") || key.is_empty()
}

/// The text of the key that a key argument stands for: what the file of
/// that name holds, where there is such a file, and else the argument itself.
pub open spec fn key_text_spec(key: &str, file: Option<&[u8]>) -> Seq<u8> {
    match file {
        Some(content) => content@,
        None => key.spec_bytes(),
    }
}

/// The text of the key that a key argument stands for. `file` is what the
/// file of that name holds, where the argument names a file.
///
/// The file comes first: a key given in place that happens to be the name
/// of a file is not read as a key.
pub fn key_text<'a>(key: &'a str, file: Option<&'a [u8]>) -> (text: &'a [u8])
    ensures
        text@ == key_text_spec(key, file),
{
    match file {
        Some(content) => content,
        None => key.as_bytes(),
    }
}

/// Whether `out` is what encryption under `key` may return for `input`: the
/// key, and then an envelope of the input that the key opens again.
pub open spec fn key_and_envelope(out: Seq<Seq<u8>>, key: Seq<u8>, input: Seq<u8>) -> bool {
    &&& out.len() == 2
    &&& out[0] == key
    &&& envelope_of(key, input, out[1])
    &&& envelope_opened(key, out[1]) == Ok::<Seq<u8>, TextError>(input)
}

/// Encrypts `input` and returns the key and the envelope, in this order.
///
/// A key argument that is empty or a lone hyphen asks for a fresh key; any
/// other is read as `key_text` says, as base64 text of the key.
pub fn process_text_encrypt(
    input: &[u8],
    key: &str,
    key_file: Option<&[u8]>,
    format: TextEncryptFormat,
) -> (r: Result<Vec<Vec<u8>>, TextError>)
    ensures
        !asks_fresh_key(key@) ==> match cipher_key(key_text_spec(key, key_file), format) {
            None => r matches Err(e) && e == TextError::Format,
            Some(k) => if sealable_len(input@.len() as int) {
                r matches Ok(out) && key_and_envelope(out.deep_view(), k, input@)
            } else {
                r matches Err(e) && e == TextError::MessageTooLong
            },
        },
        asks_fresh_key(key@) ==> if sealable_len(input@.len() as int) {
            r matches Ok(out) && out.deep_view().len() == 2 && out.deep_view()[0].len()
                == XCHACHA20_KEY_LEN && key_and_envelope(
                out.deep_view(),
                out.deep_view()[0],
                input@,
            )
        } else {
            r matches Err(e) && e == TextError::MessageTooLong
        },
{
    let cipher = if !wants_fresh_key(key) {
        TextCipher::load(format, key_text(key, key_file))?
    } else {
        TextCipher::fresh(format)?
    };
    let mut res: Vec<Vec<u8>> = Vec::new();
    res.push(cipher.key_bytes());
    let encrypted = cipher.encrypt(input)?;
    res.push(encrypted);
    proof {
        assert(res.deep_view()[0] =~= res@[0]@);
        assert(res.deep_view()[1] =~= res@[1]@);
    }
    Ok(res)
}

/// What decrypting gives: the key has to load, the input has to be base64
/// text, and then the envelope that it spells is opened.
pub open spec fn text_decrypted(input: Seq<u8>, key: Seq<u8>, format: TextEncryptFormat) -> Result<
    Seq<u8>,
    TextError,
> {
    match cipher_key(key, format) {
        None => Err(TextError::Format),
        Some(k) => match base64_url_bytes(input) {
            None => Err(TextError::Format),
            Some(envelope) => envelope_opened(k, envelope),
        },
    }
}

/// Decrypts `input`, an envelope as base64 text, with the key that the key
/// argument stands for, read as `key_text` says.
pub fn process_text_decrypt(
    input: &[u8],
    key: &str,
    key_file: Option<&[u8]>,
    format: TextEncryptFormat,
) -> (r: Result<Vec<u8>, TextError>)
    ensures
        match text_decrypted(input@, key_text_spec(key, key_file), format) {
            Ok(plain) => r matches Ok(bytes) && bytes@ == plain,
            Err(why) => r matches Err(e) && e == why,
        },
{
    let cipher = TextCipher::load(format, key_text(key, key_file))?;
    let envelope = match decode_url(input) {
        Ok(envelope) => envelope,
        Err(_) => {
            return Err(TextError::Format);
        },
    };
    cipher.decrypt(envelope.as_slice())
}

} // verus!
