//! Base64 text, in the standard alphabet with padding and in the URL-safe
//! alphabet without.

use vstd::prelude::*;
use vstd::utf8::{decode_utf8, encode_utf8, valid_utf8};
use base64::Engine;
use crate::bytes::{same_text, string_from_utf8};
use crate::error::TextError;

verus! {

/// The error of the base64 decoder.
#[verifier::external_type_specification]
#[verifier::external_body]
pub struct ExDecodeError(base64::DecodeError);

/// The base64 text of `data` in the URL-safe alphabet, without padding.
pub uninterp spec fn base64_url_text(data: Seq<u8>) -> Seq<char>;

/// The bytes that `text` stands for in the URL-safe alphabet without
/// padding, where it is such a text.
pub uninterp spec fn base64_url_bytes(text: Seq<u8>) -> Option<Seq<u8>>;

/// The base64 text of `data` in the standard alphabet, padded.
pub uninterp spec fn base64_standard_text(data: Seq<u8>) -> Seq<char>;

/// The bytes that `text` stands for in the standard alphabet with padding,
/// where it is such a text.
pub uninterp spec fn base64_standard_bytes(text: Seq<u8>) -> Option<Seq<u8>>;

/// Calls `Engine::encode` of `base64` on its `URL_SAFE_NO_PAD` engine.
///
/// Trusted: the text is a function of the data alone.
#[verifier::external_body]
pub(crate) fn encode_url(data: &[u8]) -> (text: String)
    ensures
        text@ == base64_url_text(data@),
{
    base64::engine::general_purpose::URL_SAFE_NO_PAD.encode(data)
}

/// Calls `Engine::decode` of `base64` on its `URL_SAFE_NO_PAD` engine.
///
/// Trusted: whether the text decodes, and to what, depends on the text alone.
#[verifier::external_body]
pub(crate) fn decode_url(text: &[u8]) -> (r: Result<Vec<u8>, base64::DecodeError>)
    ensures
        match r {
            Ok(data) => base64_url_bytes(text@) == Some(data@),
            Err(_) => base64_url_bytes(text@) is None,
        },
{
    base64::engine::general_purpose::URL_SAFE_NO_PAD.decode(text)
}

/// Calls `Engine::encode` of `base64` on its `STANDARD` engine.
///
/// Trusted: the text is a function of the data alone.
#[verifier::external_body]
pub(crate) fn encode_standard(data: &[u8]) -> (text: String)
    ensures
        text@ == base64_standard_text(data@),
{
    base64::engine::general_purpose::STANDARD.encode(data)
}

/// Calls `Engine::decode` of `base64` on its `STANDARD` engine.
///
/// Trusted: whether the text decodes, and to what, depends on the text alone.
#[verifier::external_body]
pub(crate) fn decode_standard(text: &[u8]) -> (r: Result<Vec<u8>, base64::DecodeError>)
    ensures
        match r {
            Ok(data) => base64_standard_bytes(text@) == Some(data@),
            Err(_) => base64_standard_bytes(text@) is None,
        },
{
    base64::engine::general_purpose::STANDARD.decode(text)
}

/// The text without the white space at its two ends.
pub uninterp spec fn trimmed(text: Seq<char>) -> Seq<char>;

/// Calls `str::trim`.
///
/// Trusted: what is left is a function of the text alone.
#[verifier::external_body]
fn trim(text: &str) -> (inner: &str)
    ensures
        inner@ == trimmed(text@),
{
    text.trim()
}

/// The two base64 forms that the toolkit reads and writes.
#[derive(Clone, Copy, Debug, PartialEq, Eq, Structural)]
pub enum Base64Format {
    /// The standard alphabet, padded with `=`.
    Standard,
    /// The URL-safe alphabet, without padding.
    UrlSafe,
}

/// The form that a name stands for.
pub open spec fn base64_format_named(name: Seq<char>) -> Option<Base64Format> {
    if name == "standard"@ {
        Some(Base64Format::Standard)
    } else if name == "urlsafe"@ {
        Some(Base64Format::UrlSafe)
    } else {
        None
    }
}

/// Reads the name of a base64 form.
pub fn parse_base64_format(format: &str) -> (r: Result<Base64Format, &'static str>)
    ensures
        match base64_format_named(format@) {
            Some(format) => r == Ok::<Base64Format, &'static str>(format),
            None => r matches Err(e) && e@ == "Invalid format"@,
        },
{
    if same_text(format, "standard") {
        Ok(Base64Format::Standard)
    } else if same_text(format, "urlsafe") {
        Ok(Base64Format::UrlSafe)
    } else {
        Err("Invalid format")
    }
}

impl std::str::FromStr for Base64Format {
    type Err = &'static str;

    /// Reads the name of a base64 form, as `parse_base64_format` does.
    fn from_str(s: &str) -> (r: Result<Self, Self::Err>)
        ensures
            match base64_format_named(s@) {
                Some(format) => r == Ok::<Base64Format, &'static str>(format),
                None => r matches Err(e) && e@ == "Invalid format"@,
            },
    {
        parse_base64_format(s)
    }
}

/// The text of `data` in the given form.
pub open spec fn base64_text(data: Seq<u8>, format: Base64Format) -> Seq<char> {
    match format {
        Base64Format::Standard => base64_standard_text(data),
        Base64Format::UrlSafe => base64_url_text(data),
    }
}

/// The bytes that `text` stands for in the given form, where it has that form.
pub open spec fn base64_bytes(text: Seq<u8>, format: Base64Format) -> Option<Seq<u8>> {
    match format {
        Base64Format::Standard => base64_standard_bytes(text),
        Base64Format::UrlSafe => base64_url_bytes(text),
    }
}

/// Encodes `data` as base64 text in the given form.
pub fn process_encode(data: &[u8], format: Base64Format) -> (text: String)
    ensures
        text@ == base64_text(data@, format),
{
    match format {
        Base64Format::Standard => encode_standard(data),
        Base64Format::UrlSafe => encode_url(data),
    }
}

/// What decoding `text` gives, for every outcome of the decoder: the text
/// has to be base64 in the given form, and the bytes it stands for UTF-8.
pub open spec fn decoded_text(text: Seq<u8>, format: Base64Format) -> Option<Seq<char>> {
    match base64_bytes(text, format) {
        Some(data) => if valid_utf8(data) {
            Some(decode_utf8(data))
        } else {
            None
        },
        None => None,
    }
}

/// Decodes base64 `text` in the given form into the string that its bytes
/// spell. White space counts as part of the text, and no base64 holds any.
pub fn decode_text(text: &[u8], format: Base64Format) -> (r: Result<String, TextError>)
    ensures
        match decoded_text(text@, format) {
            Some(chars) => r matches Ok(s) && s@ == chars,
            None => r matches Err(e) && e == TextError::Format,
        },
{
    let decoded = match format {
        Base64Format::Standard => decode_standard(text),
        Base64Format::UrlSafe => decode_url(text),
    };
    match decoded {
        Ok(data) => match string_from_utf8(data) {
            Ok(s) => Ok(s),
            Err(_) => Err(TextError::Format),
        },
        Err(_) => Err(TextError::Format),
    }
}

/// Decodes `input`, base64 text in the given form with or without white
/// space around it, into the string that its bytes spell.
pub fn process_decode(input: &str, format: Base64Format) -> (r: Result<String, TextError>)
    ensures
        match decoded_text(encode_utf8(trimmed(input@)), format) {
            Some(chars) => r matches Ok(s) && s@ == chars,
            None => r matches Err(e) && e == TextError::Format,
        },
{
    decode_text(trim(input).as_bytes(), format)
}

/// Encodes each block as base64 text, URL-safe and unpadded: the form in
/// which keys, signatures and envelopes are shown and stored as text.
pub fn encode_blocks(blocks: &Vec<Vec<u8>>) -> (texts: Vec<String>)
    ensures
        texts@.len() == blocks@.len(),
        forall|i: int| 0 <= i < blocks@.len() ==> (#[trigger] texts@[i])@ == base64_url_text(blocks@[i]@),
{
    let mut texts: Vec<String> = Vec::new();
    let mut i: usize = 0;
    while i < blocks.len()
        invariant
            i <= blocks@.len(),
            texts@.len() == i,
            forall|j: int| 0 <= j < i ==> (#[trigger] texts@[j])@ == base64_url_text(blocks@[j]@),
        decreases blocks@.len() - i,
    {
        texts.push(encode_url(blocks[i].as_slice()));
        i += 1;
    }
    texts
}

} // verus!
