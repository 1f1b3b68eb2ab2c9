//! A small toolkit for signing and sealing content.
//!
//! Three schemes sit behind one set of capabilities: a keyed hash and an
//! asymmetric signature for signing and verifying, and an authenticated
//! cipher for encrypting and decrypting. Around them stand the helpers of a
//! command line: base64 text, random passwords, the names of schemes, checks
//! on arguments, the expiry of a token and the pages of a file server.
//!
//! Every function works on values that the caller has already read; nothing
//! here touches a file, a clock or a terminal. What the schemes compute is
//! left to the crates that implement them. Each call into one of them is a
//! small function of its own, and its contract says what is taken on trust.

pub mod argument;
pub mod b64;
pub mod bytes;
pub mod capability;
pub mod cipher;
pub mod error;
pub mod expiry;
pub mod format;
pub mod genpass;
pub mod keyed_hash;
pub mod page;
pub mod signature;
pub mod text;

pub use argument::{is_standard_input, verify_file, verify_input_file, verify_path};
pub use b64::{
    decode_text, encode_blocks, parse_base64_format, process_decode, process_encode,
    Base64Format,
};
pub use capability::{
    KeyGenerator, KeyLoader, TextDecryptor, TextEncryptor, TextSign, TextVerify,
};
pub use cipher::{check_message_len, XChaCha20Poly1305Key};
pub use error::TextError;
pub use expiry::{
    expiry_after, expiry_from_fields, parse_decimal, try_verify_datetime, verify_datetime,
};
pub use format::{
    encrypt_format_from_lower, parse_encrypt_format, parse_format, parse_sign_format,
    sign_format_from_lower, OutputFormat, TextEncryptFormat, TextSignFormat,
};
pub use genpass::process_genpass;
pub use keyed_hash::Blake3;
pub use page::{file_page, render_listing, Entry, Lookup, Page};
pub use signature::{Ed25519Signer, Ed25519Verifier};
pub use text::{
    envelope_file_names, key_file_names, key_text, process_text_decrypt, process_text_encrypt, process_text_generate,
    process_text_sign, process_text_verify, wants_fresh_key, TextCipher, TextSigner,
    TextVerifier,
};
