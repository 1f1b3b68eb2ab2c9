//! The names by which schemes and output forms are chosen.

use vstd::prelude::*;
use crate::bytes::same_text;

verus! {

/// The lower-case form that Unicode gives to `text`.
pub uninterp spec fn lowercase(text: Seq<char>) -> Seq<char>;

/// Calls `str::to_lowercase`.
///
/// Trusted: the result is a function of the text alone.
#[verifier::external_body]
fn to_lowercase(text: &str) -> (lower: String)
    ensures
        lower@ == lowercase(text@),
{
    text.to_lowercase()
}

/// The scheme that signs, verifies and gives signing keys.
#[derive(Clone, Copy, Debug, PartialEq, Eq, Structural)]
pub enum TextSignFormat {
    /// The keyed hash.
    Blake3,
    /// The asymmetric signature.
    Ed25519,
}

/// The scheme that encrypts and decrypts.
#[derive(Clone, Copy, Debug, PartialEq, Eq, Structural)]
pub enum TextEncryptFormat {
    /// The authenticated cipher.
    XChaCha20Poly1305,
}

/// The form in which converted records are written.
#[derive(Clone, Copy, Debug, PartialEq, Eq, Structural)]
pub enum OutputFormat {
    Json,
    Yaml,
}

/// The signing scheme that a name in lower case stands for.
pub open spec fn sign_format_named(lower: Seq<char>) -> Option<TextSignFormat> {
    if lower == "blake3"@ {
        Some(TextSignFormat::Blake3)
    } else if lower == "ed25519"@ {
        Some(TextSignFormat::Ed25519)
    } else {
        None
    }
}

/// The encryption scheme that a name in lower case stands for.
pub open spec fn encrypt_format_named(lower: Seq<char>) -> Option<TextEncryptFormat> {
    if lower == "xchacha20poly1305"@ {
        Some(TextEncryptFormat::XChaCha20Poly1305)
    } else {
        None
    }
}

/// The output form that a name stands for. Capitals are not accepted.
pub open spec fn output_format_named(name: Seq<char>) -> Option<OutputFormat> {
    if name == "json"@ {
        Some(OutputFormat::Json)
    } else if name == "yaml"@ {
        Some(OutputFormat::Yaml)
    } else {
        None
    }
}

/// Reads the name of a signing scheme that is already in lower case.
pub fn sign_format_from_lower(lower: &str) -> (r: Result<TextSignFormat, &'static str>)
    ensures
        match sign_format_named(lower@) {
            Some(format) => r == Ok::<TextSignFormat, &'static str>(format),
            None => r matches Err(e) && e@ == "Invalid format"@,
        },
{
    if same_text(lower, "blake3") {
        Ok(TextSignFormat::Blake3)
    } else if same_text(lower, "ed25519") {
        Ok(TextSignFormat::Ed25519)
    } else {
        Err("Invalid format")
    }
}

/// Reads the name of a signing scheme, in capitals or small letters.
pub fn parse_sign_format(format: &str) -> (r: Result<TextSignFormat, &'static str>)
    ensures
        match sign_format_named(lowercase(format@)) {
            Some(format) => r == Ok::<TextSignFormat, &'static str>(format),
            None => r matches Err(e) && e@ == "Invalid format"@,
        },
{
    let lower = to_lowercase(format);
    sign_format_from_lower(lower.as_str())
}

/// Reads the name of an encryption scheme that is already in lower case.
pub fn encrypt_format_from_lower(lower: &str) -> (r: Result<TextEncryptFormat, &'static str>)
    ensures
        match encrypt_format_named(lower@) {
            Some(format) => r == Ok::<TextEncryptFormat, &'static str>(format),
            None => r matches Err(e) && e@ == "Invalid encrypt format"@,
        },
{
    if same_text(lower, "xchacha20poly1305") {
        Ok(TextEncryptFormat::XChaCha20Poly1305)
    } else {
        Err("Invalid encrypt format")
    }
}

/// Reads the name of an encryption scheme, in capitals or small letters.
pub fn parse_encrypt_format(format: &str) -> (r: Result<TextEncryptFormat, &'static str>)
    ensures
        match encrypt_format_named(lowercase(format@)) {
            Some(format) => r == Ok::<TextEncryptFormat, &'static str>(format),
            None => r matches Err(e) && e@ == "Invalid encrypt format"@,
        },
{
    let lower = to_lowercase(format);
    encrypt_format_from_lower(lower.as_str())
}

/// Reads the name of an output form.
pub fn parse_format(format: &str) -> (r: Result<OutputFormat, &'static str>)
    ensures
        match output_format_named(format@) {
            Some(format) => r == Ok::<OutputFormat, &'static str>(format),
            None => r matches Err(e) && e@ == "Invalid format"@,
        },
{
    if same_text(format, "json") {
        Ok(OutputFormat::Json)
    } else if same_text(format, "yaml") {
        Ok(OutputFormat::Yaml)
    } else {
        Err("Invalid format")
    }
}

impl TextSignFormat {
    /// The name of the scheme, in lower case.
    pub open spec fn name_spec(self) -> Seq<char> {
        match self {
            TextSignFormat::Blake3 => "blake3"@,
            TextSignFormat::Ed25519 => "ed25519"@,
        }
    }

    /// The name of the scheme, in lower case.
    pub fn name(self) -> (name: &'static str)
        ensures
            name@ == self.name_spec(),
    {
        match self {
            TextSignFormat::Blake3 => "blake3",
            TextSignFormat::Ed25519 => "ed25519",
        }
    }
}

impl TextEncryptFormat {
    /// The name of the scheme, in lower case.
    pub open spec fn name_spec(self) -> Seq<char> {
        "xchacha20poly1305"@
    }

    /// The name of the scheme, in lower case.
    pub fn name(self) -> (name: &'static str)
        ensures
            name@ == self.name_spec(),
    {
        "xchacha20poly1305"
    }
}

impl OutputFormat {
    /// The name of the form.
    pub open spec fn name_spec(self) -> Seq<char> {
        match self {
            OutputFormat::Json => "json"@,
            OutputFormat::Yaml => "yaml"@,
        }
    }

    /// The name of the form.
    pub fn name(self) -> (name: &'static str)
        ensures
            name@ == self.name_spec(),
    {
        match self {
            OutputFormat::Json => "json",
            OutputFormat::Yaml => "yaml",
        }
    }
}

impl From<TextSignFormat> for &'static str {
    fn from(format: TextSignFormat) -> (name: Self) {
        match format {
            TextSignFormat::Blake3 => "blake3",
            TextSignFormat::Ed25519 => "ed25519",
        }
    }
}

impl vstd::std_specs::convert::FromSpecImpl<TextSignFormat> for &'static str {
    open spec fn obeys_from_spec() -> bool {
        true
    }

    open spec fn from_spec(format: TextSignFormat) -> Self {
        match format {
            TextSignFormat::Blake3 => "blake3",
            TextSignFormat::Ed25519 => "ed25519",
        }
    }
}

impl std::str::FromStr for TextSignFormat {
    type Err = &'static str;

    /// Reads the name of a signing scheme, in capitals or small letters, as
    /// `parse_sign_format` does.
    fn from_str(s: &str) -> (r: Result<Self, Self::Err>)
        ensures
            match sign_format_named(lowercase(s@)) {
                Some(format) => r == Ok::<TextSignFormat, &'static str>(format),
                None => r matches Err(e) && e@ == "Invalid format"@,
            },
    {
        parse_sign_format(s)
    }
}

impl From<TextEncryptFormat> for &'static str {
    fn from(format: TextEncryptFormat) -> (name: Self) {
        match format {
            TextEncryptFormat::XChaCha20Poly1305 => "xchacha20poly1305",
        }
    }
}

impl vstd::std_specs::convert::FromSpecImpl<TextEncryptFormat> for &'static str {
    open spec fn obeys_from_spec() -> bool {
        true
    }

    open spec fn from_spec(format: TextEncryptFormat) -> Self {
        match format {
            TextEncryptFormat::XChaCha20Poly1305 => "xchacha20poly1305",
        }
    }
}

impl std::str::FromStr for TextEncryptFormat {
    type Err = &'static str;

    /// Reads the name of an encryption scheme, in capitals or small
    /// letters, as `parse_encrypt_format` does.
    fn from_str(s: &str) -> (r: Result<Self, Self::Err>)
        ensures
            match encrypt_format_named(lowercase(s@)) {
                Some(format) => r == Ok::<TextEncryptFormat, &'static str>(format),
                None => r matches Err(e) && e@ == "Invalid encrypt format"@,
            },
    {
        parse_encrypt_format(s)
    }
}

impl From<OutputFormat> for &'static str {
    fn from(value: OutputFormat) -> (name: Self) {
        match value {
            OutputFormat::Json => "json",
            OutputFormat::Yaml => "yaml",
        }
    }
}

impl vstd::std_specs::convert::FromSpecImpl<OutputFormat> for &'static str {
    open spec fn obeys_from_spec() -> bool {
        true
    }

    open spec fn from_spec(value: OutputFormat) -> Self {
        match value {
            OutputFormat::Json => "json",
            OutputFormat::Yaml => "yaml",
        }
    }
}

impl std::str::FromStr for OutputFormat {
    type Err = &'static str;

    /// Reads the name of an output form, as `parse_format` does: in small
    /// letters only.
    fn from_str(s: &str) -> (r: Result<Self, Self::Err>)
        ensures
            match output_format_named(s@) {
                Some(format) => r == Ok::<OutputFormat, &'static str>(format),
                None => r matches Err(e) && e@ == "Invalid format"@,
            },
    {
        parse_format(s)
    }
}

} // verus!
