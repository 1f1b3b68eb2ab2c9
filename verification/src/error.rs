//! The ways in which an operation on keys, signatures and envelopes fails.

use vstd::prelude::*;

verus! {

/// Why an operation could not be performed.
///
/// A signature that does not match is no error: verification answers `false`.
#[derive(Clone, Copy, Debug, PartialEq, Eq, Structural)]
pub enum TextError {
    /// Key material, a signature, base64 text or an envelope is malformed.
    Format,
    /// The authentication tag of an envelope did not verify.
    Authentication,
    /// The message is longer than the cipher can seal.
    MessageTooLong,
}

impl TextError {
    /// The message that goes with this error, as text.
    pub fn message(&self) -> (text: &'static str)
        ensures
            text@ == self.message_spec(),
    {
        match self {
            TextError::Format => "malformed key, signature or envelope",
            TextError::Authentication => "authentication failed",
            TextError::MessageTooLong => "message too long",
        }
    }

    /// What `message` returns.
    pub open spec fn message_spec(&self) -> Seq<char> {
        match self {
            TextError::Format => "malformed key, signature or envelope"@,
            TextError::Authentication => "authentication failed"@,
            TextError::MessageTooLong => "message too long"@,
        }
    }
}

} // verus!
