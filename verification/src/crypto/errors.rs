//! Failures of key handling and signature checking.

use vstd::prelude::*;
use vstd::string::*;

verus! {

/// Why a key or a signature was refused.
#[derive(Debug, Clone, Copy, PartialEq, Eq, Structural)]
pub enum CryptoError {
    /// The bytes do not encode a public key.
    PubkeyDeserialization,
    /// The bytes do not encode a signature.
    SigDeserialization,
    /// The signature does not verify under the key.
    Verification,
}

impl CryptoError {
    /// The text shown to a client for this failure.
    pub open spec fn message(self) -> Seq<char> {
        match self {
            CryptoError::PubkeyDeserialization => "pubkey deserialization failed"@,
            CryptoError::SigDeserialization => "signature deserialization failed"@,
            CryptoError::Verification => "signature verification failed"@,
        }
    }

    /// Every cryptographic failure is the client's fault.
    pub open spec fn status(self) -> u16 {
        400
    }

    /// Renders the failure as text.
    pub fn to_string(&self) -> (text: String)
        ensures
            text@ == self.message(),
    {
        match self {
            CryptoError::PubkeyDeserialization => String::from_str("pubkey deserialization failed"),
            CryptoError::SigDeserialization => String::from_str(
                "signature deserialization failed",
            ),
            CryptoError::Verification => String::from_str("signature verification failed"),
        }
    }

    /// Status code and body of the response that reports this failure.
    pub fn error_response(&self) -> (response: (u16, String))
        ensures
            response.0 == self.status(),
            response.1@ == self.message(),
    {
        (400, self.to_string())
    }
}

/// Why the curve library refused a value.
#[derive(Debug, Clone, Copy, PartialEq, Eq, Structural)]
pub enum SecpError {
    /// The signature does not verify.
    IncorrectSignature,
    /// The message is not 32 bytes long.
    InvalidMessage,
    /// The bytes do not encode a public key.
    InvalidPublicKey,
    /// The bytes do not encode a signature.
    InvalidSignature,
    /// The bytes are no secret key.
    InvalidSecretKey,
}

impl SecpError {
    /// The text that describes this failure.
    pub open spec fn message(self) -> Seq<char> {
        match self {
            SecpError::IncorrectSignature => "secp: signature failed verification"@,
            SecpError::InvalidMessage => "secp: message was not 32 bytes (do you need to hash?)"@,
            SecpError::InvalidPublicKey => "secp: malformed public key"@,
            SecpError::InvalidSignature => "secp: malformed signature"@,
            SecpError::InvalidSecretKey => "secp: malformed or out-of-range secret key"@,
        }
    }

    /// Renders the failure as text.
    pub fn to_string(&self) -> (text: String)
        ensures
            text@ == self.message(),
    {
        match self {
            SecpError::IncorrectSignature => String::from_str(
                "secp: signature failed verification",
            ),
            SecpError::InvalidMessage => String::from_str(
                "secp: message was not 32 bytes (do you need to hash?)",
            ),
            SecpError::InvalidPublicKey => String::from_str("secp: malformed public key"),
            SecpError::InvalidSignature => String::from_str("secp: malformed signature"),
            SecpError::InvalidSecretKey => String::from_str(
                "secp: malformed or out-of-range secret key",
            ),
        }
    }
}

} // verus!
