//! The failures that a request can end in, and the response that reports
//! each: a status code and a body.

use vstd::prelude::*;
use vstd::string::*;

use crate::bitcoin::BitcoinError;
use crate::crypto::errors::CryptoError;
use crate::proto::DecodeError;

verus! {

/// The request was malformed.
pub const BAD_REQUEST: u16 = 400;

/// The resource is to be paid for first.
pub const PAYMENT_REQUIRED: u16 = 402;

/// Nothing is stored under the address.
pub const NOT_FOUND: u16 = 404;

/// The client accepts no content type that the relay can answer in.
pub const NOT_ACCEPTABLE: u16 = 406;

/// The request's content type is not the payment protocol's.
pub const UNSUPPORTED_MEDIA_TYPE: u16 = 415;

/// The relay itself failed.
pub const INTERNAL_SERVER_ERROR: u16 = 500;

/// The request asks for what the relay does not implement.
pub const NOT_IMPLEMENTED: u16 = 501;

/// Why address metadata was refused.
#[derive(Debug)]
pub enum ValidationError {
    KeyType,
    Preimage,
    Outdated,
    ExpiredTTL,
    Crypto(CryptoError),
}

impl ValidationError {
    /// The text that describes this failure.
    pub open spec fn message(self) -> Seq<char> {
        match self {
            ValidationError::KeyType => "bad key type"@,
            ValidationError::Preimage => "digest mismatch"@,
            ValidationError::Outdated => "metadata is outdated"@,
            ValidationError::ExpiredTTL => "expired TTL"@,
            ValidationError::Crypto(err) => err.message(),
        }
    }

    /// The status code that reports this failure: payment required for a
    /// credential whose time has passed, so that the client pays again; that
    /// of the cryptographic failure where it is one; a bad request
    /// otherwise.
    pub open spec fn status(self) -> u16 {
        match self {
            ValidationError::ExpiredTTL => PAYMENT_REQUIRED,
            ValidationError::Crypto(err) => err.status(),
            _ => BAD_REQUEST,
        }
    }

    /// Renders the failure as text.
    pub fn to_string(&self) -> (text: String)
        ensures
            text@ == self.message(),
    {
        match self {
            ValidationError::KeyType => String::from_str("bad key type"),
            ValidationError::Preimage => String::from_str("digest mismatch"),
            ValidationError::Outdated => String::from_str("metadata is outdated"),
            ValidationError::ExpiredTTL => String::from_str("expired TTL"),
            ValidationError::Crypto(err) => err.to_string(),
        }
    }

    /// Status code and body of the response that reports this failure.
    pub fn error_response(&self) -> (response: (u16, String))
        ensures
            response.0 == self.status(),
            response.1@ == self.message(),
    {
        match self {
            ValidationError::Crypto(err_inner) => err_inner.error_response(),
            ValidationError::ExpiredTTL => (PAYMENT_REQUIRED, self.to_string()),
            _ => (BAD_REQUEST, self.to_string()),
        }
    }
}

/// Why a stamp was refused, as the server reports it.
#[derive(Debug)]
pub enum StampError {
    Decode(String),
    MissingOutput,
    NotP2PKH,
    TxReject(BitcoinError),
    UnexpectedAddress,
    /// The payload's digest is no secret key, so that no stamp fits it.
    InvalidDigest,
}

impl StampError {
    /// The text that describes this failure.
    pub open spec fn message(self) -> Seq<char> {
        match self {
            StampError::Decode(text) => text@,
            StampError::TxReject(err) => err.message(),
            StampError::MissingOutput => "missing stamp output"@,
            StampError::NotP2PKH => "stamp output was not p2pkh"@,
            StampError::UnexpectedAddress => "stamp address was unexpected"@,
            StampError::InvalidDigest => "stamp payload has no key"@,
        }
    }

    /// The status code that reports this failure.
    pub open spec fn status(self) -> u16 {
        BAD_REQUEST
    }

    /// Renders the failure as text.
    pub fn to_string(&self) -> (text: String)
        ensures
            text@ == self.message(),
    {
        match self {
            StampError::Decode(text) => text.clone(),
            StampError::TxReject(err) => err.to_string(),
            StampError::MissingOutput => String::from_str("missing stamp output"),
            StampError::NotP2PKH => String::from_str("stamp output was not p2pkh"),
            StampError::UnexpectedAddress => String::from_str("stamp address was unexpected"),
            StampError::InvalidDigest => String::from_str("stamp payload has no key"),
        }
    }

    /// Status code and body of the response that reports this failure.
    pub fn error_response(&self) -> (response: (u16, String))
        ensures
            response.0 == self.status(),
            response.1@ == self.message(),
    {
        (BAD_REQUEST, self.to_string())
    }
}

/// Why a payment, or a request that needed one, was refused.
#[derive(Debug)]
pub enum PaymentError {
    Content,
    Accept,
    Decode,
    Payload,
    NoMerchantDat,
    InvalidMerchantDat,
    InvalidAuth,
    NoToken,
    URIMalformed,
    NoTx,
    TxDeserialize(String),
    InvalidOutputs,
    TxReject(BitcoinError),
    MismatchedNetwork,
    AddrFetchFailed,
}

impl PaymentError {
    /// The text that describes this failure.
    pub open spec fn message(self) -> Seq<char> {
        match self {
            PaymentError::Content => "invalid content-type"@,
            PaymentError::Accept => "not acceptable"@,
            PaymentError::Decode => "failed to decode body"@,
            PaymentError::Payload => "failed to receive payload"@,
            PaymentError::NoMerchantDat => "no merchant data"@,
            PaymentError::InvalidMerchantDat => "invalid merchant data"@,
            PaymentError::NoToken => "no token"@,
            PaymentError::InvalidAuth => "invalid authorization"@,
            PaymentError::URIMalformed => "malformed URI"@,
            PaymentError::NoTx => "no payment tx"@,
            PaymentError::TxDeserialize(_) => "payment tx malformed"@,
            PaymentError::InvalidOutputs => "invalid outputs"@,
            PaymentError::TxReject(err) => err.message(),
            PaymentError::AddrFetchFailed => "failed to fetch address"@,
            PaymentError::MismatchedNetwork => "address mismatched with node network"@,
        }
    }

    /// The status code that reports this failure: payment required where a
    /// token is missing or wrong, and a plain bad request for most others.
    pub open spec fn status(self) -> u16 {
        match self {
            PaymentError::Accept => NOT_ACCEPTABLE,
            PaymentError::Content => UNSUPPORTED_MEDIA_TYPE,
            PaymentError::InvalidAuth => PAYMENT_REQUIRED,
            PaymentError::NoToken => PAYMENT_REQUIRED,
            PaymentError::AddrFetchFailed => INTERNAL_SERVER_ERROR,
            _ => BAD_REQUEST,
        }
    }

    /// Renders the failure as text.
    pub fn to_string(&self) -> (text: String)
        ensures
            text@ == self.message(),
    {
        match self {
            PaymentError::Content => String::from_str("invalid content-type"),
            PaymentError::Accept => String::from_str("not acceptable"),
            PaymentError::Decode => String::from_str("failed to decode body"),
            PaymentError::Payload => String::from_str("failed to receive payload"),
            PaymentError::NoMerchantDat => String::from_str("no merchant data"),
            PaymentError::InvalidMerchantDat => String::from_str("invalid merchant data"),
            PaymentError::NoToken => String::from_str("no token"),
            PaymentError::InvalidAuth => String::from_str("invalid authorization"),
            PaymentError::URIMalformed => String::from_str("malformed URI"),
            PaymentError::NoTx => String::from_str("no payment tx"),
            PaymentError::TxDeserialize(_) => String::from_str("payment tx malformed"),
            PaymentError::InvalidOutputs => String::from_str("invalid outputs"),
            PaymentError::TxReject(err) => err.to_string(),
            PaymentError::AddrFetchFailed => String::from_str("failed to fetch address"),
            PaymentError::MismatchedNetwork => String::from_str(
                "address mismatched with node network",
            ),
        }
    }

    /// The status code that reports this failure.
    pub fn status_code(&self) -> (code: u16)
        ensures
            code == self.status(),
    {
        match self {
            PaymentError::Accept => NOT_ACCEPTABLE,
            PaymentError::Content => UNSUPPORTED_MEDIA_TYPE,
            PaymentError::NoMerchantDat => BAD_REQUEST,
            PaymentError::Payload => BAD_REQUEST,
            PaymentError::Decode => BAD_REQUEST,
            PaymentError::InvalidMerchantDat => BAD_REQUEST,
            PaymentError::InvalidAuth => PAYMENT_REQUIRED,
            PaymentError::NoToken => PAYMENT_REQUIRED,
            PaymentError::URIMalformed => BAD_REQUEST,
            PaymentError::NoTx => BAD_REQUEST,
            PaymentError::TxDeserialize(_) => BAD_REQUEST,
            PaymentError::InvalidOutputs => BAD_REQUEST,
            PaymentError::TxReject(_) => BAD_REQUEST,
            PaymentError::MismatchedNetwork => BAD_REQUEST,
            PaymentError::AddrFetchFailed => INTERNAL_SERVER_ERROR,
        }
    }

    /// Status code and body of the response that reports this failure.
    pub fn error_response(&self) -> (response: (u16, String))
        ensures
            response.0 == self.status(),
            response.1@ == self.message(),
    {
        (self.status_code(), self.to_string())
    }

    /// Wraps the complaint of the transaction decoder.
    pub fn from_tx_decode(text: String) -> (r: PaymentError)
        ensures
            r == PaymentError::TxDeserialize(text),
    {
        PaymentError::TxDeserialize(text)
    }
}

/// Every way in which the server can fail a request.
#[derive(Debug)]
pub enum ServerError {
    /// The address is in neither encoding; holds the complaint of each.
    Address(String, String),
    /// The request's body did not arrive whole.
    Buffer(String),
    /// The storage engine failed; holds its diagnostic, which is for the
    /// log and never for the client.
    DB(String),
    DestinationMalformed,
    DegenerateCombination,
    Crypto(CryptoError),
    FilterDecode(DecodeError),
    Validation(ValidationError),
    MessagesDecode(DecodeError),
    NotFound,
    PayloadDecode(DecodeError),
    Payment(PaymentError),
    Stamp(StampError),
    UnsupportedSigScheme,
}

impl ServerError {
    /// The text that describes this failure.
    pub open spec fn message(self) -> Seq<char> {
        match self {
            ServerError::Address(cash_err, base58_err) => cash_err@ + ", "@ + base58_err@,
            ServerError::Buffer(text) => text@,
            ServerError::Crypto(err) => err.message(),
            ServerError::DB(text) => text@,
            ServerError::DegenerateCombination =>
                "combined public key was the reciprocal of the destination address"@,
            ServerError::DestinationMalformed => "destination pubkey malformed"@,
            ServerError::FilterDecode(err) => err.message(),
            ServerError::MessagesDecode(err) => err.message(),
            ServerError::NotFound => "not found"@,
            ServerError::UnsupportedSigScheme => "signature scheme not supported"@,
            ServerError::PayloadDecode(err) => err.message(),
            ServerError::Payment(err) => err.message(),
            ServerError::Validation(err) => err.message(),
            ServerError::Stamp(err) => err.message(),
        }
    }

    /// The status code that reports this failure.
    pub open spec fn status(self) -> u16 {
        match self {
            ServerError::DB(_) => INTERNAL_SERVER_ERROR,
            ServerError::NotFound => NOT_FOUND,
            ServerError::UnsupportedSigScheme => NOT_IMPLEMENTED,
            ServerError::Payment(err) => err.status(),
            ServerError::Validation(err) => err.status(),
            _ => BAD_REQUEST,
        }
    }

    /// The body of the response that reports this failure: its text, but
    /// nothing at all for a failure of the storage engine.
    pub open spec fn body(self) -> Seq<char> {
        match self {
            ServerError::DB(_) => Seq::<char>::empty(),
            _ => self.message(),
        }
    }

    /// Renders the failure as text.
    pub fn to_string(&self) -> (text: String)
        ensures
            text@ == self.message(),
    {
        match self {
            ServerError::Address(cash_err, base58_err) => {
                let mut text = cash_err.clone();
                text.append(", ");
                text.append(base58_err.as_str());
                text
            },
            ServerError::Buffer(text) => text.clone(),
            ServerError::Crypto(err) => err.to_string(),
            ServerError::DB(text) => text.clone(),
            ServerError::DegenerateCombination => String::from_str(
                "combined public key was the reciprocal of the destination address",
            ),
            ServerError::DestinationMalformed => String::from_str("destination pubkey malformed"),
            ServerError::FilterDecode(err) => err.to_string(),
            ServerError::MessagesDecode(err) => err.to_string(),
            ServerError::NotFound => String::from_str("not found"),
            ServerError::UnsupportedSigScheme => String::from_str(
                "signature scheme not supported",
            ),
            ServerError::PayloadDecode(err) => err.to_string(),
            ServerError::Payment(err) => err.to_string(),
            ServerError::Validation(err) => err.to_string(),
            ServerError::Stamp(err) => err.to_string(),
        }
    }

    /// Status code and body of the response that reports this failure.
    ///
    /// A failure of the storage engine is answered with an internal error
    /// and an empty body: its diagnostic never reaches the client.
    pub fn error_response(&self) -> (response: (u16, String))
        ensures
            response.0 == self.status(),
            response.1@ == self.body(),
            self is DB ==> response.0 == INTERNAL_SERVER_ERROR && response.1@.len() == 0,
    {
        match self {
            ServerError::Address(_, _) => (BAD_REQUEST, self.to_string()),
            ServerError::DB(_) => (INTERNAL_SERVER_ERROR, String::new()),
            ServerError::Buffer(_) => (BAD_REQUEST, self.to_string()),
            ServerError::DegenerateCombination => (BAD_REQUEST, self.to_string()),
            ServerError::DestinationMalformed => (BAD_REQUEST, self.to_string()),
            ServerError::Crypto(err) => err.error_response(),
            ServerError::FilterDecode(_) => (BAD_REQUEST, self.to_string()),
            ServerError::MessagesDecode(_) => (BAD_REQUEST, self.to_string()),
            ServerError::NotFound => (NOT_FOUND, self.to_string()),
            ServerError::UnsupportedSigScheme => (NOT_IMPLEMENTED, self.to_string()),
            ServerError::Validation(err) => err.error_response(),
            ServerError::Payment(err) => err.error_response(),
            ServerError::PayloadDecode(_) => (BAD_REQUEST, self.to_string()),
            ServerError::Stamp(err) => err.error_response(),
        }
    }

    /// A refused stamp in the server's terms: a degenerate combination is a
    /// failure of its own, and every other refusal a stamp failure.
    pub open spec fn of_stamp_check(err: crate::stamps::StampError) -> ServerError {
        match err {
            crate::stamps::StampError::Decode(text) => ServerError::Stamp(StampError::Decode(text)),
            crate::stamps::StampError::MissingOutput => ServerError::Stamp(
                StampError::MissingOutput,
            ),
            crate::stamps::StampError::NotP2PKH => ServerError::Stamp(StampError::NotP2PKH),
            crate::stamps::StampError::TxReject(err) => ServerError::Stamp(
                StampError::TxReject(err),
            ),
            crate::stamps::StampError::UnexpectedAddress => ServerError::Stamp(
                StampError::UnexpectedAddress,
            ),
            crate::stamps::StampError::DegenerateCombination => ServerError::DegenerateCombination,
            crate::stamps::StampError::InvalidDigest => ServerError::Stamp(
                StampError::InvalidDigest,
            ),
        }
    }

    /// Turns a refused stamp into the server's terms.
    pub fn from_stamp_check(err: crate::stamps::StampError) -> (r: ServerError)
        ensures
            r == ServerError::of_stamp_check(err),
            r.status() == BAD_REQUEST,
    {
        match err {
            crate::stamps::StampError::Decode(text) => ServerError::Stamp(StampError::Decode(text)),
            crate::stamps::StampError::MissingOutput => ServerError::Stamp(
                StampError::MissingOutput,
            ),
            crate::stamps::StampError::NotP2PKH => ServerError::Stamp(StampError::NotP2PKH),
            crate::stamps::StampError::TxReject(err) => ServerError::Stamp(
                StampError::TxReject(err),
            ),
            crate::stamps::StampError::UnexpectedAddress => ServerError::Stamp(
                StampError::UnexpectedAddress,
            ),
            crate::stamps::StampError::DegenerateCombination => ServerError::DegenerateCombination,
            crate::stamps::StampError::InvalidDigest => ServerError::Stamp(
                StampError::InvalidDigest,
            ),
        }
    }

    /// Wraps the two complaints of the address decoders.
    pub fn from_address(cash_err: String, base58_err: String) -> (r: ServerError)
        ensures
            r == ServerError::Address(cash_err, base58_err),
    {
        ServerError::Address(cash_err, base58_err)
    }

    /// Wraps the diagnostic of the storage engine.
    pub fn from_db(diagnostic: String) -> (r: ServerError)
        ensures
            r == ServerError::DB(diagnostic),
    {
        ServerError::DB(diagnostic)
    }
}

impl From<CryptoError> for ValidationError {
    fn from(err: CryptoError) -> (r: ValidationError) {
        ValidationError::Crypto(err)
    }
}

impl vstd::std_specs::convert::FromSpecImpl<CryptoError> for ValidationError {
    open spec fn obeys_from_spec() -> bool {
        true
    }

    open spec fn from_spec(err: CryptoError) -> ValidationError {
        ValidationError::Crypto(err)
    }
}

impl From<StampError> for ServerError {
    fn from(err: StampError) -> (r: ServerError) {
        ServerError::Stamp(err)
    }
}

impl vstd::std_specs::convert::FromSpecImpl<StampError> for ServerError {
    open spec fn obeys_from_spec() -> bool {
        true
    }

    open spec fn from_spec(err: StampError) -> ServerError {
        ServerError::Stamp(err)
    }
}

impl From<CryptoError> for ServerError {
    fn from(err: CryptoError) -> (r: ServerError) {
        ServerError::Crypto(err)
    }
}

impl vstd::std_specs::convert::FromSpecImpl<CryptoError> for ServerError {
    open spec fn obeys_from_spec() -> bool {
        true
    }

    open spec fn from_spec(err: CryptoError) -> ServerError {
        ServerError::Crypto(err)
    }
}

impl From<ValidationError> for ServerError {
    fn from(err: ValidationError) -> (r: ServerError) {
        ServerError::Validation(err)
    }
}

impl vstd::std_specs::convert::FromSpecImpl<ValidationError> for ServerError {
    open spec fn obeys_from_spec() -> bool {
        true
    }

    open spec fn from_spec(err: ValidationError) -> ServerError {
        ServerError::Validation(err)
    }
}

impl From<PaymentError> for ServerError {
    fn from(err: PaymentError) -> (r: ServerError) {
        ServerError::Payment(err)
    }
}

impl vstd::std_specs::convert::FromSpecImpl<PaymentError> for ServerError {
    open spec fn obeys_from_spec() -> bool {
        true
    }

    open spec fn from_spec(err: PaymentError) -> ServerError {
        ServerError::Payment(err)
    }
}

/// Whatever fails, the response carries one of the seven status codes that
/// the relay uses for failures.
pub proof fn lemma_status_is_known(err: ServerError)
    ensures
        err.status() == BAD_REQUEST || err.status() == PAYMENT_REQUIRED || err.status()
            == NOT_FOUND || err.status() == NOT_ACCEPTABLE || err.status()
            == UNSUPPORTED_MEDIA_TYPE || err.status() == INTERNAL_SERVER_ERROR || err.status()
            == NOT_IMPLEMENTED,
{
}

/// A failure of the storage engine is answered with an internal error and
/// an empty body, whatever its diagnostic says.
pub proof fn lemma_storage_failure_is_opaque(diagnostic: String)
    ensures
        ServerError::DB(diagnostic).status() == INTERNAL_SERVER_ERROR,
        ServerError::DB(diagnostic).body() == Seq::<char>::empty(),
{
}

} // verus!
