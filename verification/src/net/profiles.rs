//! Profiles: signed envelopes that the relay stores under an address and
//! hands out again as they came.
//!
//! The storage engine is not part of this module. Writing is decided here
//! and carried out by the caller; reading is carried out by the caller and
//! answered here.

use vstd::prelude::*;
use vstd::slice::slice_to_vec;
use vstd::string::*;

use crate::crypto::errors::{CryptoError, SecpError};
use crate::crypto::{
    bytes_equal, ecdsa_verifies, is_compact_signature, is_public_key, sha2_256, sha2_digest,
    signature_verdict, verify_signature, PublicKey,
};
use crate::models::wrapper::{
    decode_wrapper, encode_wrapper, lemma_wrapper_round_trip, AuthWrapper, AuthWrapperView,
    SCHEME_ECDSA,
};
use crate::net::errors::{
    ServerError, BAD_REQUEST, INTERNAL_SERVER_ERROR, NOT_FOUND, NOT_IMPLEMENTED,
};
use crate::proto::DecodeError;

verus! {

/// Why a profile was not stored or not served.
#[derive(Debug)]
pub enum ProfileError {
    /// Nothing is stored under the address.
    NotFound,
    /// The storage engine failed; holds its diagnostic, which is for the
    /// log and never for the client.
    Database(String),
    /// The signature does not verify.
    InvalidSignature(SecpError),
    /// The payload's digest is no message to sign.
    Message(SecpError),
    /// The bytes are no envelope.
    ProfileDecode(DecodeError),
    /// The envelope's key is no compressed public key.
    PublicKey(SecpError),
    /// The envelope's signature is no compact signature.
    Signature(SecpError),
    /// The envelope's signature scheme is not ECDSA.
    UnsupportedScheme,
}

/// What a client may ask for beside the profile itself.
#[derive(Debug)]
pub struct Query {
    /// Whether the digest of the profile is wanted in place of the profile.
    pub digest: Option<bool>,
}

/// A record that is to be written to storage.
#[derive(Debug)]
pub struct PutProfile {
    /// The key under which to store: the body of the address.
    pub key: Vec<u8>,
    /// The bytes to store: the envelope as it came.
    pub value: Vec<u8>,
}

impl ProfileError {
    /// The text that describes this failure.
    pub open spec fn message(self) -> Seq<char> {
        match self {
            ProfileError::NotFound => "not found"@,
            ProfileError::Database(text) => text@,
            ProfileError::InvalidSignature(err) => err.message(),
            ProfileError::Message(err) => err.message(),
            ProfileError::ProfileDecode(err) => err.message(),
            ProfileError::PublicKey(err) => err.message(),
            ProfileError::Signature(err) => err.message(),
            ProfileError::UnsupportedScheme => "unsupported signature scheme"@,
        }
    }

    /// The status code that reports this failure.
    pub open spec fn status(self) -> u16 {
        match self {
            ProfileError::NotFound => NOT_FOUND,
            ProfileError::Database(_) => INTERNAL_SERVER_ERROR,
            ProfileError::UnsupportedScheme => NOT_IMPLEMENTED,
            _ => BAD_REQUEST,
        }
    }

    /// The body of the response that reports this failure: its text, but
    /// nothing at all for a failure of the storage engine.
    pub open spec fn body(self) -> Seq<char> {
        match self {
            ProfileError::Database(_) => Seq::<char>::empty(),
            _ => self.message(),
        }
    }

    /// Renders the failure as text.
    pub fn to_string(&self) -> (text: String)
        ensures
            text@ == self.message(),
    {
        match self {
            ProfileError::NotFound => String::from_str("not found"),
            ProfileError::Database(text) => text.clone(),
            ProfileError::InvalidSignature(err) => err.to_string(),
            ProfileError::Message(err) => err.to_string(),
            ProfileError::ProfileDecode(err) => err.to_string(),
            ProfileError::PublicKey(err) => err.to_string(),
            ProfileError::Signature(err) => err.to_string(),
            ProfileError::UnsupportedScheme => String::from_str("unsupported signature scheme"),
        }
    }

    /// The status code that reports this failure.
    pub fn to_status(&self) -> (code: u16)
        ensures
            code == self.status(),
    {
        match self {
            ProfileError::NotFound => NOT_FOUND,
            ProfileError::Database(_) => INTERNAL_SERVER_ERROR,
            ProfileError::UnsupportedScheme => NOT_IMPLEMENTED,
            _ => BAD_REQUEST,
        }
    }

    /// Status code and body of the response that reports this failure.
    ///
    /// A failure of the storage engine is answered with an internal error
    /// and an empty body: its diagnostic never reaches the client.
    pub fn error_response(&self) -> (response: (u16, String))
        ensures
            response.0 == self.status(),
            response.1@ == self.body(),
            self is Database ==> response.0 == INTERNAL_SERVER_ERROR && response.1@.len() == 0,
    {
        match self {
            ProfileError::Database(_) => (INTERNAL_SERVER_ERROR, String::new()),
            _ => (self.to_status(), self.to_string()),
        }
    }

    /// Wraps the diagnostic of the storage engine.
    pub fn from_db(diagnostic: String) -> (r: ProfileError)
        ensures
            r == ProfileError::Database(diagnostic),
    {
        ProfileError::Database(diagnostic)
    }

    /// The same failure in the server's general terms.
    pub open spec fn as_server_error(self) -> ServerError {
        match self {
            ProfileError::NotFound => ServerError::NotFound,
            ProfileError::Database(text) => ServerError::DB(text),
            ProfileError::InvalidSignature(_) => ServerError::Crypto(CryptoError::Verification),
            ProfileError::Message(_) => ServerError::Crypto(CryptoError::Verification),
            ProfileError::ProfileDecode(err) => ServerError::PayloadDecode(err),
            ProfileError::PublicKey(_) => ServerError::Crypto(CryptoError::PubkeyDeserialization),
            ProfileError::Signature(_) => ServerError::Crypto(CryptoError::SigDeserialization),
            ProfileError::UnsupportedScheme => ServerError::UnsupportedSigScheme,
        }
    }

    /// Turns the failure into the server's general terms.
    pub fn into_server_error(self) -> (r: ServerError)
        ensures
            r == self.as_server_error(),
            r.status() == self.status(),
    {
        match self {
            ProfileError::NotFound => ServerError::NotFound,
            ProfileError::Database(text) => ServerError::DB(text),
            ProfileError::InvalidSignature(_) => ServerError::Crypto(CryptoError::Verification),
            ProfileError::Message(_) => ServerError::Crypto(CryptoError::Verification),
            ProfileError::ProfileDecode(err) => ServerError::PayloadDecode(err),
            ProfileError::PublicKey(_) => ServerError::Crypto(CryptoError::PubkeyDeserialization),
            ProfileError::Signature(_) => ServerError::Crypto(CryptoError::SigDeserialization),
            ProfileError::UnsupportedScheme => ServerError::UnsupportedSigScheme,
        }
    }
}

/// What is wrong with an envelope; `None` where its signature stands.
///
/// The scheme is looked at first: an envelope of another scheme than ECDSA
/// is refused whatever else it holds.
pub open spec fn wrapper_fault(wrapper: AuthWrapperView) -> Option<ProfileError> {
    if wrapper.scheme != SCHEME_ECDSA {
        Some(ProfileError::UnsupportedScheme)
    } else if !is_public_key(wrapper.pub_key) {
        Some(ProfileError::PublicKey(SecpError::InvalidPublicKey))
    } else {
        match signature_verdict(
            sha2_256(wrapper.serialized_payload),
            wrapper.signature,
            wrapper.pub_key,
        ) {
            Ok(_) => None,
            Err(SecpError::InvalidSignature) => Some(
                ProfileError::Signature(SecpError::InvalidSignature),
            ),
            Err(err) => Some(ProfileError::InvalidSignature(err)),
        }
    }
}

/// What is wrong with `raw` as a profile; `None` where it is to be stored.
pub open spec fn profile_fault(raw: Seq<u8>) -> Option<ProfileError> {
    match decode_wrapper(raw) {
        Err(err) => Some(ProfileError::ProfileDecode(err)),
        Ok(wrapper) => wrapper_fault(wrapper),
    }
}

/// The outcome of a check as an option: `None` where it passed.
pub open spec fn fault_of(r: Result<(), ProfileError>) -> Option<ProfileError> {
    match r {
        Ok(_) => None,
        Err(err) => Some(err),
    }
}

/// Checks the signature of an envelope: that its scheme is ECDSA, that its
/// key is a compressed public key, and that its signature is a compact
/// signature by that key over the SHA-256 digest of the payload.
pub fn validate_wrapper(wrapper: &AuthWrapper) -> (r: Result<(), ProfileError>)
    ensures
        fault_of(r) == wrapper_fault(wrapper@),
{
    if wrapper.scheme != SCHEME_ECDSA {
        return Err(ProfileError::UnsupportedScheme);
    }
    let pubkey = match PublicKey::from_slice(wrapper.pub_key.as_slice()) {
        Ok(key) => key,
        Err(err) => { return Err(ProfileError::PublicKey(err)); },
    };
    if !bytes_equal(pubkey.as_bytes(), wrapper.pub_key.as_slice()) {
        return Err(ProfileError::PublicKey(SecpError::InvalidPublicKey));
    }
    let payload_digest = sha2_digest(wrapper.serialized_payload.as_slice());
    match verify_signature(payload_digest.as_slice(), wrapper.signature.as_slice(), &pubkey) {
        Ok(_) => Ok(()),
        Err(SecpError::InvalidSignature) => Err(
            ProfileError::Signature(SecpError::InvalidSignature),
        ),
        Err(SecpError::InvalidMessage) => Err(ProfileError::Message(SecpError::InvalidMessage)),
        Err(err) => Err(ProfileError::InvalidSignature(err)),
    }
}

/// Decides on a profile that a client wants stored under `addr`.
///
/// Where the envelope in `profile_raw` is in order, the answer is the record
/// to write: `profile_raw` as it came, under `addr`, in place of whatever is
/// stored there. Otherwise nothing is to be written.
pub fn put_profile(addr: &[u8], profile_raw: &[u8]) -> (r: Result<PutProfile, ProfileError>)
    ensures
        match profile_fault(profile_raw@) {
            None => r is Ok && r->Ok_0.key@ == addr@ && r->Ok_0.value@ == profile_raw@,
            Some(fault) => r is Err && r->Err_0 == fault,
        },
{
    let profile = match AuthWrapper::decode(profile_raw) {
        Ok(profile) => profile,
        Err(err) => { return Err(ProfileError::ProfileDecode(err)); },
    };
    match validate_wrapper(&profile) {
        Ok(_) => {},
        Err(err) => { return Err(err); },
    }
    Ok(PutProfile { key: slice_to_vec(addr), value: slice_to_vec(profile_raw) })
}

/// What a client gets who asks for a profile of which storage holds
/// `stored`: the bytes themselves, or their SHA-256 digest where that is
/// asked for.
pub open spec fn profile_response(stored: Option<Seq<u8>>, digest: Option<bool>) -> Result<
    Seq<u8>,
    ProfileError,
> {
    match stored {
        None => Err(ProfileError::NotFound),
        Some(raw) => if digest == Some(true) {
            Ok(sha2_256(raw))
        } else {
            Ok(raw)
        },
    }
}

/// Answers a client who asks for a profile, given what storage said when
/// asked for it: the stored bytes, nothing, or its diagnostic.
pub fn get_profile(fetched: Result<Option<Vec<u8>>, String>, query: &Query) -> (r: Result<
    Vec<u8>,
    ProfileError,
>)
    ensures
        match fetched {
            Err(diagnostic) => r is Err && r->Err_0 == ProfileError::Database(diagnostic),
            Ok(stored) => match profile_response(
                match stored {
                    Some(raw) => Some(raw@),
                    None => None,
                },
                query.digest,
            ) {
                Ok(body) => r is Ok && r->Ok_0@ == body,
                Err(err) => r is Err && r->Err_0 == err,
            },
        },
        r is Ok && query.digest == Some(true) ==> r->Ok_0@.len() == 32,
{
    let stored = match fetched {
        Ok(stored) => stored,
        Err(diagnostic) => { return Err(ProfileError::Database(diagnostic)); },
    };
    let raw_profile = match stored {
        Some(raw) => raw,
        None => { return Err(ProfileError::NotFound); },
    };
    match query.digest {
        Some(true) => Ok(sha2_digest(raw_profile.as_slice())),
        _ => Ok(raw_profile),
    }
}

/// What storage holds after a client asked to have `raw` stored under
/// `addr`: the envelope under that address where it is in order, and what it
/// held before where it is not.
pub open spec fn store_after_put(
    store: Map<Seq<u8>, Seq<u8>>,
    addr: Seq<u8>,
    raw: Seq<u8>,
) -> Map<Seq<u8>, Seq<u8>> {
    if profile_fault(raw) is None {
        store.insert(addr, raw)
    } else {
        store
    }
}

/// What storage holds under `addr`.
pub open spec fn stored_under(store: Map<Seq<u8>, Seq<u8>>, addr: Seq<u8>) -> Option<Seq<u8>> {
    if store.contains_key(addr) {
        Some(store[addr])
    } else {
        None
    }
}

/// A profile that was accepted is served as it came, byte for byte, and its
/// digest is the SHA-256 digest of those bytes.
pub proof fn lemma_accepted_profile_is_served(
    store: Map<Seq<u8>, Seq<u8>>,
    addr: Seq<u8>,
    raw: Seq<u8>,
)
    requires
        profile_fault(raw) is None,
    ensures
        profile_response(stored_under(store_after_put(store, addr, raw), addr), None) == Ok::<
            Seq<u8>,
            ProfileError,
        >(raw),
        profile_response(stored_under(store_after_put(store, addr, raw), addr), Some(false))
            == Ok::<Seq<u8>, ProfileError>(raw),
        profile_response(stored_under(store_after_put(store, addr, raw), addr), Some(true))
            == Ok::<Seq<u8>, ProfileError>(sha2_256(raw)),
{
}

/// An envelope of the ECDSA scheme with a compressed key and a signature by
/// that key over the digest of its payload is accepted, stored as it was
/// written, and served so.
pub proof fn lemma_signed_profile_is_accepted(
    store: Map<Seq<u8>, Seq<u8>>,
    addr: Seq<u8>,
    wrapper: AuthWrapperView,
)
    requires
        wrapper.scheme == SCHEME_ECDSA,
        is_public_key(wrapper.pub_key),
        is_compact_signature(wrapper.signature),
        ecdsa_verifies(sha2_256(wrapper.serialized_payload), wrapper.signature, wrapper.pub_key),
        encode_wrapper(wrapper).len() <= usize::MAX,
    ensures
        profile_fault(encode_wrapper(wrapper)) is None,
        profile_response(
            stored_under(store_after_put(store, addr, encode_wrapper(wrapper)), addr),
            None,
        ) == Ok::<Seq<u8>, ProfileError>(encode_wrapper(wrapper)),
{
    lemma_wrapper_round_trip(wrapper);
}

/// An envelope of another scheme than ECDSA is refused as unsupported,
/// whatever else it holds, and storage stays as it was.
pub proof fn lemma_other_scheme_is_refused(
    store: Map<Seq<u8>, Seq<u8>>,
    addr: Seq<u8>,
    raw: Seq<u8>,
)
    requires
        decode_wrapper(raw) is Ok,
        decode_wrapper(raw)->Ok_0.scheme != SCHEME_ECDSA,
    ensures
        profile_fault(raw) == Some(ProfileError::UnsupportedScheme),
        ProfileError::UnsupportedScheme.as_server_error() == ServerError::UnsupportedSigScheme,
        store_after_put(store, addr, raw) == store,
{
}

/// A profile that was refused leaves storage as it was.
pub proof fn lemma_refused_profile_is_not_stored(
    store: Map<Seq<u8>, Seq<u8>>,
    addr: Seq<u8>,
    raw: Seq<u8>,
)
    requires
        profile_fault(raw) is Some,
    ensures
        store_after_put(store, addr, raw) == store,
{
}

} // verus!
