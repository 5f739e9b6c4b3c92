//! Hashes, keys and signatures.
//!
//! The primitives themselves are computed by `bitcoin_hashes`, `sha2` and
//! `secp256k1`; this module gives each of them a contract over plain bytes.

use vstd::prelude::*;

use self::errors::SecpError;

pub mod errors;

verus! {

/// The SHA-256 digest of `data`, as `bitcoin_hashes` computes it.
pub uninterp spec fn sha256(data: Seq<u8>) -> Seq<u8>;

/// The SHA-256 digest of `data`, as `sha2` computes it.
pub uninterp spec fn sha2_256(data: Seq<u8>) -> Seq<u8>;

/// RIPEMD-160 of SHA-256 of `data`, as `bitcoin_hashes` computes it.
pub uninterp spec fn hash160(data: Seq<u8>) -> Seq<u8>;

/// HMAC-SHA256 of `message` under `key`, as `bitcoin_hashes` computes it.
pub uninterp spec fn hmac_sha256(key: Seq<u8>, message: Seq<u8>) -> Seq<u8>;

/// The compressed encoding of the public key that `data` encodes, if it
/// encodes one.
pub uninterp spec fn parse_public_key(data: Seq<u8>) -> Option<Seq<u8>>;

/// The compressed encoding of the public key that belongs to the secret key
/// `scalar`.
pub uninterp spec fn public_key_of(scalar: Seq<u8>) -> Seq<u8>;

/// The compressed encoding of the sum of the curve points `a` and `b`, or
/// `None` where the sum is the point at infinity.
pub uninterp spec fn public_key_sum(a: Seq<u8>, b: Seq<u8>) -> Option<Seq<u8>>;

/// Whether `signature` is a valid ECDSA signature over `digest` under `key`.
pub uninterp spec fn ecdsa_verifies(digest: Seq<u8>, signature: Seq<u8>, key: Seq<u8>) -> bool;

/// The number that `data` spells, most significant byte first.
pub open spec fn be_value(data: Seq<u8>) -> nat
    decreases data.len(),
{
    if data.len() == 0 {
        0
    } else {
        be_value(data.drop_last()) * 256 + data.last() as nat
    }
}

/// The order of the secp256k1 group.
pub open spec fn curve_order() -> nat {
    0xFFFFFFFFFFFFFFFFFFFFFFFFFFFFFFFEBAAEDCE6AF48A03BBFD25E8CD0364141nat
}

/// Whether `data` is a secret key: 32 bytes that spell a nonzero number
/// below the group order.
pub open spec fn is_secret_key(data: Seq<u8>) -> bool {
    data.len() == 32 && 0 < be_value(data) < curve_order()
}

/// Whether `data` is a compact signature: 64 bytes, of which each half
/// spells a number below the group order.
pub open spec fn is_compact_signature(data: Seq<u8>) -> bool {
    &&& data.len() == 64
    &&& be_value(data.subrange(0, 32)) < curve_order()
    &&& be_value(data.subrange(32, 64)) < curve_order()
}

/// Whether `key` is the compressed encoding of a public key.
pub open spec fn is_public_key(key: Seq<u8>) -> bool {
    parse_public_key(key) == Some(key)
}

/// Calls `bitcoin_hashes::sha256::Hash::hash`. Trusted: the 32 bytes that
/// come back are the digest named `sha256`.
#[verifier::external_body]
pub(crate) fn sha256_digest(data: &[u8]) -> (digest: Vec<u8>)
    ensures
        digest@ == sha256(data@),
        digest@.len() == 32,
{
    bitcoin_hashes::Hash::into_inner(
        <bitcoin_hashes::sha256::Hash as bitcoin_hashes::Hash>::hash(data),
    ).to_vec()
}

/// Calls `sha2::Sha256::digest`. Trusted: the 32 bytes that come back are
/// the digest named `sha2_256`.
#[verifier::external_body]
pub(crate) fn sha2_digest(data: &[u8]) -> (digest: Vec<u8>)
    ensures
        digest@ == sha2_256(data@),
        digest@.len() == 32,
{
    <sha2::Sha256 as sha2::Digest>::digest(data).to_vec()
}

/// Calls `bitcoin_hashes::hash160::Hash::hash`. Trusted: the 20 bytes that
/// come back are the digest named `hash160`.
#[verifier::external_body]
pub(crate) fn hash160_digest(data: &[u8]) -> (digest: Vec<u8>)
    ensures
        digest@ == hash160(data@),
        digest@.len() == 20,
{
    bitcoin_hashes::Hash::into_inner(
        <bitcoin_hashes::hash160::Hash as bitcoin_hashes::Hash>::hash(data),
    ).to_vec()
}

/// Feeds `message` to a `bitcoin_hashes::hmac::HmacEngine` over SHA-256
/// keyed with `key`. Trusted: the 32 bytes that come back are the code named
/// `hmac_sha256`.
#[verifier::external_body]
pub(crate) fn hmac_sha256_code(key: &[u8], message: &[u8]) -> (code: Vec<u8>)
    ensures
        code@ == hmac_sha256(key@, message@),
        code@.len() == 32,
{
    let mut engine = bitcoin_hashes::hmac::HmacEngine::<bitcoin_hashes::sha256::Hash>::new(key);
    bitcoin_hashes::HashEngine::input(&mut engine, message);
    let code = <bitcoin_hashes::hmac::Hmac<bitcoin_hashes::sha256::Hash> as bitcoin_hashes::Hash>::from_engine(engine);
    bitcoin_hashes::Hash::into_inner(code).to_vec()
}

/// Calls `secp256k1::PublicKey::from_slice` and, on success,
/// `PublicKey::serialize`. Trusted: the call succeeds exactly where
/// `parse_public_key` names a key, the 33 bytes that come back are that
/// key's compressed encoding, and that encoding parses to itself.
#[verifier::external_body]
fn secp_parse_public_key(data: &[u8]) -> (key: Option<Vec<u8>>)
    ensures
        key is Some <==> parse_public_key(data@) is Some,
        key matches Some(k) ==> parse_public_key(data@) == Some(k@) && k@.len() == 33
            && parse_public_key(k@) == Some(k@),
{
    match secp256k1::PublicKey::from_slice(data) {
        Ok(key) => Some(key.serialize().to_vec()),
        Err(_) => None,
    }
}

/// Calls `secp256k1::SecretKey::from_slice` and, on success,
/// `PublicKey::from_secret_key`. Trusted: the first call succeeds exactly on
/// a secret key as `is_secret_key` defines it, and the bytes that come back
/// are the compressed encoding of the key named `public_key_of`.
#[verifier::external_body]
fn secp_derive_public_key(scalar: &[u8]) -> (key: Option<Vec<u8>>)
    ensures
        key is Some <==> is_secret_key(scalar@),
        key matches Some(k) ==> k@ == public_key_of(scalar@) && parse_public_key(k@) == Some(k@),
{
    match secp256k1::SecretKey::from_slice(scalar) {
        Ok(secret) => {
            let context = secp256k1::Secp256k1::signing_only();
            Some(secp256k1::PublicKey::from_secret_key(&context, &secret).serialize().to_vec())
        },
        Err(_) => None,
    }
}

/// Calls `secp256k1::PublicKey::combine` on the keys that `a` and `b`
/// encode. Trusted: the call fails exactly where `public_key_sum` is `None`,
/// and otherwise the bytes that come back are the compressed encoding of the
/// sum.
#[verifier::external_body]
fn secp_combine(a: &[u8], b: &[u8]) -> (sum: Option<Vec<u8>>)
    requires
        is_public_key(a@),
        is_public_key(b@),
    ensures
        sum is Some <==> public_key_sum(a@, b@) is Some,
        sum matches Some(k) ==> public_key_sum(a@, b@) == Some(k@) && parse_public_key(k@)
            == Some(k@),
{
    let a = secp256k1::PublicKey::from_slice(a).ok()?;
    let b = secp256k1::PublicKey::from_slice(b).ok()?;
    match a.combine(&b) {
        Ok(sum) => Some(sum.serialize().to_vec()),
        Err(_) => None,
    }
}

/// Calls `secp256k1::Signature::from_compact`. Trusted: the call succeeds
/// exactly on a compact signature as `is_compact_signature` defines it.
#[verifier::external_body]
fn secp_is_compact_signature(data: &[u8]) -> (parses: bool)
    ensures
        parses == is_compact_signature(data@),
{
    secp256k1::Signature::from_compact(data).is_ok()
}

/// Calls `secp256k1::Secp256k1::verify` on the message, signature and key
/// that the three arguments encode. Trusted: the call succeeds exactly where
/// `ecdsa_verifies` holds.
#[verifier::external_body]
fn secp_verify(digest: &[u8], signature: &[u8], key: &[u8]) -> (verifies: bool)
    requires
        digest@.len() == 32,
        is_compact_signature(signature@),
        is_public_key(key@),
    ensures
        verifies == ecdsa_verifies(digest@, signature@, key@),
{
    let message = secp256k1::Message::from_slice(digest);
    let signature = secp256k1::Signature::from_compact(signature);
    let key = secp256k1::PublicKey::from_slice(key);
    match (message, signature, key) {
        (Ok(m), Ok(s), Ok(k)) => secp256k1::Secp256k1::verification_only().verify(&m, &s, &k).is_ok(),
        _ => false,
    }
}

/// A secp256k1 public key, held as its compressed encoding.
#[derive(Debug)]
pub struct PublicKey {
    bytes: Vec<u8>,
}

impl Clone for PublicKey {
    fn clone(&self) -> (copy: Self)
        ensures
            copy@ == self@,
    {
        proof {
            use_type_invariant(self);
        }
        PublicKey { bytes: self.bytes.clone() }
    }
}

impl PublicKey {
    #[verifier::type_invariant]
    spec fn well_formed(self) -> bool {
        is_public_key(self.bytes@)
    }

    /// The compressed encoding of the key.
    pub closed spec fn view(&self) -> Seq<u8> {
        self.bytes@
    }

    /// Parses a public key from its compressed or uncompressed encoding.
    pub fn from_slice(data: &[u8]) -> (r: Result<PublicKey, SecpError>)
        ensures
            match parse_public_key(data@) {
                Some(k) => r is Ok && r->Ok_0@ == k && is_public_key(k),
                None => r == Err::<PublicKey, SecpError>(SecpError::InvalidPublicKey),
            },
    {
        match secp_parse_public_key(data) {
            Some(bytes) => Ok(PublicKey { bytes }),
            None => Err(SecpError::InvalidPublicKey),
        }
    }

    /// The public key that belongs to the secret key `scalar`, if `scalar`
    /// is a secret key.
    pub fn from_secret_bytes(scalar: &[u8]) -> (r: Option<PublicKey>)
        ensures
            r is Some <==> is_secret_key(scalar@),
            r matches Some(key) ==> key@ == public_key_of(scalar@) && is_public_key(key@),
    {
        match secp_derive_public_key(scalar) {
            Some(bytes) => Some(PublicKey { bytes }),
            None => None,
        }
    }

    /// The sum of this key and `other` as curve points, or `None` where the
    /// two are each other's negation.
    pub fn combine(&self, other: &PublicKey) -> (r: Option<PublicKey>)
        ensures
            r is Some <==> public_key_sum(self@, other@) is Some,
            r matches Some(key) ==> public_key_sum(self@, other@) == Some(key@) && is_public_key(
                key@,
            ),
    {
        proof {
            use_type_invariant(self);
            use_type_invariant(other);
        }
        match secp_combine(self.bytes.as_slice(), other.bytes.as_slice()) {
            Some(bytes) => Some(PublicKey { bytes }),
            None => None,
        }
    }

    /// The compressed encoding of the key, 33 bytes.
    pub fn serialize(&self) -> (bytes: Vec<u8>)
        ensures
            bytes@ == self@,
    {
        self.bytes.clone()
    }

    /// Borrows the compressed encoding of the key.
    pub fn as_bytes(&self) -> (bytes: &[u8])
        ensures
            bytes@ == self@,
    {
        self.bytes.as_slice()
    }
}

/// What checking `signature` over `digest` under `key` comes to.
pub open spec fn signature_verdict(digest: Seq<u8>, signature: Seq<u8>, key: Seq<u8>) -> Result<
    (),
    SecpError,
> {
    if !is_compact_signature(signature) {
        Err(SecpError::InvalidSignature)
    } else if ecdsa_verifies(digest, signature, key) {
        Ok(())
    } else {
        Err(SecpError::IncorrectSignature)
    }
}

/// Checks a compact ECDSA signature over a digest.
///
/// Fails with `InvalidMessage` where `digest` is not 32 bytes long, with
/// `InvalidSignature` where `signature` is no compact signature, and with
/// `IncorrectSignature` where it is one that does not verify.
pub fn verify_signature(digest: &[u8], signature: &[u8], key: &PublicKey) -> (r: Result<
    (),
    SecpError,
>)
    ensures
        r == if digest@.len() == 32 {
            signature_verdict(digest@, signature@, key@)
        } else {
            Err(SecpError::InvalidMessage)
        },
{
    proof {
        use_type_invariant(key);
    }
    if digest.len() != 32 {
        return Err(SecpError::InvalidMessage);
    }
    if !secp_is_compact_signature(signature) {
        return Err(SecpError::InvalidSignature);
    }
    if secp_verify(digest, signature, key.bytes.as_slice()) {
        Ok(())
    } else {
        Err(SecpError::IncorrectSignature)
    }
}

/// Whether two byte strings are equal. Looks at every byte of the shorter
/// length whatever the outcome, so that the time taken does not tell where
/// they first differ.
pub fn bytes_equal(a: &[u8], b: &[u8]) -> (equal: bool)
    ensures
        equal == (a@ == b@),
{
    if a.len() != b.len() {
        return false;
    }
    let mut differs: bool = false;
    let mut i: usize = 0;
    assert(a@.subrange(0, 0) =~= b@.subrange(0, 0));
    while i < a.len()
        invariant
            i <= a.len(),
            a.len() == b.len(),
            differs == (a@.subrange(0, i as int) != b@.subrange(0, i as int)),
        decreases a.len() - i,
    {
        let unequal = a[i] != b[i];
        proof {
            let pa = a@.subrange(0, i as int);
            let pb = b@.subrange(0, i as int);
            let qa = a@.subrange(0, i + 1);
            let qb = b@.subrange(0, i + 1);
            assert(pa =~= qa.subrange(0, i as int));
            assert(pb =~= qb.subrange(0, i as int));
            assert(qa[i as int] == a@[i as int]);
            assert(qb[i as int] == b@[i as int]);
            if pa == pb && !unequal {
                assert(qa =~= qb);
            }
        }
        differs = differs || unequal;
        i = i + 1;
    }
    assert(a@ =~= a@.subrange(0, a.len() as int));
    assert(b@ =~= b@.subrange(0, b.len() as int));
    !differs
}

} // verus!
