//! Stamp verification.
//!
//! A stamp is a transaction whose first output pays to an address made from
//! the recipient's public key and the payload: the hash of the sum of the
//! recipient's key and the key whose secret is the payload's digest. A stamp
//! therefore fits one recipient and one payload only.

use vstd::prelude::*;
use vstd::slice::{slice_subrange, slice_to_vec};
use vstd::string::*;

use crate::bitcoin::{decode_outputs, BitcoinError, NodeError, Transaction};
use crate::crypto::{
    bytes_equal, hash160, hash160_digest, is_secret_key, public_key_of, public_key_sum, sha256,
    sha256_digest, PublicKey,
};
use crate::script::{is_p2pkh, p2pkh_hash, script_is_p2pkh};

verus! {

/// Why a stamp was refused.
#[derive(Debug)]
pub enum StampError {
    /// The bytes are no transaction; holds the decoder's complaint.
    Decode(String),
    /// The transaction has no output.
    MissingOutput,
    /// The first output is not pay-to-public-key-hash.
    NotP2PKH,
    /// The node refused to broadcast the transaction.
    TxReject(NodeError),
    /// The first output pays to another address than the stamp's.
    UnexpectedAddress,
    /// The recipient's key and the payload's key cancel each other.
    DegenerateCombination,
    /// The payload's digest is no secret key, so the payload has no key.
    InvalidDigest,
}

/// A node's refusal as plain values.
pub enum NodeFault {
    EmptyResponse,
    Http(Seq<char>),
    Json(Seq<char>),
    Rpc(Seq<char>),
}

/// A stamp's refusal as plain values.
pub enum StampFault {
    Decode(Seq<char>),
    MissingOutput,
    NotP2PKH,
    TxReject(NodeFault),
    UnexpectedAddress,
    DegenerateCombination,
    InvalidDigest,
}

/// The plain value of a node's refusal.
pub open spec fn node_fault(err: BitcoinError) -> NodeFault {
    match err {
        BitcoinError::EmptyResponse => NodeFault::EmptyResponse,
        BitcoinError::Http(text) => NodeFault::Http(text@),
        BitcoinError::Json(text) => NodeFault::Json(text@),
        BitcoinError::Rpc(text) => NodeFault::Rpc(text@),
    }
}

impl View for StampError {
    type V = StampFault;

    open spec fn view(&self) -> StampFault {
        match *self {
            StampError::Decode(text) => StampFault::Decode(text@),
            StampError::MissingOutput => StampFault::MissingOutput,
            StampError::NotP2PKH => StampFault::NotP2PKH,
            StampError::TxReject(err) => StampFault::TxReject(node_fault(err)),
            StampError::UnexpectedAddress => StampFault::UnexpectedAddress,
            StampError::DegenerateCombination => StampFault::DegenerateCombination,
            StampError::InvalidDigest => StampFault::InvalidDigest,
        }
    }
}

/// The outcome of a check as plain values: `None` where it passed.
pub open spec fn fault_of(r: Result<(), StampError>) -> Option<StampFault> {
    match r {
        Ok(_) => None,
        Err(err) => Some(err@),
    }
}

/// What is wrong with the first of `outputs` as the carrier of a stamp.
pub open spec fn output_fault(outputs: Seq<(u64, Seq<u8>)>) -> Option<StampFault> {
    if outputs.len() == 0 {
        Some(StampFault::MissingOutput)
    } else if !is_p2pkh(outputs[0].1) {
        Some(StampFault::NotP2PKH)
    } else {
        None
    }
}

/// The public-key hash that a stamp of `payload` for `destination` pays to,
/// or why there is none.
pub open spec fn stamp_hash(payload: Seq<u8>, destination: Seq<u8>) -> Result<
    Seq<u8>,
    StampFault,
> {
    let digest = sha256(payload);
    if !is_secret_key(digest) {
        Err(StampFault::InvalidDigest)
    } else {
        match public_key_sum(destination, public_key_of(digest)) {
            None => Err(StampFault::DegenerateCombination),
            Some(combined) => Ok(hash160(combined)),
        }
    }
}

/// What is wrong with a transaction of these `outputs` as a stamp of
/// `payload` for `destination`; `None` where it is one.
pub open spec fn outputs_fault(
    outputs: Seq<(u64, Seq<u8>)>,
    payload: Seq<u8>,
    destination: Seq<u8>,
) -> Option<StampFault> {
    match output_fault(outputs) {
        Some(fault) => Some(fault),
        None => match stamp_hash(payload, destination) {
            Err(fault) => Some(fault),
            Ok(expected) => if expected == p2pkh_hash(outputs[0].1) {
                None
            } else {
                Some(StampFault::UnexpectedAddress)
            },
        },
    }
}

/// What is wrong with `decoded` as a stamp of `payload` for `destination`;
/// `None` where it is one.
pub open spec fn stamp_fault(
    decoded: Result<Seq<(u64, Seq<u8>)>, Seq<char>>,
    payload: Seq<u8>,
    destination: Seq<u8>,
) -> Option<StampFault> {
    match decoded {
        Err(text) => Some(StampFault::Decode(text)),
        Ok(outputs) => outputs_fault(outputs, payload, destination),
    }
}

/// The public-key hash that the first output of `tx` pays to.
///
/// Fails with `MissingOutput` where `tx` has no output and with `NotP2PKH`
/// where the first is not pay-to-public-key-hash.
pub fn stamp_output_hash(tx: &Transaction) -> (r: Result<Vec<u8>, StampError>)
    ensures
        match output_fault(tx@) {
            Some(fault) => r is Err && r->Err_0@ == fault,
            None => r is Ok && r->Ok_0@ == p2pkh_hash(tx@[0].1),
        },
{
    if tx.output.len() == 0 {
        return Err(StampError::MissingOutput);
    }
    let script = tx.output[0].script_pubkey.as_slice();
    if !script_is_p2pkh(script) {
        return Err(StampError::NotP2PKH);
    }
    let hash = slice_subrange(script, 3, 23);
    Ok(slice_to_vec(hash))
}

/// The public-key hash that a stamp of `serialized_payload` for
/// `destination_pubkey` pays to.
///
/// Fails with `InvalidDigest` where the payload's digest is no secret key,
/// and with `DegenerateCombination` where the payload's key is the negation
/// of the recipient's.
pub fn expected_stamp_hash(serialized_payload: &[u8], destination_pubkey: &PublicKey) -> (r:
    Result<Vec<u8>, StampError>)
    ensures
        match stamp_hash(serialized_payload@, destination_pubkey@) {
            Ok(hash) => r is Ok && r->Ok_0@ == hash,
            Err(fault) => r is Err && r->Err_0@ == fault,
        },
        r is Ok ==> r->Ok_0@.len() == 20,
{
    let payload_digest = sha256_digest(serialized_payload);
    let payload_public_key = match PublicKey::from_secret_bytes(payload_digest.as_slice()) {
        Some(key) => key,
        None => { return Err(StampError::InvalidDigest); },
    };
    let combined_key = match destination_pubkey.combine(&payload_public_key) {
        Some(key) => key,
        None => { return Err(StampError::DegenerateCombination); },
    };
    Ok(hash160_digest(combined_key.as_bytes()))
}

/// Checks that the outputs of `tx` make it a stamp of `serialized_payload`
/// for `destination_pubkey`.
pub fn verify_stamp_outputs(
    tx: &Transaction,
    serialized_payload: &[u8],
    destination_pubkey: &PublicKey,
) -> (r: Result<(), StampError>)
    ensures
        fault_of(r) == outputs_fault(tx@, serialized_payload@, destination_pubkey@),
{
    let pubkey_hash = stamp_output_hash(tx)?;
    let combine_pubkey_hash = expected_stamp_hash(serialized_payload, destination_pubkey)?;
    if !bytes_equal(combine_pubkey_hash.as_slice(), pubkey_hash.as_slice()) {
        return Err(StampError::UnexpectedAddress);
    }
    Ok(())
}

/// Checks that `stamp_tx` is a stamp of `serialized_payload` for
/// `destination_pubkey`: that it decodes, that its first output is
/// pay-to-public-key-hash, and that the hash in it is the one that the
/// payload and the recipient's key give.
///
/// A transaction that passes is ready to be handed to the node; see
/// `broadcast_outcome` for what the node's answer comes to.
pub fn verify_stamp(stamp_tx: &[u8], serialized_payload: &[u8], destination_pubkey: &PublicKey) -> (r:
    Result<(), StampError>)
    ensures
        fault_of(r) == stamp_fault(
            decode_outputs(stamp_tx@),
            serialized_payload@,
            destination_pubkey@,
        ),
{
    let tx = match Transaction::deserialize(stamp_tx) {
        Ok(tx) => tx,
        Err(text) => { return Err(StampError::Decode(text)); },
    };
    verify_stamp_outputs(&tx, serialized_payload, destination_pubkey)
}

/// What the node's answer to the broadcast of a verified stamp comes to: a
/// refusal is passed on as `TxReject`.
pub fn broadcast_outcome(reply: Result<(), NodeError>) -> (r: Result<(), StampError>)
    ensures
        match reply {
            Ok(_) => r is Ok,
            Err(err) => r == Err::<(), StampError>(StampError::TxReject(err)),
        },
{
    match reply {
        Ok(_) => Ok(()),
        Err(err) => Err(StampError::TxReject(err)),
    }
}

/// The hash that a stamp pays to is fixed by the payload and the
/// recipient's key: the same two give the same hash, or the same refusal.
pub proof fn lemma_stamp_hash_is_deterministic(
    payload: Seq<u8>,
    destination: Seq<u8>,
    other_payload: Seq<u8>,
    other_destination: Seq<u8>,
)
    requires
        payload == other_payload,
        destination == other_destination,
    ensures
        stamp_hash(payload, destination) == stamp_hash(other_payload, other_destination),
{
}

/// A stamp fits its payload: a transaction that stamps one payload for a
/// recipient is taken for another payload only where the two give the same
/// hash. Where the other payload gives another hash, the transaction is
/// refused for its address; where it gives none, for the reason why.
pub proof fn lemma_stamp_fits_its_payload(
    outputs: Seq<(u64, Seq<u8>)>,
    payload: Seq<u8>,
    other_payload: Seq<u8>,
    destination: Seq<u8>,
)
    requires
        stamp_fault(Ok(outputs), payload, destination) is None,
    ensures
        stamp_hash(payload, destination) is Ok,
        stamp_fault(Ok(outputs), other_payload, destination) == match stamp_hash(
            other_payload,
            destination,
        ) {
            Err(fault) => Some(fault),
            Ok(hash) => if hash == stamp_hash(payload, destination)->Ok_0 {
                None
            } else {
                Some(StampFault::UnexpectedAddress)
            },
        },
{
}

/// A transaction whose first output is not pay-to-public-key-hash is
/// refused as such, whatever the payload and the recipient.
pub proof fn lemma_wrong_script_is_refused(
    outputs: Seq<(u64, Seq<u8>)>,
    payload: Seq<u8>,
    destination: Seq<u8>,
)
    requires
        outputs.len() > 0,
        !is_p2pkh(outputs[0].1),
    ensures
        stamp_fault(Ok(outputs), payload, destination) == Some(StampFault::NotP2PKH),
{
}

/// A transaction whose first output pays to another hash than the one that
/// the payload and the recipient's key give is refused for its address.
pub proof fn lemma_wrong_address_is_refused(
    outputs: Seq<(u64, Seq<u8>)>,
    payload: Seq<u8>,
    destination: Seq<u8>,
)
    requires
        outputs.len() > 0,
        is_p2pkh(outputs[0].1),
        is_secret_key(sha256(payload)),
        public_key_sum(destination, public_key_of(sha256(payload))) is Some,
        p2pkh_hash(outputs[0].1) != hash160(
            public_key_sum(destination, public_key_of(sha256(payload)))->Some_0,
        ),
    ensures
        stamp_fault(Ok(outputs), payload, destination) == Some(StampFault::UnexpectedAddress),
{
}

/// Where the payload's key is the negation of the recipient's, so that the
/// two have no sum, the stamp is refused as degenerate.
pub proof fn lemma_degenerate_combination_is_refused(
    outputs: Seq<(u64, Seq<u8>)>,
    payload: Seq<u8>,
    destination: Seq<u8>,
)
    requires
        outputs.len() > 0,
        is_p2pkh(outputs[0].1),
        is_secret_key(sha256(payload)),
        public_key_sum(destination, public_key_of(sha256(payload))) is None,
    ensures
        stamp_hash(payload, destination) == Err::<Seq<u8>, StampFault>(
            StampFault::DegenerateCombination,
        ),
        stamp_fault(Ok(outputs), payload, destination) == Some(
            StampFault::DegenerateCombination,
        ),
{
}

/// A stamp is accepted exactly where its first output pays to the hash that
/// the payload and the recipient's key give.
pub proof fn lemma_stamp_is_accepted(
    outputs: Seq<(u64, Seq<u8>)>,
    payload: Seq<u8>,
    destination: Seq<u8>,
)
    ensures
        stamp_fault(Ok(outputs), payload, destination) is None <==> outputs.len() > 0 && is_p2pkh(
            outputs[0].1,
        ) && stamp_hash(payload, destination) == Ok::<Seq<u8>, StampFault>(
            p2pkh_hash(outputs[0].1),
        ),
{
}

} // verus!
