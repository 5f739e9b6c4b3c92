//! Paid access.
//!
//! A request for a resource that is to be paid for goes through with a
//! token, and is answered with an invoice without one. A payment that
//! answers an invoice, in a transaction that stamps the invoice's details
//! for the invoice's key, buys a token. Between the invoice and the payment
//! the table of invoices is all that the server remembers.

use vstd::prelude::*;
use vstd::string::*;
use vstd::utf8::encode_utf8;

use crate::bitcoin::{decode_outputs, total_value, Transaction};
use crate::crypto::{hash160, hash160_digest, is_public_key, bytes_equal, PublicKey};
use crate::models::bip70::{
    decode_payment, encode_ack, encode_details, encode_request, payment_ack, payment_details,
    payment_request, Payment, PAYMENT_ACK_CONTENT_TYPE, PAYMENT_CONTENT_TYPE,
};
use crate::net::errors::{PaymentError, ServerError, ValidationError};
use crate::stamps::{outputs_fault, verify_stamp_outputs, StampFault};
use crate::token::{
    bearer_of, lemma_bearer_round_trip, parse_bearer, status_of, token_mac, AccessToken,
    TokenStatus, MAC_LEN,
};
use crate::wallet::{after_resolve, expiry, live_at, Invoice, InvoiceView, WalletState};

verus! {

/// What becomes of a request, going by the authorization that it shows.
#[derive(Debug, Clone, Copy, PartialEq, Eq, Structural)]
pub enum Access {
    /// The token is good: the request goes on to its handler.
    Forward,
    /// The request shows no authorization: the client is to pay.
    NoToken,
    /// The token was good once, but its time has passed: the client is to
    /// pay again.
    Expired,
    /// What the request shows is no token of this server for this resource:
    /// the request is refused.
    Invalid,
}

impl Access {
    /// Whether the request is to be answered with an invoice.
    pub open spec fn wants_invoice(self) -> bool {
        self is NoToken || self is Expired
    }

    /// Whether the request is to be answered with an invoice.
    pub fn requires_payment(&self) -> (wanted: bool)
        ensures
            wanted == self.wants_invoice(),
    {
        match self {
            Access::NoToken => true,
            Access::Expired => true,
            _ => false,
        }
    }

    /// Why the request does not go on; `None` where it does.
    pub fn refusal(&self) -> (r: Option<ServerError>)
        ensures
            match *self {
                Access::Forward => r is None,
                Access::NoToken => r == Some(ServerError::Payment(PaymentError::NoToken)),
                Access::Expired => r == Some(ServerError::Validation(ValidationError::ExpiredTTL)),
                Access::Invalid => r == Some(ServerError::Payment(PaymentError::InvalidAuth)),
            },
    {
        match self {
            Access::Forward => None,
            Access::NoToken => Some(ServerError::Payment(PaymentError::NoToken)),
            Access::Expired => Some(ServerError::Validation(ValidationError::ExpiredTTL)),
            Access::Invalid => Some(ServerError::Payment(PaymentError::InvalidAuth)),
        }
    }
}

/// What becomes of a request that shows a token of the given worth.
pub open spec fn access_of_status(status: TokenStatus) -> Access {
    match status {
        TokenStatus::Valid => Access::Forward,
        TokenStatus::Invalid => Access::Invalid,
        TokenStatus::Expired => Access::Expired,
    }
}

/// What becomes of a request for `resource` at `now` that shows
/// `authorization`, where tokens are made with `secret`.
pub open spec fn access_of(
    authorization: Option<Seq<u8>>,
    resource: Seq<char>,
    now: u64,
    secret: Seq<u8>,
) -> Access {
    match authorization {
        None => Access::NoToken,
        Some(header) => match parse_bearer(header) {
            None => Access::Invalid,
            Some((expires_at, mac)) => access_of_status(
                status_of(
                    token_mac(secret, encode_utf8(resource), expires_at),
                    mac,
                    expires_at,
                    now,
                ),
            ),
        },
    }
}

/// What becomes of a request that shows a token of the given worth.
pub fn access_for_status(status: TokenStatus) -> (access: Access)
    ensures
        access == access_of_status(status),
{
    match status {
        TokenStatus::Valid => Access::Forward,
        TokenStatus::Invalid => Access::Invalid,
        TokenStatus::Expired => Access::Expired,
    }
}

/// Decides on a request for `resource_id` at `now` that shows
/// `authorization`.
pub fn check_payment(authorization: Option<&[u8]>, resource_id: &str, now: u64, secret: &[u8]) -> (access:
    Access)
    ensures
        access == access_of(
            match authorization {
                Some(header) => Some(header@),
                None => None,
            },
            resource_id@,
            now,
            secret@,
        ),
{
    let header = match authorization {
        Some(header) => header,
        None => { return Access::NoToken; },
    };
    let token = match AccessToken::from_header(header, resource_id) {
        Some(token) => token,
        None => { return Access::Invalid; },
    };
    access_for_status(token.verify(now, secret))
}

/// A token that was made for a resource opens it up to the moment of its
/// expiry, and asks for a new payment after.
pub proof fn lemma_minted_token_opens(
    secret: Seq<u8>,
    resource: Seq<char>,
    expires_at: u64,
    now: u64,
)
    requires
        token_mac(secret, encode_utf8(resource), expires_at).len() == MAC_LEN,
    ensures
        access_of(
            Some(bearer_of(expires_at, token_mac(secret, encode_utf8(resource), expires_at))),
            resource,
            now,
            secret,
        ) == if now <= expires_at {
            Access::Forward
        } else {
            Access::Expired
        },
{
    lemma_bearer_round_trip(expires_at, token_mac(secret, encode_utf8(resource), expires_at));
}

/// A request is answered with an invoice exactly where it shows no token or
/// one whose time has passed; a token of another making never is.
pub proof fn lemma_invoice_follows_missing_or_expired(
    authorization: Option<Seq<u8>>,
    resource: Seq<char>,
    now: u64,
    secret: Seq<u8>,
)
    ensures
        access_of(authorization, resource, now, secret).wants_invoice() <==> authorization is None
            || (parse_bearer(authorization->Some_0) matches Some((expires_at, mac)) && mac
            == token_mac(secret, encode_utf8(resource), expires_at) && now > expires_at),
{
}

/// The name of the resource of the given kind under the given address.
pub open spec fn resource_name(kind: Seq<char>, addr: Seq<char>) -> Seq<char> {
    kind + ":"@ + addr
}

/// Names the resource of the given kind under the given address.
pub fn resource_id(kind: &str, addr: &str) -> (name: String)
    ensures
        name@ == resource_name(kind@, addr@),
{
    let mut name = String::from_str(kind);
    name.append(":");
    name.append(addr);
    name
}

/// The answer to a request that is to be paid for first.
#[derive(Debug)]
pub struct PaymentRequired {
    /// The invoice that was entered in the table.
    pub invoice: Invoice,
    /// The request for payment that the client gets.
    pub body: Vec<u8>,
}

/// Enters an invoice for `resource_id` and makes the request for payment
/// that goes with it.
///
/// The invoice asks for the price of a token and can be paid for as long as
/// the settings say. It is to be paid to the address of `destination`, a key
/// that the node has made for it; the key itself travels as merchant data.
/// Fails with `AddrFetchFailed` where an invoice waits under that address
/// already: the node is to hand out each key once.
pub fn request_payment(
    wallet: &mut WalletState,
    payments: &crate::settings::Payment,
    destination: &PublicKey,
    resource_id: String,
    now: u64,
) -> (r: Result<PaymentRequired, PaymentError>)
    ensures
        match r {
            Ok(required) => {
                &&& !live_at(old(wallet)@, now).contains_key(hash160(destination@))
                &&& required.invoice@ == (InvoiceView {
                    address: hash160(destination@),
                    resource_id: resource_id@,
                    amount: payments.token_fee,
                    memo: payments.memo@,
                    created_at: now,
                    expires_at: expiry(now, payments.timeout),
                })
                &&& required.body@ == encode_request(
                    encode_details(required.invoice@, destination@),
                )
                &&& final(wallet)@ == live_at(old(wallet)@, now).insert(
                    hash160(destination@),
                    required.invoice@,
                )
            },
            Err(err) => {
                &&& err is AddrFetchFailed
                &&& live_at(old(wallet)@, now).contains_key(hash160(destination@))
                &&& final(wallet)@ == live_at(old(wallet)@, now)
            },
        },
{
    let address = hash160_digest(destination.as_bytes());
    let invoice = match wallet.issue(
        address,
        resource_id,
        payments.token_fee,
        payments.memo.clone(),
        now,
        payments.timeout,
    ) {
        Some(invoice) => invoice,
        None => { return Err(PaymentError::AddrFetchFailed); },
    };
    let details = payment_details(&invoice, destination.as_bytes());
    let body = payment_request(details.as_slice());
    Ok(PaymentRequired { invoice, body })
}

/// Why a payment buys no token.
pub enum Refusal {
    /// The content type is not that of a payment.
    Content,
    /// The client does not accept the answer to a payment.
    Accept,
    /// The body is no payment.
    Decode,
    /// The payment holds no merchant data.
    NoMerchantDat,
    /// The merchant data is no compressed public key.
    InvalidMerchantDat,
    /// The payment holds no transaction.
    NoTx,
    /// The first transaction does not decode; holds the complaint.
    TxDeserialize(Seq<char>),
    /// No invoice waits under the key's address.
    NotFound,
    /// The transaction carries less than the invoice asks for.
    InvalidOutputs,
    /// The transaction is no stamp of the invoice's details.
    Stamp(StampFault),
}

/// What a payment holds that the rest goes by: the key that it names, its
/// first transaction, and that transaction's outputs.
pub struct SubmissionView {
    pub key: Seq<u8>,
    pub transaction: Seq<u8>,
    pub outputs: Seq<(u64, Seq<u8>)>,
}

/// What is read from a payment before the table of invoices is looked at.
pub open spec fn submission_of(
    content_type: Option<Seq<char>>,
    accept: Option<Seq<char>>,
    body: Seq<u8>,
) -> Result<SubmissionView, Refusal> {
    if content_type != Some(PAYMENT_CONTENT_TYPE@) {
        Err(Refusal::Content)
    } else if accept != Some(PAYMENT_ACK_CONTENT_TYPE@) {
        Err(Refusal::Accept)
    } else {
        match decode_payment(body) {
            Err(_) => Err(Refusal::Decode),
            Ok(payment) => match payment.merchant_data {
                None => Err(Refusal::NoMerchantDat),
                Some(key) => if !is_public_key(key) {
                    Err(Refusal::InvalidMerchantDat)
                } else if payment.transactions.len() == 0 {
                    Err(Refusal::NoTx)
                } else {
                    match decode_outputs(payment.transactions[0]) {
                        Err(text) => Err(Refusal::TxDeserialize(text)),
                        Ok(outputs) => Ok(
                            SubmissionView { key, transaction: payment.transactions[0], outputs },
                        ),
                    }
                },
            },
        }
    }
}

/// What becomes of a submission that meets the invoice `found` under its
/// key's address: the invoice that it pays, or why it pays none.
pub open spec fn settlement_of(submission: SubmissionView, found: Option<InvoiceView>) -> Result<
    InvoiceView,
    Refusal,
> {
    match found {
        None => Err(Refusal::NotFound),
        Some(invoice) => if total_value(submission.outputs) < invoice.amount {
            Err(Refusal::InvalidOutputs)
        } else {
            match outputs_fault(
                submission.outputs,
                encode_details(invoice, submission.key),
                submission.key,
            ) {
                Some(fault) => Err(Refusal::Stamp(fault)),
                None => Ok(invoice),
            }
        },
    }
}

/// Whether `err` is the error that reports `refusal`.
pub open spec fn reports(err: ServerError, refusal: Refusal) -> bool {
    match refusal {
        Refusal::Content => err == ServerError::Payment(PaymentError::Content),
        Refusal::Accept => err == ServerError::Payment(PaymentError::Accept),
        Refusal::Decode => err == ServerError::Payment(PaymentError::Decode),
        Refusal::NoMerchantDat => err == ServerError::Payment(PaymentError::NoMerchantDat),
        Refusal::InvalidMerchantDat => err == ServerError::Payment(
            PaymentError::InvalidMerchantDat,
        ),
        Refusal::NoTx => err == ServerError::Payment(PaymentError::NoTx),
        Refusal::TxDeserialize(text) => err matches ServerError::Payment(
            PaymentError::TxDeserialize(complaint),
        ) && complaint@ == text,
        Refusal::NotFound => err == ServerError::NotFound,
        Refusal::InvalidOutputs => err == ServerError::Payment(PaymentError::InvalidOutputs),
        Refusal::Stamp(fault) => exists|cause: crate::stamps::StampError|
            cause@ == fault && err == #[trigger] ServerError::of_stamp_check(cause),
    }
}

/// What a payment holds that the rest goes by.
#[derive(Debug)]
pub struct Submission {
    /// The key that the merchant data names.
    pub key: PublicKey,
    /// The first transaction as it came.
    pub raw_transaction: Vec<u8>,
    /// The first transaction, decoded.
    pub transaction: Transaction,
}

impl View for Submission {
    type V = SubmissionView;

    open spec fn view(&self) -> SubmissionView {
        SubmissionView {
            key: self.key@,
            transaction: self.raw_transaction@,
            outputs: self.transaction@,
        }
    }
}

/// Whether two texts are the same.
fn same_text(a: &str, b: &str) -> (same: bool)
    ensures
        same == (a@ == b@),
{
    String::from_str(a) == String::from_str(b)
}

/// Reads a payment: checks the two content types, decodes the body, and
/// takes from it the key that the merchant data names and the first
/// transaction. The table of invoices is not looked at.
pub fn read_submission(content_type: Option<&str>, accept: Option<&str>, body: &[u8]) -> (r: Result<
    Submission,
    ServerError,
>)
    ensures
        match submission_of(
            match content_type {
                Some(text) => Some(text@),
                None => None,
            },
            match accept {
                Some(text) => Some(text@),
                None => None,
            },
            body@,
        ) {
            Ok(submission) => r is Ok && r->Ok_0@ == submission,
            Err(refusal) => r is Err && reports(r->Err_0, refusal),
        },
{
    match content_type {
        Some(text) => {
            if !same_text(text, PAYMENT_CONTENT_TYPE) {
                return Err(ServerError::Payment(PaymentError::Content));
            }
        },
        None => { return Err(ServerError::Payment(PaymentError::Content)); },
    }
    match accept {
        Some(text) => {
            if !same_text(text, PAYMENT_ACK_CONTENT_TYPE) {
                return Err(ServerError::Payment(PaymentError::Accept));
            }
        },
        None => { return Err(ServerError::Payment(PaymentError::Accept)); },
    }
    let mut payment = match Payment::decode(body) {
        Ok(payment) => payment,
        Err(_) => { return Err(ServerError::Payment(PaymentError::Decode)); },
    };
    let merchant_data = match &payment.merchant_data {
        Some(data) => data,
        None => { return Err(ServerError::Payment(PaymentError::NoMerchantDat)); },
    };
    let key = match PublicKey::from_slice(merchant_data.as_slice()) {
        Ok(key) => key,
        Err(_) => { return Err(ServerError::Payment(PaymentError::InvalidMerchantDat)); },
    };
    if !bytes_equal(key.as_bytes(), merchant_data.as_slice()) {
        return Err(ServerError::Payment(PaymentError::InvalidMerchantDat));
    }
    if payment.transactions.len() == 0 {
        return Err(ServerError::Payment(PaymentError::NoTx));
    }
    let ghost first = payment.transactions[0]@;
    assert(payment@.transactions[0] == first);
    let raw_transaction = payment.transactions.swap_remove(0);
    let transaction = match Transaction::deserialize(raw_transaction.as_slice()) {
        Ok(transaction) => transaction,
        Err(text) => { return Err(ServerError::Payment(PaymentError::TxDeserialize(text))); },
    };
    Ok(Submission { key, raw_transaction, transaction })
}

/// What a payment has bought.
#[derive(Debug)]
pub struct PaymentAccepted {
    /// The token for the resource of the invoice.
    pub token: AccessToken,
    /// The answer to the payment.
    pub ack: Vec<u8>,
    /// The transaction that pays, for the node to broadcast.
    pub transaction: Vec<u8>,
    /// The invoice that was paid.
    pub invoice: Invoice,
}

/// Whether `accepted` is what the payment `body` buys that pays `invoice`
/// with `submission` at `now`.
pub open spec fn is_purchase(
    accepted: PaymentAccepted,
    invoice: InvoiceView,
    submission: SubmissionView,
    body: Seq<u8>,
    payments: crate::settings::Payment,
    now: u64,
) -> bool {
    &&& accepted.invoice@ == invoice
    &&& accepted.transaction@ == submission.transaction
    &&& accepted.ack@ == encode_ack(body, payments.memo@)
    &&& accepted.token.resource_id@ == invoice.resource_id
    &&& accepted.token.expires_at == expiry(now, payments.timeout)
    &&& accepted.token.mac@ == token_mac(
        encode_utf8(payments.hmac_secret@),
        encode_utf8(invoice.resource_id),
        expiry(now, payments.timeout),
    )
    &&& accepted.token.mac@.len() == MAC_LEN
}

/// Settles a payment that was read from `body`: takes the invoice under the
/// key's address out of the table, checks that the transaction carries the
/// invoice's amount and stamps the invoice's details for the key, and makes
/// the token.
///
/// The invoice is gone from the table whether the payment stands or not: a
/// payment that fails here has used its invoice up.
pub fn settle_payment(
    wallet: &mut WalletState,
    payments: &crate::settings::Payment,
    submission: Submission,
    body: &[u8],
    now: u64,
) -> (r: Result<PaymentAccepted, ServerError>)
    ensures
        final(wallet)@ == after_resolve(old(wallet)@, hash160(submission@.key), now),
        match settlement_of(
            submission@,
            live_at(old(wallet)@, now).get(hash160(submission@.key)),
        ) {
            Ok(invoice) => r is Ok && is_purchase(
                r->Ok_0,
                invoice,
                submission@,
                body@,
                *payments,
                now,
            ),
            Err(refusal) => r is Err && reports(r->Err_0, refusal),
        },
{
    let address = hash160_digest(submission.key.as_bytes());
    let invoice = match wallet.resolve(address.as_slice(), now) {
        Some(invoice) => invoice,
        None => { return Err(ServerError::NotFound); },
    };
    if !submission.transaction.covers(invoice.amount) {
        return Err(ServerError::Payment(PaymentError::InvalidOutputs));
    }
    let details = payment_details(&invoice, submission.key.as_bytes());
    match verify_stamp_outputs(&submission.transaction, details.as_slice(), &submission.key) {
        Ok(_) => {},
        Err(err) => { return Err(ServerError::from_stamp_check(err)); },
    }
    let token = AccessToken::mint(
        invoice.resource_id.as_str(),
        now.saturating_add(payments.timeout),
        payments.hmac_secret.as_str().as_bytes(),
    );
    let ack = payment_ack(body, payments.memo.as_str());
    Ok(PaymentAccepted { token, ack, transaction: submission.raw_transaction, invoice })
}

/// Handles a payment from its content types and body to the token that it
/// buys. What comes back is to be handed out once the node has taken the
/// transaction.
pub fn process_payment(
    wallet: &mut WalletState,
    payments: &crate::settings::Payment,
    content_type: Option<&str>,
    accept: Option<&str>,
    body: &[u8],
    now: u64,
) -> (r: Result<PaymentAccepted, ServerError>)
    ensures
        match submission_of(
            match content_type {
                Some(text) => Some(text@),
                None => None,
            },
            match accept {
                Some(text) => Some(text@),
                None => None,
            },
            body@,
        ) {
            Err(refusal) => r is Err && reports(r->Err_0, refusal) && final(wallet)@ == old(
                wallet,
            )@,
            Ok(submission) => {
                &&& final(wallet)@ == after_resolve(old(wallet)@, hash160(submission.key), now)
                &&& match settlement_of(
                    submission,
                    live_at(old(wallet)@, now).get(hash160(submission.key)),
                ) {
                    Ok(invoice) => r is Ok && is_purchase(
                        r->Ok_0,
                        invoice,
                        submission,
                        body@,
                        *payments,
                        now,
                    ),
                    Err(refusal) => r is Err && reports(r->Err_0, refusal),
                }
            },
        },
{
    let submission = read_submission(content_type, accept, body)?;
    settle_payment(wallet, payments, submission, body, now)
}

} // verus!
