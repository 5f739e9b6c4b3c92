//! The messages of the payment protocol: what the relay asks of a payer,
//! what the payer sends, and what the relay answers.

use vstd::prelude::*;
use vstd::string::*;
use vstd::utf8::encode_utf8;

use crate::models::wrapper::field_body;
use crate::proto::{
    bytes_field, field_at, fields_from, fields_of, fields_within, key_of,
    lemma_bytes_field_round_trip, lemma_varint_bytes_nonempty, read_fields, varint_field,
    write_bytes_field, write_varint_field, DecodeError, Field, WireType,
};
use crate::script::{make_p2pkh_script, p2pkh_script};
use crate::wallet::{Invoice, InvoiceView};

verus! {

/// The content type of a payment.
pub const PAYMENT_CONTENT_TYPE: &'static str = "application/bitcoincash-payment";

/// The content type of the answer to a payment.
pub const PAYMENT_ACK_CONTENT_TYPE: &'static str = "application/bitcoincash-paymentack";

/// The content type of a request for payment.
pub const PAYMENT_REQUEST_CONTENT_TYPE: &'static str = "application/bitcoincash-paymentrequest";

/// The number of the field of a payment that holds the merchant data.
pub const MERCHANT_DATA_FIELD: u32 = 1;

/// The number of the field of a payment that holds a transaction.
pub const TRANSACTIONS_FIELD: u32 = 2;

/// What a payer sends: the merchant data of the request that is answered,
/// and the transactions that pay.
#[derive(Debug)]
pub struct Payment {
    /// The merchant data, as the request for payment gave it.
    pub merchant_data: Option<Vec<u8>>,
    /// The transactions, in the order in which they were sent.
    pub transactions: Vec<Vec<u8>>,
}

/// A payment as plain values.
pub struct PaymentView {
    pub merchant_data: Option<Seq<u8>>,
    pub transactions: Seq<Seq<u8>>,
}

impl View for Payment {
    type V = PaymentView;

    open spec fn view(&self) -> PaymentView {
        PaymentView {
            merchant_data: match self.merchant_data {
                Some(data) => Some(data@),
                None => None,
            },
            transactions: self.transactions@.map_values(|tx: Vec<u8>| tx@),
        }
    }
}

/// The payment of which nothing has been read yet.
pub open spec fn empty_payment() -> PaymentView {
    PaymentView { merchant_data: None, transactions: Seq::empty() }
}

/// The payment `acc` after `field` of `bytes` has been read into it: the
/// merchant data that comes last counts, and each transaction is added
/// behind those read before.
pub open spec fn payment_with(acc: PaymentView, bytes: Seq<u8>, field: Field) -> Result<
    PaymentView,
    DecodeError,
> {
    let body = bytes.subrange(field.start as int, field.end as int);
    if field.number == MERCHANT_DATA_FIELD {
        if field.wire_type == WireType::LengthDelimited {
            Ok(PaymentView { merchant_data: Some(body), ..acc })
        } else {
            Err(DecodeError::InvalidWireType)
        }
    } else if field.number == TRANSACTIONS_FIELD {
        if field.wire_type == WireType::LengthDelimited {
            Ok(PaymentView { transactions: acc.transactions.push(body), ..acc })
        } else {
            Err(DecodeError::InvalidWireType)
        }
    } else {
        Ok(acc)
    }
}

/// The payment `acc` after `fields` of `bytes` have been read into it, one
/// after the other.
pub open spec fn payment_from_fields(acc: PaymentView, bytes: Seq<u8>, fields: Seq<Field>) -> Result<
    PaymentView,
    DecodeError,
>
    decreases fields.len(),
{
    if fields.len() == 0 {
        Ok(acc)
    } else {
        match payment_with(acc, bytes, fields[0]) {
            Err(err) => Err(err),
            Ok(next) => payment_from_fields(next, bytes, fields.drop_first()),
        }
    }
}

/// The payment that `bytes` encode.
pub open spec fn decode_payment(bytes: Seq<u8>) -> Result<PaymentView, DecodeError> {
    match fields_of(bytes) {
        Err(err) => Err(err),
        Ok(fields) => payment_from_fields(empty_payment(), bytes, fields),
    }
}

/// The encoding of a payment: the merchant data where there is any, then
/// the transactions.
pub open spec fn encode_payment(payment: PaymentView) -> Seq<u8> {
    (match payment.merchant_data {
        Some(data) => bytes_field(MERCHANT_DATA_FIELD, data),
        None => Seq::empty(),
    }) + encode_transactions(payment.transactions)
}

/// The encoding of the transactions of a payment, one field for each.
pub open spec fn encode_transactions(transactions: Seq<Seq<u8>>) -> Seq<u8>
    decreases transactions.len(),
{
    if transactions.len() == 0 {
        Seq::empty()
    } else {
        bytes_field(TRANSACTIONS_FIELD, transactions[0]) + encode_transactions(
            transactions.drop_first(),
        )
    }
}

impl Payment {
    /// Reads a payment from its encoding.
    pub fn decode(bytes: &[u8]) -> (r: Result<Payment, DecodeError>)
        ensures
            match decode_payment(bytes@) {
                Ok(payment) => r is Ok && r->Ok_0@ == payment,
                Err(err) => r is Err && r->Err_0 == err,
            },
    {
        let fields = read_fields(bytes)?;
        let mut payment = Payment { merchant_data: None, transactions: Vec::new() };
        let mut i: usize = 0;
        assert(fields@.skip(0) =~= fields@);
        assert(payment@.transactions =~= Seq::<Seq<u8>>::empty());
        while i < fields.len()
            invariant
                i <= fields.len(),
                fields_within(fields@, bytes.len() as int),
                decode_payment(bytes@) == payment_from_fields(
                    payment@,
                    bytes@,
                    fields@.skip(i as int),
                ),
            decreases fields.len() - i,
        {
            let field = fields[i];
            proof {
                assert(fields@.skip(i as int)[0] == field);
                assert(fields@.skip(i as int).drop_first() =~= fields@.skip(i + 1));
            }
            let delimited = match field.wire_type {
                WireType::LengthDelimited => true,
                _ => false,
            };
            if field.number == MERCHANT_DATA_FIELD {
                if !delimited {
                    return Err(DecodeError::InvalidWireType);
                }
                payment.merchant_data = Some(field_body(bytes, &field));
            } else if field.number == TRANSACTIONS_FIELD {
                if !delimited {
                    return Err(DecodeError::InvalidWireType);
                }
                let ghost before = payment@;
                let body = field_body(bytes, &field);
                payment.transactions.push(body);
                assert(payment@.transactions =~= before.transactions.push(body@));
            }
            i = i + 1;
        }
        Ok(payment)
    }

    /// Writes the payment in its encoding.
    pub fn encode(&self) -> (bytes: Vec<u8>)
        ensures
            bytes@ == encode_payment(self@),
    {
        let mut bytes: Vec<u8> = Vec::new();
        match &self.merchant_data {
            Some(data) => { write_bytes_field(&mut bytes, MERCHANT_DATA_FIELD, data.as_slice()); },
            None => {},
        }
        let ghost head = bytes@;
        let mut i: usize = 0;
        assert(self@.transactions.skip(0) =~= self@.transactions);
        while i < self.transactions.len()
            invariant
                i <= self.transactions.len(),
                bytes@ + encode_transactions(self@.transactions.skip(i as int)) == head
                    + encode_transactions(self@.transactions),
            decreases self.transactions.len() - i,
        {
            proof {
                let rest = self@.transactions.skip(i as int);
                assert(rest[0] == self.transactions[i as int]@);
                assert(rest.drop_first() =~= self@.transactions.skip(i + 1));
                assert(bytes@ + bytes_field(TRANSACTIONS_FIELD, rest[0]) + encode_transactions(
                    rest.drop_first(),
                ) =~= bytes@ + encode_transactions(rest));
            }
            write_bytes_field(&mut bytes, TRANSACTIONS_FIELD, self.transactions[i].as_slice());
            i = i + 1;
        }
        assert(bytes@ + Seq::<u8>::empty() =~= bytes@);
        bytes
    }
}

/// Transactions that were written are read back, in their order, behind
/// those read before them.
pub proof fn lemma_transactions_round_trip(
    acc: PaymentView,
    bytes: Seq<u8>,
    pos: int,
    transactions: Seq<Seq<u8>>,
)
    requires
        0 <= pos <= bytes.len() <= usize::MAX,
        bytes.subrange(pos, bytes.len() as int) == encode_transactions(transactions),
    ensures
        fields_from(bytes, pos) is Ok,
        payment_from_fields(acc, bytes, fields_from(bytes, pos)->Ok_0) == Ok::<
            PaymentView,
            DecodeError,
        >(PaymentView { transactions: acc.transactions + transactions, ..acc }),
    decreases transactions.len(),
{
    if transactions.len() == 0 {
        assert(acc.transactions + transactions =~= acc.transactions);
    } else {
        let part = bytes_field(TRANSACTIONS_FIELD, transactions[0]);
        let rest = transactions.drop_first();
        let written = encode_transactions(transactions);
        lemma_varint_bytes_nonempty(key_of(TRANSACTIONS_FIELD, 2));
        assert(written == part + encode_transactions(rest));
        assert(bytes.subrange(pos, pos + part.len()) =~= part) by {
            assert forall|i: int| 0 <= i < part.len() implies bytes[pos + i] == part[i] by {
                assert(bytes.subrange(pos, bytes.len() as int)[i] == bytes[pos + i]);
            }
        }
        lemma_bytes_field_round_trip(bytes, pos, TRANSACTIONS_FIELD, transactions[0]);
        let field = field_at(bytes, pos)->Ok_0;
        let next = pos + part.len();
        assert(bytes.subrange(next, bytes.len() as int) =~= encode_transactions(rest)) by {
            assert forall|i: int| 0 <= i < encode_transactions(rest).len() implies bytes[next
                + i] == encode_transactions(rest)[i] by {
                assert(bytes.subrange(pos, bytes.len() as int)[part.len() + i] == bytes[next
                    + i]);
            }
        }
        let more = PaymentView { transactions: acc.transactions.push(transactions[0]), ..acc };
        lemma_transactions_round_trip(more, bytes, next, rest);
        let tail = fields_from(bytes, next)->Ok_0;
        let fields = seq![field] + tail;
        assert(fields_from(bytes, pos) == Ok::<Seq<Field>, DecodeError>(fields));
        assert(fields[0] == field);
        assert(fields.drop_first() =~= tail);
        assert(payment_with(acc, bytes, field) == Ok::<PaymentView, DecodeError>(more));
        assert(more.transactions + rest =~= acc.transactions + transactions);
    }
}

/// A payment that was written is read back as it was.
pub proof fn lemma_payment_round_trip(payment: PaymentView)
    requires
        encode_payment(payment).len() <= usize::MAX,
    ensures
        decode_payment(encode_payment(payment)) == Ok::<PaymentView, DecodeError>(payment),
{
    let bytes = encode_payment(payment);
    let none = empty_payment();
    match payment.merchant_data {
        None => {
            assert(bytes =~= encode_transactions(payment.transactions));
            assert(bytes.subrange(0, bytes.len() as int) =~= bytes);
            lemma_transactions_round_trip(none, bytes, 0, payment.transactions);
            assert(none.transactions + payment.transactions =~= payment.transactions);
        },
        Some(data) => {
            let part = bytes_field(MERCHANT_DATA_FIELD, data);
            lemma_varint_bytes_nonempty(key_of(MERCHANT_DATA_FIELD, 2));
            assert(bytes.subrange(0, part.len() as int) =~= part);
            lemma_bytes_field_round_trip(bytes, 0, MERCHANT_DATA_FIELD, data);
            let field = field_at(bytes, 0)->Ok_0;
            let next = part.len() as int;
            assert(bytes.subrange(next, bytes.len() as int) =~= encode_transactions(
                payment.transactions,
            ));
            let with_data = PaymentView { merchant_data: Some(data), ..none };
            lemma_transactions_round_trip(with_data, bytes, next, payment.transactions);
            let tail = fields_from(bytes, next)->Ok_0;
            let fields = seq![field] + tail;
            assert(fields_of(bytes) == Ok::<Seq<Field>, DecodeError>(fields));
            assert(fields[0] == field);
            assert(fields.drop_first() =~= tail);
            assert(payment_with(none, bytes, field) == Ok::<PaymentView, DecodeError>(with_data));
            assert(with_data.transactions + payment.transactions =~= payment.transactions);
        },
    }
}

/// The number of the field of a request's details that holds an output.
pub const OUTPUTS_FIELD: u32 = 2;

/// The number of the field of a request's details that holds the time of
/// the request.
pub const TIME_FIELD: u32 = 3;

/// The number of the field of a request's details that holds its expiry.
pub const EXPIRES_FIELD: u32 = 4;

/// The number of the field of a request's details that holds the note.
pub const MEMO_FIELD: u32 = 5;

/// The number of the field of a request's details that holds the merchant
/// data.
pub const DETAILS_MERCHANT_DATA_FIELD: u32 = 7;

/// The number of the field of an output that holds its amount.
pub const AMOUNT_FIELD: u32 = 1;

/// The number of the field of an output that holds its script.
pub const SCRIPT_FIELD: u32 = 2;

/// The number of the field of a request that holds the version of its
/// details.
pub const DETAILS_VERSION_FIELD: u32 = 1;

/// The number of the field of a request that holds its details.
pub const DETAILS_FIELD: u32 = 4;

/// The number of the field of an answer that holds the payment.
pub const ACK_PAYMENT_FIELD: u32 = 1;

/// The number of the field of an answer that holds the note.
pub const ACK_MEMO_FIELD: u32 = 2;

/// The encoding of the output that pays `amount` to the address of the
/// public-key hash `address`.
pub open spec fn encode_output(amount: u64, address: Seq<u8>) -> Seq<u8> {
    varint_field(AMOUNT_FIELD, amount) + bytes_field(SCRIPT_FIELD, p2pkh_script(address))
}

/// The details of the request for the payment of `invoice`: one output that
/// pays its amount to its address, its two moments, its note, and the
/// merchant data that the payer is to send back.
pub open spec fn encode_details(invoice: InvoiceView, merchant_data: Seq<u8>) -> Seq<u8> {
    bytes_field(OUTPUTS_FIELD, encode_output(invoice.amount, invoice.address)) + varint_field(
        TIME_FIELD,
        invoice.created_at,
    ) + varint_field(EXPIRES_FIELD, invoice.expires_at) + bytes_field(
        MEMO_FIELD,
        encode_utf8(invoice.memo),
    ) + bytes_field(DETAILS_MERCHANT_DATA_FIELD, merchant_data)
}

/// The request for a payment with the given details.
pub open spec fn encode_request(details: Seq<u8>) -> Seq<u8> {
    varint_field(DETAILS_VERSION_FIELD, 1) + bytes_field(DETAILS_FIELD, details)
}

/// The answer to the payment whose encoding is `payment`, with a note.
pub open spec fn encode_ack(payment: Seq<u8>, memo: Seq<char>) -> Seq<u8> {
    bytes_field(ACK_PAYMENT_FIELD, payment) + bytes_field(ACK_MEMO_FIELD, encode_utf8(memo))
}

/// Writes the details of the request for the payment of `invoice`.
pub fn payment_details(invoice: &Invoice, merchant_data: &[u8]) -> (bytes: Vec<u8>)
    ensures
        bytes@ == encode_details(invoice@, merchant_data@),
{
    let mut output: Vec<u8> = Vec::new();
    write_varint_field(&mut output, AMOUNT_FIELD, invoice.amount);
    let script = make_p2pkh_script(invoice.address.as_slice());
    write_bytes_field(&mut output, SCRIPT_FIELD, script.as_slice());
    assert(output@ =~= encode_output(invoice.amount, invoice.address@));
    let mut bytes: Vec<u8> = Vec::new();
    write_bytes_field(&mut bytes, OUTPUTS_FIELD, output.as_slice());
    write_varint_field(&mut bytes, TIME_FIELD, invoice.created_at);
    write_varint_field(&mut bytes, EXPIRES_FIELD, invoice.expires_at);
    write_bytes_field(&mut bytes, MEMO_FIELD, invoice.memo.as_str().as_bytes());
    write_bytes_field(&mut bytes, DETAILS_MERCHANT_DATA_FIELD, merchant_data);
    assert(bytes@ =~= encode_details(invoice@, merchant_data@));
    bytes
}

/// Writes the request for a payment with the given details.
pub fn payment_request(details: &[u8]) -> (bytes: Vec<u8>)
    ensures
        bytes@ == encode_request(details@),
{
    let mut bytes: Vec<u8> = Vec::new();
    write_varint_field(&mut bytes, DETAILS_VERSION_FIELD, 1);
    write_bytes_field(&mut bytes, DETAILS_FIELD, details);
    assert(bytes@ =~= encode_request(details@));
    bytes
}

/// Writes the answer to the payment whose encoding is `payment`.
pub fn payment_ack(payment: &[u8], memo: &str) -> (bytes: Vec<u8>)
    ensures
        bytes@ == encode_ack(payment@, memo@),
{
    let mut bytes: Vec<u8> = Vec::new();
    write_bytes_field(&mut bytes, ACK_PAYMENT_FIELD, payment);
    write_bytes_field(&mut bytes, ACK_MEMO_FIELD, memo.as_bytes());
    assert(bytes@ =~= encode_ack(payment@, memo@));
    bytes
}

} // verus!
