//! The signed envelope in which profiles and messages travel.

use vstd::prelude::*;
use vstd::slice::{slice_subrange, slice_to_vec};

use crate::proto::{
    bytes_field, field_at, fields_from, fields_of, fields_within, lemma_bytes_field_round_trip,
    lemma_varint_bytes_nonempty, lemma_varint_field_round_trip, key_of, read_fields, varint_field,
    write_bytes_field, write_varint_field, DecodeError, Field, WireType,
};

verus! {

/// The number of the field that holds the signer's public key.
pub const PUB_KEY_FIELD: u32 = 1;

/// The number of the field that holds the signature.
pub const SIGNATURE_FIELD: u32 = 2;

/// The number of the field that holds the signature scheme.
pub const SCHEME_FIELD: u32 = 3;

/// The number of the field that holds the signed payload.
pub const PAYLOAD_FIELD: u32 = 4;

/// The signature scheme that stands for Schnorr signatures.
pub const SCHEME_SCHNORR: u8 = 0;

/// The signature scheme that stands for ECDSA, the one scheme that is
/// accepted.
pub const SCHEME_ECDSA: u8 = 1;

/// What a scheme number beyond a byte is held as: a scheme that, like
/// every scheme but ECDSA, is not supported.
pub const SCHEME_UNKNOWN: u8 = 255;

/// The scheme that the number `number` on the wire stands for.
pub open spec fn scheme_of(number: u64) -> u8 {
    if number > u8::MAX {
        SCHEME_UNKNOWN
    } else {
        number as u8
    }
}

/// Only the number one stands for ECDSA.
pub proof fn lemma_scheme_is_ecdsa_for_one_only(number: u64)
    ensures
        scheme_of(number) == SCHEME_ECDSA <==> number == 1,
{
}

/// A payload with the signature that covers it.
#[derive(Debug)]
pub struct AuthWrapper {
    /// The signer's public key, in compressed encoding.
    pub pub_key: Vec<u8>,
    /// The signature scheme.
    pub scheme: u8,
    /// The signature over the payload's SHA-256 digest.
    pub signature: Vec<u8>,
    /// The payload that the signature covers.
    pub serialized_payload: Vec<u8>,
}

/// An envelope as plain values.
pub struct AuthWrapperView {
    pub pub_key: Seq<u8>,
    pub scheme: u8,
    pub signature: Seq<u8>,
    pub serialized_payload: Seq<u8>,
}

impl View for AuthWrapper {
    type V = AuthWrapperView;

    open spec fn view(&self) -> AuthWrapperView {
        AuthWrapperView {
            pub_key: self.pub_key@,
            scheme: self.scheme,
            signature: self.signature@,
            serialized_payload: self.serialized_payload@,
        }
    }
}

/// The envelope of which nothing has been read yet.
pub open spec fn empty_wrapper() -> AuthWrapperView {
    AuthWrapperView {
        pub_key: Seq::empty(),
        scheme: 0,
        signature: Seq::empty(),
        serialized_payload: Seq::empty(),
    }
}

/// The envelope `acc` after `field` of `bytes` has been read into it.
///
/// A field that the envelope knows must have the layout that goes with it;
/// one that it does not know is passed over. Where a field comes twice, the
/// later one counts.
pub open spec fn wrapper_with(acc: AuthWrapperView, bytes: Seq<u8>, field: Field) -> Result<
    AuthWrapperView,
    DecodeError,
> {
    let body = bytes.subrange(field.start as int, field.end as int);
    if field.number == PUB_KEY_FIELD {
        if field.wire_type == WireType::LengthDelimited {
            Ok(AuthWrapperView { pub_key: body, ..acc })
        } else {
            Err(DecodeError::InvalidWireType)
        }
    } else if field.number == SIGNATURE_FIELD {
        if field.wire_type == WireType::LengthDelimited {
            Ok(AuthWrapperView { signature: body, ..acc })
        } else {
            Err(DecodeError::InvalidWireType)
        }
    } else if field.number == SCHEME_FIELD {
        if field.wire_type != WireType::Varint {
            Err(DecodeError::InvalidWireType)
        } else {
            Ok(AuthWrapperView { scheme: scheme_of(field.value), ..acc })
        }
    } else if field.number == PAYLOAD_FIELD {
        if field.wire_type == WireType::LengthDelimited {
            Ok(AuthWrapperView { serialized_payload: body, ..acc })
        } else {
            Err(DecodeError::InvalidWireType)
        }
    } else {
        Ok(acc)
    }
}

/// The envelope `acc` after `fields` of `bytes` have been read into it, one
/// after the other.
pub open spec fn wrapper_from_fields(acc: AuthWrapperView, bytes: Seq<u8>, fields: Seq<Field>) -> Result<
    AuthWrapperView,
    DecodeError,
>
    decreases fields.len(),
{
    if fields.len() == 0 {
        Ok(acc)
    } else {
        match wrapper_with(acc, bytes, fields[0]) {
            Err(err) => Err(err),
            Ok(next) => wrapper_from_fields(next, bytes, fields.drop_first()),
        }
    }
}

/// The envelope that `bytes` encode.
pub open spec fn decode_wrapper(bytes: Seq<u8>) -> Result<AuthWrapperView, DecodeError> {
    match fields_of(bytes) {
        Err(err) => Err(err),
        Ok(fields) => wrapper_from_fields(empty_wrapper(), bytes, fields),
    }
}

/// The encoding of an envelope: its four fields in the order of their
/// numbers.
pub open spec fn encode_wrapper(wrapper: AuthWrapperView) -> Seq<u8> {
    bytes_field(PUB_KEY_FIELD, wrapper.pub_key) + bytes_field(SIGNATURE_FIELD, wrapper.signature)
        + varint_field(SCHEME_FIELD, wrapper.scheme as u64) + bytes_field(
        PAYLOAD_FIELD,
        wrapper.serialized_payload,
    )
}

/// The bytes of `field` in `bytes`.
pub(crate) fn field_body(bytes: &[u8], field: &Field) -> (body: Vec<u8>)
    requires
        field.start <= field.end <= bytes.len(),
    ensures
        body@ == bytes@.subrange(field.start as int, field.end as int),
{
    slice_to_vec(slice_subrange(bytes, field.start, field.end))
}

impl AuthWrapper {
    /// Writes the envelope in its encoding.
    pub fn encode(&self) -> (bytes: Vec<u8>)
        ensures
            bytes@ == encode_wrapper(self@),
    {
        let mut bytes: Vec<u8> = Vec::new();
        write_bytes_field(&mut bytes, PUB_KEY_FIELD, self.pub_key.as_slice());
        write_bytes_field(&mut bytes, SIGNATURE_FIELD, self.signature.as_slice());
        write_varint_field(&mut bytes, SCHEME_FIELD, self.scheme as u64);
        write_bytes_field(&mut bytes, PAYLOAD_FIELD, self.serialized_payload.as_slice());
        assert(bytes@ =~= encode_wrapper(self@));
        bytes
    }

    /// Reads an envelope from its encoding.
    pub fn decode(bytes: &[u8]) -> (r: Result<AuthWrapper, DecodeError>)
        ensures
            match decode_wrapper(bytes@) {
                Ok(wrapper) => r is Ok && r->Ok_0@ == wrapper,
                Err(err) => r is Err && r->Err_0 == err,
            },
    {
        let fields = read_fields(bytes)?;
        let mut wrapper = AuthWrapper {
            pub_key: Vec::new(),
            scheme: 0,
            signature: Vec::new(),
            serialized_payload: Vec::new(),
        };
        let mut i: usize = 0;
        assert(fields@.skip(0) =~= fields@);
        while i < fields.len()
            invariant
                i <= fields.len(),
                fields_within(fields@, bytes.len() as int),
                decode_wrapper(bytes@) == wrapper_from_fields(
                    wrapper@,
                    bytes@,
                    fields@.skip(i as int),
                ),
            decreases fields.len() - i,
        {
            let field = fields[i];
            proof {
                assert(fields@.skip(i as int)[0] == field);
                assert(fields@.skip(i as int).drop_first() =~= fields@.skip(i + 1));
            }
            let delimited = match field.wire_type {
                WireType::LengthDelimited => true,
                _ => false,
            };
            if field.number == PUB_KEY_FIELD {
                if !delimited {
                    return Err(DecodeError::InvalidWireType);
                }
                wrapper.pub_key = field_body(bytes, &field);
            } else if field.number == SIGNATURE_FIELD {
                if !delimited {
                    return Err(DecodeError::InvalidWireType);
                }
                wrapper.signature = field_body(bytes, &field);
            } else if field.number == SCHEME_FIELD {
                match field.wire_type {
                    WireType::Varint => {},
                    _ => { return Err(DecodeError::InvalidWireType); },
                }
                wrapper.scheme = if field.value > u8::MAX as u64 {
                    SCHEME_UNKNOWN
                } else {
                    field.value as u8
                };
            } else if field.number == PAYLOAD_FIELD {
                if !delimited {
                    return Err(DecodeError::InvalidWireType);
                }
                wrapper.serialized_payload = field_body(bytes, &field);
            }
            i = i + 1;
        }
        Ok(wrapper)
    }
}

/// An envelope that was written is read back as it was.
pub proof fn lemma_wrapper_round_trip(wrapper: AuthWrapperView)
    requires
        encode_wrapper(wrapper).len() <= usize::MAX,
    ensures
        decode_wrapper(encode_wrapper(wrapper)) == Ok::<AuthWrapperView, DecodeError>(wrapper),
{
    let bytes = encode_wrapper(wrapper);
    let key_part = bytes_field(PUB_KEY_FIELD, wrapper.pub_key);
    let signature_part = bytes_field(SIGNATURE_FIELD, wrapper.signature);
    let scheme_part = varint_field(SCHEME_FIELD, wrapper.scheme as u64);
    let payload_part = bytes_field(PAYLOAD_FIELD, wrapper.serialized_payload);
    let key_end = key_part.len() as int;
    let signature_end = key_end + signature_part.len();
    let scheme_end = signature_end + scheme_part.len();
    let payload_end = scheme_end + payload_part.len();
    lemma_varint_bytes_nonempty(key_of(PUB_KEY_FIELD, 2));
    lemma_varint_bytes_nonempty(key_of(SIGNATURE_FIELD, 2));
    lemma_varint_bytes_nonempty(key_of(SCHEME_FIELD, 0));
    lemma_varint_bytes_nonempty(key_of(PAYLOAD_FIELD, 2));
    assert(bytes.len() == payload_end);
    assert(bytes.subrange(0, key_end) =~= key_part);
    assert(bytes.subrange(key_end, signature_end) =~= signature_part);
    assert(bytes.subrange(signature_end, scheme_end) =~= scheme_part);
    assert(bytes.subrange(scheme_end, payload_end) =~= payload_part);
    lemma_bytes_field_round_trip(bytes, 0, PUB_KEY_FIELD, wrapper.pub_key);
    lemma_bytes_field_round_trip(bytes, key_end, SIGNATURE_FIELD, wrapper.signature);
    lemma_varint_field_round_trip(bytes, signature_end, SCHEME_FIELD, wrapper.scheme as u64);
    lemma_bytes_field_round_trip(bytes, scheme_end, PAYLOAD_FIELD, wrapper.serialized_payload);
    let f1 = field_at(bytes, 0)->Ok_0;
    let f2 = field_at(bytes, key_end)->Ok_0;
    let f3 = field_at(bytes, signature_end)->Ok_0;
    let f4 = field_at(bytes, scheme_end)->Ok_0;
    let none = Seq::<Field>::empty();
    assert(fields_from(bytes, payload_end) == Ok::<Seq<Field>, DecodeError>(none));
    assert(fields_from(bytes, scheme_end) == Ok::<Seq<Field>, DecodeError>(seq![f4] + none));
    assert(fields_from(bytes, signature_end) == Ok::<Seq<Field>, DecodeError>(seq![f3] + (seq![f4] + none)));
    assert(fields_from(bytes, key_end) == Ok::<Seq<Field>, DecodeError>(
        seq![f2] + (seq![f3] + (seq![f4] + none)),
    ));
    let fields = seq![f1] + (seq![f2] + (seq![f3] + (seq![f4] + none)));
    assert(fields_of(bytes) == Ok::<Seq<Field>, DecodeError>(fields));
    let w0 = empty_wrapper();
    let w1 = AuthWrapperView { pub_key: wrapper.pub_key, ..w0 };
    let w2 = AuthWrapperView { signature: wrapper.signature, ..w1 };
    let w3 = AuthWrapperView { scheme: wrapper.scheme, ..w2 };
    let w4 = AuthWrapperView { serialized_payload: wrapper.serialized_payload, ..w3 };
    let rest1 = fields.drop_first();
    let rest2 = rest1.drop_first();
    let rest3 = rest2.drop_first();
    let rest4 = rest3.drop_first();
    assert(fields[0] == f1 && rest1[0] == f2 && rest2[0] == f3 && rest3[0] == f4);
    assert(rest4.len() == 0);
    assert(wrapper_with(w0, bytes, f1) == Ok::<AuthWrapperView, DecodeError>(w1));
    assert(wrapper_with(w1, bytes, f2) == Ok::<AuthWrapperView, DecodeError>(w2));
    assert(wrapper_with(w2, bytes, f3) == Ok::<AuthWrapperView, DecodeError>(w3));
    assert(wrapper_with(w3, bytes, f4) == Ok::<AuthWrapperView, DecodeError>(w4));
    assert(wrapper_from_fields(w4, bytes, rest4) == Ok::<AuthWrapperView, DecodeError>(w4));
    assert(wrapper_from_fields(w3, bytes, rest3) == Ok::<AuthWrapperView, DecodeError>(w4));
    assert(wrapper_from_fields(w2, bytes, rest2) == Ok::<AuthWrapperView, DecodeError>(w4));
    assert(wrapper_from_fields(w1, bytes, rest1) == Ok::<AuthWrapperView, DecodeError>(w4));
    assert(wrapper_from_fields(w0, bytes, fields) == Ok::<AuthWrapperView, DecodeError>(w4));
    assert(w4 == wrapper);
}

} // verus!
