use cash_relay::models::bip70::{payment_ack, payment_request, Payment};
use cash_relay::models::wrapper::AuthWrapper;
use cash_relay::proto::{
    read_field, read_fields, read_varint, write_bytes_field, write_varint, write_varint_field,
    DecodeError, Field, WireType,
};

#[test]
fn varint_of_one_byte() {
    assert_eq!(read_varint(&[0x00], 0), Ok((0, 1)));
    assert_eq!(read_varint(&[0x01], 0), Ok((1, 1)));
    assert_eq!(read_varint(&[0x7f], 0), Ok((127, 1)));
    assert_eq!(read_varint(&[0xff, 0x7f, 0x05], 1), Ok((127, 2)));
}

#[test]
fn varint_of_several_bytes() {
    assert_eq!(read_varint(&[0x80, 0x01], 0), Ok((128, 2)));
    assert_eq!(read_varint(&[0xac, 0x02], 0), Ok((300, 2)));
    assert_eq!(read_varint(&[0xff, 0xff, 0x03], 0), Ok((65535, 3)));
    assert_eq!(read_varint(&[0x80, 0x00], 0), Ok((0, 2)));
}

#[test]
fn varint_of_ten_bytes() {
    let largest = [0xff, 0xff, 0xff, 0xff, 0xff, 0xff, 0xff, 0xff, 0xff, 0x01];
    assert_eq!(read_varint(&largest, 0), Ok((u64::MAX, 10)));
    let high_bit = [0x80, 0x80, 0x80, 0x80, 0x80, 0x80, 0x80, 0x80, 0x80, 0x01];
    assert_eq!(read_varint(&high_bit, 0), Ok((1 << 63, 10)));
}

#[test]
fn varint_beyond_64_bits_overflows() {
    let too_large = [0xff, 0xff, 0xff, 0xff, 0xff, 0xff, 0xff, 0xff, 0xff, 0x02];
    assert_eq!(read_varint(&too_large, 0), Err(DecodeError::VarintOverflow));
    let too_long = [0x80, 0x80, 0x80, 0x80, 0x80, 0x80, 0x80, 0x80, 0x80, 0x80, 0x01];
    assert_eq!(read_varint(&too_long, 0), Err(DecodeError::VarintOverflow));
    let eleven = [0xff, 0xff, 0xff, 0xff, 0xff, 0xff, 0xff, 0xff, 0xff, 0x81, 0x00];
    assert_eq!(read_varint(&eleven, 0), Err(DecodeError::VarintOverflow));
}

#[test]
fn varint_that_ends_early_is_truncated() {
    assert_eq!(read_varint(&[], 0), Err(DecodeError::TruncatedVarint));
    assert_eq!(read_varint(&[0x80], 0), Err(DecodeError::TruncatedVarint));
    assert_eq!(read_varint(&[0x01], 1), Err(DecodeError::TruncatedVarint));
    assert_eq!(read_varint(&[0x01], 7), Err(DecodeError::TruncatedVarint));
    assert_eq!(read_varint(&[0xff, 0xff], 0), Err(DecodeError::TruncatedVarint));
}

#[test]
fn written_varint_is_read_back() {
    for value in [0u64, 1, 127, 128, 300, 16383, 16384, 1 << 32, (1 << 63) - 1, 1 << 63, u64::MAX]
    {
        let mut bytes = vec![0xee];
        write_varint(&mut bytes, value);
        assert_eq!(read_varint(&bytes, 1), Ok((value, bytes.len())));
    }
}

#[test]
fn written_varint_has_the_known_bytes() {
    let mut bytes = Vec::new();
    write_varint(&mut bytes, 300);
    assert_eq!(bytes, vec![0xac, 0x02]);
    write_varint(&mut bytes, 0);
    assert_eq!(bytes, vec![0xac, 0x02, 0x00]);
    write_varint(&mut bytes, u64::MAX);
    assert_eq!(
        bytes,
        vec![0xac, 0x02, 0x00, 0xff, 0xff, 0xff, 0xff, 0xff, 0xff, 0xff, 0xff, 0xff, 0x01]
    );
}

#[test]
fn field_of_each_layout_is_read() {
    assert_eq!(
        read_field(&[0x18, 0xac, 0x02], 0),
        Ok(Field { number: 3, wire_type: WireType::Varint, value: 300, start: 1, end: 3 })
    );
    assert_eq!(
        read_field(&[0x09, 1, 2, 3, 4, 5, 6, 7, 8], 0),
        Ok(Field { number: 1, wire_type: WireType::Fixed64, value: 0, start: 1, end: 9 })
    );
    assert_eq!(
        read_field(&[0x12, 0x03, 7, 8, 9], 0),
        Ok(Field { number: 2, wire_type: WireType::LengthDelimited, value: 3, start: 2, end: 5 })
    );
    assert_eq!(
        read_field(&[0x12, 0x00], 0),
        Ok(Field { number: 2, wire_type: WireType::LengthDelimited, value: 0, start: 2, end: 2 })
    );
    assert_eq!(
        read_field(&[0x00, 0x25, 1, 2, 3, 4], 1),
        Ok(Field { number: 4, wire_type: WireType::Fixed32, value: 0, start: 2, end: 6 })
    );
    assert_eq!(
        read_field(&[0x80, 0x01, 0x05], 0),
        Ok(Field { number: 16, wire_type: WireType::Varint, value: 5, start: 2, end: 3 })
    );
}

#[test]
fn malformed_field_is_refused() {
    assert_eq!(read_field(&[], 0), Err(DecodeError::TruncatedVarint));
    assert_eq!(read_field(&[0x00, 0x01], 0), Err(DecodeError::InvalidTag));
    assert_eq!(read_field(&[0x02, 0x00], 0), Err(DecodeError::InvalidTag));
    assert_eq!(read_field(&[0x0b], 0), Err(DecodeError::InvalidWireType));
    assert_eq!(read_field(&[0x0c], 0), Err(DecodeError::InvalidWireType));
    assert_eq!(read_field(&[0x0e], 0), Err(DecodeError::InvalidWireType));
    assert_eq!(read_field(&[0x0f], 0), Err(DecodeError::InvalidWireType));
    assert_eq!(read_field(&[0x08], 0), Err(DecodeError::TruncatedVarint));
    assert_eq!(read_field(&[0x09, 1, 2, 3], 0), Err(DecodeError::BufferUnderflow));
    assert_eq!(read_field(&[0x0d, 1, 2, 3], 0), Err(DecodeError::BufferUnderflow));
    assert_eq!(read_field(&[0x0a, 0x02, 1], 0), Err(DecodeError::BufferUnderflow));
    assert_eq!(read_field(&[0x0a], 0), Err(DecodeError::TruncatedVarint));
    assert_eq!(
        read_field(&[0x0a, 0xff, 0xff, 0xff, 0xff, 0xff, 0xff, 0xff, 0xff, 0xff, 0x01], 0),
        Err(DecodeError::BufferUnderflow)
    );
    assert_eq!(
        read_field(&[0x80, 0x80, 0x80, 0x80, 0x10, 0x00], 0),
        Err(DecodeError::InvalidKey)
    );
    assert_eq!(
        read_field(&[0xf8, 0xff, 0xff, 0xff, 0x0f, 0x07], 0),
        Ok(Field {
            number: 0x1fff_ffff,
            wire_type: WireType::Varint,
            value: 7,
            start: 5,
            end: 6
        })
    );
}

#[test]
fn message_is_split_into_its_fields() {
    assert_eq!(read_fields(&[]), Ok(vec![]));
    let bytes = [0x0a, 0x02, 0xaa, 0xbb, 0x18, 0x01, 0x22, 0x00];
    assert_eq!(
        read_fields(&bytes),
        Ok(vec![
            Field {
                number: 1,
                wire_type: WireType::LengthDelimited,
                value: 2,
                start: 2,
                end: 4
            },
            Field { number: 3, wire_type: WireType::Varint, value: 1, start: 5, end: 6 },
            Field {
                number: 4,
                wire_type: WireType::LengthDelimited,
                value: 0,
                start: 8,
                end: 8
            },
        ])
    );
    assert_eq!(read_fields(&[0x0a, 0x02, 0xaa, 0xbb, 0x18]), Err(DecodeError::TruncatedVarint));
    assert_eq!(read_fields(&[0x18, 0x01, 0x00, 0x00]), Err(DecodeError::InvalidTag));
}

#[test]
fn written_fields_have_the_known_bytes() {
    let mut bytes = Vec::new();
    write_varint_field(&mut bytes, 3, 1);
    assert_eq!(bytes, vec![0x18, 0x01]);
    write_bytes_field(&mut bytes, 4, &[0xde, 0xad]);
    assert_eq!(bytes, vec![0x18, 0x01, 0x22, 0x02, 0xde, 0xad]);
    write_bytes_field(&mut bytes, 16, &[]);
    assert_eq!(bytes, vec![0x18, 0x01, 0x22, 0x02, 0xde, 0xad, 0x82, 0x01, 0x00]);
}

#[test]
fn envelope_is_written_field_by_field() {
    let wrapper = AuthWrapper {
        pub_key: vec![0x02, 0x03],
        scheme: 1,
        signature: vec![0x04],
        serialized_payload: vec![0x05, 0x06, 0x07],
    };
    assert_eq!(
        wrapper.encode(),
        vec![0x0a, 0x02, 0x02, 0x03, 0x12, 0x01, 0x04, 0x18, 0x01, 0x22, 0x03, 0x05, 0x06, 0x07]
    );
}

#[test]
fn written_envelope_is_read_back() {
    let wrapper = AuthWrapper {
        pub_key: vec![0x02; 33],
        scheme: 1,
        signature: vec![0x11; 64],
        serialized_payload: vec![0x22; 300],
    };
    let read = AuthWrapper::decode(&wrapper.encode()).unwrap();
    assert_eq!(read.pub_key, wrapper.pub_key);
    assert_eq!(read.scheme, 1);
    assert_eq!(read.signature, wrapper.signature);
    assert_eq!(read.serialized_payload, wrapper.serialized_payload);
}

#[test]
fn envelope_takes_fields_in_any_order_and_the_later_of_two() {
    let bytes = [
        0x22, 0x01, 0x09, 0x18, 0x00, 0x0a, 0x01, 0x01, 0x18, 0x01, 0x0a, 0x02, 0x07, 0x08, 0x2a,
        0x01, 0xff, 0x30, 0x05,
    ];
    let read = AuthWrapper::decode(&bytes).unwrap();
    assert_eq!(read.pub_key, vec![0x07, 0x08]);
    assert_eq!(read.scheme, 1);
    assert_eq!(read.signature, Vec::<u8>::new());
    assert_eq!(read.serialized_payload, vec![0x09]);
}

#[test]
fn empty_bytes_are_the_empty_envelope() {
    let read = AuthWrapper::decode(&[]).unwrap();
    assert_eq!(read.pub_key, Vec::<u8>::new());
    assert_eq!(read.scheme, 0);
    assert_eq!(read.signature, Vec::<u8>::new());
    assert_eq!(read.serialized_payload, Vec::<u8>::new());
}

#[test]
fn envelope_with_a_field_of_the_wrong_layout_is_refused() {
    assert!(matches!(AuthWrapper::decode(&[0x08, 0x01]), Err(DecodeError::InvalidWireType)));
    assert!(matches!(AuthWrapper::decode(&[0x10, 0x01]), Err(DecodeError::InvalidWireType)));
    assert!(matches!(
        AuthWrapper::decode(&[0x1a, 0x01, 0x01]),
        Err(DecodeError::InvalidWireType)
    ));
    assert!(matches!(AuthWrapper::decode(&[0x20, 0x01]), Err(DecodeError::InvalidWireType)));
    assert!(matches!(
        AuthWrapper::decode(&[0x18, 0x01, 0x20, 0x01, 0xff]),
        Err(DecodeError::TruncatedVarint)
    ));
}

#[test]
fn scheme_beyond_a_byte_is_held_as_unknown() {
    assert_eq!(AuthWrapper::decode(&[0x18, 0x80, 0x02]).unwrap().scheme, 255);
    assert_eq!(AuthWrapper::decode(&[0x18, 0x81, 0x02]).unwrap().scheme, 255);
    assert_eq!(AuthWrapper::decode(&[0x18, 0x81, 0x80, 0x80, 0x80, 0x10]).unwrap().scheme, 255);
    let largest = [0x18, 0xff, 0xff, 0xff, 0xff, 0xff, 0xff, 0xff, 0xff, 0xff, 0x01];
    assert_eq!(AuthWrapper::decode(&largest).unwrap().scheme, 255);
    assert_eq!(AuthWrapper::decode(&[0x18, 0xff, 0x01]).unwrap().scheme, 255);
    assert_eq!(AuthWrapper::decode(&[0x18, 0xfe, 0x01]).unwrap().scheme, 254);
    assert_eq!(AuthWrapper::decode(&[0x18, 0x01]).unwrap().scheme, 1);
}

#[test]
fn payment_is_read_with_its_transactions_in_order() {
    let bytes = [
        0x12, 0x02, 0x01, 0x02, 0x0a, 0x01, 0xaa, 0x12, 0x00, 0x22, 0x02, 0x68, 0x69, 0x12, 0x01,
        0x03,
    ];
    let payment = Payment::decode(&bytes).unwrap();
    assert_eq!(payment.merchant_data, Some(vec![0xaa]));
    assert_eq!(payment.transactions, vec![vec![0x01, 0x02], vec![], vec![0x03]]);
}

#[test]
fn payment_without_merchant_data_has_none() {
    let payment = Payment::decode(&[0x12, 0x01, 0x07]).unwrap();
    assert_eq!(payment.merchant_data, None);
    assert_eq!(payment.transactions, vec![vec![0x07]]);
    let empty = Payment::decode(&[]).unwrap();
    assert_eq!(empty.merchant_data, None);
    assert!(empty.transactions.is_empty());
}

#[test]
fn malformed_payment_is_refused() {
    assert!(matches!(Payment::decode(&[0x08, 0x01]), Err(DecodeError::InvalidWireType)));
    assert!(matches!(Payment::decode(&[0x10, 0x01]), Err(DecodeError::InvalidWireType)));
    assert!(matches!(Payment::decode(&[0x12, 0x05, 0x01]), Err(DecodeError::BufferUnderflow)));
}

#[test]
fn written_payment_is_read_back() {
    let payment = Payment {
        merchant_data: Some(vec![0x02; 33]),
        transactions: vec![vec![0x01; 200], vec![0x02; 3]],
    };
    let bytes = payment.encode();
    let read = Payment::decode(&bytes).unwrap();
    assert_eq!(read.merchant_data, payment.merchant_data);
    assert_eq!(read.transactions, payment.transactions);
    let bare = Payment { merchant_data: None, transactions: vec![] };
    assert_eq!(bare.encode(), Vec::<u8>::new());
    let one = Payment { merchant_data: Some(vec![1]), transactions: vec![vec![2]] };
    assert_eq!(one.encode(), vec![0x0a, 0x01, 0x01, 0x12, 0x01, 0x02]);
}

#[test]
fn request_and_answer_have_the_known_bytes() {
    assert_eq!(payment_request(&[0xaa, 0xbb]), vec![0x08, 0x01, 0x22, 0x02, 0xaa, 0xbb]);
    assert_eq!(
        payment_ack(&[0x0a, 0x00], "ok"),
        vec![0x0a, 0x02, 0x0a, 0x00, 0x12, 0x02, 0x6f, 0x6b]
    );
}
