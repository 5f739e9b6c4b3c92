use cash_relay::bitcoin::BitcoinError;
use cash_relay::crypto::errors::CryptoError;
use cash_relay::net::errors::{PaymentError, ServerError, StampError, ValidationError};
use cash_relay::proto::DecodeError;

#[test]
fn validation_errors_have_their_status_and_text() {
    let cases = vec![
        (ValidationError::KeyType, 400, "bad key type"),
        (ValidationError::Preimage, 400, "digest mismatch"),
        (ValidationError::Outdated, 400, "metadata is outdated"),
        (ValidationError::ExpiredTTL, 402, "expired TTL"),
        (ValidationError::Crypto(CryptoError::Verification), 400, "signature verification failed"),
    ];
    for (err, status, text) in cases {
        assert_eq!(err.to_string(), text);
        assert_eq!(err.error_response(), (status, text.to_string()));
    }
}

#[test]
fn expired_credential_asks_for_payment_as_a_server_error() {
    let err = ServerError::from(ValidationError::ExpiredTTL);
    assert_eq!(err.error_response(), (402, "expired TTL".to_string()));
    let outdated = ServerError::from(ValidationError::Outdated);
    assert_eq!(outdated.error_response().0, 400);
}

#[test]
fn crypto_error_converts_into_validation_error() {
    let err: ValidationError = CryptoError::SigDeserialization.into();
    assert!(matches!(err, ValidationError::Crypto(CryptoError::SigDeserialization)));
}

#[test]
fn stamp_errors_are_bad_requests() {
    let cases = vec![
        (StampError::Decode("parse failed: no".to_string()), "parse failed: no"),
        (StampError::MissingOutput, "missing stamp output"),
        (StampError::NotP2PKH, "stamp output was not p2pkh"),
        (StampError::TxReject(BitcoinError::EmptyResponse), "empty response"),
        (StampError::TxReject(BitcoinError::Http("timed out".to_string())), "timed out"),
        (StampError::TxReject(BitcoinError::Json("no json".to_string())), "no json"),
        (StampError::TxReject(BitcoinError::Rpc("double spend".to_string())), "double spend"),
        (StampError::UnexpectedAddress, "stamp address was unexpected"),
        (StampError::InvalidDigest, "stamp payload has no key"),
    ];
    for (err, text) in cases {
        assert_eq!(err.to_string(), text);
        assert_eq!(err.error_response(), (400, text.to_string()));
    }
}

#[test]
fn payment_errors_have_their_status_and_text() {
    let cases = vec![
        (PaymentError::Content, 415, "invalid content-type"),
        (PaymentError::Accept, 406, "not acceptable"),
        (PaymentError::Decode, 400, "failed to decode body"),
        (PaymentError::Payload, 400, "failed to receive payload"),
        (PaymentError::NoMerchantDat, 400, "no merchant data"),
        (PaymentError::InvalidMerchantDat, 400, "invalid merchant data"),
        (PaymentError::InvalidAuth, 402, "invalid authorization"),
        (PaymentError::NoToken, 402, "no token"),
        (PaymentError::URIMalformed, 400, "malformed URI"),
        (PaymentError::NoTx, 400, "no payment tx"),
        (PaymentError::TxDeserialize("whatever".to_string()), 400, "payment tx malformed"),
        (PaymentError::InvalidOutputs, 400, "invalid outputs"),
        (PaymentError::TxReject(BitcoinError::EmptyResponse), 400, "empty response"),
        (PaymentError::TxReject(BitcoinError::Rpc("rejected".to_string())), 400, "rejected"),
        (PaymentError::MismatchedNetwork, 400, "address mismatched with node network"),
        (PaymentError::AddrFetchFailed, 500, "failed to fetch address"),
    ];
    for (err, status, text) in cases {
        assert_eq!(err.status_code(), status);
        assert_eq!(err.to_string(), text);
        assert_eq!(err.error_response(), (status, text.to_string()));
    }
}

#[test]
fn payment_error_wraps_the_decoders_complaint() {
    assert!(matches!(
        PaymentError::from_tx_decode("bad".to_string()),
        PaymentError::TxDeserialize(text) if text == "bad"
    ));
}

#[test]
fn server_errors_have_their_status_and_text() {
    let cases = vec![
        (
            ServerError::Address("invalid char (x)".to_string(), "invalid length (3)".to_string()),
            400,
            "invalid char (x), invalid length (3)",
        ),
        (ServerError::Buffer("overflow".to_string()), 400, "overflow"),
        (ServerError::DestinationMalformed, 400, "destination pubkey malformed"),
        (
            ServerError::DegenerateCombination,
            400,
            "combined public key was the reciprocal of the destination address",
        ),
        (
            ServerError::Crypto(CryptoError::PubkeyDeserialization),
            400,
            "pubkey deserialization failed",
        ),
        (ServerError::FilterDecode(DecodeError::BufferUnderflow), 400, "buffer underflow"),
        (ServerError::Validation(ValidationError::Outdated), 400, "metadata is outdated"),
        (ServerError::MessagesDecode(DecodeError::VarintOverflow), 400, "invalid varint"),
        (ServerError::NotFound, 404, "not found"),
        (ServerError::PayloadDecode(DecodeError::InvalidWireType), 400, "invalid wire type"),
        (ServerError::Payment(PaymentError::NoToken), 402, "no token"),
        (ServerError::Payment(PaymentError::Accept), 406, "not acceptable"),
        (ServerError::Payment(PaymentError::Content), 415, "invalid content-type"),
        (ServerError::Payment(PaymentError::AddrFetchFailed), 500, "failed to fetch address"),
        (ServerError::Stamp(StampError::NotP2PKH), 400, "stamp output was not p2pkh"),
        (ServerError::UnsupportedSigScheme, 501, "signature scheme not supported"),
    ];
    for (err, status, text) in cases {
        assert_eq!(err.to_string(), text);
        assert_eq!(err.error_response(), (status, text.to_string()));
    }
}

#[test]
fn storage_failure_is_answered_without_its_diagnostic() {
    let err = ServerError::from_db("IO error: lock hold by current process".to_string());
    assert_eq!(err.error_response(), (500, String::new()));
    assert_eq!(err.to_string(), "IO error: lock hold by current process");
    let empty = ServerError::DB(String::new());
    assert_eq!(empty.error_response(), (500, String::new()));
}

#[test]
fn errors_convert_into_server_errors() {
    let stamp: ServerError = StampError::MissingOutput.into();
    assert!(matches!(stamp, ServerError::Stamp(StampError::MissingOutput)));
    let crypto: ServerError = CryptoError::Verification.into();
    assert!(matches!(crypto, ServerError::Crypto(CryptoError::Verification)));
    let validation: ServerError = ValidationError::KeyType.into();
    assert!(matches!(validation, ServerError::Validation(ValidationError::KeyType)));
    let payment: ServerError = PaymentError::NoTx.into();
    assert!(matches!(payment, ServerError::Payment(PaymentError::NoTx)));
    let address = ServerError::from_address("a".to_string(), "b".to_string());
    assert!(matches!(address, ServerError::Address(a, b) if a == "a" && b == "b"));
}

#[test]
fn refused_stamps_convert_into_server_errors() {
    let degenerate =
        ServerError::from_stamp_check(cash_relay::stamps::StampError::DegenerateCombination);
    assert!(matches!(degenerate, ServerError::DegenerateCombination));
    let decode =
        ServerError::from_stamp_check(cash_relay::stamps::StampError::Decode("bad".to_string()));
    assert!(matches!(decode, ServerError::Stamp(StampError::Decode(text)) if text == "bad"));
    let missing = ServerError::from_stamp_check(cash_relay::stamps::StampError::MissingOutput);
    assert!(matches!(missing, ServerError::Stamp(StampError::MissingOutput)));
    let script = ServerError::from_stamp_check(cash_relay::stamps::StampError::NotP2PKH);
    assert!(matches!(script, ServerError::Stamp(StampError::NotP2PKH)));
    let address = ServerError::from_stamp_check(cash_relay::stamps::StampError::UnexpectedAddress);
    assert!(matches!(address, ServerError::Stamp(StampError::UnexpectedAddress)));
    let digest = ServerError::from_stamp_check(cash_relay::stamps::StampError::InvalidDigest);
    assert!(matches!(digest, ServerError::Stamp(StampError::InvalidDigest)));
    let reject = ServerError::from_stamp_check(cash_relay::stamps::StampError::TxReject(
        BitcoinError::EmptyResponse,
    ));
    assert!(matches!(
        reject,
        ServerError::Stamp(StampError::TxReject(BitcoinError::EmptyResponse))
    ));
}

#[test]
fn node_errors_have_their_text() {
    assert_eq!(BitcoinError::EmptyResponse.to_string(), "empty response");
    assert_eq!(BitcoinError::Http("refused".to_string()).to_string(), "refused");
    assert_eq!(BitcoinError::Json("eof".to_string()).to_string(), "eof");
    assert_eq!(BitcoinError::Rpc("code -26".to_string()).to_string(), "code -26");
}

#[test]
fn decode_errors_have_their_text() {
    assert_eq!(DecodeError::TruncatedVarint.to_string(), "truncated varint");
    assert_eq!(DecodeError::VarintOverflow.to_string(), "invalid varint");
    assert_eq!(DecodeError::InvalidKey.to_string(), "invalid key value");
    assert_eq!(DecodeError::InvalidTag.to_string(), "invalid tag value: 0");
    assert_eq!(DecodeError::InvalidWireType.to_string(), "invalid wire type");
    assert_eq!(DecodeError::BufferUnderflow.to_string(), "buffer underflow");
}
