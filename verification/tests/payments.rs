use cash_relay::crypto::PublicKey;
use cash_relay::models::bip70::{
    payment_details, payment_request, Payment, PAYMENT_ACK_CONTENT_TYPE, PAYMENT_CONTENT_TYPE,
    PAYMENT_REQUEST_CONTENT_TYPE,
};
use cash_relay::net::errors::{PaymentError, ServerError, StampError, ValidationError};
use cash_relay::net::payments::{
    access_for_status, check_payment, process_payment, read_submission, request_payment,
    resource_id, settle_payment, Access, PaymentAccepted,
};
use cash_relay::script::{make_p2pkh_script, script_is_p2pkh};
use cash_relay::stamps::expected_stamp_hash;
use cash_relay::token::{AccessToken, TokenStatus};
use cash_relay::wallet::{Invoice, WalletState};

const SECRET: &[u8] = b"1234";

fn payment_settings() -> cash_relay::settings::Payment {
    cash_relay::settings::Payment {
        timeout: 60_000,
        token_fee: 100_000,
        memo: "Thanks for your custom!".to_string(),
        hmac_secret: "1234".to_string(),
    }
}

fn destination(seed: u8) -> PublicKey {
    let secp = secp256k1::Secp256k1::signing_only();
    let secret = secp256k1::SecretKey::from_slice(&[seed; 32]).unwrap();
    let key = secp256k1::PublicKey::from_secret_key(&secp, &secret);
    PublicKey::from_slice(&key.serialize()).unwrap()
}

fn hash160(data: &[u8]) -> Vec<u8> {
    bitcoin_hashes::Hash::into_inner(<bitcoin_hashes::hash160::Hash as bitcoin_hashes::Hash>::hash(
        data,
    ))
    .to_vec()
}

fn raw_transaction(outputs: &[(u64, Vec<u8>)]) -> Vec<u8> {
    let mut raw = Vec::new();
    raw.extend_from_slice(&1u32.to_le_bytes());
    raw.push(1);
    raw.extend_from_slice(&[0x11; 32]);
    raw.extend_from_slice(&0u32.to_le_bytes());
    raw.push(0);
    raw.extend_from_slice(&0xffff_ffffu32.to_le_bytes());
    raw.push(outputs.len() as u8);
    for (value, script) in outputs {
        raw.extend_from_slice(&value.to_le_bytes());
        raw.push(script.len() as u8);
        raw.extend_from_slice(script);
    }
    raw.extend_from_slice(&0u32.to_le_bytes());
    raw
}

/// The script that a stamp of the invoice's details for `key` pays to.
fn stamp_script(invoice: &Invoice, key: &PublicKey) -> Vec<u8> {
    let details = payment_details(invoice, key.as_bytes());
    make_p2pkh_script(&expected_stamp_hash(&details, key).unwrap())
}

fn payment_body(key: &PublicKey, transactions: Vec<Vec<u8>>) -> Vec<u8> {
    Payment { merchant_data: Some(key.serialize()), transactions }.encode()
}

fn submit(wallet: &mut WalletState, body: &[u8], now: u64) -> Result<PaymentAccepted, ServerError> {
    process_payment(
        wallet,
        &payment_settings(),
        Some(PAYMENT_CONTENT_TYPE),
        Some(PAYMENT_ACK_CONTENT_TYPE),
        body,
        now,
    )
}

fn invoice_for(wallet: &mut WalletState, key: &PublicKey, now: u64) -> Invoice {
    request_payment(wallet, &payment_settings(), key, "filter:abc".to_string(), now)
        .unwrap()
        .invoice
}

#[test]
fn request_without_token_is_answered_with_an_invoice_and_payment_buys_a_token() {
    let settings = payment_settings();
    let mut wallet = WalletState::new();
    let key = destination(0x42);
    let resource = resource_id("filter", "abc");
    assert_eq!(resource, "filter:abc");

    let asked_at = 1_600_000_000_000;
    let access = check_payment(None, &resource, asked_at, SECRET);
    assert_eq!(access, Access::NoToken);
    assert!(access.requires_payment());
    assert_eq!(access.refusal().unwrap().error_response().0, 402);

    let required =
        request_payment(&mut wallet, &settings, &key, resource.clone(), asked_at).unwrap();
    assert_eq!(required.invoice.amount, settings.token_fee);
    assert_eq!(required.invoice.expires_at, asked_at + settings.timeout);
    assert_eq!(required.invoice.created_at, asked_at);
    assert_eq!(required.invoice.memo, "Thanks for your custom!");
    assert_eq!(required.invoice.resource_id, "filter:abc");
    assert_eq!(required.invoice.address, hash160(key.as_bytes()));
    assert_eq!(
        required.body,
        payment_request(&payment_details(&required.invoice, key.as_bytes()))
    );

    let paid_at = asked_at + 30_000;
    let raw = raw_transaction(&[
        (60_000, stamp_script(&required.invoice, &key)),
        (40_000, make_p2pkh_script(&required.invoice.address)),
    ]);
    let body = payment_body(&key, vec![raw.clone()]);
    let accepted = submit(&mut wallet, &body, paid_at).unwrap();
    assert_eq!(accepted.token.resource_id, "filter:abc");
    assert_eq!(accepted.token.expires_at, paid_at + settings.timeout);
    assert_eq!(accepted.token.mac, AccessToken::mint("filter:abc", paid_at + 60_000, SECRET).mac);
    assert_eq!(accepted.transaction, raw);
    assert_eq!(accepted.invoice.address, required.invoice.address);
    assert!(128 <= body.len() && body.len() < 16_384);
    let mut ack = vec![0x0a, (body.len() % 128) as u8 | 0x80, (body.len() / 128) as u8];
    ack.extend_from_slice(&body);
    ack.extend_from_slice(&[0x12, 23]);
    ack.extend_from_slice(b"Thanks for your custom!");
    assert_eq!(accepted.ack, ack);

    let header = accepted.token.to_header();
    let before_expiry = paid_at + settings.timeout;
    assert_eq!(check_payment(Some(&header), &resource, paid_at, SECRET), Access::Forward);
    assert_eq!(check_payment(Some(&header), &resource, before_expiry, SECRET), Access::Forward);
    assert!(check_payment(Some(&header), &resource, before_expiry, SECRET).refusal().is_none());
    let after_expiry = check_payment(Some(&header), &resource, before_expiry + 1, SECRET);
    assert_eq!(after_expiry, Access::Expired);
    assert!(after_expiry.requires_payment());
    assert!(matches!(
        after_expiry.refusal(),
        Some(ServerError::Validation(ValidationError::ExpiredTTL))
    ));
    assert_eq!(after_expiry.refusal().unwrap().error_response(), (402, "expired TTL".to_string()));
}

#[test]
fn payment_details_have_the_known_bytes() {
    let invoice = Invoice {
        address: vec![0xaa; 20],
        resource_id: "filter:abc".to_string(),
        amount: 300,
        memo: "hi".to_string(),
        created_at: 1,
        expires_at: 128,
    };
    let mut expected = vec![0x12, 30, 0x08, 0xac, 0x02, 0x12, 25, 0x76, 0xa9, 0x14];
    expected.extend_from_slice(&[0xaa; 20]);
    expected.extend_from_slice(&[0x88, 0xac]);
    expected.extend_from_slice(&[0x18, 0x01, 0x20, 0x80, 0x01, 0x2a, 0x02, b'h', b'i']);
    expected.extend_from_slice(&[0x3a, 0x03, 7, 8, 9]);
    assert_eq!(payment_details(&invoice, &[7, 8, 9]), expected);
    assert!(script_is_p2pkh(&make_p2pkh_script(&[0xaa; 20])));
    assert!(!script_is_p2pkh(&make_p2pkh_script(&[0xaa; 19])));
    assert_eq!(PAYMENT_REQUEST_CONTENT_TYPE, "application/bitcoincash-paymentrequest");
}

#[test]
fn token_of_another_server_or_resource_is_refused() {
    let token = AccessToken::mint("filter:abc", 1_000, b"another secret");
    let access = check_payment(Some(&token.to_header()), "filter:abc", 500, SECRET);
    assert_eq!(access, Access::Invalid);
    assert!(!access.requires_payment());
    assert!(matches!(
        access.refusal(),
        Some(ServerError::Payment(PaymentError::InvalidAuth))
    ));
    let own = AccessToken::mint("filter:abc", 1_000, SECRET);
    assert_eq!(check_payment(Some(&own.to_header()), "filter:abd", 500, SECRET), Access::Invalid);
    assert_eq!(check_payment(Some(&own.to_header()), "filter:abc", 500, SECRET), Access::Forward);
    assert_eq!(check_payment(Some(b"Bearer nonsense"), "filter:abc", 500, SECRET), Access::Invalid);
    assert_eq!(check_payment(Some(b""), "filter:abc", 500, SECRET), Access::Invalid);
}

#[test]
fn access_follows_the_worth_of_the_token() {
    assert_eq!(access_for_status(TokenStatus::Valid), Access::Forward);
    assert_eq!(access_for_status(TokenStatus::Invalid), Access::Invalid);
    assert_eq!(access_for_status(TokenStatus::Expired), Access::Expired);
    assert!(matches!(
        Access::NoToken.refusal(),
        Some(ServerError::Payment(PaymentError::NoToken))
    ));
    assert!(!Access::Forward.requires_payment());
}

#[test]
fn invoice_buys_one_token() {
    let mut wallet = WalletState::new();
    let key = destination(0x42);
    let invoice = invoice_for(&mut wallet, &key, 1_000);
    let raw = raw_transaction(&[(100_000, stamp_script(&invoice, &key))]);
    let body = payment_body(&key, vec![raw]);
    assert!(submit(&mut wallet, &body, 2_000).is_ok());
    assert!(matches!(submit(&mut wallet, &body, 2_000), Err(ServerError::NotFound)));
    assert!(matches!(submit(&mut wallet, &body, 2_001), Err(ServerError::NotFound)));
}

#[test]
fn key_with_a_waiting_invoice_gets_no_second_one() {
    let mut wallet = WalletState::new();
    let key = destination(0x42);
    invoice_for(&mut wallet, &key, 1_000);
    let again = request_payment(
        &mut wallet,
        &payment_settings(),
        &key,
        "filter:xyz".to_string(),
        61_000,
    );
    match again {
        Err(err) => {
            assert!(matches!(err, PaymentError::AddrFetchFailed));
            assert_eq!(err.status_code(), 500);
        }
        Ok(_) => panic!("an address was used twice"),
    }
    let later = request_payment(
        &mut wallet,
        &payment_settings(),
        &key,
        "filter:xyz".to_string(),
        61_001,
    );
    assert_eq!(later.unwrap().invoice.resource_id, "filter:xyz");
}

#[test]
fn payment_after_the_invoice_expired_finds_none() {
    let mut wallet = WalletState::new();
    let key = destination(0x42);
    let invoice = invoice_for(&mut wallet, &key, 1_000);
    let raw = raw_transaction(&[(100_000, stamp_script(&invoice, &key))]);
    let body = payment_body(&key, vec![raw]);
    assert!(matches!(submit(&mut wallet, &body, 61_001), Err(ServerError::NotFound)));
}

#[test]
fn payment_at_the_moment_of_expiry_is_taken() {
    let mut wallet = WalletState::new();
    let key = destination(0x42);
    let invoice = invoice_for(&mut wallet, &key, 1_000);
    let raw = raw_transaction(&[(100_000, stamp_script(&invoice, &key))]);
    let body = payment_body(&key, vec![raw]);
    let accepted = submit(&mut wallet, &body, 61_000).unwrap();
    assert_eq!(accepted.token.expires_at, 121_000);
}

#[test]
fn payment_of_another_content_type_is_refused() {
    let mut wallet = WalletState::new();
    let key = destination(0x42);
    let invoice = invoice_for(&mut wallet, &key, 1_000);
    let raw = raw_transaction(&[(100_000, stamp_script(&invoice, &key))]);
    let body = payment_body(&key, vec![raw]);
    for content_type in [None, Some("application/json"), Some("application/bitcoin-payment")] {
        let outcome = process_payment(
            &mut wallet,
            &payment_settings(),
            content_type,
            Some(PAYMENT_ACK_CONTENT_TYPE),
            &body,
            2_000,
        );
        match outcome {
            Err(err) => {
                assert!(matches!(err, ServerError::Payment(PaymentError::Content)));
                assert_eq!(err.error_response(), (415, "invalid content-type".to_string()));
            }
            Ok(_) => panic!("a payment of another content type was taken"),
        }
    }
    for accept in [None, Some("text/html"), Some(PAYMENT_CONTENT_TYPE)] {
        let outcome = process_payment(
            &mut wallet,
            &payment_settings(),
            Some(PAYMENT_CONTENT_TYPE),
            accept,
            &body,
            2_000,
        );
        match outcome {
            Err(err) => {
                assert!(matches!(err, ServerError::Payment(PaymentError::Accept)));
                assert_eq!(err.error_response(), (406, "not acceptable".to_string()));
            }
            Ok(_) => panic!("a payment was taken whose answer is not accepted"),
        }
    }
    assert!(submit(&mut wallet, &body, 2_000).is_ok());
}

#[test]
fn malformed_payment_is_refused_and_keeps_the_invoice() {
    let mut wallet = WalletState::new();
    let key = destination(0x42);
    let invoice = invoice_for(&mut wallet, &key, 1_000);
    let raw = raw_transaction(&[(100_000, stamp_script(&invoice, &key))]);

    assert!(matches!(
        submit(&mut wallet, &[0x0a, 0x21, 0x02], 2_000),
        Err(ServerError::Payment(PaymentError::Decode))
    ));
    let without_data = Payment { merchant_data: None, transactions: vec![raw.clone()] }.encode();
    assert!(matches!(
        submit(&mut wallet, &without_data, 2_000),
        Err(ServerError::Payment(PaymentError::NoMerchantDat))
    ));
    let wrong_data =
        Payment { merchant_data: Some(vec![1, 2, 3]), transactions: vec![raw.clone()] }.encode();
    assert!(matches!(
        submit(&mut wallet, &wrong_data, 2_000),
        Err(ServerError::Payment(PaymentError::InvalidMerchantDat))
    ));
    let secp = secp256k1::Secp256k1::signing_only();
    let secret = secp256k1::SecretKey::from_slice(&[0x42; 32]).unwrap();
    let uncompressed =
        secp256k1::PublicKey::from_secret_key(&secp, &secret).serialize_uncompressed().to_vec();
    let long_data =
        Payment { merchant_data: Some(uncompressed), transactions: vec![raw.clone()] }.encode();
    assert!(matches!(
        submit(&mut wallet, &long_data, 2_000),
        Err(ServerError::Payment(PaymentError::InvalidMerchantDat))
    ));
    assert!(matches!(
        submit(&mut wallet, &payment_body(&key, vec![]), 2_000),
        Err(ServerError::Payment(PaymentError::NoTx))
    ));
    match submit(&mut wallet, &payment_body(&key, vec![vec![1, 2, 3]]), 2_000) {
        Err(ServerError::Payment(PaymentError::TxDeserialize(text))) => {
            assert!(text.starts_with("I/O error"))
        }
        other => panic!("unexpected outcome: {:?}", other),
    }

    assert!(wallet.contains(&invoice.address));
    assert!(submit(&mut wallet, &payment_body(&key, vec![raw]), 2_000).is_ok());
}

#[test]
fn payment_for_a_key_without_invoice_finds_none() {
    let mut wallet = WalletState::new();
    let key = destination(0x42);
    let invoice = invoice_for(&mut wallet, &key, 1_000);
    let other = destination(0x43);
    let raw = raw_transaction(&[(100_000, stamp_script(&invoice, &other))]);
    assert!(matches!(
        submit(&mut wallet, &payment_body(&other, vec![raw]), 2_000),
        Err(ServerError::NotFound)
    ));
    assert!(wallet.contains(&invoice.address));
}

#[test]
fn payment_below_the_amount_is_refused_and_uses_the_invoice_up() {
    let mut wallet = WalletState::new();
    let key = destination(0x42);
    let invoice = invoice_for(&mut wallet, &key, 1_000);
    let raw = raw_transaction(&[
        (99_998, stamp_script(&invoice, &key)),
        (1, make_p2pkh_script(&invoice.address)),
    ]);
    let outcome = submit(&mut wallet, &payment_body(&key, vec![raw]), 2_000);
    assert!(matches!(outcome, Err(ServerError::Payment(PaymentError::InvalidOutputs))));
    assert!(!wallet.contains(&invoice.address));
}

#[test]
fn payment_that_is_no_stamp_is_refused_and_uses_the_invoice_up() {
    let key = destination(0x42);

    let mut wallet = WalletState::new();
    let invoice = invoice_for(&mut wallet, &key, 1_000);
    let plain = raw_transaction(&[(100_000, make_p2pkh_script(&invoice.address))]);
    let outcome = submit(&mut wallet, &payment_body(&key, vec![plain]), 2_000);
    assert!(matches!(outcome, Err(ServerError::Stamp(StampError::UnexpectedAddress))));
    assert!(!wallet.contains(&invoice.address));

    let mut wallet = WalletState::new();
    let invoice = invoice_for(&mut wallet, &key, 1_000);
    let swapped = raw_transaction(&[
        (50_000, make_p2pkh_script(&invoice.address)),
        (50_000, stamp_script(&invoice, &key)),
    ]);
    let outcome = submit(&mut wallet, &payment_body(&key, vec![swapped]), 2_000);
    assert!(matches!(outcome, Err(ServerError::Stamp(StampError::UnexpectedAddress))));

    let mut wallet = WalletState::new();
    let invoice = invoice_for(&mut wallet, &key, 1_000);
    let mut script = stamp_script(&invoice, &key);
    script[24] = 0x87;
    let other_script = raw_transaction(&[(100_000, script)]);
    let outcome = submit(&mut wallet, &payment_body(&key, vec![other_script]), 2_000);
    assert!(matches!(outcome, Err(ServerError::Stamp(StampError::NotP2PKH))));

    let mut wallet = WalletState::new();
    let _ = request_payment(
        &mut wallet,
        &cash_relay::settings::Payment { token_fee: 0, ..payment_settings() },
        &key,
        "filter:abc".to_string(),
        1_000,
    )
    .unwrap();
    let no_output = raw_transaction(&[]);
    let outcome = submit(&mut wallet, &payment_body(&key, vec![no_output]), 2_000);
    assert!(matches!(outcome, Err(ServerError::Stamp(StampError::MissingOutput))));
}

#[test]
fn stamp_of_an_earlier_invoice_does_not_pay_a_later_one() {
    let mut wallet = WalletState::new();
    let key = destination(0x42);
    let first = invoice_for(&mut wallet, &key, 1_000);
    let raw = raw_transaction(&[(100_000, stamp_script(&first, &key))]);
    let body = payment_body(&key, vec![raw]);
    assert!(submit(&mut wallet, &body, 2_000).is_ok());
    let second = invoice_for(&mut wallet, &key, 3_000);
    assert_eq!(second.address, first.address);
    assert!(matches!(
        submit(&mut wallet, &body, 4_000),
        Err(ServerError::Stamp(StampError::UnexpectedAddress))
    ));
}

#[test]
fn only_the_first_transaction_counts() {
    let mut wallet = WalletState::new();
    let key = destination(0x42);
    let invoice = invoice_for(&mut wallet, &key, 1_000);
    let stamp = raw_transaction(&[(100_000, stamp_script(&invoice, &key))]);
    let body = payment_body(&key, vec![stamp.clone(), vec![0xff]]);
    let accepted = submit(&mut wallet, &body, 2_000).unwrap();
    assert_eq!(accepted.transaction, stamp);
}

#[test]
fn payment_is_read_and_settled_in_two_steps() {
    let mut wallet = WalletState::new();
    let key = destination(0x42);
    let invoice = invoice_for(&mut wallet, &key, 1_000);
    let raw = raw_transaction(&[(100_000, stamp_script(&invoice, &key))]);
    let body = payment_body(&key, vec![raw.clone()]);
    let submission =
        read_submission(Some(PAYMENT_CONTENT_TYPE), Some(PAYMENT_ACK_CONTENT_TYPE), &body)
            .unwrap();
    assert_eq!(submission.key.serialize(), key.serialize());
    assert_eq!(submission.raw_transaction, raw);
    assert_eq!(submission.transaction.output.len(), 1);
    assert_eq!(submission.transaction.output[0].value, 100_000);
    assert!(wallet.contains(&invoice.address));
    let accepted =
        settle_payment(&mut wallet, &payment_settings(), submission, &body, 2_000).unwrap();
    assert_eq!(accepted.token.expires_at, 62_000);
    assert!(!wallet.contains(&invoice.address));
}
