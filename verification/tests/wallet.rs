use cash_relay::bitcoin::Transaction;
use cash_relay::bitcoin::TxOut;
use cash_relay::wallet::{Invoice, WalletState};

fn issue(wallet: &mut WalletState, address: u8, now: u64, ttl: u64) -> Option<Invoice> {
    wallet.issue(
        vec![address; 20],
        format!("filter:{}", address),
        100_000,
        "Thanks for your custom!".to_string(),
        now,
        ttl,
    )
}

#[test]
fn issued_invoice_holds_what_it_was_made_from() {
    let mut wallet = WalletState::new();
    let invoice = wallet
        .issue(vec![7; 20], "filter:abc".to_string(), 1234, "a note".to_string(), 1_000, 60_000)
        .unwrap();
    assert_eq!(invoice.address, vec![7; 20]);
    assert_eq!(invoice.resource_id, "filter:abc");
    assert_eq!(invoice.amount, 1234);
    assert_eq!(invoice.memo, "a note");
    assert_eq!(invoice.created_at, 1_000);
    assert_eq!(invoice.expires_at, 61_000);
    assert!(wallet.contains(&[7; 20]));
    assert!(!wallet.contains(&[8; 20]));
}

#[test]
fn expiry_stops_at_the_largest_moment() {
    let mut wallet = WalletState::default();
    let invoice = issue(&mut wallet, 1, u64::MAX - 5, 10).unwrap();
    assert_eq!(invoice.expires_at, u64::MAX);
    let other = issue(&mut wallet, 2, 5, u64::MAX).unwrap();
    assert_eq!(other.expires_at, u64::MAX);
}

#[test]
fn resolved_invoice_is_the_one_that_was_issued() {
    let mut wallet = WalletState::new();
    issue(&mut wallet, 1, 100, 50).unwrap();
    issue(&mut wallet, 2, 100, 50).unwrap();
    let invoice = wallet.resolve(&[2; 20], 120).unwrap();
    assert_eq!(invoice.address, vec![2; 20]);
    assert_eq!(invoice.resource_id, "filter:2");
    assert_eq!(invoice.expires_at, 150);
    assert!(!wallet.contains(&[2; 20]));
    assert!(wallet.contains(&[1; 20]));
}

#[test]
fn invoice_is_resolved_once() {
    let mut wallet = WalletState::new();
    issue(&mut wallet, 1, 100, 50).unwrap();
    assert!(wallet.resolve(&[1; 20], 110).is_some());
    assert!(wallet.resolve(&[1; 20], 110).is_none());
    assert!(wallet.resolve(&[1; 20], 0).is_none());
}

#[test]
fn invoice_is_resolved_once_by_payers_who_share_the_table() {
    let wallet = std::sync::Arc::new(std::sync::Mutex::new(WalletState::new()));
    issue(&mut wallet.lock().unwrap(), 1, 100, 50).unwrap();
    let mut outcomes = Vec::new();
    for _ in 0..8 {
        let shared = wallet.clone();
        outcomes.push(shared.lock().unwrap().resolve(&[1; 20], 110).is_some());
    }
    assert_eq!(outcomes.iter().filter(|found| **found).count(), 1);
    assert!(outcomes[0]);
    assert!(!wallet.lock().unwrap().contains(&[1; 20]));
}

#[test]
fn unknown_address_resolves_to_nothing() {
    let mut wallet = WalletState::new();
    assert!(wallet.resolve(&[1; 20], 0).is_none());
    issue(&mut wallet, 1, 100, 50).unwrap();
    assert!(wallet.resolve(&[2; 20], 110).is_none());
    assert!(wallet.resolve(&[1; 19], 110).is_none());
    assert!(wallet.contains(&[1; 20]));
}

#[test]
fn invoice_can_be_paid_up_to_its_expiry_and_not_after() {
    let mut wallet = WalletState::new();
    issue(&mut wallet, 1, 100, 50).unwrap();
    issue(&mut wallet, 2, 100, 50).unwrap();
    assert!(wallet.resolve(&[1; 20], 150).is_some());
    assert!(wallet.resolve(&[2; 20], 151).is_none());
    assert!(!wallet.contains(&[2; 20]));
}

#[test]
fn sweep_drops_what_has_expired_and_keeps_the_rest() {
    let mut wallet = WalletState::new();
    issue(&mut wallet, 1, 0, 10).unwrap();
    issue(&mut wallet, 2, 0, 20).unwrap();
    issue(&mut wallet, 3, 0, 5).unwrap();
    issue(&mut wallet, 4, 0, 30).unwrap();
    wallet.sweep(10);
    assert!(wallet.contains(&[1; 20]));
    assert!(wallet.contains(&[2; 20]));
    assert!(!wallet.contains(&[3; 20]));
    assert!(wallet.contains(&[4; 20]));
    wallet.sweep(21);
    assert!(!wallet.contains(&[1; 20]));
    assert!(!wallet.contains(&[2; 20]));
    assert!(wallet.contains(&[4; 20]));
    wallet.sweep(21);
    assert!(wallet.contains(&[4; 20]));
    wallet.sweep(u64::MAX);
    assert!(!wallet.contains(&[4; 20]));
}

#[test]
fn live_address_is_not_issued_again() {
    let mut wallet = WalletState::new();
    let first = issue(&mut wallet, 1, 100, 50).unwrap();
    assert!(issue(&mut wallet, 1, 120, 500).is_none());
    assert!(issue(&mut wallet, 1, 150, 500).is_none());
    let kept = wallet.resolve(&[1; 20], 150).unwrap();
    assert_eq!(kept.expires_at, first.expires_at);
    assert_eq!(kept.created_at, 100);
}

#[test]
fn expired_address_is_issued_again() {
    let mut wallet = WalletState::new();
    issue(&mut wallet, 1, 100, 50).unwrap();
    let again = issue(&mut wallet, 1, 151, 50).unwrap();
    assert_eq!(again.created_at, 151);
    assert_eq!(again.expires_at, 201);
    assert_eq!(wallet.resolve(&[1; 20], 160).unwrap().created_at, 151);
}

#[test]
fn issue_and_resolve_sweep_on_the_way() {
    let mut wallet = WalletState::new();
    issue(&mut wallet, 1, 0, 10).unwrap();
    issue(&mut wallet, 2, 50, 10);
    assert!(!wallet.contains(&[1; 20]));
    issue(&mut wallet, 3, 50, 100).unwrap();
    assert!(wallet.resolve(&[9; 20], 61).is_none());
    assert!(!wallet.contains(&[2; 20]));
    assert!(wallet.contains(&[3; 20]));
}

#[test]
fn outputs_cover_an_amount_up_to_their_sum() {
    let tx = Transaction {
        output: vec![
            TxOut { value: 600, script_pubkey: vec![] },
            TxOut { value: 400, script_pubkey: vec![1] },
        ],
    };
    assert!(tx.covers(0));
    assert!(tx.covers(600));
    assert!(tx.covers(1000));
    assert!(!tx.covers(1001));
    assert!(!tx.covers(u64::MAX));
    let none = Transaction { output: vec![] };
    assert!(none.covers(0));
    assert!(!none.covers(1));
}

#[test]
fn outputs_beyond_64_bits_cover_every_amount() {
    let tx = Transaction {
        output: vec![
            TxOut { value: u64::MAX, script_pubkey: vec![] },
            TxOut { value: u64::MAX, script_pubkey: vec![] },
        ],
    };
    assert!(tx.covers(u64::MAX));
    let tx = Transaction {
        output: vec![
            TxOut { value: u64::MAX - 1, script_pubkey: vec![] },
            TxOut { value: 1, script_pubkey: vec![] },
            TxOut { value: 5, script_pubkey: vec![] },
        ],
    };
    assert!(tx.covers(u64::MAX));
}

#[test]
fn transaction_is_decoded_to_its_outputs() {
    let mut raw = Vec::new();
    raw.extend_from_slice(&2u32.to_le_bytes());
    raw.push(1);
    raw.extend_from_slice(&[0x22; 32]);
    raw.extend_from_slice(&1u32.to_le_bytes());
    raw.push(2);
    raw.extend_from_slice(&[0x51, 0x52]);
    raw.extend_from_slice(&0xffff_fffeu32.to_le_bytes());
    raw.push(2);
    raw.extend_from_slice(&5000u64.to_le_bytes());
    raw.push(3);
    raw.extend_from_slice(&[0x6a, 0x01, 0x07]);
    raw.extend_from_slice(&7u64.to_le_bytes());
    raw.push(0);
    raw.extend_from_slice(&9u32.to_le_bytes());
    let tx = Transaction::deserialize(&raw).unwrap();
    assert_eq!(tx.output.len(), 2);
    assert_eq!(tx.output[0].value, 5000);
    assert_eq!(tx.output[0].script_pubkey, vec![0x6a, 0x01, 0x07]);
    assert_eq!(tx.output[1].value, 7);
    assert_eq!(tx.output[1].script_pubkey, Vec::<u8>::new());
    assert!(Transaction::deserialize(&raw[..raw.len() - 1]).is_err());
    assert!(Transaction::deserialize(&[]).is_err());
}
