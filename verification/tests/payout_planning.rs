use uptime_ledger::payout::{
    assemble_payout, check_balance, plan_payout, PayoutError, PayoutOrder, LAMPORTS_PER_SOL,
};
use uptime_ledger::rail::RailError;

const SECRET: [u8; 32] = [
    0x9d, 0x61, 0xb1, 0x9d, 0xef, 0xfd, 0x5a, 0x60, 0xba, 0x84, 0x4a, 0xf4, 0x92, 0xec, 0x2c,
    0xc4, 0x44, 0x49, 0xc5, 0x69, 0x7b, 0x32, 0x69, 0x19, 0x70, 0x3b, 0xac, 0x03, 0x1c, 0xae,
    0x7f, 0x60,
];
const PUBLIC: [u8; 32] = [
    0xd7, 0x5a, 0x98, 0x01, 0x82, 0xb1, 0x0a, 0xb7, 0xd5, 0x4b, 0xfe, 0xd3, 0xc9, 0x64, 0x07,
    0x3a, 0x0e, 0xe1, 0x72, 0xf3, 0xda, 0xa6, 0x23, 0x25, 0xaf, 0x02, 0x1a, 0x68, 0xf7, 0x07,
    0x51, 0x1a,
];
const SYSTEM_PROGRAM: &str = "11111111111111111111111111111111";

fn keypair_bytes() -> Vec<u8> {
    let mut bytes = SECRET.to_vec();
    bytes.extend_from_slice(&PUBLIC);
    bytes
}

fn keypair_text() -> String {
    bs58::encode(keypair_bytes()).into_string()
}

#[test]
fn plan_payout_decodes_key_and_destination() {
    let order = plan_payout(&keypair_text(), SYSTEM_PROGRAM, 500).unwrap();
    assert_eq!(
        order,
        PayoutOrder {
            signer_key: keypair_bytes(),
            payer: PUBLIC,
            destination: [0u8; 32],
            lamports: 500
        }
    );
}

#[test]
fn plan_payout_reads_a_non_trivial_destination() {
    let destination = bs58::encode(PUBLIC).into_string();
    let order = plan_payout(&keypair_text(), &destination, 1).unwrap();
    assert_eq!(order.destination, PUBLIC);
    assert_eq!(order.lamports, 1);
}

#[test]
fn plan_payout_refuses_zero_amount_first() {
    assert_eq!(plan_payout("0OIl", "nowhere", 0), Err(PayoutError::AmountNotPositive));
}

#[test]
fn plan_payout_refuses_key_that_is_not_base58() {
    assert_eq!(plan_payout("0OIl", SYSTEM_PROGRAM, 5), Err(PayoutError::InvalidKeyEncoding));
    assert_eq!(
        plan_payout("he11o wor1d", SYSTEM_PROGRAM, 5),
        Err(PayoutError::InvalidKeyEncoding)
    );
}

#[test]
fn plan_payout_refuses_bytes_that_are_no_key_pair() {
    assert_eq!(plan_payout("he11owor1d", SYSTEM_PROGRAM, 5), Err(PayoutError::InvalidKeyBytes));
    let mut mismatched = SECRET.to_vec();
    mismatched.extend_from_slice(&[0u8; 32]);
    let text = bs58::encode(mismatched).into_string();
    assert_eq!(plan_payout(&text, SYSTEM_PROGRAM, 5), Err(PayoutError::InvalidKeyBytes));
    assert_eq!(plan_payout("", SYSTEM_PROGRAM, 5), Err(PayoutError::InvalidKeyBytes));
}

#[test]
fn plan_payout_refuses_bad_destination() {
    assert_eq!(
        plan_payout(&keypair_text(), "not-an-address", 5),
        Err(PayoutError::InvalidDestination)
    );
    assert_eq!(plan_payout(&keypair_text(), "abc", 5), Err(PayoutError::InvalidDestination));
    assert_eq!(plan_payout(&keypair_text(), "", 5), Err(PayoutError::InvalidDestination));
}

#[test]
fn assemble_payout_checks_parts_in_order() {
    let key = Some(vec![1u8, 2, 3]);
    assert_eq!(assemble_payout(0, None, None, None), Err(PayoutError::AmountNotPositive));
    assert_eq!(assemble_payout(1, None, None, None), Err(PayoutError::InvalidKeyEncoding));
    assert_eq!(
        assemble_payout(1, None, Some([1; 32]), Some([2; 32])),
        Err(PayoutError::InvalidKeyEncoding)
    );
    assert_eq!(
        assemble_payout(1, key.clone(), None, Some([2; 32])),
        Err(PayoutError::InvalidKeyBytes)
    );
    assert_eq!(
        assemble_payout(1, key.clone(), Some([1; 32]), None),
        Err(PayoutError::InvalidDestination)
    );
    assert_eq!(
        assemble_payout(9, key, Some([1; 32]), Some([2; 32])),
        Ok(PayoutOrder {
            signer_key: vec![1, 2, 3],
            payer: [1; 32],
            destination: [2; 32],
            lamports: 9
        })
    );
}

#[test]
fn check_balance_compares_with_amount() {
    let order =
        PayoutOrder { signer_key: vec![], payer: [0; 32], destination: [1; 32], lamports: 500 };
    assert_eq!(check_balance(&order, 500), Ok(()));
    assert_eq!(check_balance(&order, u64::MAX), Ok(()));
    assert_eq!(
        check_balance(&order, 499),
        Err(PayoutError::InsufficientBalance { needed: 500, available: 499 })
    );
    assert_eq!(
        check_balance(&order, 0),
        Err(PayoutError::InsufficientBalance { needed: 500, available: 0 })
    );
}

#[test]
fn payout_errors_describe_themselves() {
    assert_eq!(LAMPORTS_PER_SOL, 1_000_000_000);
    assert_eq!(PayoutError::AmountNotPositive.describe(), "Amount must be positive");
    assert_eq!(
        PayoutError::InvalidKeyEncoding.describe(),
        "Failed to decode base58 private key"
    );
    assert_eq!(PayoutError::InvalidKeyBytes.describe(), "Invalid private key bytes");
    assert_eq!(PayoutError::InvalidDestination.describe(), "Invalid destination pubkey");
    assert_eq!(PayoutError::BalanceUnavailable.describe(), "Failed to fetch balance");
    assert_eq!(PayoutError::BlockhashUnavailable.describe(), "Failed to get blockhash");
    assert_eq!(PayoutError::Unconfirmed.describe(), "Failed to send transaction");
    assert_eq!(
        PayoutError::InsufficientBalance { needed: 1_500_000_000, available: 5 }.describe(),
        "Insufficient balance. Needed: 1.500000000 SOL, Available: 0.000000005 SOL"
    );
    assert_eq!(
        PayoutError::InsufficientBalance { needed: u64::MAX, available: 0 }.describe(),
        "Insufficient balance. Needed: 18446744073.709551615 SOL, Available: 0.000000000 SOL"
    );
    assert_eq!(
        PayoutError::InsufficientBalance { needed: 500, available: 123_456_789_012 }.describe(),
        "Insufficient balance. Needed: 0.000000500 SOL, Available: 123.456789012 SOL"
    );
}

#[test]
fn only_a_sent_transaction_leaves_the_outcome_unknown() {
    assert_eq!(PayoutError::Unconfirmed.rail_error(), RailError::Transient);
    assert_eq!(
        PayoutError::BalanceUnavailable.rail_error(),
        RailError::Rejected("Failed to fetch balance".to_string())
    );
    assert_eq!(
        PayoutError::BlockhashUnavailable.rail_error(),
        RailError::Rejected("Failed to get blockhash".to_string())
    );
    assert_eq!(
        PayoutError::InsufficientBalance { needed: 2, available: 1 }.rail_error(),
        RailError::Rejected(
            "Insufficient balance. Needed: 0.000000002 SOL, Available: 0.000000001 SOL"
                .to_string()
        )
    );
    assert_eq!(
        PayoutError::AmountNotPositive.rail_error(),
        RailError::Rejected("Amount must be positive".to_string())
    );
}
