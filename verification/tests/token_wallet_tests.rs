use token_wallet::{ReceiveOutcome, SendOutcome, TokenWallet};
use token_wallet::decimal::push_decimal;

fn balances_of(wallet: &TokenWallet) -> Vec<(String, u64)> {
    wallet.get_all_balances()
}

#[test]
fn test_initialize() {
    let wallet = TokenWallet::initialize();
    assert!(balances_of(&wallet).is_empty());
}

#[test]
fn test_send_tokens_success() {
    let mut wallet = TokenWallet::initialize();
    assert!(wallet.credit("sender", 100));
    let result = wallet.send_tokens("sender".to_string(), "receiver".to_string(), 50);
    assert_eq!(result.message(), "Sent 50 tokens to receiver");
    assert_eq!(wallet.get_balance("sender"), 50);
    assert_eq!(wallet.get_balance("receiver"), 50);
}

#[test]
fn test_send_tokens_insufficient_funds() {
    let mut wallet = TokenWallet::initialize();
    assert!(wallet.credit("sender", 10));
    let result = wallet.send_tokens("sender".to_string(), "receiver".to_string(), 50);
    assert_eq!(result.message(), "Insufficient funds: 10");
}

#[test]
fn test_receive_tokens() {
    let mut wallet = TokenWallet::initialize();
    let result = wallet.receive_tokens("receiver".to_string(), "sender".to_string(), 30);
    assert_eq!(result.message(), "Received 30 tokens from sender");
    assert_eq!(wallet.get_balance("receiver"), 30);
}

#[test]
fn test_get_balance() {
    let mut wallet = TokenWallet::initialize();
    assert!(wallet.credit("caller", 100));
    let balance = wallet.get_balance("caller");
    assert_eq!(balance, 100);
}

#[test]
fn test_get_balance_for_nonexistent_account() {
    let wallet = TokenWallet::initialize();
    let balance = wallet.get_balance("caller");
    assert_eq!(balance, 0);
}

#[test]
fn send_moves_exactly_the_amount() {
    let mut wallet = TokenWallet::initialize();
    assert!(wallet.credit("alice", 70));
    assert!(wallet.credit("bob", 5));
    let result = wallet.send_tokens("alice".to_string(), "bob".to_string(), 70);
    match result {
        SendOutcome::Sent { amount, to } => {
            assert_eq!(amount, 70);
            assert_eq!(to, "bob");
        }
        other => panic!("unexpected outcome: {:?}", other),
    }
    assert_eq!(wallet.get_balance("alice"), 0);
    assert_eq!(wallet.get_balance("bob"), 75);
}

#[test]
fn send_to_oneself_changes_no_balance() {
    let mut wallet = TokenWallet::initialize();
    assert!(wallet.credit("alice", 100));
    let result = wallet.send_tokens("alice".to_string(), "alice".to_string(), 60);
    assert!(matches!(result, SendOutcome::Sent { .. }));
    assert_eq!(wallet.get_balance("alice"), 100);
}

#[test]
fn failed_send_changes_nothing() {
    let mut wallet = TokenWallet::initialize();
    assert!(wallet.credit("alice", 10));
    let result = wallet.send_tokens("alice".to_string(), "bob".to_string(), 11);
    assert!(matches!(
        result,
        SendOutcome::InsufficientFunds { available: 10 }
    ));
    assert_eq!(wallet.get_balance("alice"), 10);
    assert_eq!(wallet.get_balance("bob"), 0);
    let entries = balances_of(&wallet);
    assert_eq!(entries, vec![("alice".to_string(), 10)]);
}

#[test]
fn receive_ignores_the_source_account() {
    let mut wallet = TokenWallet::initialize();
    let result = wallet.receive_tokens("x".to_string(), "ghost".to_string(), 30);
    match result {
        ReceiveOutcome::Received { amount, from } => {
            assert_eq!(amount, 30);
            assert_eq!(from, "ghost");
        }
        other => panic!("unexpected outcome: {:?}", other),
    }
    assert_eq!(wallet.get_balance("x"), 30);
    assert_eq!(wallet.get_balance("ghost"), 0);
    let entries = balances_of(&wallet);
    assert_eq!(entries, vec![("x".to_string(), 30)]);
}

#[test]
fn zero_amount_operations_change_no_balance() {
    let mut wallet = TokenWallet::initialize();
    assert!(wallet.credit("alice", 40));
    let sent = wallet.send_tokens("alice".to_string(), "bob".to_string(), 0);
    assert!(matches!(sent, SendOutcome::Sent { .. }));
    let received = wallet.receive_tokens("alice".to_string(), "bob".to_string(), 0);
    assert!(matches!(received, ReceiveOutcome::Received { .. }));
    assert_eq!(wallet.get_balance("alice"), 40);
    assert_eq!(wallet.get_balance("bob"), 0);
}

#[test]
fn snapshot_lists_every_touched_identity_once() {
    let mut wallet = TokenWallet::initialize();
    assert!(wallet.credit("alice", 9));
    let sent = wallet.send_tokens("alice".to_string(), "bob".to_string(), 4);
    assert!(matches!(sent, SendOutcome::Sent { .. }));
    let received = wallet.receive_tokens("carol".to_string(), "mint".to_string(), 7);
    assert!(matches!(received, ReceiveOutcome::Received { .. }));
    let entries = balances_of(&wallet);
    assert_eq!(
        entries,
        vec![
            ("alice".to_string(), 5),
            ("bob".to_string(), 4),
            ("carol".to_string(), 7),
        ]
    );
}

#[test]
fn debited_to_zero_stays_visible() {
    let mut wallet = TokenWallet::initialize();
    assert!(wallet.credit("alice", 3));
    let sent = wallet.send_tokens("alice".to_string(), "bob".to_string(), 3);
    assert!(matches!(sent, SendOutcome::Sent { .. }));
    let entries = balances_of(&wallet);
    assert_eq!(
        entries,
        vec![("alice".to_string(), 0), ("bob".to_string(), 3)]
    );
}

#[test]
fn receive_overflow_is_rejected() {
    let mut wallet = TokenWallet::initialize();
    let first = wallet.receive_tokens("x".to_string(), "mint".to_string(), u64::MAX);
    assert!(matches!(first, ReceiveOutcome::Received { .. }));
    let second = wallet.receive_tokens("x".to_string(), "mint".to_string(), 1);
    assert!(matches!(second, ReceiveOutcome::Overflow));
    assert_eq!(second.message(), "Balance overflow");
    assert_eq!(wallet.get_balance("x"), u64::MAX);
}

#[test]
fn send_overflow_is_rejected() {
    let mut wallet = TokenWallet::initialize();
    assert!(wallet.credit("alice", 5));
    assert!(wallet.credit("bob", u64::MAX - 2));
    let result = wallet.send_tokens("alice".to_string(), "bob".to_string(), 3);
    assert!(matches!(result, SendOutcome::Overflow));
    assert_eq!(wallet.get_balance("alice"), 5);
    assert_eq!(wallet.get_balance("bob"), u64::MAX - 2);
}

#[test]
fn debit_fails_only_below_the_amount() {
    let mut wallet = TokenWallet::initialize();
    assert!(wallet.credit("alice", 8));
    assert!(!wallet.debit("alice", 9));
    assert_eq!(wallet.get_balance("alice"), 8);
    assert!(wallet.debit("alice", 8));
    assert_eq!(wallet.get_balance("alice"), 0);
}

#[test]
fn decimal_rendering_is_exact() {
    let mut text = String::new();
    push_decimal(&mut text, 0);
    assert_eq!(text, "0");
    let mut text = String::new();
    push_decimal(&mut text, 9876543210);
    assert_eq!(text, "9876543210");
    let mut text = String::from("total: ");
    push_decimal(&mut text, 18446744073709551615);
    assert_eq!(text, "total: 18446744073709551615");
}

#[test]
fn messages_name_the_parties_and_amounts() {
    let mut wallet = TokenWallet::initialize();
    assert!(wallet.credit("a", 1000));
    let sent = wallet.send_tokens("a".to_string(), "b".to_string(), 1000);
    assert_eq!(sent.message(), "Sent 1000 tokens to b");
    let received = wallet.receive_tokens("a".to_string(), "ghost".to_string(), 30);
    assert_eq!(received.message(), "Received 30 tokens from ghost");
}
