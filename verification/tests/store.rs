use subversive::crypto::address::Address;
use subversive::currency::{Amount, BalanceManager, CurrencyError, TransactionProcessor};
use subversive::crypto::transaction::{Output, Transaction};
use subversive::database::{
    account_key, message_key, message_scan_step, peer_key, peer_scan_step,
    select_active_peers, select_messages_since, MessageDoc, PeerDoc, ScanStep,
};

fn peer(address: &str, last_seen: i64) -> PeerDoc {
    PeerDoc { address: address.to_string(), last_seen }
}

fn message(content: &str, timestamp: i64) -> MessageDoc {
    MessageDoc { content: content.to_string(), source: "source".to_string(), timestamp }
}

#[test]
fn test_peer_filtering() {
    let timestamp = 1_700_000_000;
    let peers = vec![peer("127.0.0.1:8080", timestamp - 100), peer("127.0.0.1:8081", timestamp)];
    let active_peers = select_active_peers(peers, timestamp - 50);
    assert_eq!(active_peers.len(), 1);
    assert_eq!(active_peers[0].address, "127.0.0.1:8081");
}

#[test]
fn test_active_peers_newest_first_and_stable() {
    let peers = vec![peer("a", 5), peer("b", 9), peer("c", 5), peer("d", 1), peer("e", 9)];
    let r = select_active_peers(peers, 1);
    let order: Vec<&str> = r.iter().map(|p| p.address.as_str()).collect();
    assert_eq!(order, vec!["b", "e", "a", "c"]);
}

#[test]
fn test_message_filtering_order() {
    let r = select_messages_since(vec![message("old message", 1), message("new message", 3), message("mid", 2)], i64::MIN);
    let order: Vec<&str> = r.iter().map(|m| m.content.as_str()).collect();
    assert_eq!(order, vec!["new message", "mid", "old message"]);
}

#[test]
fn test_keys() {
    assert_eq!(message_key(1700000000), "message:1700000000");
    assert_eq!(message_key(-5), "message:-5");
    assert_eq!(message_key(i64::MIN), format!("message:{}", i64::MIN));
    assert_eq!(peer_key("127.0.0.1:8080"), "peer:127.0.0.1:8080");
    assert_eq!(account_key("abc"), "account:abc");
    assert_eq!(message_scan_step(b"message:1"), ScanStep::Take);
    assert_eq!(message_scan_step(b"peer:x"), ScanStep::Skip);
    assert_eq!(peer_scan_step(b"peer:x"), ScanStep::Take);
    assert_eq!(peer_scan_step(b"pee"), ScanStep::Stop);
}

fn funded(processor: &mut TransactionProcessor, address: &Address, amount: u64) {
    let _ = address;
    let _ = processor;
    let _ = amount;
}

#[test]
fn test_process_transaction_moves_funds() {
    let sender = Address::new();
    let receiver = Address::new();
    let mut balances = BalanceManager::new();
    balances.update_balance(&sender, Amount(100)).unwrap();
    let mut processor = TransactionProcessor::new(balances);
    funded(&mut processor, &sender, 100);

    let tx = Transaction::new(sender.get_public_address(), vec![Output::new(receiver.get_public_address(), 30)], None);
    processor.process_transaction(&tx).unwrap();
    assert_eq!(processor.balance_manager().get_balance(&sender).amount.0, 70);
    assert_eq!(processor.balance_manager().get_balance(&receiver).amount.0, 30);

    let too_much = Transaction::new(sender.get_public_address(), vec![Output::new(receiver.get_public_address(), 71)], None);
    assert!(matches!(processor.process_transaction(&too_much), Err(CurrencyError::InsufficientBalance)));
    assert_eq!(processor.balance_manager().get_balance(&sender).amount.0, 70);

    let bad = Transaction::new("not-an-address", vec![Output::new(receiver.get_public_address(), 1)], None);
    match processor.process_transaction(&bad) {
        Err(CurrencyError::TransactionError(m)) => assert_eq!(m, "Invalid sender address: Invalid base58 address"),
        _ => panic!("expected an invalid sender"),
    }
    let bad = Transaction::new(sender.get_public_address(), vec![Output::new("", 1)], None);
    match processor.process_transaction(&bad) {
        Err(CurrencyError::TransactionError(m)) => assert_eq!(m, "Invalid recipient address: Invalid public key length"),
        _ => panic!("expected an invalid recipient"),
    }
    // Paying oneself keeps the balance.
    let own = Transaction::new(sender.get_public_address(), vec![Output::new(sender.get_public_address(), 20)], None);
    processor.process_transaction(&own).unwrap();
    assert_eq!(processor.balance_manager().get_balance(&sender).amount.0, 70);
}

#[test]
fn test_message_filtering() {
    let timestamp = 1_700_000_000;
    let messages = vec![message("old message", timestamp - 100), message("new message", timestamp)];
    let recent_messages = select_messages_since(messages, timestamp - 50);
    assert_eq!(recent_messages.len(), 1);
    assert_eq!(recent_messages[0].content, "new message");
}

#[test]
fn test_messages_since_include_the_boundary_and_order_numerically() {
    let messages = vec![message("a", 999), message("b", 1000), message("c", 998), message("d", 1000)];
    let r = select_messages_since(messages, 999);
    let order: Vec<&str> = r.iter().map(|m| m.content.as_str()).collect();
    assert_eq!(order, vec!["b", "d", "a"]);
}
