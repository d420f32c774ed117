use subversive::crypto::account::Account;
use subversive::crypto::address::Address;
use subversive::crypto::keys::is_base58_decodable;
use subversive::crypto::process_transaction::ProcessTransaction;
use subversive::crypto::transaction::{Output, Transaction};

fn is_base58(text: &str) -> bool {
    text.chars().all(|c| "123456789ABCDEFGHJKLMNPQRSTUVWXYZabcdefghijkmnopqrstuvwxyz".contains(c))
}

#[test]
fn test_address_generation() {
    let address = Address::new();
    assert!(!address.get_private_key().unwrap().is_empty());
    assert!(!address.get_public_key().is_empty());
    let public_address = address.get_public_address();
    assert!(!public_address.is_empty());
    assert!(is_base58(public_address));
    assert!(Address::from_public_address(public_address).is_ok());
}

#[test]
fn test_address_from_private_key() {
    let original = Address::new();
    let private_key = *original.get_private_key().unwrap();
    let restored = Address::from_private_key(private_key);
    assert_eq!(original.get_public_address(), restored.get_public_address());
    assert_eq!(original.get_public_key(), restored.get_public_key());
}

#[test]
fn test_address_from_public_address() {
    let original = Address::new();
    let public_address = original.get_public_address();
    let restored = Address::from_public_address(public_address).unwrap();
    assert_eq!(original.get_public_address(), restored.get_public_address());
    assert_eq!(original.get_public_key(), restored.get_public_key());
}

#[test]
fn test_message_signing() {
    let mut address = Address::new();
    let message = "Hello, World!";
    let signature = address.sign(message).unwrap();

    // Verify the signature
    assert!(address.verify(message, &signature));

    // Verify that invalid signatures are rejected
    assert!(!address.verify(message, "invalid-signature"));
    assert!(!address.verify("different-message", &signature));
}

#[test]
fn test_public_only_address() {
    let mut original = Address::new();
    let pub_addr = original.get_public_address().to_string();

    // Create address from public address
    let mut pub_only = Address::from_public_address(&pub_addr).unwrap();
    assert!(pub_only.get_private_key().is_none());
    assert!(pub_only.sign("message").is_err());

    // Should still be able to verify signatures
    let message = "test message";
    let signature = original.sign(message).unwrap();
    assert!(pub_only.verify(message, &signature));

    // Test invalid public addresses
    assert!(Address::from_public_address("invalid-address").is_err());
    assert!(Address::from_public_address("").is_err());
}

#[test]
fn test_public_address_errors() {
    assert_eq!(Address::from_public_address("invalid-address").err(), Some("Invalid base58 address"));
    assert_eq!(Address::from_public_address("").err(), Some("Invalid public key length"));
    assert_eq!(Address::from_public_address("ZiCa").err(), Some("Invalid public key length"));
    // Leading '1's decode to zero bytes, but re-encoding the same 32 bytes gives the same text,
    // so a valid 32-byte key with a different text is a checksum mismatch only when texts differ.
    let a = Address::new();
    let text = a.get_public_address();
    assert!(Address::from_public_address(text).is_ok());
}

#[test]
fn test_signature_is_upper_case_hex() {
    let mut address = Address::from_private_key([7u8; 32]);
    let signature = address.sign("abc").unwrap();
    assert_eq!(signature.len(), 128);
    assert!(signature.chars().all(|c| c.is_ascii_digit() || ('A'..='F').contains(&c)));
    // Deterministic: signing again gives the same signature.
    assert_eq!(address.sign("abc").unwrap(), signature);
    // The lower-case form is accepted as well; a mixed-case form is not.
    assert!(address.verify("abc", &signature.to_lowercase()));
    let mut mixed: Vec<char> = signature.chars().collect();
    if let Some(pos) = mixed.iter().position(|c| c.is_ascii_alphabetic()) {
        mixed[pos] = mixed[pos].to_ascii_lowercase();
        let mixed: String = mixed.into_iter().collect();
        if mixed.chars().any(|c| c.is_ascii_uppercase()) {
            assert!(!address.verify("abc", &mixed));
        }
    }
}

#[test]
fn test_process_transaction() {
    // Create original transaction
    let mut sender = Address::new();
    let receiver = Address::new();
    let outputs = vec![Output::new(receiver.get_public_address(), 1000)];
    let mut tx = Transaction::new(sender.get_public_address(), outputs, None);
    assert!(tx.sign(&mut sender).is_ok());

    // Create and sign process transaction
    let mut processor = Address::new();
    let mut process_tx = ProcessTransaction::new(tx, processor.get_public_address());

    // Verify fee calculation
    assert_eq!(process_tx.fee(), 100); // 10% of 1000

    // Sign and verify
    assert!(process_tx.sign(&mut processor).is_ok());
    assert!(process_tx.verify());

    // Test validation rules
    let mut wrong_processor = Address::new();
    let mut process_tx2 = ProcessTransaction::new(
        process_tx.transaction().clone(),
        processor.get_public_address(),
    );
    assert!(process_tx2.sign(&mut wrong_processor).is_err());
}

#[test]
fn test_process_transaction_errors() {
    let mut sender = Address::new();
    let receiver = Address::new();
    let outputs = vec![Output::new(receiver.get_public_address(), 55)];
    let unsigned = Transaction::new(sender.get_public_address(), outputs, None);
    let mut processor = Address::new();

    // The original transaction must verify.
    let mut p = ProcessTransaction::new(unsigned.clone(), processor.get_public_address());
    assert_eq!(p.fee(), 5);
    assert_eq!(p.sign(&mut processor), Err("Original transaction signature is invalid"));
    assert!(!p.verify());

    let mut signed = unsigned.clone();
    signed.sign(&mut sender).unwrap();
    let mut p = ProcessTransaction::new(signed, processor.get_public_address());
    let mut other = Address::new();
    assert_eq!(p.sign(&mut other), Err("Signer address doesn't match processor"));
    assert!(p.sign(&mut processor).is_ok());
    assert_eq!(p.sign(&mut processor), Err("Process transaction already signed"));
    assert!(p.verify());
}

#[test]
fn test_transaction_signing_and_verification() {
    // Create sender and receivers
    let mut sender = Address::new();
    let receiver1 = Address::new();
    let receiver2 = Address::new();

    // Create outputs
    let outputs = vec![
        Output::new(receiver1.get_public_address(), 1000),
        Output::new(receiver2.get_public_address(), 500),
    ];

    // Create a transaction with multiple outputs
    let mut tx = Transaction::new(
        sender.get_public_address(),
        outputs,
        Some("Multi-output transfer".to_string()),
    );
    assert_eq!(tx.total_amount(), 1500);

    // Sign the transaction
    assert!(tx.sign(&mut sender).is_ok());

    // Verify the signature
    assert!(tx.verify());

    // Verify that tampering with any output invalidates the signature
    let mut tampered_tx = tx.clone();
    tampered_tx.outputs[0].amount = 2000;
    assert!(!tampered_tx.verify());
}

#[test]
fn test_transaction_validation() {
    let mut sender = Address::new();
    let receiver = Address::new();
    let mut wrong_signer = Address::new();

    let outputs = vec![Output::new(receiver.get_public_address(), 1000)];

    let mut tx = Transaction::new(sender.get_public_address(), outputs, None);

    // Test signing with wrong address
    assert!(tx.sign(&mut wrong_signer).is_err());

    // Test double signing
    assert!(tx.sign(&mut sender).is_ok());
    assert!(tx.sign(&mut sender).is_err());
}

#[test]
fn test_transaction_error_messages() {
    let mut sender = Address::new();
    let mut public_only = Address::from_public_address(sender.get_public_address()).unwrap();
    let mut stranger = Address::new();
    let mut tx = Transaction::new(sender.get_public_address(), vec![], None);
    assert_eq!(tx.sign(&mut stranger), Err("Signer address doesn't match sender"));
    assert_eq!(tx.sign(&mut public_only), Err("Cannot sign: address is public-only"));
    assert!(tx.signature().is_none());
    assert_eq!(tx.sign(&mut sender), Ok(()));
    assert_eq!(tx.sign(&mut sender), Err("Transaction already signed"));
    assert!(tx.verify());
}

#[test]
fn test_signing_data_format() {
    let outputs = vec![Output::new("alice", 10), Output::new("bob", 25)];
    let tx = Transaction::with_timestamp("carol", outputs, Some("memo".to_string()), 1700000000);
    assert_eq!(tx.get_signing_data(), "carol:alice:10,bob:25:1700000000:memo");
    let tx = Transaction::with_timestamp("carol", vec![], None, 0);
    assert_eq!(tx.get_signing_data(), "carol::0:");
    let tx = Transaction::with_timestamp("carol", vec![Output::new("dan", 3)], None, 42);
    let p = ProcessTransaction::with_timestamp(tx, "proc", 99);
    assert_eq!(p.fee(), 0);
    assert_eq!(p.get_signing_data(), "carol:dan:3:42::proc:0:99");
}

#[test]
fn test_unverifiable_transactions() {
    // No signature.
    let tx = Transaction::with_timestamp("x", vec![], None, 1);
    assert!(!tx.verify());
    // A sender that is not an address.
    let mut tx = Transaction::with_timestamp("not-an-address", vec![], None, 1);
    tx.signature = Some("00".repeat(64));
    assert!(!tx.verify());
    // A sender text longer than any public address.
    let mut tx = Transaction::with_timestamp(&"1".repeat(200), vec![], None, 1);
    tx.signature = Some("00".repeat(64));
    assert!(!tx.verify());
}

#[test]
fn test_account() {
    let account = Account::new("addr".to_string(), 42);
    assert_eq!(account.address(), "addr");
    assert_eq!(account.balance(), 42);
}

#[test]
fn test_long_public_address_texts() {
    // Up to 132 characters the decoder always returns: long digit strings decode to too many bytes.
    let digits = "z".repeat(100);
    assert!(is_base58_decodable(&digits));
    assert_eq!(Address::from_public_address(&digits).err(), Some("Invalid public key length"));
    // A character outside the alphabet is refused at any length.
    let invalid = "0".repeat(200);
    assert!(is_base58_decodable(&invalid));
    assert_eq!(Address::from_public_address(&invalid).err(), Some("Invalid base58 address"));
    // More than 132 digits cannot be given to the decoder.
    assert!(!is_base58_decodable(&"1".repeat(133)));
    assert!(is_base58_decodable(&"1".repeat(132)));
}

#[test]
fn test_transaction_with_undecodable_sender_does_not_verify() {
    let mut tx = Transaction::new(&"1".repeat(133), vec![Output::new("x", 1)], None);
    tx.signature = Some("00".repeat(64));
    assert!(!tx.verify());
}
