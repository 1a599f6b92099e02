use ed25519_dalek::{Signature, Signer, SigningKey, Verifier, VerifyingKey};
use pos_ledger::errors::LedgerError;
use pos_ledger::ledger::Ledger;
use sha3::{Digest, Sha3_256};

fn key(tag: u8) -> SigningKey {
    SigningKey::from_bytes(&[tag; 32])
}

fn ident(k: &SigningKey) -> Vec<u8> {
    k.verifying_key().to_bytes().to_vec()
}

fn tx_digest_bytes(sender: &[u8], recipient: &[u8], amount: u64, timestamp: u64) -> Vec<u8> {
    let mut payload: Vec<u8> = Vec::new();
    payload.extend_from_slice(sender);
    payload.extend_from_slice(recipient);
    payload.extend_from_slice(&amount.to_be_bytes());
    payload.extend_from_slice(&timestamp.to_be_bytes());
    Sha3_256::digest(&payload).to_vec()
}

#[test]
fn new_ledger_is_empty_with_default_policy() {
    let l = Ledger::new();
    assert_eq!(l.chain.len(), 0);
    assert_eq!(l.pending_transactions.len(), 0);
    assert_eq!(l.registry.validators.len(), 0);
    assert_eq!(l.registry.min_registration_stake, 500);
    assert_eq!(l.registry.min_qualification_stake, 1000);
    assert_eq!(l.registry.min_qualification_score, 500);
    assert_eq!(l.current_difficulty, 4);
}

#[test]
fn register_below_stake_threshold_fails() {
    let mut l = Ledger::new();
    let v = key(1);
    let out = l.register_validator(&ident(&v), 499);
    assert_eq!(out, Err(LedgerError::InsufficientStake));
    assert_eq!(l.registry.validators.len(), 0);
}

#[test]
fn register_at_stake_threshold_succeeds_with_default_score() {
    let mut l = Ledger::new();
    let v = key(1);
    assert_eq!(l.register_validator(&ident(&v), 500), Ok(()));
    assert_eq!(l.registry.validators.len(), 1);
    assert_eq!(l.registry.validators[0].public_key, ident(&v));
    assert_eq!(l.registry.validators[0].stake, 500);
    assert_eq!(l.registry.validators[0].contribution_score, 1000);
    assert_eq!(l.registry.validators[0].last_validated_block, None);
}

#[test]
fn register_twice_fails_the_second_time() {
    let mut l = Ledger::new();
    let v = key(1);
    assert_eq!(l.register_validator(&ident(&v), 1000), Ok(()));
    let out = l.register_validator(&ident(&v), 2000);
    assert_eq!(out, Err(LedgerError::ValidatorAlreadyRegistered));
    assert_eq!(l.registry.validators.len(), 1);
    assert_eq!(l.registry.validators[0].stake, 1000);
}

#[test]
fn register_present_identity_reports_already_registered_even_below_stake() {
    let mut l = Ledger::new();
    let v = key(1);
    assert_eq!(l.register_validator(&ident(&v), 1000), Ok(()));
    let out = l.register_validator(&ident(&v), 1);
    assert_eq!(out, Err(LedgerError::ValidatorAlreadyRegistered));
}

#[test]
fn registry_keeps_identities_sorted() {
    let mut l = Ledger::new();
    let mut ids: Vec<Vec<u8>> = Vec::new();
    for tag in [9u8, 3, 7, 1, 5] {
        let id = ident(&key(tag));
        assert_eq!(l.register_validator(&id, 1000), Ok(()));
        ids.push(id);
    }
    assert_eq!(l.registry.validators.len(), 5);
    for w in l.registry.validators.windows(2) {
        assert!(w[0].public_key < w[1].public_key);
    }
    for id in &ids {
        assert!(l.registry.validators.iter().any(|v| &v.public_key == id));
    }
}

#[test]
fn adjust_contribution_clamps_into_range() {
    let mut l = Ledger::new();
    let v = key(1);
    let id = ident(&v);
    assert_eq!(l.register_validator(&id, 1000), Ok(()));
    l.adjust_contribution(&id, i64::MAX);
    assert_eq!(l.registry.validators[0].contribution_score, 10000);
    l.adjust_contribution(&id, i64::MAX);
    assert_eq!(l.registry.validators[0].contribution_score, 10000);
    l.adjust_contribution(&id, i64::MIN);
    assert_eq!(l.registry.validators[0].contribution_score, 0);
    l.adjust_contribution(&id, -1);
    assert_eq!(l.registry.validators[0].contribution_score, 0);
    l.adjust_contribution(&id, 2500);
    assert_eq!(l.registry.validators[0].contribution_score, 2500);
    l.adjust_contribution(&id, -300);
    assert_eq!(l.registry.validators[0].contribution_score, 2200);
}

#[test]
fn adjust_contribution_of_unknown_identity_is_a_no_op() {
    let mut l = Ledger::new();
    let v = key(1);
    assert_eq!(l.register_validator(&ident(&v), 1000), Ok(()));
    let stranger = ident(&key(2));
    l.adjust_contribution(&stranger, 5000);
    assert_eq!(l.registry.validators.len(), 1);
    assert_eq!(l.registry.validators[0].contribution_score, 1000);
}

#[test]
fn qualification_needs_stake_and_score() {
    let mut l = Ledger::new();
    let low_stake = key(1);
    let good = key(2);
    let low_score = key(3);
    assert_eq!(l.register_validator(&ident(&low_stake), 999), Ok(()));
    assert_eq!(l.register_validator(&ident(&good), 1000), Ok(()));
    assert_eq!(l.register_validator(&ident(&low_score), 5000), Ok(()));
    l.adjust_contribution(&ident(&low_score), -501);
    assert!(!l.registry.is_qualified(&ident(&low_stake)));
    assert!(l.registry.is_qualified(&ident(&good)));
    assert!(!l.registry.is_qualified(&ident(&low_score)));
    assert!(!l.registry.is_qualified(&ident(&key(4))));
    // Exactly at the score threshold again: qualified.
    l.adjust_contribution(&ident(&low_score), 1);
    assert!(l.registry.is_qualified(&ident(&low_score)));
}

#[test]
fn submit_zero_amount_fails_and_leaves_pool_empty() {
    let mut l = Ledger::new();
    let sender = key(1);
    let recipient = ident(&key(2));
    let out = l.create_transaction(&sender, &ident(&sender), &recipient, 0, 11);
    assert_eq!(out, Err(LedgerError::InvalidAmount));
    assert_eq!(l.pending_transactions.len(), 0);
}

#[test]
fn submit_appends_a_signed_transaction() {
    let mut l = Ledger::new();
    let sender = key(1);
    let sender_id = ident(&sender);
    let recipient = ident(&key(2));
    assert_eq!(l.create_transaction(&sender, &sender_id, &recipient, 50, 11), Ok(()));
    assert_eq!(l.pending_transactions.len(), 1);
    let t = &l.pending_transactions[0];
    assert_eq!(t.sender, sender_id);
    assert_eq!(t.recipient, recipient);
    assert_eq!(t.amount, 50);
    assert_eq!(t.timestamp, 11);
    assert_eq!(t.signature.len(), 64);
    // The stored signature is the sender's Ed25519 signature over the
    // canonical transaction digest.
    let digest = tx_digest_bytes(&sender_id, &recipient, 50, 11);
    let sig = Signature::from_slice(&t.signature).unwrap();
    assert!(sender.verifying_key().verify(&digest, &sig).is_ok());
}

#[test]
fn transaction_digest_matches_sha3_of_canonical_payload() {
    let sender = ident(&key(1));
    let recipient = ident(&key(2));
    let got = pos_ledger::tx::hash_transaction_data(&sender, &recipient, 77, 123456789);
    assert_eq!(got, tx_digest_bytes(&sender, &recipient, 77, 123456789));
    assert_eq!(got.len(), 32);
}

#[test]
fn block_hash_matches_sha3_of_chained_payload() {
    let mut l = Ledger::new();
    let producer = key(1);
    let producer_id = ident(&producer);
    let recipient = ident(&key(2));
    assert_eq!(l.register_validator(&producer_id, 1000), Ok(()));
    assert_eq!(l.create_transaction(&producer, &producer_id, &recipient, 50, 11), Ok(()));
    let block = l.validate_and_create_block(&producer_id, &producer, 12).unwrap();
    let mut payload: Vec<u8> = vec![0u8; 32];
    payload.extend_from_slice(&tx_digest_bytes(&producer_id, &recipient, 50, 11));
    assert_eq!(block.current_hash, Sha3_256::digest(&payload).to_vec());
}

#[test]
fn produce_block_with_unregistered_identity_fails_and_changes_nothing() {
    let mut l = Ledger::new();
    let registered = key(1);
    let registered_id = ident(&registered);
    let stranger = key(2);
    assert_eq!(l.register_validator(&registered_id, 1000), Ok(()));
    assert_eq!(l.create_transaction(&registered, &registered_id, &ident(&key(3)), 5, 7), Ok(()));
    let out = l.validate_and_create_block(&ident(&stranger), &stranger, 9);
    assert_eq!(out.unwrap_err(), LedgerError::ValidatorNotRegistered);
    assert_eq!(l.chain.len(), 0);
    assert_eq!(l.pending_transactions.len(), 1);
}

#[test]
fn produce_block_with_underqualified_identity_fails_and_changes_nothing() {
    let mut l = Ledger::new();
    let poor = key(1);
    let poor_id = ident(&poor);
    assert_eq!(l.register_validator(&poor_id, 999), Ok(()));
    let out = l.validate_and_create_block(&poor_id, &poor, 9);
    assert_eq!(out.unwrap_err(), LedgerError::ValidatorNotQualified);
    assert_eq!(l.chain.len(), 0);

    let demoted = key(2);
    let demoted_id = ident(&demoted);
    assert_eq!(l.register_validator(&demoted_id, 2000), Ok(()));
    l.adjust_contribution(&demoted_id, -501);
    let out = l.validate_and_create_block(&demoted_id, &demoted, 9);
    assert_eq!(out.unwrap_err(), LedgerError::ValidatorNotQualified);
    assert_eq!(l.chain.len(), 0);
    assert_eq!(l.pending_transactions.len(), 0);
}

#[test]
fn produced_genesis_block_chains_from_zero_and_empties_the_pool() {
    let mut l = Ledger::new();
    let producer = key(1);
    let producer_id = ident(&producer);
    let recipient = ident(&key(2));
    assert_eq!(l.register_validator(&producer_id, 1000), Ok(()));
    assert_eq!(l.create_transaction(&producer, &producer_id, &recipient, 50, 100), Ok(()));
    let block = l.validate_and_create_block(&producer_id, &producer, 101).unwrap();
    assert_eq!(l.chain.len(), 1);
    assert_eq!(l.pending_transactions.len(), 0);
    assert_eq!(block.index, 0);
    assert_eq!(block.timestamp, 101);
    assert_eq!(block.previous_hash, vec![0u8; 32]);
    assert_eq!(block.transactions.len(), 1);
    assert_eq!(block.transactions[0].amount, 50);
    assert_eq!(block.transactions[0].recipient, recipient);
    assert_eq!(block.validator_pubkey, producer_id);
    // The block's signature over its own hash verifies against the
    // producer's public key.
    let vk = VerifyingKey::from_bytes(&producer.verifying_key().to_bytes()).unwrap();
    let sig = Signature::from_slice(&block.validator_signature).unwrap();
    assert!(vk.verify(&block.current_hash, &sig).is_ok());
    // The stored tail equals the returned block.
    assert_eq!(l.chain[0].current_hash, block.current_hash);
    assert_eq!(l.chain[0].previous_hash, block.previous_hash);
}

#[test]
fn block_keeps_pool_order_and_hash_covers_all_digests() {
    let mut l = Ledger::new();
    let producer = key(1);
    let producer_id = ident(&producer);
    assert_eq!(l.register_validator(&producer_id, 1000), Ok(()));
    let recipients = [ident(&key(5)), ident(&key(6)), ident(&key(7))];
    for (n, r) in recipients.iter().enumerate() {
        let amount = (n as u64 + 1) * 10;
        assert_eq!(l.create_transaction(&producer, &producer_id, r, amount, n as u64), Ok(()));
    }
    let block = l.validate_and_create_block(&producer_id, &producer, 99).unwrap();
    assert_eq!(block.transactions.len(), 3);
    let mut payload: Vec<u8> = vec![0u8; 32];
    for (n, r) in recipients.iter().enumerate() {
        let amount = (n as u64 + 1) * 10;
        assert_eq!(block.transactions[n].recipient, *r);
        assert_eq!(block.transactions[n].amount, amount);
        payload.extend_from_slice(&tx_digest_bytes(&producer_id, r, amount, n as u64));
    }
    assert_eq!(block.current_hash, Sha3_256::digest(&payload).to_vec());
}

#[test]
fn policy_thresholds_are_configurable() {
    let mut l = Ledger::with_policy(10, 20, 1500);
    let v = key(1);
    let id = ident(&v);
    assert_eq!(l.register_validator(&id, 9), Err(LedgerError::InsufficientStake));
    assert_eq!(l.register_validator(&id, 20), Ok(()));
    // Default score is 1.0 but this policy demands 1.5: not yet qualified.
    assert!(!l.registry.is_qualified(&id));
    l.adjust_contribution(&id, 500);
    assert!(l.registry.is_qualified(&id));
    let out = l.validate_and_create_block(&id, &v, 1);
    assert!(out.is_ok());
}

#[test]
fn empty_genesis_block_hashes_the_zero_digest_alone() {
    let mut l = Ledger::new();
    let producer = key(1);
    let producer_id = ident(&producer);
    assert_eq!(l.register_validator(&producer_id, 1000), Ok(()));
    let block = l.validate_and_create_block(&producer_id, &producer, 1).unwrap();
    assert_eq!(block.transactions.len(), 0);
    assert_eq!(block.current_hash, Sha3_256::digest(&[0u8; 32]).to_vec());
}

#[test]
fn two_blocks_in_sequence_chain_their_hashes() {
    let mut l = Ledger::new();
    let producer = key(1);
    let producer_id = ident(&producer);
    assert_eq!(l.register_validator(&producer_id, 1000), Ok(()));
    assert_eq!(l.create_transaction(&producer, &producer_id, &ident(&key(2)), 3, 5), Ok(()));
    let first = l.validate_and_create_block(&producer_id, &producer, 6).unwrap();
    let second = l.validate_and_create_block(&producer_id, &producer, 7).unwrap();
    assert_eq!(l.chain.len(), 2);
    assert_eq!(second.index, 1);
    assert_eq!(second.previous_hash, first.current_hash);
    assert_eq!(second.transactions.len(), 0);
    // With no transactions, the second hash is the digest of the first.
    assert_eq!(second.current_hash, Sha3_256::digest(&first.current_hash).to_vec());
}
