//! Blocks and the chained block digest: a block's hash covers its
//! predecessor's digest followed by the canonical digest of every contained
//! transaction, in pool order.

use vstd::prelude::*;
use crate::bytes::push_bytes;
use crate::crypto::{sha3_256, sha3_of};
use crate::tx::{hash_transaction_data, tx_digest, tx_eq, Transaction};

verus! {

/// One block of the chain, immutable once assembled.
#[derive(Clone, Debug)]
pub struct Block {
    /// 0-based position in the chain, gapless.
    pub index: u64,
    /// Seconds since the epoch at assembly time, supplied by the caller's
    /// clock.
    pub timestamp: u64,
    /// The transfers moved out of the pending pool, in submission order.
    pub transactions: Vec<Transaction>,
    /// The predecessor's digest, or 32 zero bytes for the genesis block.
    pub previous_hash: Vec<u8>,
    /// The chained digest over `previous_hash` and every transaction digest.
    pub current_hash: Vec<u8>,
    /// The producing validator's signature over `current_hash`.
    pub validator_signature: Vec<u8>,
    /// The producing validator's identity: its serialized public key.
    pub validator_pubkey: Vec<u8>,
}

/// Two blocks carry the same content.
pub open spec fn block_eq(a: Block, b: Block) -> bool {
    &&& a.index == b.index
    &&& a.timestamp == b.timestamp
    &&& a.transactions@.len() == b.transactions@.len()
    &&& forall|i: int|
        0 <= i < a.transactions@.len() ==> tx_eq(a.transactions@[i], b.transactions@[i])
    &&& a.previous_hash@ == b.previous_hash@
    &&& a.current_hash@ == b.current_hash@
    &&& a.validator_signature@ == b.validator_signature@
    &&& a.validator_pubkey@ == b.validator_pubkey@
}

/// The bytes a block is hashed over: the predecessor's digest followed by
/// the canonical digest of each transaction, in order.
pub open spec fn block_payload(prev: Seq<u8>, txs: Seq<Transaction>) -> Seq<u8>
    decreases txs.len(),
{
    if txs.len() == 0 {
        prev
    } else {
        block_payload(prev, txs.drop_last()) + tx_digest(txs.last())
    }
}

/// The chained digest of a block built on `prev` from `txs`.
pub open spec fn chained_digest(prev: Seq<u8>, txs: Seq<Transaction>) -> Seq<u8> {
    sha3_of(block_payload(prev, txs))
}

/// Appending one transaction extends the hashed payload by that
/// transaction's digest.
pub proof fn lemma_block_payload_push(prev: Seq<u8>, txs: Seq<Transaction>, t: Transaction)
    ensures
        block_payload(prev, txs.push(t)) == block_payload(prev, txs) + tx_digest(t),
{
    assert(txs.push(t).drop_last() =~= txs);
    assert(txs.push(t).last() == t);
}

/// The hashed payload only depends on the transactions' content.
pub proof fn lemma_block_payload_congruent(prev: Seq<u8>, a: Seq<Transaction>, b: Seq<Transaction>)
    requires
        a.len() == b.len(),
        forall|i: int| 0 <= i < a.len() ==> tx_eq(a[i], b[i]),
    ensures
        block_payload(prev, a) == block_payload(prev, b),
    decreases a.len(),
{
    if a.len() > 0 {
        lemma_block_payload_congruent(prev, a.drop_last(), b.drop_last());
        assert(tx_eq(a.last(), b.last()));
        assert(tx_digest(a.last()) == tx_digest(b.last()));
    }
}

/// Computes the chained block digest over the predecessor's digest and the
/// given transactions.
pub fn calculate_block_hash(previous_hash: &Vec<u8>, transactions: &Vec<Transaction>) -> (r: Vec<
    u8,
>)
    ensures
        r@ == chained_digest(previous_hash@, transactions@),
        r@.len() == 32,
{
    let mut payload: Vec<u8> = Vec::new();
    push_bytes(&mut payload, previous_hash);
    proof {
        assert(payload@ =~= previous_hash@);
        assert(transactions@.take(0) =~= Seq::<Transaction>::empty());
        assert(payload@ == block_payload(previous_hash@, transactions@.take(0)));
    }
    let mut i: usize = 0;
    while i < transactions.len()
        invariant
            i <= transactions@.len(),
            payload@ == block_payload(previous_hash@, transactions@.take(i as int)),
        decreases transactions@.len() - i,
    {
        let t = &transactions[i];
        let d = hash_transaction_data(&t.sender, &t.recipient, t.amount, t.timestamp);
        proof {
            assert(d@ == tx_digest(transactions@[i as int]));
            assert(transactions@.take(i as int + 1) =~= transactions@.take(i as int).push(
                transactions@[i as int],
            ));
            lemma_block_payload_push(
                previous_hash@,
                transactions@.take(i as int),
                transactions@[i as int],
            );
        }
        push_bytes(&mut payload, &d);
        i = i + 1;
    }
    proof {
        assert(transactions@.take(transactions@.len() as int) =~= transactions@);
    }
    sha3_256(&payload)
}

/// Copies a block's content, field by field.
pub fn copy_block(b: &Block) -> (r: Block)
    ensures
        block_eq(r, *b),
{
    let mut transactions: Vec<Transaction> = Vec::new();
    let mut i: usize = 0;
    while i < b.transactions.len()
        invariant
            i <= b.transactions@.len(),
            transactions@.len() == i,
            forall|j: int| 0 <= j < i ==> tx_eq(transactions@[j], b.transactions@[j]),
        decreases b.transactions@.len() - i,
    {
        let t = crate::tx::copy_transaction(&b.transactions[i]);
        transactions.push(t);
        i = i + 1;
    }
    let mut previous_hash: Vec<u8> = Vec::new();
    push_bytes(&mut previous_hash, &b.previous_hash);
    let mut current_hash: Vec<u8> = Vec::new();
    push_bytes(&mut current_hash, &b.current_hash);
    let mut validator_signature: Vec<u8> = Vec::new();
    push_bytes(&mut validator_signature, &b.validator_signature);
    let mut validator_pubkey: Vec<u8> = Vec::new();
    push_bytes(&mut validator_pubkey, &b.validator_pubkey);
    proof {
        assert(previous_hash@ =~= b.previous_hash@);
        assert(current_hash@ =~= b.current_hash@);
        assert(validator_signature@ =~= b.validator_signature@);
        assert(validator_pubkey@ =~= b.validator_pubkey@);
    }
    Block {
        index: b.index,
        timestamp: b.timestamp,
        transactions,
        previous_hash,
        current_hash,
        validator_signature,
        validator_pubkey,
    }
}

} // verus!
