//! Pending transfers and their canonical digest: a transaction is hashed
//! over sender, recipient, amount and timestamp, and that digest is what the
//! sender signs and what block hashing consumes.

use vstd::prelude::*;
use crate::bytes::{push_bytes, push_u64_be, u64_be};
use crate::crypto::{sha3_256, sha3_of};

verus! {

/// A pending transfer, authenticated by its sender. `amount` is always
/// positive; the signature covers the canonical transaction digest.
#[derive(Clone, Debug)]
pub struct Transaction {
    /// The sender's identity: its serialized public key.
    pub sender: Vec<u8>,
    /// The recipient's identity: its serialized public key.
    pub recipient: Vec<u8>,
    /// The transferred amount; zero is rejected at submission.
    pub amount: u64,
    /// The sender's signature over the canonical transaction digest.
    pub signature: Vec<u8>,
    /// Seconds since the epoch, supplied by the caller's clock.
    pub timestamp: u64,
}

/// Two transactions carry the same content.
pub open spec fn tx_eq(a: Transaction, b: Transaction) -> bool {
    &&& a.sender@ == b.sender@
    &&& a.recipient@ == b.recipient@
    &&& a.amount == b.amount
    &&& a.signature@ == b.signature@
    &&& a.timestamp == b.timestamp
}

/// The canonical bytes a transaction is hashed over: sender, recipient, then
/// amount and timestamp as fixed-width big-endian integers.
pub open spec fn tx_payload(sender: Seq<u8>, recipient: Seq<u8>, amount: u64, timestamp: u64) -> Seq<
    u8,
> {
    sender + recipient + u64_be(amount) + u64_be(timestamp)
}

/// The canonical digest of a transaction's content.
pub open spec fn tx_digest(t: Transaction) -> Seq<u8> {
    sha3_of(tx_payload(t.sender@, t.recipient@, t.amount, t.timestamp))
}

/// Computes the canonical digest over a transaction's content fields.
pub fn hash_transaction_data(sender: &Vec<u8>, recipient: &Vec<u8>, amount: u64, timestamp: u64) -> (
    r: Vec<u8>)
    ensures
        r@ == sha3_of(tx_payload(sender@, recipient@, amount, timestamp)),
        r@.len() == 32,
{
    let mut payload: Vec<u8> = Vec::new();
    push_bytes(&mut payload, sender);
    push_bytes(&mut payload, recipient);
    push_u64_be(&mut payload, amount);
    push_u64_be(&mut payload, timestamp);
    proof {
        assert(payload@ =~= tx_payload(sender@, recipient@, amount, timestamp));
    }
    sha3_256(&payload)
}

/// Copies a transaction's content, field by field.
pub fn copy_transaction(t: &Transaction) -> (r: Transaction)
    ensures
        tx_eq(r, *t),
{
    let mut sender: Vec<u8> = Vec::new();
    push_bytes(&mut sender, &t.sender);
    let mut recipient: Vec<u8> = Vec::new();
    push_bytes(&mut recipient, &t.recipient);
    let mut signature: Vec<u8> = Vec::new();
    push_bytes(&mut signature, &t.signature);
    proof {
        assert(sender@ =~= t.sender@);
        assert(recipient@ =~= t.recipient@);
        assert(signature@ =~= t.signature@);
    }
    Transaction { sender, recipient, amount: t.amount, signature, timestamp: t.timestamp }
}

} // verus!
