//! The top-level ledger state: the chain, the validator registry, the
//! pending-transaction pool and the (reserved) difficulty parameter, with
//! the public operations over them. Every mutating operation validates
//! before it mutates, so a failed call leaves the ledger unchanged.

use vstd::prelude::*;
use crate::block::{block_eq, calculate_block_hash, chained_digest, copy_block, Block};
use crate::bytes::{copy_bytes, zero32, zero_hash};
use crate::crypto::sign_bytes;
use crate::errors::LedgerError;
use crate::registry::{clamp_score, has_key, key_at, register_inserted, Registry};
use crate::tx::{hash_transaction_data, tx_eq, Transaction};

verus! {

/// Every block's digest chains to its predecessor's, indices are gapless
/// from zero, every stored digest is the block's own chained digest, and
/// every contained transfer has a positive amount.
pub open spec fn chain_wf(c: Seq<Block>) -> bool {
    forall|i: int|
        0 <= i < c.len() ==> {
            &&& (#[trigger] c[i]).index == i
            &&& c[i].current_hash@ == chained_digest(c[i].previous_hash@, c[i].transactions@)
            &&& c[i].previous_hash@ == if i == 0 {
                zero_hash()
            } else {
                c[i - 1].current_hash@
            }
            &&& forall|j: int| 0 <= j < c[i].transactions@.len() ==> (#[trigger] c[
                i
            ].transactions@[j]).amount > 0
        }
}

/// The single owned state container of the system.
pub struct Ledger {
    /// The linear chain of produced blocks.
    pub chain: Vec<Block>,
    /// The known validators and the policy thresholds.
    pub registry: Registry,
    /// Submitted, not yet included transfers, in submission order; that
    /// order is the content order of the next block.
    pub pending_transactions: Vec<Transaction>,
    /// Reserved difficulty parameter; no operation reads it yet.
    pub current_difficulty: u64,
}

impl Ledger {
    /// Internal invariant: a well-formed registry, a hash-linked chain and
    /// a pool of positive amounts.
    pub open spec fn wf(self) -> bool {
        &&& self.registry.wf()
        &&& chain_wf(self.chain@)
        &&& forall|j: int|
            0 <= j < self.pending_transactions@.len() ==> (#[trigger] self.pending_transactions@[
                j
            ]).amount > 0
    }

    /// An empty ledger under the default policy thresholds.
    pub fn new() -> (l: Ledger)
        ensures
            l.wf(),
            l.chain@.len() == 0,
            l.pending_transactions@.len() == 0,
            l.registry.validators@.len() == 0,
            l.registry.min_registration_stake
                == crate::registry::DEFAULT_MIN_REGISTRATION_STAKE,
            l.registry.min_qualification_stake
                == crate::registry::DEFAULT_MIN_QUALIFICATION_STAKE,
            l.registry.min_qualification_score
                == crate::registry::DEFAULT_MIN_QUALIFICATION_SCORE,
            l.current_difficulty == 4,
    {
        Ledger {
            chain: Vec::new(),
            registry: Registry::new(),
            pending_transactions: Vec::new(),
            current_difficulty: 4,
        }
    }

    /// An empty ledger under the given policy thresholds.
    pub fn with_policy(
        min_registration_stake: u64,
        min_qualification_stake: u64,
        min_qualification_score: u32,
    ) -> (l: Ledger)
        ensures
            l.wf(),
            l.chain@.len() == 0,
            l.pending_transactions@.len() == 0,
            l.registry.validators@.len() == 0,
            l.registry.min_registration_stake == min_registration_stake,
            l.registry.min_qualification_stake == min_qualification_stake,
            l.registry.min_qualification_score == min_qualification_score,
            l.current_difficulty == 4,
    {
        Ledger {
            chain: Vec::new(),
            registry: Registry::with_policy(
                min_registration_stake,
                min_qualification_stake,
                min_qualification_score,
            ),
            pending_transactions: Vec::new(),
            current_difficulty: 4,
        }
    }

    /// Registers a validator identity with its initial stake; see
    /// `Registry::register`. The chain and the pool are untouched.
    pub fn register_validator(&mut self, identity: &Vec<u8>, initial_stake: u64) -> (out: Result<
        (),
        LedgerError,
    >)
        requires
            old(self).wf(),
        ensures
            final(self).wf(),
            final(self).chain == old(self).chain,
            final(self).pending_transactions == old(self).pending_transactions,
            final(self).current_difficulty == old(self).current_difficulty,
            final(self).registry.min_registration_stake
                == old(self).registry.min_registration_stake,
            final(self).registry.min_qualification_stake
                == old(self).registry.min_qualification_stake,
            final(self).registry.min_qualification_score
                == old(self).registry.min_qualification_score,
            has_key(old(self).registry.validators@, identity@) ==> out == Err::<(), LedgerError>(
                LedgerError::ValidatorAlreadyRegistered,
            ) && final(self).registry == old(self).registry,
            !has_key(old(self).registry.validators@, identity@) && initial_stake < old(
                self,
            ).registry.min_registration_stake ==> out == Err::<(), LedgerError>(
                LedgerError::InsufficientStake,
            ) && final(self).registry == old(self).registry,
            !has_key(old(self).registry.validators@, identity@) && initial_stake >= old(
                self,
            ).registry.min_registration_stake ==> out == Ok::<(), LedgerError>(())
                && register_inserted(
                old(self).registry.validators@,
                final(self).registry.validators@,
                identity@,
                initial_stake,
            ),
    {
        self.registry.register(identity, initial_stake)
    }

    /// Adds `delta` thousandths to a validator's contribution score,
    /// clamped into the score range; see `Registry::adjust_contribution`.
    /// An unknown identity is a silent no-op.
    pub fn adjust_contribution(&mut self, identity: &Vec<u8>, delta: i64)
        requires
            old(self).wf(),
        ensures
            final(self).wf(),
            final(self).chain == old(self).chain,
            final(self).pending_transactions == old(self).pending_transactions,
            final(self).current_difficulty == old(self).current_difficulty,
            !has_key(old(self).registry.validators@, identity@) ==> *final(self) == *old(self),
            has_key(old(self).registry.validators@, identity@) ==> {
                let i = key_at(old(self).registry.validators@, identity@);
                let pre = old(self).registry.validators@;
                let post = final(self).registry.validators@;
                &&& post.len() == pre.len()
                &&& forall|j: int| 0 <= j < pre.len() && j != i ==> post[j] == pre[j]
                &&& post[i].public_key == pre[i].public_key
                &&& post[i].stake == pre[i].stake
                &&& post[i].contribution_score as int == clamp_score(
                    pre[i].contribution_score + delta,
                )
            },
    {
        self.registry.adjust_contribution(identity, delta)
    }

    /// Selects a validator by the weighted-draw rule, with a draw from the
    /// operating system's randomness source; see
    /// `Registry::select_validator`.
    pub fn select_validator(&self) -> (out: Option<Vec<u8>>)
        ensures
            out is Some ==> has_key(self.registry.validators@, out.unwrap()@) && exists|i: int|
                0 <= i < self.registry.validators@.len() && (#[trigger] self.registry.validators@[
                    i
                ]).public_key@ == out.unwrap()@ && crate::select::weight(
                    self.registry.validators@[i],
                ) > 0,
            out is None ==> crate::select::total_weight(self.registry.validators@) == 0
                || crate::select::total_weight(self.registry.validators@) > u128::MAX as int,
    {
        self.registry.select_validator()
    }

    /// Submits a transfer to the pending pool: fails with `InvalidAmount`
    /// on a zero amount and changes nothing; otherwise signs the canonical
    /// transaction digest with the sender's key material and appends the
    /// transfer. No balance model exists: amounts are not checked against
    /// prior transfers.
    pub fn create_transaction(
        &mut self,
        sender_key: &ed25519_dalek::SigningKey,
        sender: &Vec<u8>,
        recipient: &Vec<u8>,
        amount: u64,
        timestamp: u64,
    ) -> (out: Result<(), LedgerError>)
        requires
            old(self).wf(),
        ensures
            final(self).wf(),
            final(self).chain == old(self).chain,
            final(self).registry == old(self).registry,
            final(self).current_difficulty == old(self).current_difficulty,
            amount == 0 ==> out == Err::<(), LedgerError>(LedgerError::InvalidAmount)
                && *final(self) == *old(self),
            amount > 0 ==> {
                let pre = old(self).pending_transactions@;
                let post = final(self).pending_transactions@;
                &&& out == Ok::<(), LedgerError>(())
                &&& post.len() == pre.len() + 1
                &&& forall|j: int| 0 <= j < pre.len() ==> post[j] == pre[j]
                &&& post.last().sender@ == sender@
                &&& post.last().recipient@ == recipient@
                &&& post.last().amount == amount
                &&& post.last().timestamp == timestamp
                &&& post.last().signature@.len() == 64
            },
    {
        if amount == 0 {
            return Err(LedgerError::InvalidAmount);
        }
        let digest = hash_transaction_data(sender, recipient, amount, timestamp);
        let signature = sign_bytes(sender_key, &digest);
        let t = Transaction {
            sender: copy_bytes(sender),
            recipient: copy_bytes(recipient),
            amount,
            signature,
            timestamp,
        };
        self.pending_transactions.push(t);
        Ok(())
    }

    /// Assembles and appends the next block, produced by the given
    /// validator. Fails with `ValidatorNotRegistered` or
    /// `ValidatorNotQualified`, changing nothing, unless the identity is
    /// registered and qualified; otherwise the pending pool moves into a
    /// new block whose digest chains to the tail of the chain (or to the
    /// all-zero digest on an empty chain), signed by the producer's key
    /// material, and the pool is left empty.
    pub fn validate_and_create_block(
        &mut self,
        validator_pubkey: &Vec<u8>,
        validator_key: &ed25519_dalek::SigningKey,
        timestamp: u64,
    ) -> (out: Result<Block, LedgerError>)
        requires
            old(self).wf(),
        ensures
            final(self).wf(),
            !has_key(old(self).registry.validators@, validator_pubkey@) ==> (out matches Err(e)
                && e == LedgerError::ValidatorNotRegistered && *final(self) == *old(self)),
            has_key(old(self).registry.validators@, validator_pubkey@) && !old(
                self,
            ).registry.spec_qualified(validator_pubkey@) ==> (out matches Err(e) && e
                == LedgerError::ValidatorNotQualified && *final(self) == *old(self)),
            old(self).registry.spec_qualified(validator_pubkey@) ==> (out matches Ok(b)
                && produced_block(*old(self), *final(self), b, validator_pubkey@, timestamp)),
    {
        if !self.registry.contains(validator_pubkey) {
            return Err(LedgerError::ValidatorNotRegistered);
        }
        if !self.registry.is_qualified(validator_pubkey) {
            return Err(LedgerError::ValidatorNotQualified);
        }
        let previous_hash: Vec<u8> = if self.chain.len() == 0 {
            zero32()
        } else {
            copy_bytes(&self.chain[self.chain.len() - 1].current_hash)
        };
        let index: u64 = self.chain.len() as u64;
        let current_hash = calculate_block_hash(&previous_hash, &self.pending_transactions);
        let validator_signature = sign_bytes(validator_key, &current_hash);
        let mut transactions: Vec<Transaction> = Vec::new();
        core::mem::swap(&mut transactions, &mut self.pending_transactions);
        let block = Block {
            index,
            timestamp,
            transactions,
            previous_hash,
            current_hash,
            validator_signature,
            validator_pubkey: copy_bytes(validator_pubkey),
        };
        let produced = copy_block(&block);
        self.chain.push(block);
        proof {
            let c0 = old(self).chain@;
            let c1 = self.chain@;
            assert(c1 == c0.push(c1.last()));
            assert forall|i: int| 0 <= i < c1.len() implies {
                &&& (#[trigger] c1[i]).index == i
                &&& c1[i].current_hash@ == chained_digest(c1[i].previous_hash@, c1[i].transactions@)
                &&& c1[i].previous_hash@ == if i == 0 {
                    zero_hash()
                } else {
                    c1[i - 1].current_hash@
                }
                &&& forall|j: int| 0 <= j < c1[i].transactions@.len() ==> (#[trigger] c1[
                    i
                ].transactions@[j]).amount > 0
            } by {
                if i < c0.len() {
                    assert(c1[i] == c0[i]);
                }
            }
            // The returned copy hashes to the same chained digest as the
            // stored block: their transactions agree in content.
            crate::block::lemma_block_payload_congruent(
                produced.previous_hash@,
                produced.transactions@,
                old(self).pending_transactions@,
            );
            assert(produced_block(*old(self), *self, produced, validator_pubkey@, timestamp));
        }
        Ok(produced)
    }
}

/// What a successful block production does: the new block holds the old
/// pool in order, chains to the old tail (or the all-zero digest), carries
/// the producer's identity and a 64-byte signature over its own chained
/// digest, and is appended to the chain while the pool is emptied. Registry
/// and difficulty are untouched.
pub open spec fn produced_block(
    pre: Ledger,
    post: Ledger,
    b: Block,
    producer: Seq<u8>,
    timestamp: u64,
) -> bool {
    &&& b.index as int == pre.chain@.len()
    &&& b.timestamp == timestamp
    &&& b.transactions@.len() == pre.pending_transactions@.len()
    &&& forall|j: int|
        0 <= j < b.transactions@.len() ==> tx_eq(
            #[trigger] b.transactions@[j],
            pre.pending_transactions@[j],
        )
    &&& b.previous_hash@ == if pre.chain@.len() == 0 {
        zero_hash()
    } else {
        pre.chain@.last().current_hash@
    }
    &&& b.current_hash@ == chained_digest(b.previous_hash@, b.transactions@)
    &&& b.validator_pubkey@ == producer
    &&& b.validator_signature@.len() == 64
    &&& post.chain@.len() == pre.chain@.len() + 1
    &&& forall|i: int| 0 <= i < pre.chain@.len() ==> #[trigger] post.chain@[i] == pre.chain@[i]
    &&& block_eq(post.chain@.last(), b)
    &&& post.pending_transactions@.len() == 0
    &&& post.registry == pre.registry
    &&& post.current_difficulty == pre.current_difficulty
}

/// Law: in a well-formed ledger the chain is hash-linked — every block
/// after the first carries as `previous_hash` the chained digest of its
/// predecessor's content, and the first block carries the all-zero digest.
pub proof fn lemma_chain_linked(l: Ledger)
    requires
        l.wf(),
    ensures
        forall|i: int|
            0 < i < l.chain@.len() ==> (#[trigger] l.chain@[i]).previous_hash@ == chained_digest(
                l.chain@[i - 1].previous_hash@,
                l.chain@[i - 1].transactions@,
            ),
        l.chain@.len() > 0 ==> l.chain@[0].previous_hash@ == zero_hash(),
{
    assert forall|i: int|
        0 < i < l.chain@.len() implies (#[trigger] l.chain@[i]).previous_hash@ == chained_digest(
        l.chain@[i - 1].previous_hash@,
        l.chain@[i - 1].transactions@,
    ) by {
        assert(l.chain@[i].previous_hash@ == l.chain@[i - 1].current_hash@);
    }
}

} // verus!
