//! The validator registry: the set of known validators and their stake and
//! reputation state. Validators are kept sorted by identity in the canonical
//! byte order, so every walk over them is deterministic and stable.
//!
//! Contribution scores are fixed-point numbers in thousandths: `1000` stands
//! for a score of one, and scores are clamped into `[0, 10]`, that is
//! `[0, 10000]` thousandths.

use vstd::prelude::*;
use crate::bytes::{bytes_cmp, bytes_eq, copy_bytes, lemma_lex_irrefl, lemma_lex_trans, lex_lt,
    KeyOrder};
use crate::errors::LedgerError;

verus! {

/// One thousandth steps: the fixed-point scale of contribution scores.
pub const SCORE_SCALE: u32 = 1000;

/// The upper clamp of a contribution score: 10, in thousandths.
pub const SCORE_MAX: u32 = 10000;

/// The registration stake threshold the registry starts with.
pub const DEFAULT_MIN_REGISTRATION_STAKE: u64 = 500;

/// The qualification stake threshold the registry starts with.
pub const DEFAULT_MIN_QUALIFICATION_STAKE: u64 = 1000;

/// The qualification score threshold the registry starts with: 0.5, in
/// thousandths.
pub const DEFAULT_MIN_QUALIFICATION_SCORE: u32 = 500;

/// A staked participant eligible to produce blocks once the qualification
/// thresholds are met.
#[derive(Clone, Debug)]
pub struct Validator {
    /// The validator's identity: its serialized public key.
    pub public_key: Vec<u8>,
    /// The committed resource backing eligibility and selection weight.
    pub stake: u64,
    /// Bounded reputation multiplier, in thousandths, always in
    /// `[0, SCORE_MAX]`.
    pub contribution_score: u32,
    /// The index of the last block this validator produced, if any.
    pub last_validated_block: Option<u64>,
}

/// The validators stand in strictly increasing identity order; in
/// particular, each identity occurs at most once.
pub open spec fn sorted_unique(s: Seq<Validator>) -> bool {
    forall|i: int, j: int|
        0 <= i < j < s.len() ==> lex_lt(s[i].public_key@, s[j].public_key@)
}

/// Every contribution score is within the clamp.
pub open spec fn scores_bounded(s: Seq<Validator>) -> bool {
    forall|i: int| 0 <= i < s.len() ==> (#[trigger] s[i].contribution_score) <= SCORE_MAX
}

/// Some validator in `s` has identity `k`.
pub open spec fn has_key(s: Seq<Validator>, k: Seq<u8>) -> bool {
    exists|i: int| 0 <= i < s.len() && s[i].public_key@ == k
}

/// The index of the validator with identity `k`.
pub open spec fn key_at(s: Seq<Validator>, k: Seq<u8>) -> int {
    choose|i: int| 0 <= i < s.len() && s[i].public_key@ == k
}

/// The validator with identity `k`.
pub open spec fn get_at(s: Seq<Validator>, k: Seq<u8>) -> Validator {
    s[key_at(s, k)]
}

/// What a successful registration does to the validator sequence: the new
/// identity is present with the given stake, the default score of one and no
/// produced block yet, and every prior validator is still present,
/// unchanged.
pub open spec fn register_inserted(
    pre: Seq<Validator>,
    post: Seq<Validator>,
    id: Seq<u8>,
    stake: u64,
) -> bool {
    &&& post.len() == pre.len() + 1
    &&& has_key(post, id)
    &&& get_at(post, id).public_key@ == id
    &&& get_at(post, id).stake == stake
    &&& get_at(post, id).contribution_score == SCORE_SCALE
    &&& get_at(post, id).last_validated_block is None
    &&& forall|k: Seq<u8>|
        has_key(pre, k) ==> #[trigger] has_key(post, k) && get_at(post, k) == get_at(pre, k)
}

/// In a sorted registry an identity pins its position.
pub proof fn lemma_key_unique(s: Seq<Validator>, i: int, j: int)
    requires
        sorted_unique(s),
        0 <= i < s.len(),
        0 <= j < s.len(),
        s[i].public_key@ == s[j].public_key@,
    ensures
        i == j,
{
    if i < j || j < i {
        lemma_lex_irrefl(s[i].public_key@);
    }
}

/// In a sorted registry, looking an identity up returns the validator that
/// carries it.
pub proof fn lemma_get_at(s: Seq<Validator>, i: int)
    requires
        sorted_unique(s),
        0 <= i < s.len(),
    ensures
        has_key(s, s[i].public_key@),
        key_at(s, s[i].public_key@) == i,
        get_at(s, s[i].public_key@) == s[i],
{
    assert(has_key(s, s[i].public_key@));
    let j = key_at(s, s[i].public_key@);
    lemma_key_unique(s, i, j);
}

/// The registry of known validators, with the policy thresholds that govern
/// registration and qualification.
#[derive(Clone, Debug)]
pub struct Registry {
    /// The validators, sorted by identity in the canonical byte order.
    pub validators: Vec<Validator>,
    /// Registration fails below this initial stake.
    pub min_registration_stake: u64,
    /// Qualification requires at least this stake.
    pub min_qualification_stake: u64,
    /// Qualification requires at least this contribution score, in
    /// thousandths.
    pub min_qualification_score: u32,
}

impl Registry {
    /// Internal invariant: sorted unique identities, clamped scores.
    pub open spec fn wf(self) -> bool {
        &&& sorted_unique(self.validators@)
        &&& scores_bounded(self.validators@)
    }

    /// The identity exists, with stake and score at or above the
    /// qualification thresholds.
    pub open spec fn spec_qualified(self, k: Seq<u8>) -> bool {
        &&& has_key(self.validators@, k)
        &&& get_at(self.validators@, k).stake >= self.min_qualification_stake
        &&& get_at(self.validators@, k).contribution_score >= self.min_qualification_score
    }

    /// An empty registry under the given policy thresholds.
    pub fn with_policy(
        min_registration_stake: u64,
        min_qualification_stake: u64,
        min_qualification_score: u32,
    ) -> (r: Registry)
        ensures
            r.wf(),
            r.validators@.len() == 0,
            r.min_registration_stake == min_registration_stake,
            r.min_qualification_stake == min_qualification_stake,
            r.min_qualification_score == min_qualification_score,
    {
        Registry {
            validators: Vec::new(),
            min_registration_stake,
            min_qualification_stake,
            min_qualification_score,
        }
    }

    /// An empty registry under the default policy thresholds.
    pub fn new() -> (r: Registry)
        ensures
            r.wf(),
            r.validators@.len() == 0,
            r.min_registration_stake == DEFAULT_MIN_REGISTRATION_STAKE,
            r.min_qualification_stake == DEFAULT_MIN_QUALIFICATION_STAKE,
            r.min_qualification_score == DEFAULT_MIN_QUALIFICATION_SCORE,
    {
        Registry::with_policy(
            DEFAULT_MIN_REGISTRATION_STAKE,
            DEFAULT_MIN_QUALIFICATION_STAKE,
            DEFAULT_MIN_QUALIFICATION_SCORE,
        )
    }

    /// Finds the position of an identity by a linear scan.
    fn find_index(&self, identity: &Vec<u8>) -> (r: Option<usize>)
        ensures
            match r {
                Some(i) => i < self.validators@.len() && self.validators@[
                    i as int
                ].public_key@ == identity@,
                None => !has_key(self.validators@, identity@),
            },
    {
        let mut i: usize = 0;
        while i < self.validators.len()
            invariant
                i <= self.validators@.len(),
                forall|j: int| 0 <= j < i ==> self.validators@[j].public_key@ != identity@,
            decreases self.validators@.len() - i,
        {
            if bytes_eq(&self.validators[i].public_key, identity) {
                return Some(i);
            }
            i = i + 1;
        }
        None
    }

    /// True iff the identity is present in the registry.
    pub fn contains(&self, identity: &Vec<u8>) -> (r: bool)
        ensures
            r == has_key(self.validators@, identity@),
    {
        self.find_index(identity).is_some()
    }

    /// True iff the identity is present with stake and score at or above
    /// the qualification thresholds.
    pub fn is_qualified(&self, identity: &Vec<u8>) -> (r: bool)
        requires
            self.wf(),
        ensures
            r == self.spec_qualified(identity@),
    {
        match self.find_index(identity) {
            Some(i) => {
                proof {
                    lemma_get_at(self.validators@, i as int);
                }
                let v = &self.validators[i];
                v.stake >= self.min_qualification_stake && v.contribution_score
                    >= self.min_qualification_score
            },
            None => false,
        }
    }

    /// Registers a new validator with the given initial stake and the
    /// default contribution score of one. Fails, leaving the registry
    /// unchanged, when the identity is already present or the stake is
    /// below the registration threshold.
    #[verifier::rlimit(50)]
    pub fn register(&mut self, identity: &Vec<u8>, initial_stake: u64) -> (out: Result<
        (),
        LedgerError,
    >)
        requires
            old(self).wf(),
        ensures
            final(self).wf(),
            final(self).min_registration_stake == old(self).min_registration_stake,
            final(self).min_qualification_stake == old(self).min_qualification_stake,
            final(self).min_qualification_score == old(self).min_qualification_score,
            has_key(old(self).validators@, identity@) ==> out == Err::<(), LedgerError>(
                LedgerError::ValidatorAlreadyRegistered,
            ) && *final(self) == *old(self),
            !has_key(old(self).validators@, identity@) && initial_stake < old(
                self,
            ).min_registration_stake ==> out == Err::<(), LedgerError>(
                LedgerError::InsufficientStake,
            ) && *final(self) == *old(self),
            !has_key(old(self).validators@, identity@) && initial_stake >= old(
                self,
            ).min_registration_stake ==> out == Ok::<(), LedgerError>(()) && register_inserted(
                old(self).validators@,
                final(self).validators@,
                identity@,
                initial_stake,
            ),
    {
        let ghost s0 = self.validators@;
        let mut pos: usize = 0;
        let mut stop: bool = false;
        let mut is_equal: bool = false;
        while pos < self.validators.len() && !stop
            invariant
                pos <= self.validators@.len(),
                self.validators@ == s0,
                forall|j: int| 0 <= j < pos ==> lex_lt(s0[j].public_key@, identity@),
                is_equal ==> stop,
                stop ==> pos < s0.len(),
                stop && is_equal ==> s0[pos as int].public_key@ == identity@,
                stop && !is_equal ==> lex_lt(identity@, s0[pos as int].public_key@),
            decreases s0.len() - pos + if stop {
                0int
            } else {
                1int
            },
        {
            let ord = bytes_cmp(&self.validators[pos].public_key, identity);
            match ord {
                KeyOrder::Less => {
                    pos = pos + 1;
                },
                KeyOrder::Equal => {
                    stop = true;
                    is_equal = true;
                },
                KeyOrder::Greater => {
                    stop = true;
                },
            }
        }
        if is_equal {
            return Err(LedgerError::ValidatorAlreadyRegistered);
        }
        proof {
            // `identity` is nowhere in the registry: before `pos` every key
            // precedes it strictly, from `pos` on it follows every key.
            assert forall|j: int| 0 <= j < s0.len() implies s0[j].public_key@ != identity@ by {
                if j < pos {
                    if s0[j].public_key@ == identity@ {
                        lemma_lex_irrefl(identity@);
                    }
                } else if pos < s0.len() {
                    if j > pos {
                        lemma_lex_trans(identity@, s0[pos as int].public_key@, s0[j].public_key@);
                    }
                    if s0[j].public_key@ == identity@ {
                        lemma_lex_irrefl(identity@);
                    }
                }
            }
            assert(!has_key(s0, identity@));
        }
        if initial_stake < self.min_registration_stake {
            return Err(LedgerError::InsufficientStake);
        }
        let v = Validator {
            public_key: copy_bytes(identity),
            stake: initial_stake,
            contribution_score: SCORE_SCALE,
            last_validated_block: None,
        };
        self.validators.insert(pos, v);
        proof {
            let s1 = self.validators@;
            assert(s1 == s0.insert(pos as int, v));
            s0.insert_ensures(pos as int, v);
            assert(forall|j: int| pos < j < s1.len() ==> #[trigger] s1[j] == s0[j - 1]);
            // From the scan: every key from `pos` on follows `identity`.
            assert forall|j: int| pos <= j < s0.len() implies lex_lt(
                identity@,
                s0[j].public_key@,
            ) by {
                assert(pos < s0.len() && lex_lt(identity@, s0[pos as int].public_key@));
                if j > pos {
                    lemma_lex_trans(identity@, s0[pos as int].public_key@, s0[j].public_key@);
                }
            }
            assert forall|i: int, j: int|
                0 <= i < j < s1.len() implies lex_lt(s1[i].public_key@, s1[j].public_key@) by {
                if j < pos {
                    assert(s1[i] == s0[i] && s1[j] == s0[j]);
                } else if j == pos {
                    assert(s1[i] == s0[i] && s1[j] == v);
                } else if i < pos {
                    assert(s1[i] == s0[i] && s1[j] == s0[j - 1]);
                } else if i == pos {
                    assert(s1[i] == v && s1[j] == s0[j - 1]);
                } else {
                    assert(s1[i] == s0[i - 1] && s1[j] == s0[j - 1]);
                }
            }
            assert(sorted_unique(s1));
            assert forall|i: int|
                0 <= i < s1.len() implies (#[trigger] s1[i].contribution_score) <= SCORE_MAX by {
                if i < pos {
                    assert(s1[i] == s0[i]);
                } else if i > pos {
                    assert(s1[i] == s0[i - 1]);
                }
            }
            assert(scores_bounded(s1));
            lemma_get_at(s1, pos as int);
            assert forall|k: Seq<u8>| has_key(s0, k) implies #[trigger] has_key(s1, k) && get_at(
                s1,
                k,
            ) == get_at(s0, k) by {
                let i = key_at(s0, k);
                assert(0 <= i < s0.len() && s0[i].public_key@ == k);
                let i1 = if i < pos {
                    i
                } else {
                    i + 1
                };
                assert(s1[i1] == s0[i]);
                lemma_get_at(s1, i1);
                lemma_get_at(s0, i);
            }
            assert(register_inserted(s0, s1, identity@, initial_stake));
        }
        Ok(())
    }

    /// Adds `delta` thousandths to the identity's contribution score,
    /// clamping the result into `[0, SCORE_MAX]` thousandths. An unknown
    /// identity is a silent no-op.
    pub fn adjust_contribution(&mut self, identity: &Vec<u8>, delta: i64)
        requires
            old(self).wf(),
        ensures
            final(self).wf(),
            !has_key(old(self).validators@, identity@) ==> *final(self) == *old(self),
            has_key(old(self).validators@, identity@) ==> {
                let i = key_at(old(self).validators@, identity@);
                &&& final(self).min_registration_stake == old(self).min_registration_stake
                &&& final(self).min_qualification_stake == old(self).min_qualification_stake
                &&& final(self).min_qualification_score == old(self).min_qualification_score
                &&& final(self).validators@.len() == old(self).validators@.len()
                &&& forall|j: int|
                    0 <= j < old(self).validators@.len() && j != i ==> final(self).validators@[j]
                        == old(self).validators@[j]
                &&& final(self).validators@[i].public_key == old(self).validators@[i].public_key
                &&& final(self).validators@[i].stake == old(self).validators@[i].stake
                &&& final(self).validators@[i].last_validated_block == old(
                    self,
                ).validators@[i].last_validated_block
                &&& final(self).validators@[i].contribution_score as int == clamp_score(
                    old(self).validators@[i].contribution_score + delta,
                )
            },
    {
        let found = self.find_index(identity);
        match found {
            None => {},
            Some(i) => {
                proof {
                    lemma_get_at(self.validators@, i as int);
                }
                let cur: u32 = self.validators[i].contribution_score;
                let sum: i64 = if delta >= 0 {
                    if cur as i64 <= i64::MAX - delta {
                        cur as i64 + delta
                    } else {
                        i64::MAX
                    }
                } else {
                    if cur as i64 >= i64::MIN - delta {
                        cur as i64 + delta
                    } else {
                        i64::MIN + 1
                    }
                };
                let clamped: u32 = if sum < 0 {
                    0
                } else if sum > SCORE_MAX as i64 {
                    SCORE_MAX
                } else {
                    sum as u32
                };
                proof {
                    assert(clamped as int == clamp_score(
                        self.validators@[i as int].contribution_score + delta,
                    ));
                }
                self.validators[i].contribution_score = clamped;
                proof {
                    assert forall|a: int, b: int|
                        0 <= a < b < self.validators@.len() implies lex_lt(
                        self.validators@[a].public_key@,
                        self.validators@[b].public_key@,
                    ) by {
                        assert(self.validators@[a].public_key == old(self).validators@[
                            a
                        ].public_key);
                        assert(self.validators@[b].public_key == old(self).validators@[
                            b
                        ].public_key);
                    }
                }
            },
        }
    }
}

/// Saturating addition of a signed delta to a score, clamped into
/// `[0, SCORE_MAX]` thousandths.
pub open spec fn clamp_score(x: int) -> int {
    if x < 0 {
        0
    } else if x > SCORE_MAX {
        SCORE_MAX as int
    } else {
        x
    }
}

/// Law: a clamped score lies in `[0, SCORE_MAX]`, whatever the input, and
/// repeating an adjustment is idempotent exactly in the sense that the
/// clamp saturates: a further push past a bound stays at that bound.
pub proof fn lemma_clamp_saturates(x: int, delta: int)
    ensures
        0 <= clamp_score(x) <= SCORE_MAX,
        delta >= 0 && clamp_score(x) == SCORE_MAX ==> clamp_score(clamp_score(x) + delta)
            == SCORE_MAX,
        delta <= 0 && clamp_score(x) == 0 ==> clamp_score(clamp_score(x) + delta) == 0,
{
}

/// Law: after any sequence of operations on a well-formed registry, every
/// contribution score lies within the clamp `[0, SCORE_MAX]` thousandths.
pub proof fn lemma_scores_in_range(r: Registry)
    requires
        r.wf(),
    ensures
        forall|i: int|
            0 <= i < r.validators@.len() ==> 0 <= (#[trigger] r.validators@[
                i
            ].contribution_score) <= SCORE_MAX,
{
}

} // verus!
