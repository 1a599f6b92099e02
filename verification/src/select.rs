//! Weighted validator selection: every validator weighs `stake` times
//! `contribution_score`, a draw is reduced into `[0, total weight)`, and the
//! first validator whose cumulative weight exceeds the reduced draw is
//! selected. The walk runs over the registry's canonical identity order, so
//! the outcome depends on the draw alone.

use vstd::prelude::*;
use vstd::set_lib::{lemma_int_range, set_int_range};
use crate::bytes::copy_bytes;
use crate::crypto::draw_u64;
use crate::registry::{has_key, Registry, Validator};

verus! {

/// A validator's selection weight: stake times contribution score (the
/// latter in thousandths; the common scale cancels out of every share).
pub open spec fn weight(v: Validator) -> int {
    v.stake * v.contribution_score
}

/// The summed weight of the first `i` validators.
pub open spec fn prefix_weight(s: Seq<Validator>, i: int) -> int
    decreases i,
{
    if i <= 0 {
        0
    } else {
        prefix_weight(s, i - 1) + weight(s[i - 1])
    }
}

/// The summed weight of all validators.
pub open spec fn total_weight(s: Seq<Validator>) -> int {
    prefix_weight(s, s.len() as int)
}

/// A weight is never negative.
pub proof fn lemma_weight_nonneg(v: Validator)
    ensures
        weight(v) >= 0,
{
    assert(v.stake * v.contribution_score >= 0) by (nonlinear_arith);
}

/// Prefix weights grow with the prefix.
pub proof fn lemma_prefix_monotone(s: Seq<Validator>, a: int, b: int)
    requires
        0 <= a <= b,
    ensures
        prefix_weight(s, a) <= prefix_weight(s, b),
    decreases b - a,
{
    if a < b {
        lemma_prefix_monotone(s, a, b - 1);
        lemma_weight_nonneg(s[b - 1]);
    }
}

/// The draw `point` falls into validator `i`'s weight interval.
pub open spec fn selects_at(s: Seq<Validator>, point: int, i: int) -> bool {
    &&& 0 <= i < s.len()
    &&& prefix_weight(s, i) <= point < prefix_weight(s, i + 1)
}

/// At most one validator's interval holds a given draw.
pub proof fn lemma_selects_unique(s: Seq<Validator>, point: int, i: int, j: int)
    requires
        selects_at(s, point, i),
        selects_at(s, point, j),
    ensures
        i == j,
{
    if i < j {
        lemma_prefix_monotone(s, i + 1, j);
    }
    if j < i {
        lemma_prefix_monotone(s, j + 1, i);
    }
}

/// The identity the weighted rule selects for a given reduced draw, if any
/// interval holds it.
pub open spec fn spec_selected(s: Seq<Validator>, point: int) -> Option<Seq<u8>> {
    if exists|i: int| selects_at(s, point, i) {
        Some(s[choose|i: int| selects_at(s, point, i)].public_key@)
    } else {
        None
    }
}

/// Law: selection is proportional to weight. For every validator, the
/// reduced draws that select it form exactly its weight interval
/// `[prefix_weight(i), prefix_weight(i + 1))`, a set of size `weight(i)`
/// inside `[0, total weight)`; its selection frequency under a uniform draw
/// is therefore its share of the total weight.
pub proof fn lemma_selection_proportional(s: Seq<Validator>, i: int)
    requires
        0 <= i < s.len(),
    ensures
        forall|p: int|
            prefix_weight(s, i) <= p < prefix_weight(s, i + 1) ==> spec_selected(s, p) == Some(
                s[i].public_key@,
            ),
        set_int_range(prefix_weight(s, i), prefix_weight(s, i + 1)).len() == weight(s[i]),
        set_int_range(prefix_weight(s, i), prefix_weight(s, i + 1)).finite(),
        0 <= prefix_weight(s, i),
        prefix_weight(s, i + 1) <= total_weight(s),
{
    assert forall|p: int|
        prefix_weight(s, i) <= p < prefix_weight(s, i + 1) implies spec_selected(s, p) == Some(
        s[i].public_key@,
    ) by {
        assert(selects_at(s, p, i));
        let j = choose|j: int| selects_at(s, p, j);
        lemma_selects_unique(s, p, i, j);
    }
    lemma_weight_nonneg(s[i]);
    lemma_int_range(prefix_weight(s, i), prefix_weight(s, i + 1));
    lemma_prefix_monotone(s, 0, i);
    lemma_prefix_monotone(s, i + 1, s.len() as int);
}

impl Registry {
    /// Sums all selection weights, or reports that the sum exceeds the
    /// machine range.
    fn total_weight_checked(&self) -> (out: Option<u128>)
        ensures
            match out {
                Some(t) => t as int == total_weight(self.validators@),
                None => total_weight(self.validators@) > u128::MAX as int,
            },
    {
        let ghost s = self.validators@;
        let mut acc: u128 = 0;
        let mut i: usize = 0;
        while i < self.validators.len()
            invariant
                i <= s.len(),
                self.validators@ == s,
                acc as int == prefix_weight(s, i as int),
            decreases s.len() - i,
        {
            let v = &self.validators[i];
            proof {
                assert((v.stake as u128) * (v.contribution_score as u128) <= u128::MAX) by (
                nonlinear_arith);
                assert(v.stake as int * v.contribution_score as int == weight(s[i as int]));
            }
            let w: u128 = (v.stake as u128) * (v.contribution_score as u128);
            if w > u128::MAX - acc {
                proof {
                    lemma_prefix_monotone(s, i as int + 1, s.len() as int);
                }
                return None;
            }
            acc = acc + w;
            i = i + 1;
        }
        Some(acc)
    }

    /// Applies the weighted selection rule to a caller-supplied draw: the
    /// draw is reduced into `[0, total weight)` and the validator whose
    /// weight interval holds the reduced draw is selected. No selection is
    /// made when the registry is empty or all weights are zero (or the
    /// total weight exceeds the machine range).
    pub fn select_validator_with(&self, draw: u128) -> (out: Option<Vec<u8>>)
        ensures
            ({
                let s = self.validators@;
                let total = total_weight(s);
                match out {
                    None => total == 0 || total > u128::MAX as int,
                    Some(k) => {
                        &&& 0 < total <= u128::MAX as int
                        &&& spec_selected(s, draw as int % total) == Some(k@)
                        &&& has_key(s, k@)
                        &&& exists|i: int|
                            0 <= i < s.len() && s[i].public_key@ == k@ && weight(s[i]) > 0
                    },
                }
            }),
    {
        let ghost s = self.validators@;
        let total: u128 = match self.total_weight_checked() {
            Some(t) => t,
            None => {
                return None;
            },
        };
        if total == 0 {
            return None;
        }
        let point: u128 = draw % total;
        let ghost p = point as int;
        let mut acc: u128 = 0;
        let mut i: usize = 0;
        while i < self.validators.len()
            invariant
                i <= s.len(),
                self.validators@ == s,
                acc as int == prefix_weight(s, i as int),
                total as int == total_weight(s),
                0 < total,
                p == point as int,
                p == draw as int % total as int,
                0 <= p < total as int,
                prefix_weight(s, i as int) <= p,
            decreases s.len() - i,
        {
            let v = &self.validators[i];
            proof {
                assert((v.stake as u128) * (v.contribution_score as u128) <= u128::MAX) by (
                nonlinear_arith);
                assert(v.stake as int * v.contribution_score as int == weight(s[i as int]));
                lemma_prefix_monotone(s, i as int + 1, s.len() as int);
            }
            let w: u128 = (v.stake as u128) * (v.contribution_score as u128);
            proof {
                assert(w as int == weight(s[i as int]));
                assert(prefix_weight(s, i as int + 1) == prefix_weight(s, i as int) + weight(
                    s[i as int],
                ));
            }
            if point < acc + w {
                proof {
                    assert(selects_at(s, p, i as int));
                    let j = choose|j: int| selects_at(s, p, j);
                    lemma_selects_unique(s, p, i as int, j);
                }
                return Some(copy_bytes(&v.public_key));
            }
            acc = acc + w;
            i = i + 1;
        }
        proof {
            assert(prefix_weight(s, s.len() as int) <= p);
            assert(false);
        }
        None
    }

    /// Draws from the operating system's randomness source and applies the
    /// weighted selection rule. Whatever the draw, the selected validator
    /// is always a registered one of positive weight, and no selection is
    /// made only when the registry is empty or all weights are zero (or the
    /// total weight exceeds the machine range).
    pub fn select_validator(&self) -> (out: Option<Vec<u8>>)
        ensures
            ({
                let s = self.validators@;
                let total = total_weight(s);
                match out {
                    None => total == 0 || total > u128::MAX as int,
                    Some(k) => {
                        &&& has_key(s, k@)
                        &&& exists|i: int|
                            0 <= i < s.len() && s[i].public_key@ == k@ && weight(s[i]) > 0
                    },
                }
            }),
    {
        // Two 64-bit draws make one 128-bit draw, so that a reduced draw
        // can land in any weight interval however large the total grows.
        let hi: u64 = draw_u64();
        let lo: u64 = draw_u64();
        let draw: u128 = ((hi as u128) << 64u128) | (lo as u128);
        self.select_validator_with(draw)
    }
}

} // verus!
