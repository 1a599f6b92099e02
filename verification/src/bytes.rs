//! Plain byte-sequence helpers: fixed-width big-endian encoding of 64-bit
//! integers, the all-zero genesis digest, and a lexicographic order on byte
//! strings used as the canonical order of validator identities.

use vstd::prelude::*;

verus! {

/// The eight big-endian bytes of a 64-bit integer.
pub open spec fn u64_be(x: u64) -> Seq<u8> {
    seq![
        (x >> 56) as u8,
        (x >> 48) as u8,
        (x >> 40) as u8,
        (x >> 32) as u8,
        (x >> 24) as u8,
        (x >> 16) as u8,
        (x >> 8) as u8,
        x as u8,
    ]
}

/// The 32-byte all-zero digest that stands in for a predecessor when the
/// chain is still empty.
pub open spec fn zero_hash() -> Seq<u8> {
    Seq::new(32, |i: int| 0u8)
}

/// Builds the 32-byte all-zero predecessor digest of the genesis block.
pub fn zero32() -> (r: Vec<u8>)
    ensures
        r@ == zero_hash(),
{
    let mut r: Vec<u8> = Vec::new();
    let mut i: usize = 0;
    while i < 32
        invariant
            i <= 32,
            r@ =~= zero_hash().take(i as int),
        decreases 32 - i,
    {
        r.push(0u8);
        i = i + 1;
    }
    proof {
        assert(r@ =~= zero_hash());
    }
    r
}

/// Appends the eight big-endian bytes of `x` to `dst`.
pub fn push_u64_be(dst: &mut Vec<u8>, x: u64)
    ensures
        final(dst)@ == old(dst)@ + u64_be(x),
{
    dst.push(#[verifier::truncate] ((x >> 56) as u8));
    dst.push(#[verifier::truncate] ((x >> 48) as u8));
    dst.push(#[verifier::truncate] ((x >> 40) as u8));
    dst.push(#[verifier::truncate] ((x >> 32) as u8));
    dst.push(#[verifier::truncate] ((x >> 24) as u8));
    dst.push(#[verifier::truncate] ((x >> 16) as u8));
    dst.push(#[verifier::truncate] ((x >> 8) as u8));
    dst.push(#[verifier::truncate] (x as u8));
    proof {
        assert(dst@ =~= old(dst)@ + u64_be(x));
    }
}

/// Appends every byte of `src` to `dst`, in order.
pub fn push_bytes(dst: &mut Vec<u8>, src: &Vec<u8>)
    ensures
        final(dst)@ == old(dst)@ + src@,
{
    let mut i: usize = 0;
    while i < src.len()
        invariant
            i <= src@.len(),
            dst@ == old(dst)@ + src@.take(i as int),
        decreases src@.len() - i,
    {
        proof {
            assert(old(dst)@ + src@.take(i as int + 1) =~= (old(dst)@ + src@.take(
                i as int,
            )).push(src@[i as int]));
        }
        dst.push(src[i]);
        i = i + 1;
    }
    proof {
        assert(src@.take(src@.len() as int) =~= src@);
    }
}

/// Copies a byte string.
pub fn copy_bytes(src: &Vec<u8>) -> (r: Vec<u8>)
    ensures
        r@ == src@,
{
    let mut r: Vec<u8> = Vec::new();
    push_bytes(&mut r, src);
    proof {
        assert(r@ =~= src@);
    }
    r
}

/// Strict lexicographic order on byte strings: a proper prefix comes first,
/// otherwise the first differing byte decides.
pub open spec fn lex_lt(a: Seq<u8>, b: Seq<u8>) -> bool
    decreases a.len(),
{
    if b.len() == 0 {
        false
    } else if a.len() == 0 {
        true
    } else if a[0] < b[0] {
        true
    } else if b[0] < a[0] {
        false
    } else {
        lex_lt(a.drop_first(), b.drop_first())
    }
}

/// No byte string precedes itself.
pub proof fn lemma_lex_irrefl(a: Seq<u8>)
    ensures
        !lex_lt(a, a),
    decreases a.len(),
{
    if a.len() > 0 {
        lemma_lex_irrefl(a.drop_first());
    }
}

/// `lex_lt` is transitive.
pub proof fn lemma_lex_trans(a: Seq<u8>, b: Seq<u8>, c: Seq<u8>)
    requires
        lex_lt(a, b),
        lex_lt(b, c),
    ensures
        lex_lt(a, c),
    decreases a.len(),
{
    if a.len() > 0 && b.len() > 0 && c.len() > 0 && a[0] == b[0] && b[0] == c[0] {
        lemma_lex_trans(a.drop_first(), b.drop_first(), c.drop_first());
    }
}

/// Skipping a shared prefix does not change how two byte strings compare.
pub proof fn lemma_lex_skip(a: Seq<u8>, b: Seq<u8>, k: int)
    requires
        0 <= k <= a.len(),
        k <= b.len(),
        forall|j: int| 0 <= j < k ==> a[j] == b[j],
    ensures
        lex_lt(a, b) == lex_lt(a.skip(k), b.skip(k)),
    decreases k,
{
    if k == 0 {
        assert(a.skip(0) =~= a);
        assert(b.skip(0) =~= b);
    } else {
        assert(a.len() > 0 && b.len() > 0 && a[0] == b[0]);
        assert(lex_lt(a, b) == lex_lt(a.drop_first(), b.drop_first()));
        assert(a.drop_first() =~= a.skip(1));
        assert(b.drop_first() =~= b.skip(1));
        lemma_lex_skip(a.skip(1), b.skip(1), k - 1);
        assert(a.skip(1).skip(k - 1) =~= a.skip(k));
        assert(b.skip(1).skip(k - 1) =~= b.skip(k));
    }
}

/// The outcome of comparing two validator identities.
#[derive(Clone, Copy, Debug, PartialEq, Eq, Structural)]
pub enum KeyOrder {
    Less,
    Equal,
    Greater,
}

/// Compares two byte strings in the canonical lexicographic order.
pub fn bytes_cmp(a: &Vec<u8>, b: &Vec<u8>) -> (r: KeyOrder)
    ensures
        (r == KeyOrder::Less) == lex_lt(a@, b@),
        (r == KeyOrder::Equal) == (a@ == b@),
        (r == KeyOrder::Greater) == lex_lt(b@, a@),
{
    let mut i: usize = 0;
    let a_len: usize = a.len();
    let b_len: usize = b.len();
    let min_len: usize = if a_len < b_len {
        a_len
    } else {
        b_len
    };
    while i < min_len
        invariant
            i <= min_len,
            min_len <= a@.len(),
            min_len <= b@.len(),
            min_len == if a@.len() < b@.len() {
                a@.len()
            } else {
                b@.len()
            },
            forall|j: int| 0 <= j < i ==> a@[j] == b@[j],
        decreases min_len - i,
    {
        let x: u8 = a[i];
        let y: u8 = b[i];
        if x < y {
            proof {
                lemma_lex_skip(a@, b@, i as int);
                lemma_lex_skip(b@, a@, i as int);
                assert(lex_lt(a@.skip(i as int), b@.skip(i as int)));
                assert(!lex_lt(b@.skip(i as int), a@.skip(i as int)));
                assert(a@ != b@) by {
                    assert(a@[i as int] != b@[i as int]);
                }
            }
            return KeyOrder::Less;
        }
        if y < x {
            proof {
                lemma_lex_skip(a@, b@, i as int);
                lemma_lex_skip(b@, a@, i as int);
                assert(lex_lt(b@.skip(i as int), a@.skip(i as int)));
                assert(!lex_lt(a@.skip(i as int), b@.skip(i as int)));
                assert(a@ != b@) by {
                    assert(a@[i as int] != b@[i as int]);
                }
            }
            return KeyOrder::Greater;
        }
        i = i + 1;
    }
    if a_len == b_len {
        proof {
            assert(a@ =~= b@);
            lemma_lex_irrefl(a@);
        }
        KeyOrder::Equal
    } else if a_len < b_len {
        proof {
            lemma_lex_skip(a@, b@, a@.len() as int);
            lemma_lex_skip(b@, a@, a@.len() as int);
            assert(a@.skip(a@.len() as int).len() == 0);
            assert(b@.skip(a@.len() as int).len() > 0);
        }
        KeyOrder::Less
    } else {
        proof {
            lemma_lex_skip(a@, b@, b@.len() as int);
            lemma_lex_skip(b@, a@, b@.len() as int);
            assert(b@.skip(b@.len() as int).len() == 0);
            assert(a@.skip(b@.len() as int).len() > 0);
        }
        KeyOrder::Greater
    }
}

/// True iff the two byte strings hold the same bytes.
pub fn bytes_eq(a: &Vec<u8>, b: &Vec<u8>) -> (r: bool)
    ensures
        r == (a@ == b@),
{
    let r: KeyOrder = bytes_cmp(a, b);
    matches!(r, KeyOrder::Equal)
}

} // verus!
