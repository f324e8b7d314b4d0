//! Timing-safe equality of byte strings.

use vstd::prelude::*;
use crate::error::ErrorKind;

verus! {

/// What `constant_time_compare` returns for two byte strings.
pub open spec fn compare_result(a: Seq<u8>, b: Seq<u8>) -> Result<bool, ErrorKind> {
    if a.len() != b.len() {
        Err(ErrorKind::InvalidLength)
    } else {
        Ok(a == b)
    }
}

proof fn lemma_fold_difference(acc: u8, x: u8, y: u8)
    ensures
        (acc | (x ^ y)) == 0 <==> (acc == 0 && x == y),
{
    assert((acc | (x ^ y)) == 0 <==> (acc == 0 && x == y)) by (bit_vector);
}

/// Compares two byte strings of equal length without leaving early.
///
/// Every pair of bytes is folded into one accumulator by XOR and OR, whether or
/// not a difference was already seen; only the final accumulator is tested.
/// Lengths are not secret: strings of different lengths are rejected at once.
pub fn constant_time_compare(a: &[u8], b: &[u8]) -> (r: Result<bool, ErrorKind>)
    ensures
        r == compare_result(a@, b@),
{
    if a.len() != b.len() {
        return Err(ErrorKind::InvalidLength);
    }
    let n: usize = a.len();
    let mut acc: u8 = 0;
    let mut i: usize = 0;
    assert(a@.subrange(0, 0) =~= b@.subrange(0, 0));
    while i < n
        invariant
            n == a@.len(),
            n == b@.len(),
            i <= n,
            acc == 0 <==> a@.subrange(0, i as int) == b@.subrange(0, i as int),
        decreases n - i,
    {
        proof {
            lemma_fold_difference(acc, a@[i as int], b@[i as int]);
            let pa = a@.subrange(0, i as int);
            let pb = b@.subrange(0, i as int);
            let qa = a@.subrange(0, i + 1);
            let qb = b@.subrange(0, i + 1);
            assert(qa.drop_last() =~= pa);
            assert(qb.drop_last() =~= pb);
            assert(qa.last() == a@[i as int]);
            assert(qb.last() == b@[i as int]);
            if pa == pb && a@[i as int] == b@[i as int] {
                assert(qa =~= qb);
            }
        }
        acc = acc | (a[i] ^ b[i]);
        i = i + 1;
    }
    proof {
        assert(a@.subrange(0, n as int) =~= a@);
        assert(b@.subrange(0, n as int) =~= b@);
    }
    Ok(acc == 0)
}

/// A byte string equals itself.
pub proof fn compare_is_reflexive(x: Seq<u8>)
    ensures
        compare_result(x, x) == Ok::<bool, ErrorKind>(true),
{
}

/// Two strings of one length that differ at any position compare as unequal.
pub proof fn compare_detects_any_difference(x: Seq<u8>, y: Seq<u8>, i: int)
    requires
        x.len() == y.len(),
        0 <= i < x.len(),
        x[i] != y[i],
    ensures
        compare_result(x, y) == Ok::<bool, ErrorKind>(false),
{
}

/// Two strings of one length compare as equal only if they agree at every position.
pub proof fn compare_equal_means_same_bytes(x: Seq<u8>, y: Seq<u8>)
    requires
        compare_result(x, y) == Ok::<bool, ErrorKind>(true),
    ensures
        x.len() == y.len(),
        forall|i: int| 0 <= i < x.len() ==> x[i] == y[i],
{
}

/// The order of the arguments does not matter.
pub proof fn compare_is_symmetric(x: Seq<u8>, y: Seq<u8>)
    ensures
        compare_result(x, y) == compare_result(y, x),
{
}

} // verus!
