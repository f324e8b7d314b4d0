//! Erasing secrets from memory.

use vstd::prelude::*;
use zeroize::Zeroize;

verus! {

/// `Zeroize::zeroize` on `Vec<u8>`: overwrites every element and the spare
/// capacity with zeros by volatile writes, then clears the vector. Claimed: the
/// vector is empty afterwards.
#[verifier::external_body]
pub(crate) fn zeroize_vec(secret: &mut Vec<u8>)
    ensures
        final(secret)@.len() == 0,
{
    secret.zeroize()
}

/// Erases a secret that is no longer needed: its bytes are overwritten with
/// zeros in a way the compiler may not remove, and the vector is left empty.
pub fn wipe(secret: &mut Vec<u8>)
    ensures
        final(secret)@ == Seq::<u8>::empty(),
{
    zeroize_vec(secret);
    assert(secret@ =~= Seq::<u8>::empty());
}

} // verus!
