//! Salts and nonces from the thread-local secure random generator.

use vstd::prelude::*;
use rand::Rng;
use rand::RngCore;
use rand::rngs::ThreadRng;
use crate::error::ErrorKind;
use crate::params::{NONCE_SIZE, SALT_SIZE};

verus! {

/// `rand::rngs::ThreadRng`, the handle to the thread-local generator. Nothing
/// inside it is visible here.
#[verifier::external_type_specification]
#[verifier::external_body]
pub struct ExThreadRng(rand::rngs::ThreadRng);

/// `rand::thread_rng`: hands out the handle to the lazily seeded thread-local
/// generator. Nothing is claimed of the handle. The first call on a thread
/// seeds the generator from the operating system and panics if that source
/// gives nothing.
pub assume_specification[ rand::thread_rng ]() -> (rng: rand::rngs::ThreadRng);

/// `RngCore::fill_bytes` on `ThreadRng`: overwrites every byte of `dest` with
/// random data. Claimed: the length stays. Which bytes arrive is left open.
#[verifier::external_body]
pub(crate) fn fill_bytes(rng: &mut ThreadRng, dest: &mut [u8])
    ensures
        final(dest)@.len() == old(dest)@.len(),
{
    rng.fill_bytes(dest)
}

/// `Rng::gen_range` on `ThreadRng` with the range `0..bound`: a uniform draw.
/// The call panics on an empty range, so `bound` is positive. Claimed: the draw
/// lies below `bound`.
#[verifier::external_body]
pub(crate) fn random_below(rng: &mut ThreadRng, bound: usize) -> (r: usize)
    requires
        bound > 0,
    ensures
        r < bound,
{
    rng.gen_range(0..bound)
}

/// What `fill_random` reports for a destination that is present or not, of
/// `len` bytes, where `expected_len` bytes are asked for.
pub open spec fn fill_outcome(present: bool, len: nat, expected_len: nat) -> Result<(), ErrorKind> {
    if !present {
        Err(ErrorKind::NullPointer)
    } else if len != expected_len {
        Err(ErrorKind::InvalidLength)
    } else {
        Ok(())
    }
}

/// Fills `buffer` with secure random bytes, if it is present and holds exactly
/// `expected_len` bytes. A rejected buffer is left as it was.
pub fn fill_random(buffer: Option<&mut [u8]>, expected_len: usize) -> (r: Result<(), ErrorKind>)
    ensures
        buffer is None ==> r == fill_outcome(false, 0, expected_len as nat),
        buffer matches Some(b) ==> {
            &&& r == fill_outcome(true, b@.len(), expected_len as nat)
            &&& final(b)@.len() == b@.len()
            &&& r is Err ==> final(b)@ == b@
        },
{
    match buffer {
        None => Err(ErrorKind::NullPointer),
        Some(b) => {
            if b.len() != expected_len {
                Err(ErrorKind::InvalidLength)
            } else {
                let mut rng = rand::thread_rng();
                fill_bytes(&mut rng, b);
                Ok(())
            }
        },
    }
}

/// A vector of `n` zero bytes.
pub fn zeroed(n: usize) -> (v: Vec<u8>)
    ensures
        v@ == Seq::new(n as nat, |i: int| 0u8),
{
    let mut v: Vec<u8> = Vec::new();
    let mut i: usize = 0;
    while i < n
        invariant
            i <= n,
            v@ == Seq::new(i as nat, |j: int| 0u8),
        decreases n - i,
    {
        v.push(0u8);
        i = i + 1;
        assert(v@ =~= Seq::new(i as nat, |j: int| 0u8));
    }
    v
}

/// A fresh salt of `SALT_SIZE` random bytes.
pub fn generate_salt() -> (salt: Vec<u8>)
    ensures
        salt@.len() == SALT_SIZE,
{
    let mut salt = zeroed(SALT_SIZE);
    let mut rng = rand::thread_rng();
    fill_bytes(&mut rng, salt.as_mut_slice());
    salt
}

/// A fresh nonce of `NONCE_SIZE` random bytes.
pub fn generate_nonce() -> (nonce: Vec<u8>)
    ensures
        nonce@.len() == NONCE_SIZE,
{
    let mut nonce = zeroed(NONCE_SIZE);
    let mut rng = rand::thread_rng();
    fill_bytes(&mut rng, nonce.as_mut_slice());
    nonce
}

} // verus!
