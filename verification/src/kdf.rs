//! From a master password to a key, and from a key to a hash that may be stored.

use vstd::prelude::*;
use vstd::utf8::valid_utf8;
use sha2::Digest;
use crate::compare::constant_time_compare;
use crate::error::{bytes_outcome, ErrorKind};
use crate::secret::wipe;
use crate::params::{
    ARGON2_MEMORY_COST, ARGON2_PARALLELISM, ARGON2_TIME_COST, HASH_SIZE, KEY_SIZE, SALT_SIZE,
};
use crate::text::utf8_text;

verus! {

/// `argon2::Error`, the reason the Argon2 crate gives for a refusal.
#[verifier::external_type_specification]
#[verifier::external_body]
pub struct ExArgon2Error(argon2::Error);

/// The output of Argon2id, version 0x13, without secret or associated data:
/// `out_len` bytes from a password, a salt, the memory in KiB, the passes and
/// the lanes.
pub uninterp spec fn argon2id_v13(
    password: Seq<u8>,
    salt: Seq<u8>,
    m_cost: u32,
    t_cost: u32,
    p_cost: u32,
    out_len: nat,
) -> Seq<u8>;

/// SHA-256 of a byte string.
pub uninterp spec fn sha256(data: Seq<u8>) -> Seq<u8>;

/// Longest password and longest salt that Argon2 takes, in bytes.
pub const ARGON2_MAX_INPUT: usize = 0xFFFF_FFFF;

/// Shortest salt that Argon2 takes, in bytes.
pub const ARGON2_MIN_SALT: usize = 8;

/// The cost parameters and output length that Argon2 accepts.
pub open spec fn argon2_params_valid(
    m_cost: u32,
    t_cost: u32,
    p_cost: u32,
    out_len: usize,
) -> bool {
    &&& 1 <= p_cost <= 0xFF_FFFF
    &&& 8 * p_cost <= m_cost
    &&& 1 <= t_cost
    &&& 4 <= out_len <= 0xFFFF_FFFF
}

/// The password and salt lengths that Argon2 accepts.
pub open spec fn argon2_input_valid(password_len: nat, salt_len: nat) -> bool {
    &&& password_len <= ARGON2_MAX_INPUT
    &&& ARGON2_MIN_SALT <= salt_len <= ARGON2_MAX_INPUT
}

/// `argon2::Params::new`, `argon2::Argon2::new` with Argon2id and version 0x13,
/// and `Argon2::hash_password_into` on a fresh buffer of `out_len` bytes.
/// With valid parameters the crate refuses only a password over 2^32 - 1 bytes
/// or a salt outside 8 ..= 2^32 - 1 bytes. Claimed: success exactly on accepted
/// input lengths, and on success the Argon2id output of `out_len` bytes. The
/// call allocates `m_cost` KiB.
#[verifier::external_body]
pub(crate) fn argon2id_hash(
    password: &[u8],
    salt: &[u8],
    m_cost: u32,
    t_cost: u32,
    p_cost: u32,
    out_len: usize,
) -> (r: Result<Vec<u8>, argon2::Error>)
    requires
        argon2_params_valid(m_cost, t_cost, p_cost, out_len),
    ensures
        r is Ok <==> argon2_input_valid(password@.len(), salt@.len()),
        r matches Ok(out) ==> out@.len() == out_len && out@ == argon2id_v13(
            password@,
            salt@,
            m_cost,
            t_cost,
            p_cost,
            out_len as nat,
        ),
{
    let params = argon2::Params::new(m_cost, t_cost, p_cost, Some(out_len))?;
    let hasher = argon2::Argon2::new(argon2::Algorithm::Argon2id, argon2::Version::V0x13, params);
    let mut out = vec![0u8; out_len];
    hasher.hash_password_into(password, salt, &mut out)?;
    Ok(out)
}

/// `sha2::Sha256::digest`: the SHA-256 digest of `data`. Claimed: the digest
/// has 32 bytes.
#[verifier::external_body]
pub(crate) fn sha256_digest(data: &[u8]) -> (digest: Vec<u8>)
    ensures
        digest@ == sha256(data@),
        digest@.len() == 32,
{
    sha2::Sha256::digest(data).to_vec()
}

/// The key that a password and a salt derive: Argon2id over 64 MiB, three
/// passes, one lane, 32 bytes out.
pub open spec fn derived_key(password: Seq<u8>, salt: Seq<u8>) -> Seq<u8> {
    argon2id_v13(
        password,
        salt,
        ARGON2_MEMORY_COST,
        ARGON2_TIME_COST,
        ARGON2_PARALLELISM,
        KEY_SIZE as nat,
    )
}

/// What `derive_key` returns: a function of the password and the salt alone.
pub open spec fn derive_key_result(password: Seq<u8>, salt: Seq<u8>) -> Result<Seq<u8>, ErrorKind> {
    if salt.len() != SALT_SIZE {
        Err(ErrorKind::InvalidLength)
    } else if !valid_utf8(password) || password.len() > ARGON2_MAX_INPUT {
        Err(ErrorKind::KeyDerivationFailed)
    } else {
        Ok(derived_key(password, salt))
    }
}

/// Maps the outcome of the Argon2 call to the library's own: the key, or
/// `KeyDerivationFailed` whatever the reason for the refusal.
pub fn key_from_argon2(outcome: Result<Vec<u8>, argon2::Error>) -> (r: Result<Vec<u8>, ErrorKind>)
    ensures
        outcome matches Ok(key) ==> r == Ok::<Vec<u8>, ErrorKind>(key),
        outcome is Err ==> r == Err::<Vec<u8>, ErrorKind>(ErrorKind::KeyDerivationFailed),
{
    match outcome {
        Ok(key) => Ok(key),
        Err(_) => Err(ErrorKind::KeyDerivationFailed),
    }
}

/// Derives the 32-byte key from a password and a 16-byte salt.
///
/// The password arrives as bytes and must be valid UTF-8. The derivation is
/// memory-hard and takes a noticeable time by design. Identical inputs give
/// identical keys. The caller owns the key and erases it after use.
pub fn derive_key(password: &[u8], salt: &[u8]) -> (r: Result<Vec<u8>, ErrorKind>)
    ensures
        bytes_outcome(r) == derive_key_result(password@, salt@),
        r matches Ok(key) ==> key@.len() == KEY_SIZE,
{
    if salt.len() != SALT_SIZE {
        return Err(ErrorKind::InvalidLength);
    }
    if utf8_text(password).is_none() {
        return Err(ErrorKind::KeyDerivationFailed);
    }
    key_from_argon2(
        argon2id_hash(
            password,
            salt,
            ARGON2_MEMORY_COST,
            ARGON2_TIME_COST,
            ARGON2_PARALLELISM,
            KEY_SIZE,
        ),
    )
}

/// What `hash_for_storage` returns.
pub open spec fn storage_hash_result(key: Seq<u8>) -> Result<Seq<u8>, ErrorKind> {
    if key.len() != KEY_SIZE {
        Err(ErrorKind::InvalidLength)
    } else {
        Ok(sha256(key))
    }
}

/// The digest of a derived key that may be persisted: SHA-256, a fast one-way
/// hash. The expensive step is the derivation; this one only keeps a leaked
/// record from giving the key away.
pub fn hash_for_storage(key: &[u8]) -> (r: Result<Vec<u8>, ErrorKind>)
    ensures
        bytes_outcome(r) == storage_hash_result(key@),
        r matches Ok(hash) ==> hash@.len() == HASH_SIZE,
{
    if key.len() != KEY_SIZE {
        return Err(ErrorKind::InvalidLength);
    }
    Ok(sha256_digest(key))
}

/// What `verify_password` returns: the stored hash is compared with the
/// storage hash of the key that the candidate password derives.
pub open spec fn verification_result(
    candidate: Seq<u8>,
    salt: Seq<u8>,
    stored_hash: Seq<u8>,
) -> Result<bool, ErrorKind> {
    if stored_hash.len() != HASH_SIZE {
        Err(ErrorKind::InvalidLength)
    } else {
        match derive_key_result(candidate, salt) {
            Ok(key) => Ok(sha256(key) == stored_hash),
            Err(e) => Err(e),
        }
    }
}

/// Checks a candidate password against the salt and the storage hash that were
/// kept for a user: derives the key, hashes it for storage, and compares the
/// hash with the stored one in constant time. A stored hash or a salt of the
/// wrong length is rejected before anything is derived. The derived key is
/// erased before the function returns.
pub fn verify_password(candidate: &[u8], salt: &[u8], stored_hash: &[u8]) -> (r: Result<
    bool,
    ErrorKind,
>)
    ensures
        r == verification_result(candidate@, salt@, stored_hash@),
{
    if stored_hash.len() != HASH_SIZE {
        return Err(ErrorKind::InvalidLength);
    }
    match derive_key(candidate, salt) {
        Ok(mut key) => {
            let hashed = hash_for_storage(key.as_slice());
            wipe(&mut key);
            match hashed {
                Ok(hash) => constant_time_compare(hash.as_slice(), stored_hash),
                Err(e) => Err(e),
            }
        },
        Err(e) => Err(e),
    }
}

/// The cost parameters are ones that Argon2 accepts, and they keep the floor
/// that makes the derivation expensive to attack: at least three passes, at
/// least 64 MiB, and exactly one lane.
pub proof fn cost_parameters_keep_the_floor()
    ensures
        argon2_params_valid(
            ARGON2_MEMORY_COST,
            ARGON2_TIME_COST,
            ARGON2_PARALLELISM,
            KEY_SIZE,
        ),
        ARGON2_TIME_COST >= 3,
        ARGON2_MEMORY_COST >= 64 * 1024,
        ARGON2_PARALLELISM == 1,
{
}

/// Identical inputs derive identical outcomes.
pub proof fn derive_key_is_deterministic(
    password: Seq<u8>,
    salt: Seq<u8>,
    same_password: Seq<u8>,
    same_salt: Seq<u8>,
)
    requires
        password == same_password,
        salt == same_salt,
    ensures
        derive_key_result(password, salt) == derive_key_result(same_password, same_salt),
{
}

/// Deriving and hashing again with the same password and salt reproduces the
/// stored hash.
pub proof fn storage_hash_is_reproducible(
    password: Seq<u8>,
    salt: Seq<u8>,
    key: Seq<u8>,
    key_again: Seq<u8>,
)
    requires
        derive_key_result(password, salt) == Ok::<Seq<u8>, ErrorKind>(key),
        derive_key_result(password, salt) == Ok::<Seq<u8>, ErrorKind>(key_again),
    ensures
        key == key_again,
        storage_hash_result(key) == storage_hash_result(key_again),
{
}

} // verus!
