//! Authenticated encryption with AES-256-GCM.

use vstd::prelude::*;
use aes_gcm::aead::Aead;
use aes_gcm::KeyInit;
use crate::error::{bytes_outcome, ErrorKind};
use crate::params::{KEY_SIZE, NONCE_SIZE, TAG_SIZE};
use crate::random::generate_nonce;

verus! {

/// `aes_gcm::Error`, the opaque error of the cipher.
#[verifier::external_type_specification]
#[verifier::external_body]
pub struct ExAeadError(aes_gcm::Error);

/// What AES-256-GCM makes of a plaintext under a 32-byte key and a 12-byte
/// nonce, without associated data: the encrypted payload followed by the tag.
pub uninterp spec fn aes256gcm_seal(key: Seq<u8>, nonce: Seq<u8>, plaintext: Seq<u8>) -> Seq<u8>;

/// What AES-256-GCM recovers from a ciphertext under a 32-byte key and a
/// 12-byte nonce, without associated data: the plaintext, or nothing where the
/// tag does not match.
pub uninterp spec fn aes256gcm_open(key: Seq<u8>, nonce: Seq<u8>, ciphertext: Seq<u8>) -> Option<
    Seq<u8>,
>;

/// Longest plaintext that the cipher takes, in bytes: 2^36.
pub const MAX_PLAINTEXT_LEN: u64 = 0x10_0000_0000;

/// `Aes256Gcm::new` and `Aead::encrypt`. Key and nonce are turned into
/// fixed-size arrays, which panics on another length, so both lengths are
/// required; the call reserves room for plaintext and tag at once, so their
/// sum must be a size that can be allocated. The crate refuses only a
/// plaintext over 2^36 bytes. Claimed: success exactly up to that length; the
/// result is the sealed plaintext, 16 bytes longer than the plaintext; and
/// opening it with the same key and nonce gives the plaintext back.
#[verifier::external_body]
pub(crate) fn aes256gcm_encrypt(key: &[u8], nonce: &[u8], plaintext: &[u8]) -> (r: Result<
    Vec<u8>,
    aes_gcm::Error,
>)
    requires
        key@.len() == 32,
        nonce@.len() == 12,
        plaintext@.len() + 16 <= isize::MAX,
    ensures
        r is Ok <==> plaintext@.len() <= MAX_PLAINTEXT_LEN,
        r matches Ok(sealed) ==> {
            &&& sealed@ == aes256gcm_seal(key@, nonce@, plaintext@)
            &&& sealed@.len() == plaintext@.len() + 16
            &&& aes256gcm_open(key@, nonce@, sealed@) == Some(plaintext@)
        },
{
    let cipher = aes_gcm::Aes256Gcm::new(aes_gcm::Key::<aes_gcm::Aes256Gcm>::from_slice(key));
    cipher.encrypt(aes_gcm::Nonce::from_slice(nonce), plaintext)
}

/// `Aes256Gcm::new` and `Aead::decrypt`. Key and nonce lengths are required as
/// for encryption. The crate checks the tag before it releases anything.
/// Claimed: the result is what opening the ciphertext gives, an error standing
/// for nothing; a plaintext is 16 bytes shorter than its ciphertext.
#[verifier::external_body]
pub(crate) fn aes256gcm_decrypt(key: &[u8], nonce: &[u8], ciphertext: &[u8]) -> (r: Result<
    Vec<u8>,
    aes_gcm::Error,
>)
    requires
        key@.len() == 32,
        nonce@.len() == 12,
    ensures
        r matches Ok(opened) ==> {
            &&& aes256gcm_open(key@, nonce@, ciphertext@) == Some(opened@)
            &&& opened@.len() + 16 == ciphertext@.len()
        },
        r is Err ==> aes256gcm_open(key@, nonce@, ciphertext@) is None,
{
    let cipher = aes_gcm::Aes256Gcm::new(aes_gcm::Key::<aes_gcm::Aes256Gcm>::from_slice(key));
    cipher.decrypt(aes_gcm::Nonce::from_slice(nonce), ciphertext)
}

/// A ciphertext with the nonce it was made under. Both are needed to decrypt;
/// neither is secret.
pub struct Encrypted {
    /// The encrypted payload followed by the 16-byte tag.
    pub ciphertext: Vec<u8>,
    /// The 12-byte nonce drawn for this encryption.
    pub nonce: Vec<u8>,
}

/// The plaintext lengths that can be encrypted: within the cipher's limit, and
/// short enough for plaintext and tag to be held in one allocation.
pub open spec fn plaintext_fits(len: nat) -> bool {
    len <= MAX_PLAINTEXT_LEN && len + TAG_SIZE <= isize::MAX
}

/// What encrypting `plaintext` under `key` and `nonce` gives.
pub open spec fn seal_result(plaintext: Seq<u8>, key: Seq<u8>, nonce: Seq<u8>) -> Result<
    Seq<u8>,
    ErrorKind,
> {
    if key.len() != KEY_SIZE || nonce.len() != NONCE_SIZE {
        Err(ErrorKind::InvalidLength)
    } else if !plaintext_fits(plaintext.len()) {
        Err(ErrorKind::EncryptionFailed)
    } else {
        Ok(aes256gcm_seal(key, nonce, plaintext))
    }
}

/// What `decrypt` returns.
pub open spec fn decrypt_result(ciphertext: Seq<u8>, key: Seq<u8>, nonce: Seq<u8>) -> Result<
    Seq<u8>,
    ErrorKind,
> {
    if key.len() != KEY_SIZE || nonce.len() != NONCE_SIZE || ciphertext.len() < TAG_SIZE {
        Err(ErrorKind::InvalidLength)
    } else {
        match aes256gcm_open(key, nonce, ciphertext) {
            Some(plaintext) => Ok(plaintext),
            None => Err(ErrorKind::DecryptionFailed),
        }
    }
}

/// Maps the cipher's outcome on encryption to the library's own.
pub fn sealed_from_cipher(outcome: Result<Vec<u8>, aes_gcm::Error>) -> (r: Result<
    Vec<u8>,
    ErrorKind,
>)
    ensures
        outcome matches Ok(sealed) ==> r == Ok::<Vec<u8>, ErrorKind>(sealed),
        outcome is Err ==> r == Err::<Vec<u8>, ErrorKind>(ErrorKind::EncryptionFailed),
{
    match outcome {
        Ok(sealed) => Ok(sealed),
        Err(_) => Err(ErrorKind::EncryptionFailed),
    }
}

/// Maps the cipher's outcome on decryption to the library's own. Every refusal
/// becomes `DecryptionFailed`: the cause is not told apart.
pub fn opened_from_cipher(outcome: Result<Vec<u8>, aes_gcm::Error>) -> (r: Result<
    Vec<u8>,
    ErrorKind,
>)
    ensures
        outcome matches Ok(opened) ==> r == Ok::<Vec<u8>, ErrorKind>(opened),
        outcome is Err ==> r == Err::<Vec<u8>, ErrorKind>(ErrorKind::DecryptionFailed),
{
    match outcome {
        Ok(opened) => Ok(opened),
        Err(_) => Err(ErrorKind::DecryptionFailed),
    }
}

/// Encrypts `plaintext` under a 32-byte key and a 12-byte nonce that the caller
/// supplies. The result is the payload followed by the tag, 16 bytes longer
/// than the plaintext, and `decrypt` with the same key and nonce gives the
/// plaintext back.
///
/// A nonce must never serve twice under one key. `encrypt` draws a fresh one by
/// itself; this function is for a caller that manages nonces.
pub fn encrypt_with_nonce(plaintext: &[u8], key: &[u8], nonce: &[u8]) -> (r: Result<
    Vec<u8>,
    ErrorKind,
>)
    ensures
        bytes_outcome(r) == seal_result(plaintext@, key@, nonce@),
        r matches Ok(sealed) ==> {
            &&& sealed@.len() == plaintext@.len() + TAG_SIZE
            &&& decrypt_result(sealed@, key@, nonce@) == Ok::<Seq<u8>, ErrorKind>(plaintext@)
        },
{
    if key.len() != KEY_SIZE || nonce.len() != NONCE_SIZE {
        return Err(ErrorKind::InvalidLength);
    }
    if plaintext.len() > isize::MAX as usize - TAG_SIZE {
        return Err(ErrorKind::EncryptionFailed);
    }
    sealed_from_cipher(aes256gcm_encrypt(key, nonce, plaintext))
}

/// Encrypts `plaintext` under a 32-byte key with a freshly drawn nonce, and
/// returns the ciphertext together with that nonce.
///
/// The only failures are a key of another length (`InvalidLength`) and a
/// plaintext too long to encrypt (`EncryptionFailed`). Whatever nonce
/// was drawn, `decrypt` of the result under the same key gives the plaintext
/// back.
pub fn encrypt(plaintext: &[u8], key: &[u8]) -> (r: Result<Encrypted, ErrorKind>)
    ensures
        r is Err <==> key@.len() != KEY_SIZE || !plaintext_fits(plaintext@.len()),
        r matches Err(e) ==> e == if key@.len() != KEY_SIZE {
            ErrorKind::InvalidLength
        } else {
            ErrorKind::EncryptionFailed
        },
        r matches Ok(out) ==> {
            &&& out.nonce@.len() == NONCE_SIZE
            &&& seal_result(plaintext@, key@, out.nonce@) == Ok::<Seq<u8>, ErrorKind>(
                out.ciphertext@,
            )
            &&& out.ciphertext@.len() == plaintext@.len() + TAG_SIZE
            &&& decrypt_result(out.ciphertext@, key@, out.nonce@) == Ok::<Seq<u8>, ErrorKind>(
                plaintext@,
            )
        },
{
    if key.len() != KEY_SIZE {
        return Err(ErrorKind::InvalidLength);
    }
    let nonce = generate_nonce();
    match encrypt_with_nonce(plaintext, key, nonce.as_slice()) {
        Ok(ciphertext) => Ok(Encrypted { ciphertext, nonce }),
        Err(e) => Err(e),
    }
}

/// Decrypts a ciphertext under a 32-byte key and the 12-byte nonce it was made
/// with.
///
/// A key or nonce of another length, or a ciphertext shorter than the tag, is
/// rejected with `InvalidLength` before the cipher is invoked. The tag is
/// checked before any plaintext is released: on a mismatch, whether from
/// tampering, a wrong key or a wrong nonce, the result is `DecryptionFailed`
/// and nothing else.
pub fn decrypt(ciphertext: &[u8], key: &[u8], nonce: &[u8]) -> (r: Result<Vec<u8>, ErrorKind>)
    ensures
        bytes_outcome(r) == decrypt_result(ciphertext@, key@, nonce@),
        r matches Ok(plaintext) ==> plaintext@.len() + TAG_SIZE == ciphertext@.len(),
{
    if key.len() != KEY_SIZE || nonce.len() != NONCE_SIZE || ciphertext.len() < TAG_SIZE {
        return Err(ErrorKind::InvalidLength);
    }
    opened_from_cipher(aes256gcm_decrypt(key, nonce, ciphertext))
}

/// Once the lengths are right, decryption fails in one way only: tampering, a
/// wrong key and a wrong nonce all give `DecryptionFailed`.
pub proof fn decrypt_fails_in_one_way(ciphertext: Seq<u8>, key: Seq<u8>, nonce: Seq<u8>)
    requires
        key.len() == KEY_SIZE,
        nonce.len() == NONCE_SIZE,
        ciphertext.len() >= TAG_SIZE,
    ensures
        decrypt_result(ciphertext, key, nonce) is Err ==> decrypt_result(ciphertext, key, nonce)
            == Err::<Seq<u8>, ErrorKind>(ErrorKind::DecryptionFailed),
{
}

/// Decryption either fails or returns exactly what the cipher authenticated:
/// it never hands out anything else.
pub proof fn decrypt_releases_only_authenticated(ciphertext: Seq<u8>, key: Seq<u8>, nonce: Seq<u8>)
    ensures
        decrypt_result(ciphertext, key, nonce) matches Ok(plaintext) ==> aes256gcm_open(
            key,
            nonce,
            ciphertext,
        ) == Some(plaintext),
{
}

} // verus!
