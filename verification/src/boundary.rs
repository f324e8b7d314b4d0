//! The operations as they are offered across a foreign-function boundary.
//!
//! Every buffer is an optional view: `None` stands for an absent pointer, and
//! the length of a view is the length the caller declared. Each operation
//! checks presence first, then lengths, before any work; it reports a signed
//! status; and on any failure it leaves every output as it found it.

use vstd::prelude::*;
use vstd::string::StringExecFns;
use crate::error::{
    status_of, spec_status_of, ErrorKind, ERROR_DECRYPTION_FAILED, ERROR_ENCRYPTION_FAILED,
    ERROR_INVALID_LENGTH, ERROR_NULL_POINTER, SUCCESS,
};
use crate::cipher::{decrypt, decrypt_result, encrypt, plaintext_fits, seal_result};
use crate::compare::constant_time_compare;
use crate::password::{generate_password, length_allowed, meets_policy};
use crate::kdf::{derive_key, derive_key_result, derived_key, hash_for_storage, sha256};
use crate::params::{
    HASH_SIZE, KEY_SIZE, MAX_PASSWORD_LENGTH, MIN_PASSWORD_LENGTH, NONCE_SIZE, SALT_SIZE, TAG_SIZE,
};
use crate::random::{fill_outcome, fill_random};
use crate::secret::wipe;
use crate::text::{greeting, greeting_result};

verus! {

/// The bytes behind an optional view.
pub open spec fn bytes_of(view: Option<&[u8]>) -> Option<Seq<u8>> {
    match view {
        Some(bytes) => Some(bytes@),
        None => None,
    }
}

/// The length behind an optional writable view.
pub open spec fn capacity_of(view: Option<&mut [u8]>) -> Option<nat> {
    match view {
        Some(bytes) => Some(bytes@.len()),
        None => None,
    }
}

/// Copies `source` to the front of `dest`; what lies behind it stays.
pub fn copy_to_front(dest: &mut [u8], source: &[u8])
    requires
        source@.len() <= old(dest)@.len(),
    ensures
        final(dest)@.len() == old(dest)@.len(),
        final(dest)@.subrange(0, source@.len() as int) == source@,
        final(dest)@.subrange(source@.len() as int, old(dest)@.len() as int) == old(dest)@.subrange(
            source@.len() as int,
            old(dest)@.len() as int,
        ),
{
    let n: usize = source.len();
    let mut i: usize = 0;
    while i < n
        invariant
            n == source@.len(),
            i <= n <= dest@.len(),
            dest@.len() == old(dest)@.len(),
            forall|k: int| 0 <= k < i ==> dest@[k] == source@[k],
            forall|k: int| i <= k < dest@.len() ==> dest@[k] == old(dest)@[k],
        decreases n - i,
    {
        dest[i] = source[i];
        i = i + 1;
    }
    assert(dest@.subrange(0, n as int) =~= source@);
    assert(dest@.subrange(n as int, dest@.len() as int) =~= old(dest)@.subrange(
        n as int,
        dest@.len() as int,
    ));
}

/// The status of filling a buffer that must hold exactly `expected_len` bytes:
/// presence first, then the length.
pub open spec fn fill_status(capacity: Option<nat>, expected_len: nat) -> i32 {
    match capacity {
        Some(len) => spec_status_of(fill_outcome(true, len, expected_len)),
        None => ERROR_NULL_POINTER,
    }
}

/// Fills the caller's 16-byte buffer with a fresh random salt.
pub fn rust_generate_salt(salt_out: Option<&mut [u8]>) -> (status: i32)
    ensures
        status == fill_status(capacity_of(salt_out), SALT_SIZE as nat),
        salt_out matches Some(out) ==> {
            &&& final(out)@.len() == out@.len()
            &&& status != SUCCESS ==> final(out)@ == out@
        },
{
    status_of(&fill_random(salt_out, SALT_SIZE))
}

/// Fills the caller's 12-byte buffer with a fresh random nonce.
pub fn rust_generate_nonce(nonce_out: Option<&mut [u8]>) -> (status: i32)
    ensures
        status == fill_status(capacity_of(nonce_out), NONCE_SIZE as nat),
        nonce_out matches Some(out) ==> {
            &&& final(out)@.len() == out@.len()
            &&& status != SUCCESS ==> final(out)@ == out@
        },
{
    status_of(&fill_random(nonce_out, NONCE_SIZE))
}

/// The status of `rust_derive_key`: presence first, then the fixed lengths,
/// then the derivation itself.
pub open spec fn derive_key_status(
    password: Option<Seq<u8>>,
    salt: Option<Seq<u8>>,
    key_capacity: Option<nat>,
) -> i32 {
    match (password, salt, key_capacity) {
        (Some(p), Some(s), Some(capacity)) => if s.len() != SALT_SIZE || capacity != KEY_SIZE {
            ERROR_INVALID_LENGTH
        } else {
            spec_status_of(derive_key_result(p, s))
        },
        _ => ERROR_NULL_POINTER,
    }
}

/// Derives the key of a password and a 16-byte salt into the caller's 32-byte
/// buffer. The password is the text without a terminator. The key passes
/// through one transient copy, which is erased before it is released.
pub fn rust_derive_key(
    password: Option<&[u8]>,
    salt: Option<&[u8]>,
    key_out: Option<&mut [u8]>,
) -> (status: i32)
    ensures
        status == derive_key_status(bytes_of(password), bytes_of(salt), capacity_of(key_out)),
        key_out matches Some(out) ==> {
            &&& final(out)@.len() == out@.len()
            &&& status != SUCCESS ==> final(out)@ == out@
        },
        status == SUCCESS ==> (password matches Some(p) && salt matches Some(s)
            && key_out matches Some(out) && final(out)@ == derived_key(p@, s@)),
{
    let (password, salt, out) = match (password, salt, key_out) {
        (Some(p), Some(s), Some(o)) => (p, s, o),
        _ => { return ERROR_NULL_POINTER; },
    };
    if salt.len() != SALT_SIZE || out.len() != KEY_SIZE {
        return ERROR_INVALID_LENGTH;
    }
    match derive_key(password, salt) {
        Ok(mut key) => {
            copy_to_front(out, key.as_slice());
            wipe(&mut key);
            assert(out@ =~= out@.subrange(0, KEY_SIZE as int));
            SUCCESS
        },
        Err(e) => e.code(),
    }
}

/// The status of `rust_hash_key_for_storage`.
pub open spec fn hash_key_status(key: Option<Seq<u8>>, hash_capacity: Option<nat>) -> i32 {
    match (key, hash_capacity) {
        (Some(k), Some(capacity)) => if k.len() != KEY_SIZE || capacity != HASH_SIZE {
            ERROR_INVALID_LENGTH
        } else {
            SUCCESS
        },
        _ => ERROR_NULL_POINTER,
    }
}

/// Writes the storage hash of a 32-byte key into the caller's 32-byte buffer.
pub fn rust_hash_key_for_storage(key: Option<&[u8]>, hash_out: Option<&mut [u8]>) -> (status: i32)
    ensures
        status == hash_key_status(bytes_of(key), capacity_of(hash_out)),
        hash_out matches Some(out) ==> {
            &&& final(out)@.len() == out@.len()
            &&& status != SUCCESS ==> final(out)@ == out@
        },
        status == SUCCESS ==> (key matches Some(k) && hash_out matches Some(out) && final(out)@
            == sha256(k@)),
{
    let (key, out) = match (key, hash_out) {
        (Some(k), Some(o)) => (k, o),
        _ => { return ERROR_NULL_POINTER; },
    };
    if key.len() != KEY_SIZE || out.len() != HASH_SIZE {
        return ERROR_INVALID_LENGTH;
    }
    match hash_for_storage(key) {
        Ok(hash) => {
            copy_to_front(out, hash.as_slice());
            assert(out@ =~= out@.subrange(0, HASH_SIZE as int));
            SUCCESS
        },
        Err(e) => e.code(),
    }
}

/// The status of `rust_encrypt`: presence first, then the fixed lengths of key
/// and nonce buffer, then the room for the ciphertext and the cipher's own
/// limit on the plaintext.
pub open spec fn encrypt_status(
    plaintext: Option<Seq<u8>>,
    key: Option<Seq<u8>>,
    ciphertext_capacity: Option<nat>,
    length_present: bool,
    nonce_capacity: Option<nat>,
) -> i32 {
    match (plaintext, key, ciphertext_capacity, nonce_capacity) {
        (Some(p), Some(k), Some(capacity), Some(nonce_len)) => if !length_present {
            ERROR_NULL_POINTER
        } else if k.len() != KEY_SIZE || nonce_len != NONCE_SIZE {
            ERROR_INVALID_LENGTH
        } else if capacity < p.len() + TAG_SIZE || !plaintext_fits(p.len()) {
            ERROR_ENCRYPTION_FAILED
        } else {
            SUCCESS
        },
        _ => ERROR_NULL_POINTER,
    }
}

/// Encrypts `plaintext` under a 32-byte key with a fresh nonce.
///
/// The length of `ciphertext_out` is the room the caller offers; it must hold
/// the plaintext and the 16-byte tag. On success the ciphertext stands at the
/// front of `ciphertext_out`, its length in `ciphertext_len`, and the nonce in
/// the 12-byte `nonce_out`; decrypting that ciphertext with the same key and
/// that nonce gives the plaintext back.
pub fn rust_encrypt(
    plaintext: Option<&[u8]>,
    key: Option<&[u8]>,
    ciphertext_out: Option<&mut [u8]>,
    ciphertext_len: Option<&mut usize>,
    nonce_out: Option<&mut [u8]>,
) -> (status: i32)
    ensures
        status == encrypt_status(
            bytes_of(plaintext),
            bytes_of(key),
            capacity_of(ciphertext_out),
            ciphertext_len is Some,
            capacity_of(nonce_out),
        ),
        ciphertext_out matches Some(out) ==> {
            &&& final(out)@.len() == out@.len()
            &&& status != SUCCESS ==> final(out)@ == out@
        },
        ciphertext_len matches Some(len) ==> (status != SUCCESS ==> *final(len) == *len),
        nonce_out matches Some(nonce) ==> {
            &&& final(nonce)@.len() == nonce@.len()
            &&& status != SUCCESS ==> final(nonce)@ == nonce@
        },
        status == SUCCESS ==> (plaintext matches Some(p) && key matches Some(k)
            && ciphertext_out matches Some(out) && ciphertext_len matches Some(len)
            && nonce_out matches Some(nonce) && {
            let sealed = final(out)@.subrange(0, *final(len) as int);
            &&& *final(len) == p@.len() + TAG_SIZE
            &&& seal_result(p@, k@, final(nonce)@) == Ok::<Seq<u8>, ErrorKind>(sealed)
            &&& decrypt_result(sealed, k@, final(nonce)@) == Ok::<Seq<u8>, ErrorKind>(p@)
            &&& final(out)@.subrange(*final(len) as int, out@.len() as int) == out@.subrange(
                *final(len) as int,
                out@.len() as int,
            )
        }),
{
    let (plaintext, key, out, len, nonce) = match (
        plaintext,
        key,
        ciphertext_out,
        ciphertext_len,
        nonce_out,
    ) {
        (Some(p), Some(k), Some(o), Some(l), Some(n)) => (p, k, o, l, n),
        _ => { return ERROR_NULL_POINTER; },
    };
    if key.len() != KEY_SIZE || nonce.len() != NONCE_SIZE {
        return ERROR_INVALID_LENGTH;
    }
    if out.len() < TAG_SIZE || out.len() - TAG_SIZE < plaintext.len() {
        return ERROR_ENCRYPTION_FAILED;
    }
    match encrypt(plaintext, key) {
        Ok(sealed) => {
            copy_to_front(out, sealed.ciphertext.as_slice());
            copy_to_front(nonce, sealed.nonce.as_slice());
            *len = sealed.ciphertext.len();
            assert(nonce@ =~= nonce@.subrange(0, NONCE_SIZE as int));
            SUCCESS
        },
        Err(e) => e.code(),
    }
}

/// The status of `rust_decrypt`: presence first, then the lengths, among them
/// the room for the plaintext, then the authentication of the ciphertext.
pub open spec fn decrypt_status(
    ciphertext: Option<Seq<u8>>,
    key: Option<Seq<u8>>,
    nonce: Option<Seq<u8>>,
    plaintext_capacity: Option<nat>,
    length_present: bool,
) -> i32 {
    match (ciphertext, key, nonce, plaintext_capacity) {
        (Some(c), Some(k), Some(n), Some(capacity)) => if !length_present {
            ERROR_NULL_POINTER
        } else if k.len() != KEY_SIZE || n.len() != NONCE_SIZE || c.len() < TAG_SIZE || capacity
            + TAG_SIZE < c.len() {
            ERROR_INVALID_LENGTH
        } else {
            spec_status_of(decrypt_result(c, k, n))
        },
        _ => ERROR_NULL_POINTER,
    }
}

/// Decrypts a ciphertext under a 32-byte key and its 12-byte nonce.
///
/// The length of `plaintext_out` is the room the caller offers; it must hold
/// the ciphertext's length less the 16-byte tag. Nothing is written unless the
/// tag matches: on success the plaintext stands at the front of
/// `plaintext_out` and its length in `plaintext_len`. The plaintext passes
/// through one transient copy, which is erased before it is released.
pub fn rust_decrypt(
    ciphertext: Option<&[u8]>,
    key: Option<&[u8]>,
    nonce: Option<&[u8]>,
    plaintext_out: Option<&mut [u8]>,
    plaintext_len: Option<&mut usize>,
) -> (status: i32)
    ensures
        status == decrypt_status(
            bytes_of(ciphertext),
            bytes_of(key),
            bytes_of(nonce),
            capacity_of(plaintext_out),
            plaintext_len is Some,
        ),
        plaintext_out matches Some(out) ==> {
            &&& final(out)@.len() == out@.len()
            &&& status != SUCCESS ==> final(out)@ == out@
        },
        plaintext_len matches Some(len) ==> (status != SUCCESS ==> *final(len) == *len),
        status == SUCCESS ==> (ciphertext matches Some(c) && key matches Some(k)
            && nonce matches Some(n) && plaintext_out matches Some(out)
            && plaintext_len matches Some(len) && {
            &&& *final(len) + TAG_SIZE == c@.len()
            &&& decrypt_result(c@, k@, n@) == Ok::<Seq<u8>, ErrorKind>(
                final(out)@.subrange(0, *final(len) as int),
            )
            &&& final(out)@.subrange(*final(len) as int, out@.len() as int) == out@.subrange(
                *final(len) as int,
                out@.len() as int,
            )
        }),
{
    let (ciphertext, key, nonce, out, len) = match (
        ciphertext,
        key,
        nonce,
        plaintext_out,
        plaintext_len,
    ) {
        (Some(c), Some(k), Some(n), Some(o), Some(l)) => (c, k, n, o, l),
        _ => { return ERROR_NULL_POINTER; },
    };
    if key.len() != KEY_SIZE || nonce.len() != NONCE_SIZE || ciphertext.len() < TAG_SIZE
        || out.len() < ciphertext.len() - TAG_SIZE {
        return ERROR_INVALID_LENGTH;
    }
    match decrypt(ciphertext, key, nonce) {
        Ok(mut plaintext) => {
            copy_to_front(out, plaintext.as_slice());
            *len = plaintext.len();
            wipe(&mut plaintext);
            SUCCESS
        },
        Err(e) => e.code(),
    }
}

/// The status of `rust_generate_password`: presence first, then the length of
/// the password, then the room for it and its terminator.
pub open spec fn password_status(capacity: Option<nat>, length: nat) -> i32 {
    match capacity {
        Some(room) => if !length_allowed(length) || room < length + 1 {
            ERROR_INVALID_LENGTH
        } else {
            SUCCESS
        },
        None => ERROR_NULL_POINTER,
    }
}

/// Generates a password of `length` characters into the caller's buffer and
/// ends it with a zero byte.
///
/// The length lies in 8 ..= 128 and the buffer holds at least one byte more.
/// Lowercase letters are always part of the character set; each flag adds its
/// class, and the password holds at least one character of every class in the
/// set. The password passes through one transient copy, which is erased before
/// it is released.
pub fn rust_generate_password(
    length: usize,
    include_uppercase: bool,
    include_numbers: bool,
    include_special: bool,
    password_out: Option<&mut [u8]>,
) -> (status: i32)
    ensures
        status == password_status(capacity_of(password_out), length as nat),
        password_out matches Some(out) ==> {
            &&& final(out)@.len() == out@.len()
            &&& status != SUCCESS ==> final(out)@ == out@
            &&& status == SUCCESS ==> {
                &&& meets_policy(
                    final(out)@.subrange(0, length as int),
                    length as nat,
                    include_uppercase,
                    include_numbers,
                    include_special,
                )
                &&& final(out)@[length as int] == 0u8
                &&& final(out)@.subrange(length + 1, out@.len() as int) == out@.subrange(
                    length + 1,
                    out@.len() as int,
                )
            }
        },
{
    let out = match password_out {
        Some(o) => o,
        None => { return ERROR_NULL_POINTER; },
    };
    if length < MIN_PASSWORD_LENGTH || length > MAX_PASSWORD_LENGTH || out.len() <= length {
        return ERROR_INVALID_LENGTH;
    }
    match generate_password(length, include_uppercase, include_numbers, include_special) {
        Ok(mut text) => {
            let ghost before = out@;
            copy_to_front(out, text.as_slice());
            let ghost copied = out@;
            out[length] = 0u8;
            wipe(&mut text);
            proof {
                assert(out@.subrange(0, length as int) =~= copied.subrange(0, length as int));
                assert(out@.subrange(length + 1, out@.len() as int) =~= before.subrange(
                    length + 1,
                    out@.len() as int,
                )) by {
                    assert forall|k: int| length + 1 <= k < out@.len() implies out@[k]
                        == before[k] by {
                        assert(copied.subrange(length as int, out@.len() as int)[k - length]
                            == before.subrange(length as int, out@.len() as int)[k - length]);
                    }
                }
            }
            SUCCESS
        },
        Err(e) => e.code(),
    }
}

/// Status of `rust_constant_time_compare` for inputs that differ.
pub const NOT_EQUAL: i32 = -1;

/// The status of `rust_constant_time_compare`: `SUCCESS` for equal inputs,
/// `NOT_EQUAL` for inputs of one length that differ.
pub open spec fn compare_status(a: Option<Seq<u8>>, b: Option<Seq<u8>>) -> i32 {
    match (a, b) {
        (Some(x), Some(y)) => if x.len() != y.len() {
            ERROR_INVALID_LENGTH
        } else if x == y {
            SUCCESS
        } else {
            NOT_EQUAL
        },
        _ => ERROR_NULL_POINTER,
    }
}

/// Compares two byte strings of one length in constant time.
pub fn rust_constant_time_compare(a: Option<&[u8]>, b: Option<&[u8]>) -> (status: i32)
    ensures
        status == compare_status(bytes_of(a), bytes_of(b)),
{
    let (a, b) = match (a, b) {
        (Some(x), Some(y)) => (x, y),
        _ => { return ERROR_NULL_POINTER; },
    };
    match constant_time_compare(a, b) {
        Ok(true) => SUCCESS,
        Ok(false) => NOT_EQUAL,
        Err(e) => e.code(),
    }
}

/// Status of `rust_greet` for a name that is absent or not valid text.
pub const GREETING_FAILED: i32 = -1;

/// Puts the line that greets the host into `line_out`.
pub fn rust_hello(line_out: &mut String) -> (status: i32)
    ensures
        status == SUCCESS,
        final(line_out)@ == "Hello from Rust!"@,
{
    *line_out = String::from_str("Hello from Rust!");
    SUCCESS
}

/// Puts the line that greets `name` into `line_out`. An absent name and a name
/// that is not valid UTF-8 both give `GREETING_FAILED` and leave the line as it
/// was.
pub fn rust_greet(name: Option<&[u8]>, line_out: &mut String) -> (status: i32)
    ensures
        match greeting_result(bytes_of(name)) {
            Ok(line) => status == SUCCESS && final(line_out)@ == line,
            Err(_) => status == GREETING_FAILED && *final(line_out) == *old(line_out),
        },
{
    match greeting(name) {
        Ok(line) => {
            *line_out = line;
            SUCCESS
        },
        Err(_) => GREETING_FAILED,
    }
}

/// Filling a salt or nonce buffer: an absent buffer is a null pointer, a
/// buffer of any other length than the expected one an invalid length.
pub proof fn fill_validates_first(capacity: Option<nat>, expected_len: nat)
    ensures
        capacity is None ==> fill_status(capacity, expected_len) == ERROR_NULL_POINTER,
        capacity matches Some(len) && len != expected_len ==> fill_status(capacity, expected_len)
            == ERROR_INVALID_LENGTH,
        capacity == Some(expected_len) ==> fill_status(capacity, expected_len) == SUCCESS,
{
}

/// Generating a password: an absent buffer is a null pointer whatever the
/// length asked for; a length outside 8 ..= 128, or a buffer without room for
/// the password and its terminator, is an invalid length.
pub proof fn password_validates_first(capacity: Option<nat>, length: nat)
    ensures
        capacity is None ==> password_status(capacity, length) == ERROR_NULL_POINTER,
        capacity matches Some(room) && (length < MIN_PASSWORD_LENGTH || length
            > MAX_PASSWORD_LENGTH || room <= length) ==> password_status(capacity, length)
            == ERROR_INVALID_LENGTH,
{
}

/// Deriving a key: one absent buffer is a null pointer whatever the others
/// hold; with all present, a salt that is not 16 bytes or a key buffer that is
/// not 32 bytes is an invalid length, whatever the password holds.
pub proof fn derive_key_validates_first(
    password: Option<Seq<u8>>,
    salt: Option<Seq<u8>>,
    key_capacity: Option<nat>,
)
    ensures
        password is None || salt is None || key_capacity is None ==> derive_key_status(
            password,
            salt,
            key_capacity,
        ) == ERROR_NULL_POINTER,
        salt matches Some(s) && key_capacity matches Some(room) && password is Some && (s.len()
            != SALT_SIZE || room != KEY_SIZE) ==> derive_key_status(password, salt, key_capacity)
            == ERROR_INVALID_LENGTH,
{
}

/// Hashing a key: one absent buffer is a null pointer; with both present, a key
/// or a hash buffer that is not 32 bytes is an invalid length, and nothing else
/// can fail.
pub proof fn hash_key_validates_first(key: Option<Seq<u8>>, hash_capacity: Option<nat>)
    ensures
        key is None || hash_capacity is None ==> hash_key_status(key, hash_capacity)
            == ERROR_NULL_POINTER,
        key matches Some(k) && hash_capacity matches Some(room) && (k.len() != KEY_SIZE || room
            != HASH_SIZE) ==> hash_key_status(key, hash_capacity) == ERROR_INVALID_LENGTH,
        key matches Some(k) && hash_capacity == Some(HASH_SIZE as nat) && k.len() == KEY_SIZE
            ==> hash_key_status(key, hash_capacity) == SUCCESS,
{
}

/// Encrypting: one absent buffer or size field is a null pointer whatever the
/// others hold; with all present, a key that is not 32 bytes or a nonce buffer
/// that is not 12 bytes is an invalid length, whatever room the ciphertext
/// buffer has.
pub proof fn encrypt_validates_first(
    plaintext: Option<Seq<u8>>,
    key: Option<Seq<u8>>,
    ciphertext_capacity: Option<nat>,
    length_present: bool,
    nonce_capacity: Option<nat>,
)
    ensures
        plaintext is None || key is None || ciphertext_capacity is None || !length_present
            || nonce_capacity is None ==> encrypt_status(
            plaintext,
            key,
            ciphertext_capacity,
            length_present,
            nonce_capacity,
        ) == ERROR_NULL_POINTER,
        key matches Some(k) && nonce_capacity matches Some(room) && plaintext is Some
            && ciphertext_capacity is Some && length_present && (k.len() != KEY_SIZE || room
            != NONCE_SIZE) ==> encrypt_status(
            plaintext,
            key,
            ciphertext_capacity,
            length_present,
            nonce_capacity,
        ) == ERROR_INVALID_LENGTH,
{
}

/// Decrypting: one absent buffer or size field is a null pointer whatever the
/// others hold; with all present, a key that is not 32 bytes, a nonce that is
/// not 12 bytes, a ciphertext shorter than its tag, or a plaintext buffer too
/// small for the ciphertext is an invalid length, before the cipher is asked.
pub proof fn decrypt_validates_first(
    ciphertext: Option<Seq<u8>>,
    key: Option<Seq<u8>>,
    nonce: Option<Seq<u8>>,
    plaintext_capacity: Option<nat>,
    length_present: bool,
)
    ensures
        ciphertext is None || key is None || nonce is None || plaintext_capacity is None
            || !length_present ==> decrypt_status(
            ciphertext,
            key,
            nonce,
            plaintext_capacity,
            length_present,
        ) == ERROR_NULL_POINTER,
        ciphertext matches Some(c) && key matches Some(k) && nonce matches Some(n)
            && plaintext_capacity matches Some(room) && length_present && (k.len() != KEY_SIZE
            || n.len() != NONCE_SIZE || c.len() < TAG_SIZE || room + TAG_SIZE < c.len())
            ==> decrypt_status(
            ciphertext,
            key,
            nonce,
            plaintext_capacity,
            length_present,
        ) == ERROR_INVALID_LENGTH,
{
}

/// Comparing: one absent input is a null pointer; inputs of different lengths
/// are an invalid length; an input compared with itself is equal; inputs of
/// one length that differ anywhere are not.
pub proof fn compare_status_is_exact(a: Option<Seq<u8>>, b: Option<Seq<u8>>)
    ensures
        a is None || b is None ==> compare_status(a, b) == ERROR_NULL_POINTER,
        a matches Some(x) && b matches Some(y) && x.len() != y.len() ==> compare_status(a, b)
            == ERROR_INVALID_LENGTH,
        a is Some ==> compare_status(a, a) == SUCCESS,
        a matches Some(x) && b matches Some(y) && x.len() == y.len() && (exists|i: int|
            0 <= i < x.len() && x[i] != y[i]) ==> compare_status(a, b) == NOT_EQUAL,
{
}

/// A ciphertext that does not authenticate has one status, whether it was
/// tampered with or opened with a wrong key or a wrong nonce.
pub proof fn failed_authentication_has_one_status(
    ciphertext: Seq<u8>,
    key: Seq<u8>,
    nonce: Seq<u8>,
    room: nat,
)
    requires
        key.len() == KEY_SIZE,
        nonce.len() == NONCE_SIZE,
        ciphertext.len() >= TAG_SIZE,
        room + TAG_SIZE >= ciphertext.len(),
    ensures
        decrypt_status(Some(ciphertext), Some(key), Some(nonce), Some(room), true) == SUCCESS
            || decrypt_status(Some(ciphertext), Some(key), Some(nonce), Some(room), true)
            == ERROR_DECRYPTION_FAILED,
        decrypt_status(Some(ciphertext), Some(key), Some(nonce), Some(room), true) == SUCCESS
            <==> decrypt_result(ciphertext, key, nonce) is Ok,
{
}

} // verus!
