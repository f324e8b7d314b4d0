//! Cryptographic core of a password manager.
//!
//! The crate turns a master password into a key with a memory-hard function,
//! hashes that key for storage, encrypts and decrypts secrets with an
//! authenticated cipher, draws salts, nonces and passwords from a secure random
//! generator, and compares secret-derived values in constant time.
//!
//! Two layers are offered. The typed layer (`derive_key`, `encrypt`, ...) works
//! on slices and returns `Result`. The boundary layer (`rust_derive_key`,
//! `rust_encrypt`, ...) takes every buffer as an optional view, mirrors a
//! pointer-and-length calling convention, validates presence and lengths before
//! any work, and reports a signed status code.

pub mod error;
pub mod compare;
pub mod params;
pub mod random;
pub mod secret;
pub mod text;
pub mod kdf;
pub mod cipher;
pub mod password;
pub mod boundary;

pub use crate::boundary::{
    rust_constant_time_compare, rust_decrypt, rust_derive_key, rust_encrypt, rust_generate_nonce,
    rust_generate_password, rust_generate_salt, rust_greet, rust_hash_key_for_storage, rust_hello,
};
pub use crate::cipher::{decrypt, encrypt, encrypt_with_nonce, Encrypted};
pub use crate::compare::constant_time_compare;
pub use crate::error::ErrorKind;
pub use crate::kdf::{derive_key, hash_for_storage, verify_password};
pub use crate::password::generate_password;
pub use crate::random::{fill_random, generate_nonce, generate_salt};
pub use crate::secret::wipe;
