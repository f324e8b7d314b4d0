//! Fixed sizes and cost parameters.

use vstd::prelude::*;

verus! {

/// Bytes in a derived key: 256 bits, the key size of the cipher.
pub const KEY_SIZE: usize = 32;

/// Bytes in a salt.
pub const SALT_SIZE: usize = 16;

/// Bytes in a nonce: 96 bits.
pub const NONCE_SIZE: usize = 12;

/// Bytes in the authentication tag that ends every ciphertext.
pub const TAG_SIZE: usize = 16;

/// Bytes in a storage hash.
pub const HASH_SIZE: usize = 32;

/// Passes of the key derivation over its memory.
pub const ARGON2_TIME_COST: u32 = 3;

/// Memory of the key derivation in KiB: 64 MiB.
pub const ARGON2_MEMORY_COST: u32 = 65536;

/// Lanes of the key derivation.
pub const ARGON2_PARALLELISM: u32 = 1;

/// Shortest password that is generated.
pub const MIN_PASSWORD_LENGTH: usize = 8;

/// Longest password that is generated.
pub const MAX_PASSWORD_LENGTH: usize = 128;

} // verus!
