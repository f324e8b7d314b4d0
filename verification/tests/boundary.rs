use cryptify::boundary::{
    copy_to_front, rust_constant_time_compare, rust_decrypt, rust_derive_key, rust_encrypt,
    rust_generate_nonce, rust_generate_password, rust_generate_salt, rust_hash_key_for_storage,
    NOT_EQUAL,
};
use cryptify::password::build_character_set;

const KEY: [u8; 32] = [0x42; 32];

const STAPLE_KEY: [u8; 32] = [
    55, 172, 1, 48, 153, 98, 22, 242, 54, 94, 168, 242, 72, 110, 248, 125, 107, 25, 189, 196, 181,
    31, 157, 97, 134, 120, 55, 170, 201, 42, 206, 24,
];

const STAPLE_HASH: [u8; 32] = [
    125, 236, 126, 197, 34, 147, 50, 113, 88, 73, 9, 137, 199, 254, 245, 151, 234, 115, 204, 100,
    130, 191, 170, 212, 65, 200, 0, 149, 249, 162, 171, 12,
];

#[test]
fn copy_to_front_keeps_the_rest() {
    let mut dest = [9u8; 6];
    copy_to_front(&mut dest, &[1, 2, 3]);
    assert_eq!(dest, [1, 2, 3, 9, 9, 9]);
    copy_to_front(&mut dest, &[]);
    assert_eq!(dest, [1, 2, 3, 9, 9, 9]);
    copy_to_front(&mut dest, &[6, 5, 4, 3, 2, 1]);
    assert_eq!(dest, [6, 5, 4, 3, 2, 1]);
}

#[test]
fn salt_is_written_into_a_sixteen_byte_buffer() {
    let mut salt = [0u8; 16];
    assert_eq!(rust_generate_salt(Some(&mut salt)), 0);
    assert_ne!(salt, [0u8; 16]);
}

#[test]
fn salt_without_a_buffer_is_a_null_pointer() {
    assert_eq!(rust_generate_salt(None), -1);
}

#[test]
fn salt_buffer_of_another_length_is_rejected_and_untouched() {
    for length in [0usize, 1, 12, 15, 17, 32] {
        let mut buffer = vec![0xEEu8; length];
        assert_eq!(rust_generate_salt(Some(&mut buffer)), -2);
        assert_eq!(buffer, vec![0xEEu8; length]);
    }
}

#[test]
fn nonce_is_written_into_a_twelve_byte_buffer() {
    let mut nonce = [0u8; 12];
    assert_eq!(rust_generate_nonce(Some(&mut nonce)), 0);
    assert_ne!(nonce, [0u8; 12]);
}

#[test]
fn nonce_without_a_buffer_is_a_null_pointer() {
    assert_eq!(rust_generate_nonce(None), -1);
}

#[test]
fn nonce_buffer_of_another_length_is_rejected_and_untouched() {
    for length in [0usize, 11, 13, 16] {
        let mut buffer = vec![0xEEu8; length];
        assert_eq!(rust_generate_nonce(Some(&mut buffer)), -2);
        assert_eq!(buffer, vec![0xEEu8; length]);
    }
}

#[test]
fn password_is_written_with_its_terminator() {
    let set = build_character_set(true, true, true);
    let mut buffer = [0xEEu8; 24];
    assert_eq!(rust_generate_password(20, true, true, true, Some(&mut buffer)), 0);
    assert!(buffer[..20].iter().all(|c| set.contains(c)));
    assert!(buffer[..20].iter().any(|c| c.is_ascii_lowercase()));
    assert!(buffer[..20].iter().any(|c| c.is_ascii_uppercase()));
    assert!(buffer[..20].iter().any(|c| c.is_ascii_digit()));
    assert!(buffer[..20].iter().any(|c| c.is_ascii_punctuation()));
    assert_eq!(buffer[20], 0);
    assert_eq!(&buffer[21..], &[0xEEu8; 3]);
}

#[test]
fn password_without_flags_is_lowercase_only() {
    let mut buffer = [0xEEu8; 9];
    assert_eq!(rust_generate_password(8, false, false, false, Some(&mut buffer)), 0);
    assert!(buffer[..8].iter().all(|c| c.is_ascii_lowercase()));
    assert_eq!(buffer[8], 0);
}

#[test]
fn password_without_a_buffer_is_a_null_pointer() {
    assert_eq!(rust_generate_password(16, true, true, true, None), -1);
    assert_eq!(rust_generate_password(0, true, true, true, None), -1);
}

#[test]
fn password_length_outside_the_range_is_rejected() {
    let mut buffer = [0xEEu8; 256];
    assert_eq!(rust_generate_password(7, true, true, true, Some(&mut buffer)), -2);
    assert_eq!(rust_generate_password(129, true, true, true, Some(&mut buffer)), -2);
    assert_eq!(rust_generate_password(0, false, false, false, Some(&mut buffer)), -2);
    assert_eq!(buffer, [0xEEu8; 256]);
}

#[test]
fn password_buffer_without_room_for_the_terminator_is_rejected() {
    let mut buffer = [0xEEu8; 16];
    assert_eq!(rust_generate_password(16, true, true, true, Some(&mut buffer)), -2);
    assert_eq!(buffer, [0xEEu8; 16]);
    let mut exact = [0xEEu8; 17];
    assert_eq!(rust_generate_password(16, true, true, true, Some(&mut exact)), 0);
    assert_eq!(exact[16], 0);
}

#[test]
fn derive_key_writes_the_fixed_key_for_the_staple_password() {
    let mut key = [0u8; 32];
    let status = rust_derive_key(Some(b"correct horse battery staple"), Some(&[0u8; 16]), Some(&mut key));
    assert_eq!(status, 0);
    assert_eq!(key, STAPLE_KEY);
    let mut hash = [0u8; 32];
    assert_eq!(rust_hash_key_for_storage(Some(&key), Some(&mut hash)), 0);
    assert_eq!(hash, STAPLE_HASH);
}

#[test]
fn derive_key_reports_an_absent_buffer_first() {
    let mut key = [0xEEu8; 32];
    assert_eq!(rust_derive_key(None, Some(&[0u8; 16]), Some(&mut key)), -1);
    assert_eq!(rust_derive_key(Some(b"pw"), None, Some(&mut key)), -1);
    assert_eq!(rust_derive_key(Some(b"pw"), Some(&[0u8; 16]), None), -1);
    assert_eq!(rust_derive_key(None, Some(&[0u8; 3]), Some(&mut key)), -1);
    assert_eq!(rust_derive_key(None, None, None), -1);
    assert_eq!(key, [0xEEu8; 32]);
}

#[test]
fn derive_key_rejects_wrong_lengths_and_leaves_the_buffer() {
    let mut key = [0xEEu8; 32];
    assert_eq!(rust_derive_key(Some(b"pw"), Some(&[0u8; 15]), Some(&mut key)), -2);
    assert_eq!(rust_derive_key(Some(b"pw"), Some(&[0u8; 17]), Some(&mut key)), -2);
    assert_eq!(key, [0xEEu8; 32]);
    let mut short = [0xEEu8; 31];
    assert_eq!(rust_derive_key(Some(b"pw"), Some(&[0u8; 16]), Some(&mut short)), -2);
    assert_eq!(short, [0xEEu8; 31]);
    let mut long = [0xEEu8; 33];
    assert_eq!(rust_derive_key(Some(b"pw"), Some(&[0u8; 16]), Some(&mut long)), -2);
    assert_eq!(long, [0xEEu8; 33]);
}

#[test]
fn derive_key_fails_on_a_password_that_is_not_text() {
    let mut key = [0xEEu8; 32];
    assert_eq!(rust_derive_key(Some(&[0xFF, 0xFF]), Some(&[0u8; 16]), Some(&mut key)), -5);
    assert_eq!(key, [0xEEu8; 32]);
}

#[test]
fn hash_key_writes_the_sha256_of_the_key() {
    let mut hash = [0u8; 32];
    assert_eq!(rust_hash_key_for_storage(Some(&[0u8; 32]), Some(&mut hash)), 0);
    assert_eq!(
        hash,
        [
            0x66, 0x68, 0x7a, 0xad, 0xf8, 0x62, 0xbd, 0x77, 0x6c, 0x8f, 0xc1, 0x8b, 0x8e, 0x9f,
            0x8e, 0x20, 0x08, 0x97, 0x14, 0x85, 0x6e, 0xe2, 0x33, 0xb3, 0x90, 0x2a, 0x59, 0x1d,
            0x0d, 0x5f, 0x29, 0x25,
        ]
    );
}

#[test]
fn hash_key_reports_absence_and_wrong_lengths() {
    let mut hash = [0xEEu8; 32];
    assert_eq!(rust_hash_key_for_storage(None, Some(&mut hash)), -1);
    assert_eq!(rust_hash_key_for_storage(Some(&KEY), None), -1);
    assert_eq!(rust_hash_key_for_storage(Some(&KEY[..31]), Some(&mut hash)), -2);
    assert_eq!(rust_hash_key_for_storage(Some(&[0u8; 33]), Some(&mut hash)), -2);
    assert_eq!(hash, [0xEEu8; 32]);
    let mut short = [0xEEu8; 31];
    assert_eq!(rust_hash_key_for_storage(Some(&KEY), Some(&mut short)), -2);
    assert_eq!(short, [0xEEu8; 31]);
    let mut long = [0xEEu8; 64];
    assert_eq!(rust_hash_key_for_storage(Some(&KEY), Some(&mut long)), -2);
    assert_eq!(long, [0xEEu8; 64]);
}

#[test]
fn encrypt_then_decrypt_through_the_boundary() {
    let message = b"the quick brown fox";
    let mut ciphertext = [0xEEu8; 64];
    let mut ciphertext_len = 64usize;
    let mut nonce = [0u8; 12];
    let status = rust_encrypt(
        Some(message),
        Some(&KEY),
        Some(&mut ciphertext),
        Some(&mut ciphertext_len),
        Some(&mut nonce),
    );
    assert_eq!(status, 0);
    assert_eq!(ciphertext_len, message.len() + 16);
    assert_eq!(&ciphertext[ciphertext_len..], &[0xEEu8; 64 - 35][..]);
    assert_ne!(nonce, [0u8; 12]);

    let mut plaintext = [0xEEu8; 32];
    let mut plaintext_len = 32usize;
    let status = rust_decrypt(
        Some(&ciphertext[..ciphertext_len]),
        Some(&KEY),
        Some(&nonce),
        Some(&mut plaintext),
        Some(&mut plaintext_len),
    );
    assert_eq!(status, 0);
    assert_eq!(plaintext_len, message.len());
    assert_eq!(&plaintext[..plaintext_len], &message[..]);
    assert_eq!(&plaintext[plaintext_len..], &[0xEEu8; 32 - 19][..]);
}

#[test]
fn encrypt_into_a_buffer_of_exactly_the_needed_size() {
    let mut ciphertext = [0u8; 16 + 5];
    let mut ciphertext_len = 0usize;
    let mut nonce = [0u8; 12];
    let status = rust_encrypt(
        Some(b"12345"),
        Some(&KEY),
        Some(&mut ciphertext),
        Some(&mut ciphertext_len),
        Some(&mut nonce),
    );
    assert_eq!(status, 0);
    assert_eq!(ciphertext_len, 21);
}

#[test]
fn encrypt_into_too_small_a_buffer_fails_and_writes_nothing() {
    let mut ciphertext = [0xEEu8; 16 + 4];
    let mut ciphertext_len = 20usize;
    let mut nonce = [0xEEu8; 12];
    let status = rust_encrypt(
        Some(b"12345"),
        Some(&KEY),
        Some(&mut ciphertext),
        Some(&mut ciphertext_len),
        Some(&mut nonce),
    );
    assert_eq!(status, -3);
    assert_eq!(ciphertext, [0xEEu8; 20]);
    assert_eq!(ciphertext_len, 20);
    assert_eq!(nonce, [0xEEu8; 12]);

    let mut tiny = [0xEEu8; 3];
    let status = rust_encrypt(
        Some(b""),
        Some(&KEY),
        Some(&mut tiny),
        Some(&mut ciphertext_len),
        Some(&mut nonce),
    );
    assert_eq!(status, -3);
    assert_eq!(tiny, [0xEEu8; 3]);
}

#[test]
fn encrypt_reports_an_absent_buffer_first() {
    let mut ciphertext = [0xEEu8; 32];
    let mut len = 32usize;
    let mut nonce = [0xEEu8; 12];
    assert_eq!(
        rust_encrypt(None, Some(&KEY), Some(&mut ciphertext), Some(&mut len), Some(&mut nonce)),
        -1
    );
    assert_eq!(
        rust_encrypt(Some(b"m"), None, Some(&mut ciphertext), Some(&mut len), Some(&mut nonce)),
        -1
    );
    assert_eq!(rust_encrypt(Some(b"m"), Some(&KEY), None, Some(&mut len), Some(&mut nonce)), -1);
    assert_eq!(
        rust_encrypt(Some(b"m"), Some(&KEY), Some(&mut ciphertext), None, Some(&mut nonce)),
        -1
    );
    assert_eq!(
        rust_encrypt(Some(b"m"), Some(&KEY), Some(&mut ciphertext), Some(&mut len), None),
        -1
    );
    // Absence wins over a wrong length.
    assert_eq!(
        rust_encrypt(Some(b"m"), Some(&KEY[..5]), Some(&mut ciphertext), None, Some(&mut nonce)),
        -1
    );
    assert_eq!(ciphertext, [0xEEu8; 32]);
    assert_eq!(len, 32);
    assert_eq!(nonce, [0xEEu8; 12]);
}

#[test]
fn encrypt_rejects_a_wrong_key_or_nonce_length() {
    let mut ciphertext = [0xEEu8; 32];
    let mut len = 32usize;
    let mut nonce = [0xEEu8; 12];
    assert_eq!(
        rust_encrypt(
            Some(b"m"),
            Some(&KEY[..31]),
            Some(&mut ciphertext),
            Some(&mut len),
            Some(&mut nonce)
        ),
        -2
    );
    let mut short_nonce = [0xEEu8; 11];
    assert_eq!(
        rust_encrypt(
            Some(b"m"),
            Some(&KEY),
            Some(&mut ciphertext),
            Some(&mut len),
            Some(&mut short_nonce)
        ),
        -2
    );
    // A wrong key length wins over a buffer that is too small.
    let mut tiny = [0xEEu8; 1];
    assert_eq!(
        rust_encrypt(Some(b"m"), Some(&[0u8; 16]), Some(&mut tiny), Some(&mut len), Some(&mut nonce)),
        -2
    );
    assert_eq!(ciphertext, [0xEEu8; 32]);
    assert_eq!(len, 32);
    assert_eq!(nonce, [0xEEu8; 12]);
    assert_eq!(short_nonce, [0xEEu8; 11]);
}

fn sealed_fox() -> (Vec<u8>, [u8; 12]) {
    let mut ciphertext = [0u8; 64];
    let mut len = 64usize;
    let mut nonce = [0u8; 12];
    let status = rust_encrypt(
        Some(b"the quick brown fox"),
        Some(&KEY),
        Some(&mut ciphertext),
        Some(&mut len),
        Some(&mut nonce),
    );
    assert_eq!(status, 0);
    (ciphertext[..len].to_vec(), nonce)
}

#[test]
fn decrypt_of_a_tampered_ciphertext_fails_and_releases_nothing() {
    let (mut ciphertext, nonce) = sealed_fox();
    ciphertext[3] ^= 0x10;
    let mut plaintext = [0xEEu8; 32];
    let mut len = 32usize;
    let status =
        rust_decrypt(Some(&ciphertext), Some(&KEY), Some(&nonce), Some(&mut plaintext), Some(&mut len));
    assert_eq!(status, -4);
    assert_eq!(plaintext, [0xEEu8; 32]);
    assert_eq!(len, 32);
}

#[test]
fn decrypt_with_a_wrong_key_or_nonce_has_the_status_of_tampering() {
    let (ciphertext, nonce) = sealed_fox();
    let mut plaintext = [0xEEu8; 32];
    let mut len = 32usize;
    let mut wrong_key = KEY;
    wrong_key[31] ^= 0x80;
    assert_eq!(
        rust_decrypt(Some(&ciphertext), Some(&wrong_key), Some(&nonce), Some(&mut plaintext), Some(&mut len)),
        -4
    );
    let mut wrong_nonce = nonce;
    wrong_nonce[0] ^= 0x01;
    assert_eq!(
        rust_decrypt(Some(&ciphertext), Some(&KEY), Some(&wrong_nonce), Some(&mut plaintext), Some(&mut len)),
        -4
    );
    assert_eq!(plaintext, [0xEEu8; 32]);
    assert_eq!(len, 32);
}

#[test]
fn decrypt_reports_an_absent_buffer_first() {
    let (ciphertext, nonce) = sealed_fox();
    let mut plaintext = [0xEEu8; 32];
    let mut len = 32usize;
    assert_eq!(rust_decrypt(None, Some(&KEY), Some(&nonce), Some(&mut plaintext), Some(&mut len)), -1);
    assert_eq!(
        rust_decrypt(Some(&ciphertext), None, Some(&nonce), Some(&mut plaintext), Some(&mut len)),
        -1
    );
    assert_eq!(
        rust_decrypt(Some(&ciphertext), Some(&KEY), None, Some(&mut plaintext), Some(&mut len)),
        -1
    );
    assert_eq!(rust_decrypt(Some(&ciphertext), Some(&KEY), Some(&nonce), None, Some(&mut len)), -1);
    assert_eq!(
        rust_decrypt(Some(&ciphertext), Some(&KEY), Some(&nonce), Some(&mut plaintext), None),
        -1
    );
    assert_eq!(plaintext, [0xEEu8; 32]);
    assert_eq!(len, 32);
}

#[test]
fn decrypt_rejects_wrong_lengths_before_the_cipher() {
    let (ciphertext, nonce) = sealed_fox();
    let mut plaintext = [0xEEu8; 32];
    let mut len = 32usize;
    assert_eq!(
        rust_decrypt(Some(&ciphertext), Some(&KEY[..8]), Some(&nonce), Some(&mut plaintext), Some(&mut len)),
        -2
    );
    assert_eq!(
        rust_decrypt(Some(&ciphertext), Some(&KEY), Some(&nonce[..8]), Some(&mut plaintext), Some(&mut len)),
        -2
    );
    assert_eq!(
        rust_decrypt(Some(&ciphertext[..15]), Some(&KEY), Some(&nonce), Some(&mut plaintext), Some(&mut len)),
        -2
    );
    assert_eq!(
        rust_decrypt(Some(&[]), Some(&KEY), Some(&nonce), Some(&mut plaintext), Some(&mut len)),
        -2
    );
    let mut small = [0xEEu8; 18];
    assert_eq!(
        rust_decrypt(Some(&ciphertext), Some(&KEY), Some(&nonce), Some(&mut small), Some(&mut len)),
        -2
    );
    assert_eq!(small, [0xEEu8; 18]);
    assert_eq!(plaintext, [0xEEu8; 32]);
    assert_eq!(len, 32);
}

#[test]
fn decrypt_of_a_tag_alone_gives_an_empty_plaintext() {
    let mut ciphertext = [0u8; 16];
    let mut ciphertext_len = 16usize;
    let mut nonce = [0u8; 12];
    assert_eq!(
        rust_encrypt(
            Some(b""),
            Some(&KEY),
            Some(&mut ciphertext),
            Some(&mut ciphertext_len),
            Some(&mut nonce)
        ),
        0
    );
    assert_eq!(ciphertext_len, 16);
    let mut plaintext: [u8; 0] = [];
    let mut len = 7usize;
    assert_eq!(
        rust_decrypt(Some(&ciphertext), Some(&KEY), Some(&nonce), Some(&mut plaintext), Some(&mut len)),
        0
    );
    assert_eq!(len, 0);
}

#[test]
fn compare_reports_equal_unequal_absent_and_mismatched() {
    assert_eq!(rust_constant_time_compare(Some(b"abc"), Some(b"abc")), 0);
    assert_eq!(rust_constant_time_compare(Some(b""), Some(b"")), 0);
    assert_eq!(rust_constant_time_compare(Some(b"abc"), Some(b"abd")), -1);
    assert_eq!(rust_constant_time_compare(Some(b"abc"), Some(b"abd")), NOT_EQUAL);
    assert_eq!(rust_constant_time_compare(Some(b"xbc"), Some(b"abc")), -1);
    assert_eq!(rust_constant_time_compare(None, Some(b"abc")), -1);
    assert_eq!(rust_constant_time_compare(Some(b"abc"), None), -1);
    assert_eq!(rust_constant_time_compare(None, None), -1);
    assert_eq!(rust_constant_time_compare(Some(b"abc"), Some(b"abcd")), -2);
}

#[test]
fn login_verification_through_the_boundary() {
    let salt = [0u8; 16];
    let mut key = [0u8; 32];
    assert_eq!(rust_derive_key(Some(b"correct horse battery staple"), Some(&salt), Some(&mut key)), 0);
    let mut hash = [0u8; 32];
    assert_eq!(rust_hash_key_for_storage(Some(&key), Some(&mut hash)), 0);
    assert_eq!(rust_constant_time_compare(Some(&hash), Some(&STAPLE_HASH)), 0);

    let mut other = [0u8; 32];
    assert_eq!(rust_derive_key(Some(b"incorrect horse"), Some(&salt), Some(&mut other)), 0);
    assert_eq!(rust_hash_key_for_storage(Some(&other), Some(&mut hash)), 0);
    assert_eq!(rust_constant_time_compare(Some(&hash), Some(&STAPLE_HASH)), -1);
}
