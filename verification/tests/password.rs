use cryptify::error::ErrorKind;
use cryptify::password::{build_character_set, generate_password, swap_bytes, CharacterClass};

const LOWER: &[u8] = b"abcdefghijklmnopqrstuvwxyz";
const UPPER: &[u8] = b"ABCDEFGHIJKLMNOPQRSTUVWXYZ";
const DIGITS: &[u8] = b"0123456789";
const SPECIAL: &[u8] = b"!@#$%^&*()-_=+[]{}|;:,.<>?";

fn holds_one_of(text: &[u8], class: &[u8]) -> bool {
    text.iter().any(|c| class.contains(c))
}

fn check_policy(text: &[u8], length: usize, uppercase: bool, digits: bool, special: bool) {
    let set = build_character_set(uppercase, digits, special);
    assert_eq!(text.len(), length);
    assert!(text.iter().all(|c| set.contains(c)));
    assert!(holds_one_of(text, LOWER));
    assert_eq!(holds_one_of(text, UPPER), uppercase);
    assert_eq!(holds_one_of(text, DIGITS), digits);
    assert_eq!(holds_one_of(text, SPECIAL), special);
}

#[test]
fn classes_hold_their_characters() {
    assert_eq!(CharacterClass::Lowercase.members(), LOWER.to_vec());
    assert_eq!(CharacterClass::Uppercase.members(), UPPER.to_vec());
    assert_eq!(CharacterClass::Digits.members(), DIGITS.to_vec());
    assert_eq!(CharacterClass::Special.members(), SPECIAL.to_vec());
}

#[test]
fn append_to_keeps_what_was_there() {
    let mut set = vec![b'#'];
    CharacterClass::Digits.append_to(&mut set);
    assert_eq!(set, b"#0123456789".to_vec());
}

#[test]
fn character_set_is_lowercase_alone_without_flags() {
    assert_eq!(build_character_set(false, false, false), LOWER.to_vec());
}

#[test]
fn character_set_appends_each_selected_class_in_order() {
    assert_eq!(
        build_character_set(true, true, true),
        b"abcdefghijklmnopqrstuvwxyzABCDEFGHIJKLMNOPQRSTUVWXYZ0123456789!@#$%^&*()-_=+[]{}|;:,.<>?"
            .to_vec()
    );
    assert_eq!(
        build_character_set(true, false, false),
        b"abcdefghijklmnopqrstuvwxyzABCDEFGHIJKLMNOPQRSTUVWXYZ".to_vec()
    );
    assert_eq!(build_character_set(false, true, false), b"abcdefghijklmnopqrstuvwxyz0123456789".to_vec());
    assert_eq!(
        build_character_set(false, false, true),
        b"abcdefghijklmnopqrstuvwxyz!@#$%^&*()-_=+[]{}|;:,.<>?".to_vec()
    );
    assert_eq!(build_character_set(true, true, true).len(), 88);
}

#[test]
fn swap_bytes_exchanges_two_positions() {
    let mut text = b"abcd".to_vec();
    swap_bytes(&mut text, 0, 3);
    assert_eq!(text, b"dbca".to_vec());
    swap_bytes(&mut text, 1, 1);
    assert_eq!(text, b"dbca".to_vec());
}

#[test]
fn passwords_meet_the_policy_for_every_choice_of_flags() {
    for flags in 0..8u8 {
        let uppercase = flags & 1 != 0;
        let digits = flags & 2 != 0;
        let special = flags & 4 != 0;
        for length in [8usize, 9, 16, 64, 128] {
            for _ in 0..50 {
                let text = generate_password(length, uppercase, digits, special).unwrap();
                check_policy(&text, length, uppercase, digits, special);
            }
        }
    }
}

#[test]
fn shortest_password_with_every_class_holds_every_class() {
    for _ in 0..500 {
        let text = generate_password(8, true, true, true).unwrap();
        check_policy(&text, 8, true, true, true);
    }
}

#[test]
fn passwords_differ_between_calls() {
    let first = generate_password(32, true, true, true).unwrap();
    let second = generate_password(32, true, true, true).unwrap();
    assert_ne!(first, second);
}

#[test]
fn guaranteed_characters_do_not_stay_in_front() {
    // Without the shuffle the first character would always be a lowercase letter.
    let mut first_is_not_lowercase = false;
    for _ in 0..200 {
        let text = generate_password(16, true, true, true).unwrap();
        if !LOWER.contains(&text[0]) {
            first_is_not_lowercase = true;
        }
    }
    assert!(first_is_not_lowercase);
}

#[test]
fn every_character_of_the_set_can_be_drawn() {
    let set = build_character_set(true, true, true);
    let mut seen = vec![false; 256];
    for _ in 0..200 {
        for c in generate_password(128, true, true, true).unwrap() {
            seen[c as usize] = true;
        }
    }
    assert!(set.iter().all(|c| seen[*c as usize]));
}

#[test]
fn lengths_outside_the_range_are_rejected() {
    assert_eq!(generate_password(0, true, true, true), Err(ErrorKind::InvalidLength));
    assert_eq!(generate_password(7, true, true, true), Err(ErrorKind::InvalidLength));
    assert_eq!(generate_password(129, false, false, false), Err(ErrorKind::InvalidLength));
    assert_eq!(generate_password(usize::MAX, false, true, false), Err(ErrorKind::InvalidLength));
}

#[test]
fn lengths_at_the_ends_of_the_range_are_accepted() {
    assert_eq!(generate_password(8, false, false, false).unwrap().len(), 8);
    assert_eq!(generate_password(128, false, false, false).unwrap().len(), 128);
}
