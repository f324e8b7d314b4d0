//! Random passwords over a character set assembled from classes.

use vstd::prelude::*;
use vstd::seq_lib::{to_multiset_contains, to_multiset_update};
use rand::rngs::ThreadRng;
use crate::error::ErrorKind;
use crate::params::{MAX_PASSWORD_LENGTH, MIN_PASSWORD_LENGTH};
use crate::random::random_below;

verus! {

/// A class of characters that a password may draw from.
#[derive(Clone, Copy, Debug, PartialEq, Eq, Structural)]
pub enum CharacterClass {
    /// `a` to `z`; part of every character set.
    Lowercase,
    /// `A` to `Z`.
    Uppercase,
    /// `0` to `9`.
    Digits,
    /// The punctuation `!@#$%^&*()-_=+[]{}|;:,.<>?`.
    Special,
}

/// `count` consecutive byte values from `first` on.
pub open spec fn run_of(first: u8, count: nat) -> Seq<u8> {
    Seq::new(count, |i: int| (first + i) as u8)
}

/// The punctuation characters `!@#$%^&*()-_=+[]{}|;:,.<>?`, in this order.
pub open spec fn punctuation() -> Seq<u8> {
    seq![
        0x21u8, 0x40u8, 0x23u8, 0x24u8, 0x25u8, 0x5Eu8, 0x26u8, 0x2Au8, 0x28u8, 0x29u8, 0x2Du8,
        0x5Fu8, 0x3Du8, 0x2Bu8, 0x5Bu8, 0x5Du8, 0x7Bu8, 0x7Du8, 0x7Cu8, 0x3Bu8, 0x3Au8, 0x2Cu8,
        0x2Eu8, 0x3Cu8, 0x3Eu8, 0x3Fu8,
    ]
}

impl CharacterClass {
    /// The characters of the class, as ASCII bytes in ascending alphabet order
    /// (punctuation in its listed order).
    pub open spec fn spec_members(self) -> Seq<u8> {
        match self {
            CharacterClass::Lowercase => run_of(0x61, 26),
            CharacterClass::Uppercase => run_of(0x41, 26),
            CharacterClass::Digits => run_of(0x30, 10),
            CharacterClass::Special => punctuation(),
        }
    }

    /// The characters of the class, as ASCII bytes.
    pub fn members(self) -> (set: Vec<u8>)
        ensures
            set@ == self.spec_members(),
            set@.len() > 0,
    {
        let mut set: Vec<u8> = Vec::new();
        self.append_to(&mut set);
        assert(set@ =~= self.spec_members());
        set
    }

    /// Appends the characters of the class to `set`.
    pub fn append_to(self, set: &mut Vec<u8>)
        ensures
            final(set)@ == old(set)@ + self.spec_members(),
            self.spec_members().len() > 0,
    {
        match self {
            CharacterClass::Lowercase => append_run(set, 0x61, 26),
            CharacterClass::Uppercase => append_run(set, 0x41, 26),
            CharacterClass::Digits => append_run(set, 0x30, 10),
            CharacterClass::Special => {
                let table: [u8; 26] = [
                    0x21u8, 0x40u8, 0x23u8, 0x24u8, 0x25u8, 0x5Eu8, 0x26u8, 0x2Au8, 0x28u8, 0x29u8,
                    0x2Du8, 0x5Fu8, 0x3Du8, 0x2Bu8, 0x5Bu8, 0x5Du8, 0x7Bu8, 0x7Du8, 0x7Cu8, 0x3Bu8,
                    0x3Au8, 0x2Cu8, 0x2Eu8, 0x3Cu8, 0x3Eu8, 0x3Fu8,
                ];
                assert(table@ =~= punctuation());
                let mut i: usize = 0;
                while i < 26
                    invariant
                        i <= 26,
                        table@ == punctuation(),
                        set@ == old(set)@ + punctuation().subrange(0, i as int),
                    decreases 26 - i,
                {
                    set.push(table[i]);
                    i = i + 1;
                    assert(set@ =~= old(set)@ + punctuation().subrange(0, i as int));
                }
                assert(punctuation().subrange(0, 26) =~= punctuation());
            },
        }
    }
}

/// Appends `count` consecutive byte values from `first` on.
fn append_run(set: &mut Vec<u8>, first: u8, count: u8)
    requires
        first + count <= 256,
    ensures
        final(set)@ == old(set)@ + run_of(first, count as nat),
{
    let mut i: u8 = 0;
    while i < count
        invariant
            i <= count,
            first + count <= 256,
            set@ == old(set)@ + run_of(first, i as nat),
        decreases count - i,
    {
        set.push(first + i);
        i = i + 1;
        assert(set@ =~= old(set)@ + run_of(first, i as nat));
    }
}

/// The characters of `class` if it is selected, none otherwise.
pub open spec fn selected(class: CharacterClass, wanted: bool) -> Seq<u8> {
    if wanted {
        class.spec_members()
    } else {
        Seq::empty()
    }
}

/// The character set for the given flags: lowercase letters always, then each
/// selected class in the order uppercase, digits, punctuation.
pub open spec fn character_set(uppercase: bool, digits: bool, special: bool) -> Seq<u8> {
    CharacterClass::Lowercase.spec_members() + selected(CharacterClass::Uppercase, uppercase)
        + selected(CharacterClass::Digits, digits) + selected(CharacterClass::Special, special)
}

/// Assembles the character set for the given flags.
pub fn build_character_set(uppercase: bool, digits: bool, special: bool) -> (set: Vec<u8>)
    ensures
        set@ == character_set(uppercase, digits, special),
        set@.len() >= 26,
{
    let mut set: Vec<u8> = Vec::new();
    CharacterClass::Lowercase.append_to(&mut set);
    let ghost lower = set@;
    assert(lower =~= CharacterClass::Lowercase.spec_members());
    if uppercase {
        CharacterClass::Uppercase.append_to(&mut set);
    }
    assert(set@ =~= lower + selected(CharacterClass::Uppercase, uppercase));
    let ghost with_upper = set@;
    if digits {
        CharacterClass::Digits.append_to(&mut set);
    }
    assert(set@ =~= with_upper + selected(CharacterClass::Digits, digits));
    let ghost with_digits = set@;
    if special {
        CharacterClass::Special.append_to(&mut set);
    }
    assert(set@ =~= with_digits + selected(CharacterClass::Special, special));
    set
}

/// Every character of `text` belongs to `set`.
pub open spec fn drawn_from(text: Seq<u8>, set: Seq<u8>) -> bool {
    forall|i: int| 0 <= i < text.len() ==> set.contains(#[trigger] text[i])
}

/// Some character of `text` belongs to `set`.
pub open spec fn has_one_of(text: Seq<u8>, set: Seq<u8>) -> bool {
    exists|i: int| 0 <= i < text.len() && set.contains(#[trigger] text[i])
}

/// What a generated password is held to: the requested length, characters of
/// the assembled set only, at least one lowercase letter, and at least one
/// character of every selected class.
pub open spec fn meets_policy(
    text: Seq<u8>,
    length: nat,
    uppercase: bool,
    digits: bool,
    special: bool,
) -> bool {
    &&& text.len() == length
    &&& drawn_from(text, character_set(uppercase, digits, special))
    &&& has_one_of(text, CharacterClass::Lowercase.spec_members())
    &&& uppercase ==> has_one_of(text, CharacterClass::Uppercase.spec_members())
    &&& digits ==> has_one_of(text, CharacterClass::Digits.spec_members())
    &&& special ==> has_one_of(text, CharacterClass::Special.spec_members())
}

/// The lengths for which a password is generated.
pub open spec fn length_allowed(length: nat) -> bool {
    MIN_PASSWORD_LENGTH <= length <= MAX_PASSWORD_LENGTH
}

/// Every class is part of the character set that selects it.
pub proof fn class_within_character_set(
    class: CharacterClass,
    uppercase: bool,
    digits: bool,
    special: bool,
    c: u8,
)
    requires
        class.spec_members().contains(c),
        match class {
            CharacterClass::Lowercase => true,
            CharacterClass::Uppercase => uppercase,
            CharacterClass::Digits => digits,
            CharacterClass::Special => special,
        },
    ensures
        character_set(uppercase, digits, special).contains(c),
{
    let lower = CharacterClass::Lowercase.spec_members();
    let upper = selected(CharacterClass::Uppercase, uppercase);
    let numbers = selected(CharacterClass::Digits, digits);
    let marks = selected(CharacterClass::Special, special);
    let all = character_set(uppercase, digits, special);
    let k = choose|k: int| 0 <= k < class.spec_members().len() && class.spec_members()[k] == c;
    match class {
        CharacterClass::Lowercase => {
            assert(all[k] == c);
        },
        CharacterClass::Uppercase => {
            assert(all[lower.len() + k] == c);
        },
        CharacterClass::Digits => {
            assert(all[lower.len() + upper.len() + k] == c);
        },
        CharacterClass::Special => {
            assert(all[lower.len() + upper.len() + numbers.len() + k] == c);
        },
    }
}

/// Rearranging a text changes neither which characters it holds nor whether
/// it holds one of a set.
pub proof fn rearrangement_keeps_membership(before: Seq<u8>, after: Seq<u8>, set: Seq<u8>)
    requires
        before.to_multiset() == after.to_multiset(),
    ensures
        drawn_from(before, set) == drawn_from(after, set),
        has_one_of(before, set) == has_one_of(after, set),
{
    assert forall|c: u8| before.contains(c) == after.contains(c) by {
        to_multiset_contains(before, c);
        to_multiset_contains(after, c);
    }
    lemma_membership_by_contents(before, set);
    lemma_membership_by_contents(after, set);
}

/// Both membership predicates, restated over the characters a text contains.
proof fn lemma_membership_by_contents(text: Seq<u8>, set: Seq<u8>)
    ensures
        drawn_from(text, set) <==> forall|c: u8| text.contains(c) ==> set.contains(c),
        has_one_of(text, set) <==> exists|c: u8| text.contains(c) && set.contains(c),
{
    if drawn_from(text, set) {
        assert forall|c: u8| text.contains(c) implies set.contains(c) by {
            let i = choose|i: int| 0 <= i < text.len() && text[i] == c;
            assert(set.contains(text[i]));
        }
    }
    if forall|c: u8| text.contains(c) ==> set.contains(c) {
        assert forall|i: int| 0 <= i < text.len() implies set.contains(#[trigger] text[i]) by {
            assert(text.contains(text[i]));
        }
    }
    if has_one_of(text, set) {
        let i = choose|i: int| 0 <= i < text.len() && set.contains(#[trigger] text[i]);
        assert(text.contains(text[i]) && set.contains(text[i]));
    }
    if exists|c: u8| text.contains(c) && set.contains(c) {
        let c = choose|c: u8| text.contains(c) && set.contains(c);
        let i = choose|i: int| 0 <= i < text.len() && text[i] == c;
        assert(set.contains(text[i]));
    }
}

/// Exchanges the bytes at two positions.
pub fn swap_bytes(text: &mut Vec<u8>, i: usize, j: usize)
    requires
        i < old(text)@.len(),
        j < old(text)@.len(),
    ensures
        final(text)@ == old(text)@.update(i as int, old(text)@[j as int]).update(
            j as int,
            old(text)@[i as int],
        ),
        final(text)@.to_multiset() == old(text)@.to_multiset(),
{
    let a = text[i];
    let b = text[j];
    text[i] = b;
    text[j] = a;
    proof {
        broadcast use vstd::multiset::group_multiset_axioms;

        let s0 = old(text)@;
        let s1 = s0.update(i as int, s0[j as int]);
        to_multiset_update(s0, i as int, s0[j as int]);
        to_multiset_update(s1, j as int, s0[i as int]);
        to_multiset_contains(s0, s0[i as int]);
        to_multiset_contains(s0, s0[j as int]);
        assert(s0.contains(s0[i as int]));
        assert(s0.contains(s0[j as int]));
        if i == j {
            assert(text@ =~= s0);
        } else {
            assert(s1[j as int] == s0[j as int]);
            assert(text@.to_multiset() =~= s0.to_multiset());
        }
    }
}

/// One character of `set`, chosen uniformly.
fn draw(rng: &mut ThreadRng, set: &Vec<u8>) -> (c: u8)
    requires
        set@.len() > 0,
    ensures
        set@.contains(c),
{
    let k = random_below(rng, set.len());
    set[k]
}

/// Rearranges `text` by a uniform shuffle: position `i`, from the last down to
/// the second, is exchanged with a position drawn uniformly from `0 ..= i`.
fn shuffle(rng: &mut ThreadRng, text: &mut Vec<u8>)
    ensures
        exists|draws: Seq<usize>|
            draws_fit(draws, old(text)@.len()) && final(text)@ == #[trigger] shuffled_by(
                old(text)@,
                draws,
            ),
        final(text)@.to_multiset() == old(text)@.to_multiset(),
        final(text)@.len() == old(text)@.len(),
{
    let n: usize = text.len();
    let mut i: usize = n;
    let ghost mut draws: Seq<usize> = Seq::empty();
    while i > 1
        invariant
            i <= n,
            n >= 1 ==> i >= 1,
            text@.len() == n,
            old(text)@.len() == n,
            draws.len() == n - i,
            forall|k: int| 0 <= k < draws.len() ==> #[trigger] draws[k] < n - k,
            text@ == shuffled_by(old(text)@, draws),
            text@.to_multiset() == old(text)@.to_multiset(),
        decreases i,
    {
        let ghost before = text@;
        let j = random_below(rng, i);
        swap_bytes(text, i - 1, j);
        proof {
            let longer = draws.push(j);
            assert(longer.drop_last() =~= draws);
            assert(longer.last() == j);
            assert(text@ == exchanged(before, i - 1, j as int));
            draws = longer;
        }
        i = i - 1;
    }
    assert(draws_fit(draws, n as nat));
}

/// `text` with the bytes at `i` and `j` exchanged.
pub open spec fn exchanged(text: Seq<u8>, i: int, j: int) -> Seq<u8> {
    text.update(i, text[j]).update(j, text[i])
}

/// The draws that a shuffle of `len` bytes takes: one for each position from
/// the last down to the second, none of them beyond the position it serves.
/// The draw at step `k` serves position `len - 1 - k`.
pub open spec fn draws_fit(draws: Seq<usize>, len: nat) -> bool {
    &&& draws.len() == if len == 0 {
        0
    } else {
        len - 1
    }
    &&& forall|k: int| 0 <= k < draws.len() ==> #[trigger] draws[k] < len - k
}

/// What a shuffle makes of `text` with the given draws: step by step, from the
/// last position down, the byte at position `text.len() - 1 - k` is exchanged
/// with the byte at the position that draw `k` names.
pub open spec fn shuffled_by(text: Seq<u8>, draws: Seq<usize>) -> Seq<u8>
    decreases draws.len(),
{
    if draws.len() == 0 {
        text
    } else {
        exchanged(
            shuffled_by(text, draws.drop_last()),
            text.len() - draws.len(),
            draws.last() as int,
        )
    }
}

/// Generates a password of `length` characters over the set that the flags
/// assemble.
///
/// Lengths outside 8 ..= 128 are rejected with `InvalidLength`. The result
/// holds at least one lowercase letter and at least one character of every
/// selected class: one character is drawn from each of these classes, the
/// rest from the whole set, each draw uniform and independent, and the
/// characters are then shuffled.
pub fn generate_password(length: usize, uppercase: bool, digits: bool, special: bool) -> (r: Result<
    Vec<u8>,
    ErrorKind,
>)
    ensures
        r is Ok <==> length_allowed(length as nat),
        r matches Err(e) ==> e == ErrorKind::InvalidLength,
        r matches Ok(text) ==> meets_policy(text@, length as nat, uppercase, digits, special),
{
    if length < MIN_PASSWORD_LENGTH || length > MAX_PASSWORD_LENGTH {
        return Err(ErrorKind::InvalidLength);
    }
    let set = build_character_set(uppercase, digits, special);
    let mut rng = rand::thread_rng();
    let mut text: Vec<u8> = Vec::new();
    let ghost all = character_set(uppercase, digits, special);

    let lower = CharacterClass::Lowercase.members();
    let c = draw(&mut rng, &lower);
    text.push(c);
    proof {
        class_within_character_set(CharacterClass::Lowercase, uppercase, digits, special, c);
        lemma_push_keeps_membership(Seq::empty(), c, all, CharacterClass::Lowercase.spec_members());
    }
    if uppercase {
        let ghost before = text@;
        let upper = CharacterClass::Uppercase.members();
        let c = draw(&mut rng, &upper);
        text.push(c);
        proof {
            class_within_character_set(CharacterClass::Uppercase, uppercase, digits, special, c);
            lemma_push_keeps_membership(before, c, all, CharacterClass::Lowercase.spec_members());
            lemma_push_keeps_membership(before, c, all, CharacterClass::Uppercase.spec_members());
        }
    }
    if digits {
        let ghost before = text@;
        let numbers = CharacterClass::Digits.members();
        let c = draw(&mut rng, &numbers);
        text.push(c);
        proof {
            class_within_character_set(CharacterClass::Digits, uppercase, digits, special, c);
            lemma_push_keeps_membership(before, c, all, CharacterClass::Lowercase.spec_members());
            lemma_push_keeps_membership(before, c, all, CharacterClass::Uppercase.spec_members());
            lemma_push_keeps_membership(before, c, all, CharacterClass::Digits.spec_members());
        }
    }
    if special {
        let ghost before = text@;
        let marks = CharacterClass::Special.members();
        let c = draw(&mut rng, &marks);
        text.push(c);
        proof {
            class_within_character_set(CharacterClass::Special, uppercase, digits, special, c);
            lemma_push_keeps_membership(before, c, all, CharacterClass::Lowercase.spec_members());
            lemma_push_keeps_membership(before, c, all, CharacterClass::Uppercase.spec_members());
            lemma_push_keeps_membership(before, c, all, CharacterClass::Digits.spec_members());
            lemma_push_keeps_membership(before, c, all, CharacterClass::Special.spec_members());
        }
    }
    while text.len() < length
        invariant
            text@.len() <= length,
            set@ == all,
            all.len() > 0,
            drawn_from(text@, all),
            has_one_of(text@, CharacterClass::Lowercase.spec_members()),
            uppercase ==> has_one_of(text@, CharacterClass::Uppercase.spec_members()),
            digits ==> has_one_of(text@, CharacterClass::Digits.spec_members()),
            special ==> has_one_of(text@, CharacterClass::Special.spec_members()),
        decreases length - text@.len(),
    {
        let ghost before = text@;
        let c = draw(&mut rng, &set);
        text.push(c);
        proof {
            lemma_push_keeps_membership(before, c, all, CharacterClass::Lowercase.spec_members());
            lemma_push_keeps_membership(before, c, all, CharacterClass::Uppercase.spec_members());
            lemma_push_keeps_membership(before, c, all, CharacterClass::Digits.spec_members());
            lemma_push_keeps_membership(before, c, all, CharacterClass::Special.spec_members());
        }
    }
    let ghost unshuffled = text@;
    shuffle(&mut rng, &mut text);
    proof {
        rearrangement_keeps_membership(unshuffled, text@, all);
        rearrangement_keeps_membership(unshuffled, text@, CharacterClass::Lowercase.spec_members());
        rearrangement_keeps_membership(unshuffled, text@, CharacterClass::Uppercase.spec_members());
        rearrangement_keeps_membership(unshuffled, text@, CharacterClass::Digits.spec_members());
        rearrangement_keeps_membership(unshuffled, text@, CharacterClass::Special.spec_members());
    }
    Ok(text)
}

/// Appending a character of the set keeps a text within the set, keeps
/// whatever class it already held, and adds the class of the character.
proof fn lemma_push_keeps_membership(text: Seq<u8>, c: u8, set: Seq<u8>, class: Seq<u8>)
    requires
        set.contains(c),
    ensures
        drawn_from(text, set) ==> drawn_from(text.push(c), set),
        has_one_of(text, class) ==> has_one_of(text.push(c), class),
        class.contains(c) ==> has_one_of(text.push(c), class),
{
    let longer = text.push(c);
    if has_one_of(text, class) {
        let i = choose|i: int| 0 <= i < text.len() && class.contains(#[trigger] text[i]);
        assert(longer[i] == text[i]);
    }
    if class.contains(c) {
        assert(longer[text.len() as int] == c);
    }
}

} // verus!
