//! Random passwords drawn from chosen classes of characters.

use vstd::prelude::*;
use vstd::utf8::{decode_utf8, encode_utf8, is_ascii_chars, valid_utf8};
use rand::seq::SliceRandom;
use rand::Rng;
use crate::bytes::string_from_utf8;
use crate::error::TextError;

verus! {

/// The capital letters, without `I`.
pub const UPPER: [u8; 25] = [
    65, 66, 67, 68, 69, 70, 71, 72, 74, 75, 76, 77, 78, 79, 80, 81, 82, 83, 84, 85, 86, 87, 88, 89,
    90,
];

/// The small letters, without `l`.
pub const LOWER: [u8; 25] = [
    97, 98, 99, 100, 101, 102, 103, 104, 105, 106, 107, 109, 110, 111, 112, 113, 114, 115, 116, 117,
    118, 119, 120, 121, 122,
];

/// The digits, without `0`.
pub const NUMBER: [u8; 9] = [49, 50, 51, 52, 53, 54, 55, 56, 57];

/// The symbols `~!@#$%^&*_`.
pub const SYMBOL: [u8; 10] = [126, 33, 64, 35, 36, 37, 94, 38, 42, 95];

/// Calls `Rng::gen_range` of `rand` on the thread's generator, for the
/// range from 0 up to and not including `bound`.
///
/// Trusted: the index lies in the range. The call panics on an empty range.
#[verifier::external_body]
fn random_index(bound: usize) -> (index: usize)
    requires
        bound > 0,
    ensures
        index < bound,
{
    rand::thread_rng().gen_range(0..bound)
}

/// Calls `SliceRandom::choose` of `rand` on the thread's generator.
///
/// Trusted: an element of the slice comes back, and nothing only where the
/// slice is empty.
#[verifier::external_body]
fn random_choice(pool: &[u8]) -> (choice: Option<u8>)
    ensures
        choice is None <==> pool@.len() == 0,
        choice matches Some(c) ==> pool@.contains(c),
{
    pool.choose(&mut rand::thread_rng()).copied()
}

/// Calls `SliceRandom::shuffle` of `rand` on the thread's generator.
///
/// Trusted: the elements are the same, each as often as before; only their
/// order may have changed.
#[verifier::external_body]
fn random_shuffle(items: &mut Vec<u8>)
    ensures
        final(items)@.to_multiset() == old(items)@.to_multiset(),
{
    items.shuffle(&mut rand::thread_rng())
}

/// How many of the four classes are chosen.
pub open spec fn class_count(upper: bool, lower: bool, number: bool, symbol: bool) -> int {
    (if upper { 1int } else { 0 }) + (if lower { 1int } else { 0 }) + (if number { 1int } else { 0 })
        + (if symbol { 1int } else { 0 })
}

/// The characters of the chosen classes.
pub open spec fn pool(upper: bool, lower: bool, number: bool, symbol: bool) -> Seq<u8> {
    (if upper { UPPER@ } else { Seq::<u8>::empty() }) + (if lower { LOWER@ } else { Seq::<u8>::empty() })
        + (if number { NUMBER@ } else { Seq::<u8>::empty() }) + (if symbol { SYMBOL@ } else {
        Seq::<u8>::empty()
    })
}

/// Whether every byte of `bytes` is one of `from`.
pub open spec fn drawn_from(bytes: Seq<u8>, from: Seq<u8>) -> bool {
    forall|i: int| 0 <= i < bytes.len() ==> from.contains(#[trigger] bytes[i])
}

/// Whether some byte of `bytes` is one of `class`.
pub open spec fn has_one_of(bytes: Seq<u8>, class: Seq<u8>) -> bool {
    exists|i: int| 0 <= i < bytes.len() && class.contains(#[trigger] bytes[i])
}

/// Whether `bytes` is a password of `length` characters over the chosen
/// classes: every character comes from one of them, and each of them has
/// given at least one.
pub open spec fn is_password(
    bytes: Seq<u8>,
    length: u8,
    upper: bool,
    lower: bool,
    number: bool,
    symbol: bool,
) -> bool {
    &&& bytes.len() == length
    &&& drawn_from(bytes, pool(upper, lower, number, symbol))
    &&& upper ==> has_one_of(bytes, UPPER@)
    &&& lower ==> has_one_of(bytes, LOWER@)
    &&& number ==> has_one_of(bytes, NUMBER@)
    &&& symbol ==> has_one_of(bytes, SYMBOL@)
}

/// The bytes of a text of ASCII characters.
pub open spec fn ascii_bytes(text: Seq<char>) -> Seq<u8> {
    Seq::new(text.len(), |i: int| text[i] as u8)
}

/// Every character of every class is ASCII.
proof fn lemma_pool_is_ascii(upper: bool, lower: bool, number: bool, symbol: bool)
    ensures
        forall|i: int|
            0 <= i < pool(upper, lower, number, symbol).len() ==> #[trigger] pool(
                upper,
                lower,
                number,
                symbol,
            )[i] < 128,
{
    assert(forall|i: int| 0 <= i < 25 ==> #[trigger] UPPER@[i] < 128);
    assert(forall|i: int| 0 <= i < 25 ==> #[trigger] LOWER@[i] < 128);
    assert(forall|i: int| 0 <= i < 9 ==> #[trigger] NUMBER@[i] < 128);
    assert(forall|i: int| 0 <= i < 10 ==> #[trigger] SYMBOL@[i] < 128);
}

/// A byte that is kept stays a witness when a byte is appended.
proof fn lemma_has_one_of_push(bytes: Seq<u8>, class: Seq<u8>, c: u8)
    requires
        has_one_of(bytes, class),
    ensures
        has_one_of(bytes.push(c), class),
{
    let i = choose|i: int| 0 <= i < bytes.len() && class.contains(#[trigger] bytes[i]);
    assert(bytes.push(c)[i] == bytes[i]);
}

/// A byte of the class, once appended, is a witness.
proof fn lemma_has_one_of_last(bytes: Seq<u8>, class: Seq<u8>, c: u8)
    requires
        class.contains(c),
    ensures
        has_one_of(bytes.push(c), class),
{
    assert(bytes.push(c)[bytes.len() as int] == c);
}

/// Bytes drawn from some characters are drawn from any larger choice.
proof fn lemma_drawn_from_wider(bytes: Seq<u8>, from: Seq<u8>, more: Seq<u8>)
    requires
        drawn_from(bytes, from),
    ensures
        drawn_from(bytes, from + more),
{
    assert forall|i: int| 0 <= i < bytes.len() implies (from + more).contains(
        #[trigger] bytes[i],
    ) by {
        let k = choose|k: int| 0 <= k < from.len() && from[k] == bytes[i];
        assert((from + more)[k] == bytes[i]);
    }
}

/// A byte of the class, once appended, is drawn from a choice that ends
/// with the class.
proof fn lemma_drawn_from_push(bytes: Seq<u8>, from: Seq<u8>, class: Seq<u8>, c: u8)
    requires
        drawn_from(bytes, from + class),
        class.contains(c),
    ensures
        drawn_from(bytes.push(c), from + class),
{
    let k = choose|k: int| 0 <= k < class.len() && class[k] == c;
    assert((from + class)[from.len() + k] == c);
    assert forall|i: int| 0 <= i < bytes.push(c).len() implies (from + class).contains(
        #[trigger] bytes.push(c)[i],
    ) by {
        if i < bytes.len() {
            assert(bytes.push(c)[i] == bytes[i]);
        }
    }
}

/// What holds of the bytes in some order holds of them in any other.
proof fn lemma_reordered(before: Seq<u8>, after: Seq<u8>, class: Seq<u8>)
    requires
        before.to_multiset() == after.to_multiset(),
    ensures
        after.len() == before.len(),
        drawn_from(before, class) ==> drawn_from(after, class),
        has_one_of(before, class) ==> has_one_of(after, class),
{
    before.to_multiset_ensures();
    after.to_multiset_ensures();
    if drawn_from(before, class) {
        assert forall|j: int| 0 <= j < after.len() implies class.contains(#[trigger] after[j]) by {
            assert(after.contains(after[j]));
            assert(before.to_multiset().count(after[j]) > 0);
            let i = choose|i: int| 0 <= i < before.len() && before[i] == after[j];
            assert(class.contains(before[i]));
        }
    }
    if has_one_of(before, class) {
        let i = choose|i: int| 0 <= i < before.len() && class.contains(#[trigger] before[i]);
        assert(before.contains(before[i]));
        assert(after.to_multiset().count(before[i]) > 0);
        let j = choose|j: int| 0 <= j < after.len() && after[j] == before[i];
        assert(class.contains(after[j]));
    }
}

/// ASCII bytes are UTF-8, and spell one character each.
proof fn lemma_ascii_is_utf8(bytes: Seq<u8>)
    requires
        forall|i: int| 0 <= i < bytes.len() ==> #[trigger] bytes[i] < 128,
    ensures
        valid_utf8(bytes),
        is_ascii_chars(decode_utf8(bytes)),
        ascii_bytes(decode_utf8(bytes)) == bytes,
{
    let chars = Seq::new(bytes.len(), |i: int| bytes[i] as char);
    assert(is_ascii_chars(chars));
    vstd::utf8::is_ascii_chars_encode_utf8(chars);
    assert(encode_utf8(chars) =~= bytes);
    vstd::utf8::encode_utf8_valid_utf8(chars);
    vstd::utf8::encode_utf8_decode_utf8(chars);
    assert(ascii_bytes(chars) =~= bytes);
}

/// Adds a class to the characters to choose from, and one character of the
/// class to the password.
fn draw_one(password: &mut Vec<u8>, chars: &mut Vec<u8>, class: &[u8])
    requires
        class@.len() > 0,
        drawn_from(old(password)@, old(chars)@),
    ensures
        final(chars)@ == old(chars)@ + class@,
        final(password)@ == old(password)@.push(final(password)@.last()),
        final(password)@.len() == old(password)@.len() + 1,
        class@.contains(final(password)@.last()),
        drawn_from(final(password)@, final(chars)@),
        has_one_of(final(password)@, class@),
{
    chars.extend_from_slice(class);
    if let Some(c) = random_choice(class) {
        proof {
            lemma_drawn_from_wider(password@, old(chars)@, class@);
            lemma_drawn_from_push(password@, old(chars)@, class@, c);
            lemma_has_one_of_last(password@, class@, c);
            assert(chars@ == old(chars)@ + class@);
        }
        password.push(c);
        assert(password@ == old(password)@.push(c));
    }
}

/// Draws a password of `length` characters from the chosen classes: one
/// character of each class, the rest from all of them, in a random order.
pub fn process_genpass(length: u8, upper: bool, lower: bool, number: bool, symbol: bool) -> (r:
    Result<String, TextError>)
    requires
        class_count(upper, lower, number, symbol) <= length,
        length > 0 ==> class_count(upper, lower, number, symbol) > 0,
    ensures
        r matches Ok(text) && is_ascii_chars(text@) && is_password(
            ascii_bytes(text@),
            length,
            upper,
            lower,
            number,
            symbol,
        ),
{
    let mut password: Vec<u8> = Vec::new();
    let mut chars: Vec<u8> = Vec::new();
    let ghost all = pool(upper, lower, number, symbol);

    if upper {
        draw_one(&mut password, &mut chars, UPPER.as_slice());
    }
    assert(chars@ =~= pool(upper, false, false, false));
    if lower {
        let ghost before = password@;
        draw_one(&mut password, &mut chars, LOWER.as_slice());
        proof {
            if upper {
                lemma_has_one_of_push(before, UPPER@, password@.last());
            }
        }
    }
    assert(chars@ =~= pool(upper, lower, false, false));
    if number {
        let ghost before = password@;
        draw_one(&mut password, &mut chars, NUMBER.as_slice());
        proof {
            if upper {
                lemma_has_one_of_push(before, UPPER@, password@.last());
            }
            if lower {
                lemma_has_one_of_push(before, LOWER@, password@.last());
            }
        }
    }
    assert(chars@ =~= pool(upper, lower, number, false));
    if symbol {
        let ghost before = password@;
        draw_one(&mut password, &mut chars, SYMBOL.as_slice());
        proof {
            if upper {
                lemma_has_one_of_push(before, UPPER@, password@.last());
            }
            if lower {
                lemma_has_one_of_push(before, LOWER@, password@.last());
            }
            if number {
                lemma_has_one_of_push(before, NUMBER@, password@.last());
            }
        }
    }
    assert(chars@ =~= all);

    while password.len() < length as usize
        invariant
            password@.len() <= length,
            chars@ == all,
            all == pool(upper, lower, number, symbol),
            all.len() > 0 || password@.len() == length,
            drawn_from(password@, all),
            upper ==> has_one_of(password@, UPPER@),
            lower ==> has_one_of(password@, LOWER@),
            number ==> has_one_of(password@, NUMBER@),
            symbol ==> has_one_of(password@, SYMBOL@),
        decreases length - password@.len(),
    {
        let index = random_index(chars.len());
        let c = chars[index];
        proof {
            assert(password@.push(c).drop_last() =~= password@);
            assert forall|i: int| 0 <= i < password@.push(c).len() implies all.contains(
                #[trigger] password@.push(c)[i],
            ) by {
                if i < password@.len() {
                    assert(password@.push(c)[i] == password@[i]);
                }
            }
            if upper {
                lemma_has_one_of_push(password@, UPPER@, c);
            }
            if lower {
                lemma_has_one_of_push(password@, LOWER@, c);
            }
            if number {
                lemma_has_one_of_push(password@, NUMBER@, c);
            }
            if symbol {
                lemma_has_one_of_push(password@, SYMBOL@, c);
            }
        }
        password.push(c);
    }

    let ghost drawn = password@;
    random_shuffle(&mut password);
    proof {
        lemma_reordered(drawn, password@, all);
        lemma_reordered(drawn, password@, UPPER@);
        lemma_reordered(drawn, password@, LOWER@);
        lemma_reordered(drawn, password@, NUMBER@);
        lemma_reordered(drawn, password@, SYMBOL@);
        lemma_pool_is_ascii(upper, lower, number, symbol);
        assert forall|i: int| 0 <= i < password@.len() implies #[trigger] password@[i] < 128 by {
            assert(all.contains(password@[i]));
        }
        lemma_ascii_is_utf8(password@);
    }
    match string_from_utf8(password) {
        Ok(text) => Ok(text),
        Err(_) => Err(TextError::Format),
    }
}

} // verus!
