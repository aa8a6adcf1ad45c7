//! The markers of a poll's options: the twenty-six regional indicator
//! symbols, handed out in alphabetical order.

use vstd::prelude::*;

use crate::polls::PollError;
use crate::text::{push_char, texts};

verus! {

/// How many markers there are.
pub const ALPHABET_SIZE: u32 = 26;

/// The code point of the first marker, the regional indicator symbol for A.
pub const FIRST_INDICATOR: u32 = 0x1F1E6;

/// The marker at position `index` of the alphabet: one character, the
/// regional indicator symbol of the letter at that position.
pub open spec fn indicator(index: int) -> Seq<char>
    recommends
        0 <= index < 26,
{
    seq![(0x1F1E6 + index) as char]
}

/// `index` is the position of the first marker of the alphabet that `used` lacks.
pub open spec fn is_first_free(used: Set<Seq<char>>, index: int) -> bool {
    &&& 0 <= index < 26
    &&& !used.contains(indicator(index))
    &&& forall|earlier: int| 0 <= earlier < index ==> used.contains(#[trigger] indicator(earlier))
}

/// The first marker of the alphabet that `used` lacks, if it lacks one.
pub open spec fn first_free(used: Set<Seq<char>>) -> Option<Seq<char>> {
    if exists|index: int| is_first_free(used, index) {
        Some(indicator(choose|index: int| is_first_free(used, index)))
    } else {
        None
    }
}

/// Two positions of the alphabet with the same marker are the same position.
pub proof fn lemma_indicator_injective(a: int, b: int)
    requires
        0 <= a < 26,
        0 <= b < 26,
        indicator(a) == indicator(b),
    ensures
        a == b,
{
    assert(indicator(a)[0] as int == 0x1F1E6 + a);
    assert(indicator(b)[0] as int == 0x1F1E6 + b);
}

/// At most one position is the first free one.
pub proof fn lemma_first_free_unique(used: Set<Seq<char>>, a: int, b: int)
    requires
        is_first_free(used, a),
        is_first_free(used, b),
    ensures
        a == b,
{
    if a < b {
        assert(used.contains(indicator(a)));
    }
    if b < a {
        assert(used.contains(indicator(b)));
    }
}

/// `char::from_u32`: the character with the given code point, where there is
/// one, that is for every value up to 0x10FFFF outside the surrogate range.
#[verifier::external_body]
fn char_from_u32(value: u32) -> (c: Option<char>)
    ensures
        c == (if value <= 0xD7FF || 0xE000 <= value <= 0x10FFFF {
            Some(value as char)
        } else {
            None::<char>
        }),
{
    char::from_u32(value)
}

/// The alphabet: all markers, in order.
pub fn alphabet() -> (symbols: Vec<String>)
    ensures
        symbols.len() == 26,
        forall|i: int| 0 <= i < 26 ==> (#[trigger] symbols[i])@ == indicator(i),
{
    let mut symbols: Vec<String> = Vec::new();
    let mut index: u32 = 0;
    while index < ALPHABET_SIZE
        invariant
            index <= 26,
            symbols.len() == index,
            forall|i: int| 0 <= i < index ==> (#[trigger] symbols[i])@ == indicator(i),
        decreases 26 - index,
    {
        let mut symbol = String::new();
        push_char(&mut symbol, char_from_u32(FIRST_INDICATOR + index).unwrap());
        symbols.push(symbol);
        index += 1;
    }
    symbols
}

/// Whether `icon` is among `used`. A scan will do: a poll has a few dozen
/// options at most.
fn is_used(used: &Vec<String>, icon: &String) -> (r: bool)
    ensures
        r == texts(used@).to_set().contains(icon@),
{
    let mut i: usize = 0;
    while i < used.len()
        invariant
            i <= used.len(),
            forall|j: int| 0 <= j < i ==> texts(used@)[j] != icon@,
        decreases used.len() - i,
    {
        if used[i] == *icon {
            assert(texts(used@)[i as int] == icon@);
            return true;
        }
        i += 1;
    }
    false
}

/// Picks the marker for a new option: the first of the alphabet that is not
/// among `used`. Fails when all twenty-six are in use.
pub fn allocate(used: &Vec<String>) -> (r: Result<String, PollError>)
    ensures
        match first_free(texts(used@).to_set()) {
            Some(icon) => r matches Ok(given) && given@ == icon,
            None => r == Err::<String, PollError>(PollError::TooManyOptions),
        },
{
    let ghost taken = texts(used@).to_set();
    let symbols = alphabet();
    let mut index: usize = 0;
    while index < 26
        invariant
            index <= 26,
            symbols.len() == 26,
            taken == texts(used@).to_set(),
            forall|i: int| 0 <= i < 26 ==> (#[trigger] symbols[i])@ == indicator(i),
            forall|earlier: int| 0 <= earlier < index ==> taken.contains(#[trigger] indicator(earlier)),
        decreases 26 - index,
    {
        if !is_used(used, &symbols[index]) {
            proof {
                assert(is_first_free(taken, index as int));
                let chosen = choose|c: int| is_first_free(taken, c);
                lemma_first_free_unique(taken, chosen, index as int);
            }
            return Ok(symbols[index].clone());
        }
        index += 1;
    }
    proof {
        assert forall|c: int| !is_first_free(taken, c) by {
            if 0 <= c < 26 {
                assert(taken.contains(indicator(c)));
            }
        }
    }
    Err(PollError::TooManyOptions)
}

} // verus!
