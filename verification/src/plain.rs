//! Markup that the converter can be trusted with.
//!
//! The converter fails hard, and not with an error, on two kinds of text:
//! a numbered line whose number holds a numeral from outside ASCII, and a
//! list that starts at a number near the largest the machine can hold. The
//! test of this module leaves both out, and with them whatever could become
//! one of them once the converter has read the text's character references
//! a second time. It is wider than the two faults: it asks no question
//! about where in the markup a character stands.

use vstd::prelude::*;
use crate::chars::chars_of;

verus! {

/// Whether `char::is_numeric` holds of `c`: the character is a numeral of
/// some script.
pub uninterp spec fn numeric(c: char) -> bool;

/// Calls `char::is_numeric` (std). The contract gives the answer its name.
#[verifier::external_body]
pub(crate) fn is_numeric(c: char) -> (answer: bool)
    ensures
        answer == numeric(c),
{
    c.is_numeric()
}

/// How long a run of digits may be. A number of so many digits is under a
/// thousand million; a list has fewer items than its markup has bytes; and
/// the sum of the two is under the largest number that a `usize` of 32 bits
/// or more holds.
pub const DIGITS: u8 = 9;

/// A digit of ASCII.
pub open spec fn is_digit(c: char) -> bool {
    '0' <= c <= '9'
}

/// A numeral from outside ASCII.
pub open spec fn is_foreign_numeral(c: char) -> bool {
    c as u32 > 0x7f && numeric(c)
}

/// How many digits stand in a row just before position `i` of `s`.
pub open spec fn digits_before(s: Seq<char>, i: int) -> nat
    decreases i,
{
    if i <= 0 || i > s.len() || !is_digit(s[i - 1]) {
        0
    } else {
        1 + digits_before(s, i - 1)
    }
}

/// Whether `word` stands in `s` from position `at` on.
pub open spec fn holds_at(s: Seq<char>, at: int, word: Seq<char>) -> bool {
    0 <= at && at + word.len() <= s.len() && s.subrange(at, at + word.len()) == word
}

/// Where the name of a reference would begin whose `&` stands at `i`: just
/// behind it, or behind the `amp;` that writes an `&` of the text itself.
pub open spec fn name_start(s: Seq<char>, i: int) -> int {
    if holds_at(s, i + 1, seq!['a', 'm', 'p', ';']) {
        i + 5
    } else {
        i + 1
    }
}

/// Whether what stands at `at` may be read as naming a numeral: `#`, with
/// which a reference by number begins; `half;`; or `sup` or `frac` and a
/// digit, with which the names of the raised digits and of the fractions
/// begin. No other name of a reference stands for a numeral.
pub open spec fn names_numeral(s: Seq<char>, at: int) -> bool {
    ||| holds_at(s, at, seq!['#'])
    ||| holds_at(s, at, seq!['h', 'a', 'l', 'f', ';'])
    ||| holds_at(s, at, seq!['s', 'u', 'p']) && at + 3 < s.len() && is_digit(s[at + 3])
    ||| holds_at(s, at, seq!['f', 'r', 'a', 'c']) && at + 4 < s.len() && is_digit(s[at + 4])
}

/// Whether a reference may begin at `i` that stands for a numeral.
pub open spec fn is_risky_reference(s: Seq<char>, i: int) -> bool {
    0 <= i < s.len() && s[i] == '&' && names_numeral(s, name_start(s, i))
}

/// Whether nothing at position `i` of `s` stands in the way: no numeral
/// from outside ASCII, no reference that may stand for one, and no digit
/// that makes a run longer than [`DIGITS`].
pub open spec fn plain_at(s: Seq<char>, i: int) -> bool {
    &&& !is_foreign_numeral(s[i])
    &&& !is_risky_reference(s, i)
    &&& digits_before(s, i + 1) <= DIGITS
}

/// Whether the converter can be trusted with a text.
pub open spec fn plain(s: Seq<char>) -> bool {
    forall|i: int| 0 <= i < s.len() ==> plain_at(s, i)
}

/// Whether `c` is a digit of ASCII.
pub fn digit(c: char) -> (answer: bool)
    ensures
        answer == is_digit(c),
{
    '0' <= c && c <= '9'
}

/// Whether `word` stands in `text` from position `at` on.
pub fn word_at(text: &Vec<char>, at: usize, word: &Vec<char>) -> (stands: bool)
    ensures
        stands == holds_at(text@, at as int, word@),
{
    if at > text.len() || word.len() > text.len() - at {
        return false;
    }
    let mut k: usize = 0;
    while k < word.len()
        invariant
            k <= word.len(),
            at + word.len() <= text.len(),
            text@.subrange(at as int, at + k) == word@.take(k as int),
        decreases word.len() - k,
    {
        if text[at + k] != word[k] {
            assert(text@.subrange(at as int, at + word.len())[k as int] != word@[k as int]);
            return false;
        }
        assert(text@.subrange(at as int, at + k + 1) == text@.subrange(at as int, at + k).push(
            text@[at + k],
        ));
        assert(word@.take(k + 1) == word@.take(k as int).push(word@[k as int]));
        k += 1;
    }
    assert(word@.take(word.len() as int) == word@);
    true
}

/// Whether a reference may begin at `i` that stands for a numeral.
pub fn risky_reference_at(text: &Vec<char>, i: usize) -> (risky: bool)
    requires
        i < text.len(),
    ensures
        risky == is_risky_reference(text@, i as int),
{
    if text[i] != '&' {
        return false;
    }
    let amp = vec!['a', 'm', 'p', ';'];
    let number = vec!['#'];
    let half = vec!['h', 'a', 'l', 'f', ';'];
    let sup = vec!['s', 'u', 'p'];
    let frac = vec!['f', 'r', 'a', 'c'];
    proof {
        assert(amp@ == seq!['a', 'm', 'p', ';']);
        assert(number@ == seq!['#']);
        assert(half@ == seq!['h', 'a', 'l', 'f', ';']);
        assert(sup@ == seq!['s', 'u', 'p']);
        assert(frac@ == seq!['f', 'r', 'a', 'c']);
    }
    let at = if word_at(text, i + 1, &amp) {
        i + 5
    } else {
        i + 1
    };
    if word_at(text, at, &number) || word_at(text, at, &half) {
        return true;
    }
    if word_at(text, at, &sup) && at + 3 < text.len() && digit(text[at + 3]) {
        return true;
    }
    word_at(text, at, &frac) && at + 4 < text.len() && digit(text[at + 4])
}

/// Whether the converter can be trusted with `text`.
pub fn is_plain(text: &str) -> (answer: bool)
    ensures
        answer == plain(text@),
{
    let chars = chars_of(text);
    let mut run: u8 = 0;
    let mut i: usize = 0;
    while i < chars.len()
        invariant
            i <= chars.len(),
            chars@ == text@,
            run == digits_before(chars@, i as int),
            run <= DIGITS,
            forall|k: int| 0 <= k < i ==> plain_at(chars@, k),
        decreases chars.len() - i,
    {
        let c = chars[i];
        if digit(c) {
            if run >= DIGITS {
                assert(!plain_at(chars@, i as int));
                return false;
            }
            run += 1;
        } else {
            run = 0;
        }
        if (c as u32) > 0x7f && is_numeric(c) {
            assert(!plain_at(chars@, i as int));
            return false;
        }
        if risky_reference_at(&chars, i) {
            assert(!plain_at(chars@, i as int));
            return false;
        }
        i += 1;
    }
    true
}

} // verus!
