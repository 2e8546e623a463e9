//! The form of a guess.

use vstd::prelude::*;
use vstd::string::StrSliceExecFns;
use crate::session::WORD_LENGTH;

verus! {

/// What `char::is_lowercase` says of a character: whether it has the
/// Unicode property `Lowercase`.
pub uninterp spec fn is_lowercase(c: char) -> bool;

/// Claimed of `char::is_lowercase`: its answer depends on the character
/// alone, and is what [`is_lowercase`] stands for. Nothing is claimed of
/// which characters are lowercase.
pub assume_specification[ char::is_lowercase ](c: char) -> (lower: bool)
    ensures
        lower == is_lowercase(c),
;

/// A guess is well formed when it has [`WORD_LENGTH`] characters and each
/// of them is lowercase. The length is counted in characters, whatever
/// number of bytes they take.
pub open spec fn is_valid_word(word: Seq<char>) -> bool {
    &&& word.len() == WORD_LENGTH
    &&& forall|i: int| 0 <= i < word.len() ==> is_lowercase(#[trigger] word[i])
}

/// Tells whether `word` is a well-formed guess.
pub fn valid_word(word: &str) -> (valid: bool)
    ensures
        valid == is_valid_word(word@),
{
    if word.unicode_len() != WORD_LENGTH {
        return false;
    }
    let mut i: usize = 0;
    while i < WORD_LENGTH
        invariant
            word@.len() == WORD_LENGTH,
            i <= WORD_LENGTH,
            forall|j: int| 0 <= j < i ==> is_lowercase(#[trigger] word@[j]),
        decreases WORD_LENGTH - i,
    {
        if !word.get_char(i).is_lowercase() {
            return false;
        }
        i += 1;
    }
    true
}

} // verus!
