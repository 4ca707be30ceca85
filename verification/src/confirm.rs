//! The answer to the confirmation prompt.

use vstd::prelude::*;

verus! {

/// What `str::trim` returns for `text`: the text without leading and trailing whitespace.
pub uninterp spec fn trimmed(text: Seq<char>) -> Seq<char>;

/// What `str::to_lowercase` returns for `text`: its lowercase equivalent.
pub uninterp spec fn lowercased(text: Seq<char>) -> Seq<char>;

/// `str::trim` removes leading and trailing whitespace, as Unicode defines it.
/// Trusted: the result depends on the text alone, and is what `trimmed` names.
pub assume_specification[ str::trim ](text: &str) -> (inner: &str)
    ensures
        inner@ == trimmed(text@),
;

/// `str::to_lowercase` maps a text to lowercase, as Unicode defines it.
/// Trusted: the result depends on the text alone, and is what `lowercased` names.
pub assume_specification[ str::to_lowercase ](text: &str) -> (lower: String)
    ensures
        lower@ == lowercased(text@),
;

/// The two words that confirm: `y` and `yes`.
pub open spec fn is_yes_word(word: Seq<char>) -> bool {
    word == seq!['y'] || word == seq!['y', 'e', 's']
}

/// Tells whether `word` is exactly `y` or `yes`.
pub fn is_yes(word: &str) -> (yes: bool)
    ensures
        yes == is_yes_word(word@),
{
    let length = word.unicode_len();
    if length == 1 {
        let yes = word.get_char(0) == 'y';
        assert(yes ==> word@ =~= seq!['y']);
        yes
    } else if length == 3 {
        let yes = word.get_char(0) == 'y' && word.get_char(1) == 'e' && word.get_char(2) == 's';
        assert(yes ==> word@ =~= seq!['y', 'e', 's']);
        yes
    } else {
        false
    }
}

/// Tells whether a line typed at the prompt confirms. Whitespace around the
/// answer and the case of its letters do not count; anything but `y` and `yes` declines.
pub fn is_affirmative(answer: &str) -> (yes: bool)
    ensures
        yes == is_yes_word(lowercased(trimmed(answer@))),
{
    let lower = answer.trim().to_lowercase();
    is_yes(lower.as_str())
}

} // verus!
