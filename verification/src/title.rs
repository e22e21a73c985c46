//! Title case, as the `titlecase` crate writes it.

use vstd::prelude::*;

verus! {

/// The text in title case: what `titlecase::titlecase` returns for it.
pub uninterp spec fn titlecased(text: Seq<char>) -> Seq<char>;

/// `titlecase::titlecase`: it trims the text, capitalises its words after
/// the rules of the crate (small words, words with capitals inside, and
/// others are treated apart), and returns the new text. It reads nothing
/// but its argument; what it returns is only named here.
pub assume_specification[ titlecase::titlecase ](input: &str) -> (title: String)
    ensures
        title@ == titlecased(input@),
;

} // verus!
