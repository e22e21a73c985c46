//! The adjacency capability of one edge of a syllable, as a set of flags.
//!
//! A `Joiner` does not know whether it describes the front or the back of a
//! syllable: the syllable that holds it decides that.

use vstd::prelude::*;
use vstd::string::StringExecFns;

verus! {

/// The edge exists and can take part in a join.
pub const SOME: u8 = 0b0000_0001;

/// The character at this edge is a vowel.
pub const VOWEL: u8 = 0b0000_0010;

/// The neighbouring edge must be a vowel.
pub const ONLY_VOWEL: u8 = 0b0000_0100;

/// The neighbouring edge must be a consonant.
pub const ONLY_CONSONANT: u8 = 0b0000_1000;

/// A set of edge flags, one bit each.
///
/// | bits | meaning                                   |
/// |------|-------------------------------------------|
/// | 1    | `SOME`                                    |
/// | 3    | `SOME \| VOWEL`                           |
/// | 5    | `SOME \| ONLY_VOWEL`                      |
/// | 7    | `SOME \| VOWEL \| ONLY_VOWEL`             |
/// | 9    | `SOME \| ONLY_CONSONANT`                  |
/// | 11   | `SOME \| VOWEL \| ONLY_CONSONANT`         |
#[derive(Clone, Copy, Debug, PartialEq, Eq, Hash, Structural)]
pub struct Joiner {
    pub bits: u8,
}

/// The binary numeral of `n`, most significant digit first, without leading
/// zeros (`0` itself is `"0"`).
pub open spec fn binary_digits(n: nat) -> Seq<char>
    decreases n,
{
    if n < 2 {
        seq![if n == 0 { '0' } else { '1' }]
    } else {
        binary_digits(n / 2).push(if n % 2 == 0 { '0' } else { '1' })
    }
}

impl Joiner {
    /// Every bit of `mask` is set in `self`.
    pub open spec fn has(self, mask: u8) -> bool {
        self.bits & mask == mask
    }

    /// The set that holds what `self` or `other` holds.
    pub open spec fn union(self, other: Joiner) -> Joiner {
        Joiner { bits: self.bits | other.bits }
    }

    /// `to` accepts `self` as its neighbour: `to` is an active edge, and what
    /// `to` demands of its neighbour agrees with the vowel flag of `self`.
    pub open spec fn joins_to_spec(&self, to: &Joiner) -> bool {
        &&& to.has(SOME)
        &&& !(self.has(VOWEL) && to.has(ONLY_CONSONANT))
        &&& !(!self.has(VOWEL) && to.has(ONLY_VOWEL))
    }

    /// Each of the two edges accepts the other.
    pub open spec fn joins_spec(&self, to: &Joiner) -> bool {
        self.joins_to_spec(to) && to.joins_to_spec(self)
    }

    /// The directive that a demand on the following syllable is written as.
    pub open spec fn value_next_spec(&self) -> Seq<char> {
        if self.has(ONLY_CONSONANT) {
            seq![' ', '+', 'c']
        } else if self.has(ONLY_VOWEL) {
            seq![' ', '+', 'v']
        } else {
            Seq::empty()
        }
    }

    /// The directive that a demand on the preceding syllable is written as.
    pub open spec fn value_previous_spec(&self) -> Seq<char> {
        if self.has(ONLY_CONSONANT) {
            seq![' ', '-', 'c']
        } else if self.has(ONLY_VOWEL) {
            seq![' ', '-', 'v']
        } else {
            Seq::empty()
        }
    }

    /// The empty set: an edge that joins nothing.
    #[allow(non_snake_case)]
    pub fn NONE() -> (r: Joiner)
        ensures
            r.bits == 0,
    {
        Joiner { bits: 0 }
    }

    /// The edge is there.
    #[allow(non_snake_case)]
    pub fn SOME() -> (r: Joiner)
        ensures
            r.bits == SOME,
    {
        Joiner { bits: SOME }
    }

    /// The character at the edge is a vowel.
    #[allow(non_snake_case)]
    pub fn VOWEL() -> (r: Joiner)
        ensures
            r.bits == VOWEL,
    {
        Joiner { bits: VOWEL }
    }

    /// The neighbour must be a vowel.
    #[allow(non_snake_case)]
    pub fn ONLY_VOWEL() -> (r: Joiner)
        ensures
            r.bits == ONLY_VOWEL,
    {
        Joiner { bits: ONLY_VOWEL }
    }

    /// The neighbour must be a consonant.
    #[allow(non_snake_case)]
    pub fn ONLY_CONSONANT() -> (r: Joiner)
        ensures
            r.bits == ONLY_CONSONANT,
    {
        Joiner { bits: ONLY_CONSONANT }
    }

    /// The flags as a number.
    pub fn bits(&self) -> (r: u8)
        ensures
            r == self.bits,
    {
        self.bits
    }

    /// Whether no flag is set.
    pub fn is_empty(&self) -> (r: bool)
        ensures
            r == (self.bits == 0),
    {
        self.bits == 0
    }

    /// Whether every flag of `other` is set.
    pub fn contains(&self, other: Joiner) -> (r: bool)
        ensures
            r == self.has(other.bits),
    {
        self.bits & other.bits == other.bits
    }

    /// Whether the two edges may stand next to each other. Both must agree:
    /// one direction alone does not settle it.
    #[verifier::when_used_as_spec(joins_spec)]
    pub fn joins(&self, to: &Joiner) -> (r: bool)
        ensures
            r == self.joins_spec(to),
    {
        let can_to = self.joins_to(to);
        let can_from = to.joins_to(self);
        can_to && can_from
    }

    /// Whether `to` accepts `self` as its neighbour.
    #[verifier::when_used_as_spec(joins_to_spec)]
    pub fn joins_to(&self, to: &Joiner) -> (r: bool)
        ensures
            r == self.joins_to_spec(to),
    {
        if to.is_empty() {
            proof {
                lemma_empty_has_nothing(SOME);
            }
            false
        } else if !to.contains(Joiner::SOME()) {
            false
        } else if self.contains(Joiner::VOWEL()) && to.contains(Joiner::ONLY_CONSONANT()) {
            false
        } else if !self.contains(Joiner::VOWEL()) && to.contains(Joiner::ONLY_VOWEL()) {
            false
        } else {
            true
        }
    }

    /// The directive that a demand on the following syllable is written as.
    pub fn value_next(&self) -> (s: String)
        ensures
            s@ == self.value_next_spec(),
    {
        proof {
            reveal_strlit(" +c");
            reveal_strlit(" +v");
            reveal_strlit("");
        }
        if self.contains(Joiner::ONLY_CONSONANT()) {
            String::from_str(" +c")
        } else if self.contains(Joiner::ONLY_VOWEL()) {
            String::from_str(" +v")
        } else {
            String::from_str("")
        }
    }

    /// The directive that a demand on the preceding syllable is written as.
    pub fn value_previous(&self) -> (s: String)
        ensures
            s@ == self.value_previous_spec(),
    {
        proof {
            reveal_strlit(" -c");
            reveal_strlit(" -v");
            reveal_strlit("");
        }
        if self.contains(Joiner::ONLY_CONSONANT()) {
            String::from_str(" -c")
        } else if self.contains(Joiner::ONLY_VOWEL()) {
            String::from_str(" -v")
        } else {
            String::from_str("")
        }
    }

    /// The flags as a binary numeral.
    pub fn to_string(&self) -> (s: String)
        ensures
            s@ == binary_digits(self.bits as nat),
    {
        binary_numeral(self.bits)
    }
}

fn binary_numeral(n: u8) -> (s: String)
    ensures
        s@ == binary_digits(n as nat),
    decreases n,
{
    proof {
        reveal_strlit("0");
        reveal_strlit("1");
    }
    let digit = if n % 2 == 0 { "0" } else { "1" };
    if n < 2 {
        String::from_str(digit)
    } else {
        let mut s = binary_numeral(n / 2);
        s.append(digit);
        s
    }
}

impl vstd::std_specs::ops::BitOrSpecImpl for Joiner {
    open spec fn obeys_bitor_spec() -> bool {
        true
    }

    open spec fn bitor_req(self, rhs: Joiner) -> bool {
        true
    }

    open spec fn bitor_spec(self, rhs: Joiner) -> Joiner {
        self.union(rhs)
    }
}

impl core::ops::BitOr for Joiner {
    type Output = Joiner;

    fn bitor(self, rhs: Joiner) -> (r: Joiner)
        ensures
            r == self.union(rhs),
    {
        Joiner { bits: self.bits | rhs.bits }
    }
}

/// The empty set holds no flag.
pub proof fn lemma_empty_has_nothing(mask: u8)
    requires
        mask != 0,
    ensures
        !(Joiner { bits: 0 }).has(mask),
{
    assert(0u8 & mask == 0u8) by (bit_vector);
}

/// Joining is symmetric: whether two edges join does not depend on which of
/// them is asked.
pub proof fn lemma_joins_symmetric(a: Joiner, b: Joiner)
    ensures
        a.joins(&b) == b.joins(&a),
{
}

/// Nothing joins the empty set, and the empty set joins nothing.
pub proof fn lemma_none_never_joins(x: Joiner)
    ensures
        !x.joins(&Joiner { bits: 0 }),
        !(Joiner { bits: 0 }).joins(&x),
{
    lemma_empty_has_nothing(SOME);
}

/// An edge without `SOME` joins nothing, whatever else it holds.
pub proof fn lemma_joins_needs_some(a: Joiner, b: Joiner)
    ensures
        a.joins(&b) ==> a.has(SOME) && b.has(SOME),
{
}

} // verus!
