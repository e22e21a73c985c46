//! Random names from the syllables of a language.
//!
//! A language is a list of syllables. Each syllable has a place in a name
//! (at the start, in the middle, at the end) and may say what it wants next
//! to it: a vowel, a consonant, or anything. A name is a chain of syllables
//! in which each one joins the next.
//!
//! ```text
//! let rng = RNG::classify("-a\nb\n+c", "Min".to_string());
//! let name = rng.generate_name_by_count(3);   // Ok("Abc")
//! ```
//!
//! The modules, from the leaves up:
//!
//! * `letters`: which characters are letters, blanks and vowels;
//! * `rng_joiner`: the flags of one edge of a syllable, and when two edges
//!   join;
//! * `rng_syllable`: a syllable, and the grammar of the line that declares
//!   it;
//! * `round_trip`: a syllable that is written and read again is the same;
//! * `rng_syllables`: a collection of syllables;
//! * `lines`: the lines of a text;
//! * `chance`: the source of random numbers;
//! * `rng_weighted_rnd`: how many syllables a name gets;
//! * `title`: title case;
//! * `language`: the languages that have a name;
//! * `name_generator`: a language and the assembly of names.

pub mod chance;
pub mod language;
pub mod letters;
pub mod lines;
pub mod name_generator;
pub mod rng_joiner;
pub mod rng_syllable;
pub mod rng_syllables;
pub mod rng_weighted_rnd;
pub mod round_trip;
pub mod title;

pub use crate::chance::RandomSource;
pub use crate::language::BadLanguage;
pub use crate::language::Language;
pub use crate::name_generator::RNGError;
pub use crate::name_generator::RNG;
pub use crate::rng_joiner::Joiner;
pub use crate::rng_syllable::BadSyllable;
pub use crate::rng_syllable::Classification;
pub use crate::rng_syllable::Syllable;
pub use crate::rng_syllables::Syllables;
pub use crate::rng_weighted_rnd::WeightedRnd;
pub use crate::rng_weighted_rnd::NORMAL_WEIGHT;
pub use crate::rng_weighted_rnd::SHORT_WEIGHT;
