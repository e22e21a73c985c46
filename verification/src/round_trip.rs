//! Writing a syllable and reading it back.
//!
//! Every syllable that a line declares is written as a line of the grammar,
//! and that line declares the same syllable again.

use vstd::prelude::*;

use crate::letters::is_letter;
use crate::letters::is_vowel;
use crate::rng_joiner::ONLY_CONSONANT;
use crate::rng_joiner::ONLY_VOWEL;
use crate::rng_joiner::SOME;
use crate::rng_joiner::VOWEL;
use crate::rng_syllable::classification_of;
use crate::rng_syllable::demand;
use crate::rng_syllable::demand_in;
use crate::rng_syllable::edge;
use crate::rng_syllable::is_line;
use crate::rng_syllable::is_sign;
use crate::rng_syllable::is_syllable;
use crate::rng_syllable::is_tail;
use crate::rng_syllable::lemma_blanks_end_is;
use crate::rng_syllable::lemma_letters_end;
use crate::rng_syllable::lemma_letters_end_is;
use crate::rng_syllable::marker_len;
use crate::rng_syllable::marker_of;
use crate::rng_syllable::parsed;
use crate::rng_syllable::rendered;
use crate::rng_syllable::tail_of;
use crate::rng_syllable::tail_start;
use crate::rng_syllable::value_end;
use crate::rng_syllable::value_of;
use crate::rng_syllable::SyllableView;

verus! {

/// The six joiners that an edge can have, by their bits.
pub proof fn lemma_edge_bits()
    ensures
        edge(false, 0).bits == 1,
        edge(true, 0).bits == 3,
        edge(false, ONLY_VOWEL).bits == 5,
        edge(true, ONLY_VOWEL).bits == 7,
        edge(false, ONLY_CONSONANT).bits == 9,
        edge(true, ONLY_CONSONANT).bits == 11,
{
    assert(1u8 | 1u8 | 0u8 == 1u8) by (bit_vector);
    assert(1u8 | 2u8 | 0u8 == 3u8) by (bit_vector);
    assert(1u8 | 1u8 | 4u8 == 5u8) by (bit_vector);
    assert(1u8 | 2u8 | 4u8 == 7u8) by (bit_vector);
    assert(1u8 | 1u8 | 8u8 == 9u8) by (bit_vector);
    assert(1u8 | 2u8 | 8u8 == 11u8) by (bit_vector);
}

/// An edge holds `SOME`, its vowel flag as given, and its demand and no
/// other.
pub proof fn lemma_edge_flags(vowel: bool, d: u8)
    requires
        d == 0 || d == ONLY_VOWEL || d == ONLY_CONSONANT,
    ensures
        edge(vowel, d).has(SOME),
        edge(vowel, d).has(VOWEL) == vowel,
        edge(vowel, d).has(ONLY_VOWEL) == (d == ONLY_VOWEL),
        edge(vowel, d).has(ONLY_CONSONANT) == (d == ONLY_CONSONANT),
        demand_in(edge(vowel, d)) == d,
{
    lemma_edge_bits();
    assert(1u8 & 1u8 == 1u8 && 1u8 & 2u8 == 0u8 && 1u8 & 4u8 == 0u8 && 1u8 & 8u8 == 0u8)
        by (bit_vector);
    assert(3u8 & 1u8 == 1u8 && 3u8 & 2u8 == 2u8 && 3u8 & 4u8 == 0u8 && 3u8 & 8u8 == 0u8)
        by (bit_vector);
    assert(5u8 & 1u8 == 1u8 && 5u8 & 2u8 == 0u8 && 5u8 & 4u8 == 4u8 && 5u8 & 8u8 == 0u8)
        by (bit_vector);
    assert(7u8 & 1u8 == 1u8 && 7u8 & 2u8 == 2u8 && 7u8 & 4u8 == 4u8 && 7u8 & 8u8 == 0u8)
        by (bit_vector);
    assert(9u8 & 1u8 == 1u8 && 9u8 & 2u8 == 0u8 && 9u8 & 4u8 == 0u8 && 9u8 & 8u8 == 8u8)
        by (bit_vector);
    assert(11u8 & 1u8 == 1u8 && 11u8 & 2u8 == 2u8 && 11u8 & 4u8 == 0u8 && 11u8 & 8u8 == 8u8)
        by (bit_vector);
}

/// What a line declares is a syllable: letters only, at least one, and two
/// joiners of the canonical form.
pub proof fn lemma_parsed_is_syllable(raw: Seq<char>)
    requires
        is_line(raw),
    ensures
        is_syllable(parsed(raw)),
{
    let v = parsed(raw);
    lemma_letters_end(raw, marker_len(raw));
    assert forall|i: int| 0 <= i < v.value.len() implies is_letter(#[trigger] v.value[i]) by {
        assert(v.value[i] == raw[marker_len(raw) + i]);
    }
    lemma_edge_flags(is_vowel(v.value.first()), demand(tail_of(raw), '-'));
    lemma_edge_flags(is_vowel(v.value.last()), demand(tail_of(raw), '+'));
}

/// A syllable is written as a line of the grammar, and that line declares
/// the syllable.
pub proof fn lemma_rendered_parses_back(v: SyllableView)
    requires
        is_syllable(v),
    ensures
        is_line(rendered(v)),
        parsed(rendered(v)) == v,
{
    let marker = marker_of(v.classification);
    let directives = v.jprevious.value_previous_spec() + v.jnext.value_next_spec();
    let line = rendered(v);
    let start = marker.len() as int;
    let end = start + v.value.len();
    lemma_edge_flags(is_vowel(v.value.first()), demand_in(v.jprevious));
    lemma_edge_flags(is_vowel(v.value.last()), demand_in(v.jnext));

    // The marker is read as it was written: the first letter is no sign.
    assert(line.subrange(0, start) =~= marker);

    // The letters end where they ended: a blank follows them, or nothing.
    assert forall|i: int| start <= i < end implies is_letter(#[trigger] line[i]) by {
        assert(line[i] == v.value[i - start]);
    }
    lemma_letters_end_is(line, start, end);
    assert(value_of(line) =~= v.value);

    // One blank follows at most, and a sign behind it.
    if directives.len() == 0 {
        lemma_blanks_end_is(line, end, end);
    } else {
        lemma_blanks_end_is(line, end, end + 1);
        assert(tail_of(line) =~= directives.subrange(1, directives.len() as int));
    }
}

/// Reading a line, writing the syllable and reading what was written gives
/// the syllable that the line declared.
pub proof fn lemma_parse_render_round_trip(raw: Seq<char>)
    requires
        is_line(raw),
    ensures
        is_line(rendered(parsed(raw))),
        parsed(rendered(parsed(raw))) == parsed(raw),
{
    lemma_parsed_is_syllable(raw);
    lemma_rendered_parses_back(parsed(raw));
}

/// Writing is stable: what a written syllable declares is written in the
/// same way again.
pub proof fn lemma_render_is_idempotent(raw: Seq<char>)
    requires
        is_line(raw),
    ensures
        rendered(parsed(rendered(parsed(raw)))) == rendered(parsed(raw)),
{
    lemma_parse_render_round_trip(raw);
}

} // verus!
