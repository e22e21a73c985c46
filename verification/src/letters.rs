//! Character classes of the syllable grammar: letters, blanks and vowels.
//!
//! What an ASCII character is, this module decides itself. For the rest of
//! Unicode it asks the standard library, whose tables are not verified here.

use vstd::prelude::*;

verus! {

/// Whether Unicode gives `c` the property `Alphabetic`, as
/// `char::is_alphabetic` reports it.
pub uninterp spec fn alphabetic(c: char) -> bool;

/// Whether Unicode gives `c` the property `White_Space`, as
/// `char::is_whitespace` reports it.
pub uninterp spec fn white_space(c: char) -> bool;

/// `char::is_alphabetic` of the standard library: it looks the character up
/// in the tables of the Unicode property `Alphabetic`. Nothing is claimed of
/// the answer but that it depends on the character alone.
pub assume_specification[ char::is_alphabetic ](c: char) -> (b: bool)
    ensures
        b == alphabetic(c),
;

/// `char::is_whitespace` of the standard library: it looks the character up
/// in the tables of the Unicode property `White_Space`. Nothing is claimed of
/// the answer but that it depends on the character alone.
pub assume_specification[ char::is_whitespace ](c: char) -> (b: bool)
    ensures
        b == white_space(c),
;

/// The last ASCII character.
pub const ASCII_MAX: char = '\x7f';

/// A character that may stand in the text of a syllable: an ASCII letter, or
/// a character beyond ASCII that Unicode calls alphabetic.
pub open spec fn is_letter(c: char) -> bool {
    if c <= ASCII_MAX {
        ('a' <= c && c <= 'z') || ('A' <= c && c <= 'Z')
    } else {
        alphabetic(c)
    }
}

/// A blank: tab, line feed, vertical tab, form feed, carriage return or
/// space, or a character beyond ASCII that Unicode calls white space.
pub open spec fn is_blank(c: char) -> bool {
    if c <= ASCII_MAX {
        c == ' ' || ('\t' <= c && c <= '\r')
    } else {
        white_space(c)
    }
}

/// The characters that count as vowels at the edge of a syllable. Case
/// matters: a capital letter is no vowel.
pub open spec fn is_vowel(c: char) -> bool {
    // Latin and the phonetic alphabet
    ||| c == 'a' || c == 'e' || c == 'i' || c == 'o' || c == 'u' || c == 'y'
    ||| c == 'ä' || c == 'æ' || c == 'ø' || c == 'œ'
    ||| c == 'ɐ' || c == 'ɑ' || c == 'ɒ' || c == 'ɔ' || c == 'ɘ' || c == 'ə'
    ||| c == 'ɛ' || c == 'ɜ' || c == 'ɞ' || c == 'ɤ' || c == 'ɨ' || c == 'ɪ'
    ||| c == 'ɯ' || c == 'ɵ' || c == 'ɶ' || c == 'ʉ' || c == 'ʊ' || c == 'ʌ'
    ||| c == 'ʏ'
    // Cyrillic
    ||| c == 'е' || c == 'и' || c == 'й' || c == 'э' || c == 'ю' || c == 'я'
    ||| c == 'ё' || c == 'і' || c == 'ѡ' || c == 'ѣ' || c == 'ѧ' || c == 'ѩ'
    ||| c == 'ѫ' || c == 'ѭ' || c == 'ѵ' || c == 'ꙙ' || c == 'ꙛ' || c == 'ꙝ'
}

/// Whether the character is a letter.
pub fn letter(c: char) -> (b: bool)
    ensures
        b == is_letter(c),
{
    if c <= ASCII_MAX {
        ('a' <= c && c <= 'z') || ('A' <= c && c <= 'Z')
    } else {
        c.is_alphabetic()
    }
}

/// Whether the character is a blank.
pub fn blank(c: char) -> (b: bool)
    ensures
        b == is_blank(c),
{
    if c <= ASCII_MAX {
        c == ' ' || ('\t' <= c && c <= '\r')
    } else {
        c.is_whitespace()
    }
}

/// Whether the character is a vowel.
pub fn vowel(c: char) -> (b: bool)
    ensures
        b == is_vowel(c),
{
    match c {
        'a' | 'e' | 'i' | 'o' | 'u' | 'y' => true,
        'ä' | 'æ' | 'ø' | 'œ' => true,
        'ɐ' | 'ɑ' | 'ɒ' | 'ɔ' | 'ɘ' | 'ə' => true,
        'ɛ' | 'ɜ' | 'ɞ' | 'ɤ' | 'ɨ' | 'ɪ' => true,
        'ɯ' | 'ɵ' | 'ɶ' | 'ʉ' | 'ʊ' | 'ʌ' | 'ʏ' => true,
        'е' | 'и' | 'й' | 'э' | 'ю' | 'я' => true,
        'ё' | 'і' | 'ѡ' | 'ѣ' | 'ѧ' | 'ѩ' => true,
        'ѫ' | 'ѭ' | 'ѵ' | 'ꙙ' | 'ꙛ' | 'ꙝ' => true,
        _ => false,
    }
}

/// The characters of a string, one element each.
pub fn chars_of(s: &str) -> (v: Vec<char>)
    ensures
        v@ == s@,
{
    let mut v: Vec<char> = Vec::new();
    for c in it: s.chars()
        invariant
            v@ == it.seq().take(it.index()),
    {
        v.push(c);
    }
    v
}

} // verus!
