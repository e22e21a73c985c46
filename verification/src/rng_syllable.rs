//! One syllable of a language, and the grammar of the line that declares it.
//!
//! A line is an optional marker (`-` for a prefix, `+` for a suffix), the
//! letters of the syllable, blanks, and up to two directives:
//!
//! * `+v`: the next syllable must start with a vowel,
//! * `+c`: the next syllable must start with a consonant,
//! * `-v`: the previous syllable must end with a vowel,
//! * `-c`: the previous syllable must end with a consonant.
//!
//! The directives may come in either order and in either case. Where a line
//! asks for both a vowel and a consonant on the same side, the vowel wins.

use vstd::prelude::*;
use vstd::std_specs::cmp::PartialEqSpecImpl;
use vstd::string::StrSliceExecFns;
use vstd::string::StringExecFns;

use crate::letters::blank;
use crate::letters::chars_of;
use crate::letters::is_blank;
use crate::letters::is_letter;
use crate::letters::is_vowel;
use crate::letters::letter;
use crate::letters::vowel;
use crate::rng_joiner::Joiner;
use crate::rng_joiner::ONLY_CONSONANT;
use crate::rng_joiner::ONLY_VOWEL;
use crate::rng_joiner::SOME;
use crate::rng_joiner::VOWEL;
use crate::round_trip::lemma_parsed_is_syllable;

verus! {

/// Where in a name a syllable may stand.
#[derive(Clone, Copy, Debug, PartialEq, Eq, Structural)]
pub enum Classification {
    Prefix,
    Center,
    Suffix,
}

/// The answer to a line that is not in the grammar.
#[derive(Clone, Copy, Debug, PartialEq, Eq, Structural)]
pub struct BadSyllable;

/// A syllable: its text, its place in a name, and what its two edges join.
#[derive(Debug)]
pub struct Syllable {
    pub value: String,
    pub classification: Classification,
    pub jprevious: Joiner,
    pub jnext: Joiner,
}

/// A syllable as a mathematical value.
pub struct SyllableView {
    pub value: Seq<char>,
    pub classification: Classification,
    pub jprevious: Joiner,
    pub jnext: Joiner,
}

impl View for Syllable {
    type V = SyllableView;

    open spec fn view(&self) -> SyllableView {
        SyllableView {
            value: self.value@,
            classification: self.classification,
            jprevious: self.jprevious,
            jnext: self.jnext,
        }
    }
}

// ---------------------------------------------------------------------------
// The grammar of a line
// ---------------------------------------------------------------------------

/// The end of the run of letters that starts at `from`: the first position at
/// or after `from` that holds no letter.
pub open spec fn letters_end(s: Seq<char>, from: int) -> int
    decreases s.len() - from,
{
    if 0 <= from < s.len() && is_letter(s[from]) {
        letters_end(s, from + 1)
    } else {
        from
    }
}

/// The end of the run of blanks that starts at `from`.
pub open spec fn blanks_end(s: Seq<char>, from: int) -> int
    decreases s.len() - from,
{
    if 0 <= from < s.len() && is_blank(s[from]) {
        blanks_end(s, from + 1)
    } else {
        from
    }
}

/// The two signs: `-` looks back, `+` looks ahead.
pub open spec fn is_sign(c: char) -> bool {
    c == '-' || c == '+'
}

/// The letter of a directive that asks for a vowel (`vowel`) or for a
/// consonant, in either case.
pub open spec fn is_kind(c: char, vowel: bool) -> bool {
    if vowel {
        c == 'v' || c == 'V'
    } else {
        c == 'c' || c == 'C'
    }
}

/// A sign and the letter of a kind make a directive.
pub open spec fn is_directive(sign: char, kind: char) -> bool {
    is_sign(sign) && (is_kind(kind, true) || is_kind(kind, false))
}

/// The length of the marker that opens the line: 1 or 0.
pub open spec fn marker_len(s: Seq<char>) -> int {
    if s.len() > 0 && is_sign(s[0]) {
        1
    } else {
        0
    }
}

/// Where the letters of the line end.
pub open spec fn value_end(s: Seq<char>) -> int {
    letters_end(s, marker_len(s))
}

/// Where the directives of the line start: behind the blanks that follow the
/// letters.
pub open spec fn tail_start(s: Seq<char>) -> int {
    blanks_end(s, value_end(s))
}

/// What stands behind the letters and their blanks.
pub open spec fn tail_of(s: Seq<char>) -> Seq<char> {
    s.subrange(tail_start(s), s.len() as int)
}

/// The forms a tail may have: nothing; one directive, with or without one
/// blank behind it; two directives, with or without one blank between them.
pub open spec fn is_tail(t: Seq<char>) -> bool {
    ||| t.len() == 0
    ||| t.len() == 2 && is_directive(t[0], t[1])
    ||| t.len() == 3 && is_directive(t[0], t[1]) && is_blank(t[2])
    ||| t.len() == 4 && is_directive(t[0], t[1]) && is_directive(t[2], t[3])
    ||| t.len() == 5 && is_directive(t[0], t[1]) && is_blank(t[2]) && is_directive(t[3], t[4])
}

/// The line is in the grammar: it has at least one letter, and what follows
/// the letters is a tail.
pub open spec fn is_line(s: Seq<char>) -> bool {
    value_end(s) > marker_len(s) && is_tail(tail_of(s))
}

/// The place that a marker stands for. Anything but a lone `-` or `+` is the
/// marker of a center.
pub open spec fn marker_class(m: Seq<char>) -> Classification {
    if m == seq!['-'] {
        Classification::Prefix
    } else if m == seq!['+'] {
        Classification::Suffix
    } else {
        Classification::Center
    }
}

/// The place that the line declares.
pub open spec fn classification_of(s: Seq<char>) -> Classification {
    marker_class(s.subrange(0, marker_len(s)))
}

/// The letters that the line declares.
pub open spec fn value_of(s: Seq<char>) -> Seq<char> {
    s.subrange(marker_len(s), value_end(s))
}

/// The tail holds a directive with this sign and of this kind. In a tail the
/// directives stand at its start and at its end.
pub open spec fn asks(t: Seq<char>, sign: char, vowel: bool) -> bool {
    ||| t.len() >= 2 && t[0] == sign && is_kind(t[1], vowel)
    ||| t.len() >= 4 && t[t.len() - 2] == sign && is_kind(t[t.len() - 1], vowel)
}

/// What the tail demands of the neighbour on the side of `sign`.
pub open spec fn demand(t: Seq<char>, sign: char) -> u8 {
    if asks(t, sign, true) {
        ONLY_VOWEL
    } else if asks(t, sign, false) {
        ONLY_CONSONANT
    } else {
        0
    }
}

/// The joiner of an edge whose own character is a vowel or not, and which
/// makes this demand.
pub open spec fn edge(vowel: bool, demand: u8) -> Joiner {
    Joiner { bits: SOME | (if vowel { VOWEL } else { SOME }) | demand }
}

/// What the syllable of the line joins at its start.
pub open spec fn previous_joiner_of(s: Seq<char>) -> Joiner {
    edge(is_vowel(value_of(s).first()), demand(tail_of(s), '-'))
}

/// What the syllable of the line joins at its end.
pub open spec fn next_joiner_of(s: Seq<char>) -> Joiner {
    edge(is_vowel(value_of(s).last()), demand(tail_of(s), '+'))
}

/// The syllable that a line of the grammar declares.
pub open spec fn parsed(s: Seq<char>) -> SyllableView {
    SyllableView {
        value: value_of(s),
        classification: classification_of(s),
        jprevious: previous_joiner_of(s),
        jnext: next_joiner_of(s),
    }
}

/// The marker that a place is written as.
pub open spec fn marker_of(c: Classification) -> Seq<char> {
    match c {
        Classification::Prefix => seq!['-'],
        Classification::Suffix => seq!['+'],
        Classification::Center => Seq::empty(),
    }
}

/// The line that a syllable is written as: marker, letters, the directive
/// for the previous syllable, the directive for the next one.
pub open spec fn rendered(v: SyllableView) -> Seq<char> {
    marker_of(v.classification) + v.value + v.jprevious.value_previous_spec()
        + v.jnext.value_next_spec()
}

/// The demand that a joiner is written with.
pub open spec fn demand_in(j: Joiner) -> u8 {
    if j.has(ONLY_CONSONANT) {
        ONLY_CONSONANT
    } else if j.has(ONLY_VOWEL) {
        ONLY_VOWEL
    } else {
        0
    }
}

/// What holds of every syllable that a line declares: it has letters and
/// nothing else, and each joiner is the one of its edge: active, with the
/// vowel flag of the character at that edge, and with at most one demand.
pub open spec fn is_syllable(v: SyllableView) -> bool {
    &&& v.value.len() > 0
    &&& forall|i: int| 0 <= i < v.value.len() ==> is_letter(#[trigger] v.value[i])
    &&& v.jprevious == edge(is_vowel(v.value.first()), demand_in(v.jprevious))
    &&& v.jnext == edge(is_vowel(v.value.last()), demand_in(v.jnext))
}

/// `letters_end` is the one position that ends a run of letters.
pub proof fn lemma_letters_end(s: Seq<char>, from: int)
    requires
        0 <= from <= s.len(),
    ensures
        from <= letters_end(s, from) <= s.len(),
        forall|i: int| from <= i < letters_end(s, from) ==> is_letter(#[trigger] s[i]),
        letters_end(s, from) < s.len() ==> !is_letter(s[letters_end(s, from)]),
    decreases s.len() - from,
{
    if from < s.len() && is_letter(s[from]) {
        lemma_letters_end(s, from + 1);
    }
}

/// A position that ends a run of letters is `letters_end`.
pub proof fn lemma_letters_end_is(s: Seq<char>, from: int, end: int)
    requires
        0 <= from <= end <= s.len(),
        forall|i: int| from <= i < end ==> is_letter(#[trigger] s[i]),
        end < s.len() ==> !is_letter(s[end]),
    ensures
        letters_end(s, from) == end,
    decreases end - from,
{
    if from < end {
        lemma_letters_end_is(s, from + 1, end);
    }
}

/// A position that ends a run of blanks is `blanks_end`.
pub proof fn lemma_blanks_end_is(s: Seq<char>, from: int, end: int)
    requires
        0 <= from <= end <= s.len(),
        forall|i: int| from <= i < end ==> is_blank(#[trigger] s[i]),
        end < s.len() ==> !is_blank(s[end]),
    ensures
        blanks_end(s, from) == end,
    decreases end - from,
{
    if from < end {
        lemma_blanks_end_is(s, from + 1, end);
    }
}

// ---------------------------------------------------------------------------
// Reading a line
// ---------------------------------------------------------------------------

/// The three cuts of a line: where its letters start, where they end, and
/// where its tail starts.
struct Cuts {
    start: usize,
    end: usize,
    tail: usize,
}

fn skip_letters(cs: &Vec<char>, from: usize) -> (end: usize)
    requires
        from <= cs.len(),
    ensures
        end == letters_end(cs@, from as int),
        from <= end <= cs.len(),
{
    let mut i = from;
    while i < cs.len() && letter(cs[i])
        invariant
            from <= i <= cs.len(),
            letters_end(cs@, from as int) == letters_end(cs@, i as int),
        decreases cs.len() - i,
    {
        i += 1;
    }
    i
}

fn skip_blanks(cs: &Vec<char>, from: usize) -> (end: usize)
    requires
        from <= cs.len(),
    ensures
        end == blanks_end(cs@, from as int),
        from <= end <= cs.len(),
{
    let mut i = from;
    while i < cs.len() && blank(cs[i])
        invariant
            from <= i <= cs.len(),
            blanks_end(cs@, from as int) == blanks_end(cs@, i as int),
        decreases cs.len() - i,
    {
        i += 1;
    }
    i
}

fn sign(c: char) -> (b: bool)
    ensures
        b == is_sign(c),
{
    c == '-' || c == '+'
}

fn kind(c: char, vowel: bool) -> (b: bool)
    ensures
        b == is_kind(c, vowel),
{
    if vowel {
        c == 'v' || c == 'V'
    } else {
        c == 'c' || c == 'C'
    }
}

fn directive(sign_char: char, kind_char: char) -> (b: bool)
    ensures
        b == is_directive(sign_char, kind_char),
{
    sign(sign_char) && (kind(kind_char, true) || kind(kind_char, false))
}

fn cut(cs: &Vec<char>) -> (cuts: Cuts)
    ensures
        cuts.start == marker_len(cs@),
        cuts.end == value_end(cs@),
        cuts.tail == tail_start(cs@),
        cuts.start <= cuts.end <= cuts.tail <= cs.len(),
{
    let start: usize = if cs.len() > 0 && sign(cs[0]) { 1 } else { 0 };
    let end = skip_letters(cs, start);
    let tail = skip_blanks(cs, end);
    Cuts { start, end, tail }
}

fn tail_is_valid(cs: &Vec<char>, from: usize) -> (b: bool)
    requires
        from <= cs.len(),
    ensures
        b == is_tail(cs@.subrange(from as int, cs.len() as int)),
{
    let n = cs.len() - from;
    if n == 0 {
        true
    } else if n == 2 {
        directive(cs[from], cs[from + 1])
    } else if n == 3 {
        directive(cs[from], cs[from + 1]) && blank(cs[from + 2])
    } else if n == 4 {
        directive(cs[from], cs[from + 1]) && directive(cs[from + 2], cs[from + 3])
    } else if n == 5 {
        directive(cs[from], cs[from + 1]) && blank(cs[from + 2]) && directive(
            cs[from + 3],
            cs[from + 4],
        )
    } else {
        false
    }
}

fn tail_asks(cs: &Vec<char>, from: usize, sign_char: char, vowel: bool) -> (b: bool)
    requires
        from <= cs.len(),
    ensures
        b == asks(cs@.subrange(from as int, cs.len() as int), sign_char, vowel),
{
    let n = cs.len() - from;
    let last = cs.len();
    (n >= 2 && cs[from] == sign_char && kind(cs[from + 1], vowel)) || (n >= 4 && cs[last - 2]
        == sign_char && kind(cs[last - 1], vowel))
}

/// The side of `sign_char` has a directive in the tail.
spec fn has_directive(t: Seq<char>, sign_char: char) -> bool {
    asks(t, sign_char, true) || asks(t, sign_char, false)
}

/// The demand of the directives on one side of a tail that has one there:
/// for a vowel where one of them asks for it, else for a consonant.
fn vowel_or_consonant_only_joiner(cs: &Vec<char>, from: usize, sign_char: char) -> (j: Joiner)
    requires
        from <= cs.len(),
        has_directive(cs@.subrange(from as int, cs.len() as int), sign_char),
    ensures
        j.bits == demand(cs@.subrange(from as int, cs.len() as int), sign_char),
{
    if tail_asks(cs, from, sign_char, true) {
        Joiner::ONLY_VOWEL()
    } else {
        Joiner::ONLY_CONSONANT()
    }
}

/// The joiner of one edge of the syllable whose line was cut at `from`: the
/// edge is there, it has the vowel flag of its own character, and it makes
/// the demand of the directives on its side.
fn edge_joiner(cs: &Vec<char>, from: usize, sign_char: char, is_vowel: bool) -> (j: Joiner)
    requires
        from <= cs.len(),
    ensures
        j == edge(is_vowel, demand(cs@.subrange(from as int, cs.len() as int), sign_char)),
{
    let own = if is_vowel { Joiner::VOWEL() } else { Joiner::SOME() };
    if tail_asks(cs, from, sign_char, true) || tail_asks(cs, from, sign_char, false) {
        Joiner::SOME() | own | vowel_or_consonant_only_joiner(cs, from, sign_char)
    } else {
        proof {
            assert((SOME | own.bits) | 0u8 == SOME | own.bits) by (bit_vector);
        }
        Joiner::SOME() | own
    }
}

impl Syllable {
    /// Reads one line of a language file.
    ///
    /// Succeeds exactly on the lines of the grammar, and then gives the
    /// syllable that the line declares.
    pub fn new(raw: &str) -> (res: Result<Syllable, BadSyllable>)
        ensures
            res is Ok <==> is_line(raw@),
            res matches Ok(syllable) ==> syllable@ == parsed(raw@) && is_syllable(syllable@),
    {
        if Syllable::accepts(raw) {
            proof {
                lemma_parsed_is_syllable(raw@);
            }
            let (classification, value) = Syllable::classify(raw);
            let syllable = Syllable {
                value,
                classification,
                jnext: Syllable::determine_next_joiner(raw),
                jprevious: Syllable::determine_previous_joiner(raw),
            };
            Ok(syllable)
        } else {
            Err(BadSyllable)
        }
    }

    /// The place that a marker stands for.
    pub fn determine_classification(s: &str) -> (c: Classification)
        ensures
            c == marker_class(s@),
    {
        if s.unicode_len() == 1 {
            let c = s.get_char(0);
            assert(s@ =~= seq![c]);
            if c == '-' {
                Classification::Prefix
            } else if c == '+' {
                Classification::Suffix
            } else {
                Classification::Center
            }
        } else {
            Classification::Center
        }
    }

    /// Whether the line is in the grammar.
    pub fn accepts(raw: &str) -> (b: bool)
        ensures
            b == is_line(raw@),
    {
        let cs = chars_of(raw);
        let cuts = cut(&cs);
        cuts.end > cuts.start && tail_is_valid(&cs, cuts.tail)
    }

    /// The place and the letters that a line of the grammar declares.
    pub fn classify(raw: &str) -> (res: (Classification, String))
        requires
            is_line(raw@),
        ensures
            res.0 == classification_of(raw@),
            res.1@ == value_of(raw@),
    {
        let cs = chars_of(raw);
        let cuts = cut(&cs);
        let marker = raw.substring_char(0, cuts.start);
        let text = raw.substring_char(cuts.start, cuts.end);
        (Syllable::determine_classification(marker), String::from_str(text))
    }

    /// What the syllable of a line of the grammar joins at its end.
    pub fn determine_next_joiner(s: &str) -> (j: Joiner)
        requires
            is_line(s@),
        ensures
            j == next_joiner_of(s@),
    {
        let cs = chars_of(s);
        let cuts = cut(&cs);
        let ends = vowel(cs[cuts.end - 1]);
        edge_joiner(&cs, cuts.tail, '+', ends)
    }

    /// What the syllable of a line of the grammar joins at its start.
    pub fn determine_previous_joiner(s: &str) -> (j: Joiner)
        requires
            is_line(s@),
        ensures
            j == previous_joiner_of(s@),
    {
        let cs = chars_of(s);
        let cuts = cut(&cs);
        let starts = vowel(cs[cuts.start]);
        edge_joiner(&cs, cuts.tail, '-', starts)
    }

    /// Whether the last letter is a vowel. The syllable must have letters.
    pub fn ends_with_vowel(&self) -> (b: bool)
        requires
            self.value@.len() > 0,
        ensures
            b == is_vowel(self.value@.last()),
    {
        Syllable::str_ends_with_vowel(self.value.as_str())
    }

    /// Whether the last character is a vowel. There must be one.
    pub fn str_ends_with_vowel(s: &str) -> (b: bool)
        requires
            s@.len() > 0,
        ensures
            b == is_vowel(s@.last()),
    {
        let n = s.unicode_len();
        vowel(s.get_char(n - 1))
    }

    /// Whether the first letter is a vowel. The syllable must have letters.
    pub fn starts_with_vowel(&self) -> (b: bool)
        requires
            self.value@.len() > 0,
        ensures
            b == is_vowel(self.value@.first()),
    {
        Syllable::str_starts_with_vowel(self.value.as_str())
    }

    /// Whether the first character is a vowel. There must be one.
    pub fn str_starts_with_vowel(s: &str) -> (b: bool)
        requires
            s@.len() > 0,
        ensures
            b == is_vowel(s@.first()),
    {
        vowel(s.get_char(0))
    }

    /// Whether `syllable` may follow `self` in a name.
    pub fn connects(&self, syllable: &Syllable) -> (b: bool)
        ensures
            b == self.jnext.joins(&syllable.jprevious),
    {
        self.jnext.joins(&syllable.jprevious)
    }

    /// The line that declares this syllable, with its directives in lower
    /// case, one space before each, the one for the previous syllable first.
    pub fn to_string(&self) -> (s: String)
        ensures
            s@ == rendered(self@),
    {
        let mut s = self.classification.value();
        s.append(self.value.as_str());
        s.append(self.jprevious.value_previous().as_str());
        s.append(self.jnext.value_next().as_str());
        s
    }
}

impl Clone for Syllable {
    fn clone(&self) -> (res: Syllable)
        ensures
            res@ == self@,
    {
        Syllable {
            value: self.value.clone(),
            classification: self.classification,
            jprevious: self.jprevious,
            jnext: self.jnext,
        }
    }
}

impl PartialEq for Syllable {
    fn eq(&self, other: &Syllable) -> (b: bool) {
        self.value == other.value && self.classification == other.classification
            && self.jprevious == other.jprevious && self.jnext == other.jnext
    }
}

impl PartialEqSpecImpl for Syllable {
    open spec fn obeys_eq_spec() -> bool {
        true
    }

    open spec fn eq_spec(&self, other: &Syllable) -> bool {
        self@ == other@
    }
}

impl Classification {
    /// The marker that this place is written as.
    pub fn value(&self) -> (s: String)
        ensures
            s@ == marker_of(*self),
    {
        proof {
            reveal_strlit("-");
            reveal_strlit("+");
            reveal_strlit("");
        }
        match self {
            Classification::Prefix => String::from_str("-"),
            Classification::Suffix => String::from_str("+"),
            Classification::Center => String::from_str(""),
        }
    }
}

impl BadSyllable {
    /// What to tell the user.
    pub fn to_string(&self) -> (s: String)
        ensures
            s@ == "Invalid Syllable"@,
    {
        String::from_str("Invalid Syllable")
    }
}

} // verus!
