//! The generator of names: the syllables of one language, sorted by their
//! place, and the assembly of names from them.
//!
//! A name is a chain: one prefix, then centers, then one suffix, each
//! syllable joined to the one before it. The chain is built from the front.
//! At each step one of the syllables that may follow is drawn; where none may
//! follow, the assembly fails and says so.

use vstd::prelude::*;
use vstd::string::StringExecFns;

use crate::chance::RandomSource;
use crate::language::name_of;
use crate::language::Language;
use crate::lines::lines_of;
use crate::lines::split_lines;
use crate::lines::texts;
use crate::rng_syllable::classification_of;
use crate::rng_syllable::is_line;
use crate::rng_syllable::parsed;
use crate::rng_syllable::Classification;
use crate::rng_syllable::Syllable;
use crate::rng_syllable::SyllableView;
use crate::rng_syllables::collapsed;
use crate::rng_syllables::followers;
use crate::rng_syllables::lemma_follower_joins;
use crate::rng_syllables::lemma_joining_follows;
use crate::rng_syllables::views;
use crate::rng_syllables::Syllables;
use crate::rng_weighted_rnd::WeightedRnd;
use crate::rng_weighted_rnd::NORMAL_WEIGHT;
use crate::rng_weighted_rnd::SHORT_WEIGHT;
use crate::title::titlecased;

verus! {

/// What can go wrong with a language and with the assembly of a name.
#[derive(Clone, Copy, Debug, PartialEq, Eq, Structural)]
pub enum RNGError {
    /// No syllable may follow at some step of an assembly.
    GenerationError,
    /// The file of a language cannot be used.
    InvalidLanguageFile,
    /// An argument cannot be read.
    ParsingError,
    /// The file of a language cannot be read.
    ReadError,
}

/// The syllables of one language, and the lines of its file that declare
/// none.
#[allow(clippy::upper_case_acronyms)]
#[derive(Clone, Debug, PartialEq)]
pub struct RNG {
    pub name: String,
    pub prefixes: Syllables,
    pub centers: Syllables,
    pub suffixes: Syllables,
    pub bad_syllables: Vec<String>,
}

/// The number of syllables of a name for which `count` was asked: a name has
/// at least a prefix and a suffix.
pub open spec fn length_for(count: u8) -> int {
    if count > 2 {
        count as int
    } else {
        2
    }
}

/// The syllables that the lines declare for one place, in the order of the
/// lines.
pub open spec fn declared(lines: Seq<Seq<char>>, place: Classification) -> Seq<SyllableView> {
    lines.filter(|line: Seq<char>| is_line(line) && classification_of(line) == place).map_values(
        |line: Seq<char>| parsed(line),
    )
}

/// The lines that are not in the grammar, in their order.
pub open spec fn rejected(lines: Seq<Seq<char>>) -> Seq<Seq<char>> {
    lines.filter(|line: Seq<char>| !is_line(line))
}

/// The names with one space between each two of them.
pub open spec fn spaced(names: Seq<Seq<char>>) -> Seq<char>
    decreases names.len(),
{
    if names.len() == 0 {
        Seq::empty()
    } else if names.len() == 1 {
        names[0]
    } else {
        spaced(names.drop_last()) + seq![' '] + names.last()
    }
}

/// The lengths of a short name, or of a usual one.
pub open spec fn profile_counts(is_short: bool) -> Set<u8> {
    if is_short {
        set![2u8, 3u8]
    } else {
        set![2u8, 3u8, 4u8, 5u8]
    }
}

/// Every syllable that the lines declare for a place has that place.
pub proof fn lemma_declared_has_place(lines: Seq<Seq<char>>, place: Classification)
    ensures
        forall|i: int|
            0 <= i < declared(lines, place).len() ==> (#[trigger] declared(
                lines,
                place,
            )[i]).classification == place,
{
    let kept = |line: Seq<char>| is_line(line) && classification_of(line) == place;
    assert forall|i: int| 0 <= i < declared(lines, place).len() implies (#[trigger] declared(
        lines,
        place,
    )[i]).classification == place by {
        lines.lemma_filter_pred(kept, i);
    }
}

impl RNG {
    /// A start of a chain: a prefix and then centers, each joined to the one
    /// before it.
    #[verifier::opaque]
    pub open spec fn is_stem(&self, stem: Seq<SyllableView>) -> bool {
        &&& stem.len() >= 1
        &&& self.prefixes@.contains(stem[0])
        &&& forall|i: int| 0 < i < stem.len() ==> self.centers@.contains(#[trigger] stem[i])
        &&& forall|i: int|
            0 <= i < stem.len() - 1 ==> (#[trigger] stem[i]).jnext.joins(&stem[i + 1].jprevious)
    }

    /// A chain of `n` syllables: a stem of `n - 1` syllables and a suffix
    /// joined to it.
    pub open spec fn is_chain(&self, n: int, chain: Seq<SyllableView>) -> bool {
        &&& n >= 2
        &&& chain.len() == n
        &&& self.is_stem(chain.drop_last())
        &&& self.suffixes@.contains(chain.last())
        &&& chain[n - 2].jnext.joins(&chain.last().jprevious)
    }

    /// The syllables among which the one behind `stem` is drawn, in a chain
    /// of `n`.
    pub open spec fn candidates(&self, n: int, stem: Seq<SyllableView>) -> Seq<SyllableView> {
        if stem.len() == 0 {
            self.prefixes@
        } else if stem.len() < n - 1 {
            followers(self.centers@, stem.last().jnext)
        } else {
            followers(self.suffixes@, stem.last().jnext)
        }
    }

    /// The assembly of a chain of `n` can get as far as `stem` and no
    /// further: nothing may follow.
    pub open spec fn is_dead_end(&self, n: int, stem: Seq<SyllableView>) -> bool {
        &&& stem.len() < n
        &&& stem.len() > 0 ==> self.is_stem(stem)
        &&& self.candidates(n, stem).len() == 0
    }

    /// The assembly of a chain of `n` can fail.
    #[verifier::opaque]
    pub open spec fn can_fail(&self, n: int) -> bool {
        exists|stem: Seq<SyllableView>| #[trigger] self.is_dead_end(n, stem)
    }

    /// `name` is the title of a chain of `n` syllables of this language.
    #[verifier::opaque]
    pub open spec fn is_name(&self, n: int, name: Seq<char>) -> bool {
        exists|chain: Seq<SyllableView>| #[trigger]
            self.is_chain(n, chain) && name == titlecased(collapsed(chain))
    }

    /// `name` is a name of one of these lengths.
    #[verifier::opaque]
    pub open spec fn is_name_among(&self, counts: Set<u8>, name: Seq<char>) -> bool {
        exists|count: u8| #[trigger]
            counts.contains(count) && self.is_name(length_for(count), name)
    }

    /// `chain` is a chain of one of these lengths.
    #[verifier::opaque]
    pub open spec fn is_chain_among(&self, counts: Set<u8>, chain: Seq<SyllableView>) -> bool {
        exists|count: u8| #[trigger]
            counts.contains(count) && self.is_chain(length_for(count), chain)
    }

    /// The assembly can fail for one of these lengths.
    #[verifier::opaque]
    pub open spec fn can_fail_among(&self, counts: Set<u8>) -> bool {
        exists|count: u8| #[trigger] counts.contains(count) && self.can_fail(length_for(count))
    }

    /// Every syllable that can stand before another joins every syllable
    /// that can stand behind one.
    pub open spec fn all_join(&self) -> bool {
        forall|a: SyllableView, b: SyllableView|
            (self.prefixes@.contains(a) || self.centers@.contains(a)) && (self.centers@.contains(b)
                || self.suffixes@.contains(b)) ==> #[trigger] a.jnext.joins(&b.jprevious)
    }

    /// A language is valid when it has a name and syllables for each place,
    /// and every line of its file declared one.
    pub open spec fn valid(&self) -> bool {
        &&& self.name@.len() > 0
        &&& self.prefixes@.len() > 0
        &&& self.centers@.len() > 0
        &&& self.suffixes@.len() > 0
        &&& self.bad_syllables@.len() == 0
    }

    /// What `classify` makes of a name and the lines of a file.
    pub open spec fn holds(&self, name: Seq<char>, lines: Seq<Seq<char>>) -> bool {
        &&& self.name@ == name
        &&& self.prefixes@ == declared(lines, Classification::Prefix)
        &&& self.centers@ == declared(lines, Classification::Center)
        &&& self.suffixes@ == declared(lines, Classification::Suffix)
        &&& texts(self.bad_syllables@) == rejected(lines)
    }

    /// The language of a file that was read: its syllables, sorted by place.
    /// A language that is not valid comes back as the error, with all that
    /// was read.
    pub fn new(language: &Language, text: &str) -> (res: Result<RNG, RNG>)
        ensures
            res matches Ok(rng) ==> rng.holds(name_of(*language), lines_of(text@)) && rng.valid(),
            res matches Err(rng) ==> rng.holds(name_of(*language), lines_of(text@))
                && !rng.valid(),
    {
        let rng = RNG::classify(text, language.to_string());
        if rng.is_valid() {
            Ok(rng)
        } else {
            Err(rng)
        }
    }

    /// Sorts the lines of a text: each line of the grammar gives a syllable
    /// for its place, and each other line is kept as it is.
    pub fn classify(lines: &str, name: String) -> (rng: RNG)
        ensures
            rng.holds(name@, lines_of(lines@)),
    {
        let split = split_lines(lines);
        RNG::load(name, &split)
    }

    /// Sorts lines: each line of the grammar gives a syllable for its place,
    /// and each other line is kept as it is.
    pub fn load(name: String, lines: &Vec<String>) -> (rng: RNG)
        ensures
            rng.holds(name@, texts(lines@)),
    {
        let ghost all = texts(lines@);
        let mut rng = RNG::empty(name);
        proof {
            reveal(Seq::filter);
            assert(texts(rng.bad_syllables@) =~= rejected(all.take(0)));
            assert(rng.prefixes@ =~= declared(all.take(0), Classification::Prefix));
            assert(rng.centers@ =~= declared(all.take(0), Classification::Center));
            assert(rng.suffixes@ =~= declared(all.take(0), Classification::Suffix));
        }
        let mut i: usize = 0;
        while i < lines.len()
            invariant
                i <= lines@.len(),
                all == texts(lines@),
                rng.holds(name@, all.take(i as int)),
            decreases lines@.len() - i,
        {
            let line = &lines[i];
            proof {
                reveal(Seq::filter);
                assert(all.take(i + 1).drop_last() =~= all.take(i as int));
            }
            match Syllable::new(line.as_str()) {
                Ok(sy) => {
                    match sy.classification {
                        Classification::Prefix => rng.prefixes.add(sy),
                        Classification::Center => rng.centers.add(sy),
                        Classification::Suffix => rng.suffixes.add(sy),
                    }
                    assert(declared(all.take(i + 1), classification_of(line@)) =~= declared(
                        all.take(i as int),
                        classification_of(line@),
                    ).push(parsed(line@)));
                },
                Err(_) => {
                    let ghost kept_before = texts(rng.bad_syllables@);
                    rng.bad_syllables.push(line.clone());
                    assert(texts(rng.bad_syllables@) =~= kept_before.push(line@));
                },
            }
            i += 1;
        }
        assert(all.take(i as int) =~= all);
        rng
    }

    /// A language without syllables.
    pub fn empty(name: String) -> (rng: RNG)
        ensures
            rng.name@ == name@,
            rng.prefixes@.len() == 0,
            rng.centers@.len() == 0,
            rng.suffixes@.len() == 0,
            rng.bad_syllables@.len() == 0,
    {
        RNG {
            name,
            prefixes: Syllables::new(),
            centers: Syllables::new(),
            suffixes: Syllables::new(),
            bad_syllables: Vec::new(),
        }
    }

    /// Whether the language has neither a name nor any line.
    pub fn is_empty(&self) -> (b: bool)
        ensures
            b == (self.name@.len() == 0 && self.prefixes@.len() == 0 && self.centers@.len() == 0
                && self.suffixes@.len() == 0 && self.bad_syllables@.len() == 0),
    {
        self.name.as_str().is_empty() && self.prefixes.is_empty() && self.centers.is_empty()
            && self.suffixes.is_empty() && self.bad_syllables.len() == 0
    }

    /// Whether the language is valid.
    pub fn is_valid(&self) -> (b: bool)
        ensures
            b == self.valid(),
    {
        !self.name.as_str().is_empty() && !self.prefixes.is_empty()
            && !self.centers.is_empty() && !self.suffixes.is_empty() && self.bad_syllables.len()
            == 0
    }

    /// A name of one of the usual lengths.
    pub fn generate_name(&self) -> (res: Result<String, RNGError>)
        ensures
            res matches Ok(name) ==> self.is_name_among(profile_counts(false), name@),
            res matches Err(e) ==> e == RNGError::GenerationError && self.can_fail_among(
                profile_counts(false),
            ),
    {
        let mut source = RandomSource::new();
        let table = NORMAL_WEIGHT();
        let res = self.generate_name_with(&mut source, &table);
        proof {
            self.lemma_among_wider(table.offered(), profile_counts(false));
        }
        res
    }

    /// A name of a length that `table` gives, with every draw from `source`.
    pub fn generate_name_with(&self, source: &mut RandomSource, table: &WeightedRnd) -> (res:
        Result<String, RNGError>)
        requires
            table.wf(),
        ensures
            res matches Ok(name) ==> self.is_name_among(table.offered(), name@),
            res matches Err(e) ==> e == RNGError::GenerationError && self.can_fail_among(
                table.offered(),
            ),
    {
        let count = table.gen_with(source);
        let res = self.generate_name_by_count_with(source, count);
        proof {
            reveal(RNG::is_name_among);
            reveal(RNG::can_fail_among);
        }
        res
    }

    /// `number` names, short ones if `is_short`. The first assembly that
    /// fails ends the work.
    pub fn generate_names(&self, number: usize, is_short: bool) -> (res: Result<
        Vec<String>,
        RNGError,
    >)
        ensures
            res matches Ok(names) ==> names@.len() == number && forall|i: int|
                0 <= i < number ==> self.is_name_among(
                    profile_counts(is_short),
                    (#[trigger] names@[i])@,
                ),
            res matches Err(e) ==> e == RNGError::GenerationError && self.can_fail_among(
                profile_counts(is_short),
            ),
    {
        let mut source = RandomSource::new();
        let table = if is_short { SHORT_WEIGHT() } else { NORMAL_WEIGHT() };
        let res = self.generate_names_with(&mut source, number, &table);
        proof {
            self.lemma_among_wider(table.offered(), profile_counts(is_short));
        }
        res
    }

    /// `number` names of lengths that `table` gives, with every draw from
    /// `source`. The first assembly that fails ends the work.
    pub fn generate_names_with(
        &self,
        source: &mut RandomSource,
        number: usize,
        table: &WeightedRnd,
    ) -> (res: Result<Vec<String>, RNGError>)
        requires
            table.wf(),
        ensures
            res matches Ok(names) ==> names@.len() == number && forall|i: int|
                0 <= i < number ==> self.is_name_among(table.offered(), (#[trigger] names@[i])@),
            res matches Err(e) ==> e == RNGError::GenerationError && self.can_fail_among(
                table.offered(),
            ),
    {
        let mut v: Vec<String> = Vec::new();
        let mut i: usize = 0;
        while i < number
            invariant
                i <= number,
                v@.len() == i,
                table.wf(),
                forall|k: int|
                    0 <= k < i ==> self.is_name_among(table.offered(), (#[trigger] v@[k])@),
            decreases number - i,
        {
            match self.generate_name_with(source, table) {
                Ok(name) => {
                    v.push(name);
                },
                Err(e) => {
                    return Err(e);
                },
            }
            i += 1;
        }
        Ok(v)
    }

    /// `n` names in one string, with a space between each two.
    pub fn generate_names_string(&self, n: usize, is_short: bool) -> (res: Result<
        String,
        RNGError,
    >)
        ensures
            res matches Ok(line) ==> exists|names: Seq<Seq<char>>|
                names.len() == n && line@ == #[trigger] spaced(names) && forall|i: int|
                    0 <= i < n ==> self.is_name_among(
                        profile_counts(is_short),
                        #[trigger] names[i],
                    ),
            res matches Err(e) ==> e == RNGError::GenerationError && self.can_fail_among(
                profile_counts(is_short),
            ),
    {
        match self.generate_names(n, is_short) {
            Ok(names) => {
                let line = join_with_spaces(&names);
                assert forall|i: int| 0 <= i < n implies self.is_name_among(
                    profile_counts(is_short),
                    #[trigger] texts(names@)[i],
                ) by {
                    assert(texts(names@)[i] == names@[i]@);
                }
                Ok(line)
            },
            Err(e) => Err(e),
        }
    }

    /// A name of one of the short lengths.
    pub fn generate_short(&self) -> (res: Result<String, RNGError>)
        ensures
            res matches Ok(name) ==> self.is_name_among(profile_counts(true), name@),
            res matches Err(e) ==> e == RNGError::GenerationError && self.can_fail_among(
                profile_counts(true),
            ),
    {
        let mut source = RandomSource::new();
        let table = SHORT_WEIGHT();
        let res = self.generate_name_with(&mut source, &table);
        proof {
            self.lemma_among_wider(table.offered(), profile_counts(true));
        }
        res
    }

    /// A name of `count` syllables, of two where `count` is less: the texts
    /// of a chain, in one word, in title case.
    pub fn generate_name_by_count(&self, count: u8) -> (res: Result<String, RNGError>)
        ensures
            res matches Ok(name) ==> self.is_name(length_for(count), name@),
            res matches Err(e) ==> e == RNGError::GenerationError && self.can_fail(
                length_for(count),
            ),
    {
        let mut source = RandomSource::new();
        self.generate_name_by_count_with(&mut source, count)
    }

    /// A name of `count` syllables, of two where `count` is less, with every
    /// draw from `source`.
    pub fn generate_name_by_count_with(&self, source: &mut RandomSource, count: u8) -> (res:
        Result<String, RNGError>)
        ensures
            res matches Ok(name) ==> self.is_name(length_for(count), name@),
            res matches Err(e) ==> e == RNGError::GenerationError && self.can_fail(
                length_for(count),
            ),
    {
        match self.generate_syllables_by_count_with(source, count) {
            Ok(chain) => {
                let name = chain.collapse();
                proof {
                    reveal(RNG::is_name);
                }
                Ok(titlecase::titlecase(name.as_str()))
            },
            Err(e) => Err(e),
        }
    }

    /// A chain of one of the usual lengths.
    pub fn generate_syllables(&self) -> (res: Result<Syllables, RNGError>)
        ensures
            res matches Ok(chain) ==> self.is_chain_among(profile_counts(false), chain@),
            res matches Err(e) ==> e == RNGError::GenerationError && self.can_fail_among(
                profile_counts(false),
            ),
    {
        let mut source = RandomSource::new();
        let table = NORMAL_WEIGHT();
        let res = self.generate_syllables_with(&mut source, &table);
        proof {
            self.lemma_among_wider(table.offered(), profile_counts(false));
        }
        res
    }

    /// A chain of a length that `table` gives, with every draw from `source`.
    pub fn generate_syllables_with(&self, source: &mut RandomSource, table: &WeightedRnd) -> (res:
        Result<Syllables, RNGError>)
        requires
            table.wf(),
        ensures
            res matches Ok(chain) ==> self.is_chain_among(table.offered(), chain@),
            res matches Err(e) ==> e == RNGError::GenerationError && self.can_fail_among(
                table.offered(),
            ),
    {
        let count = table.gen_with(source);
        let res = self.generate_syllables_by_count_with(source, count);
        proof {
            reveal(RNG::is_chain_among);
            reveal(RNG::can_fail_among);
        }
        res
    }

    /// A chain of `count` syllables, of two where `count` is less.
    ///
    /// What comes back is a chain of exactly that length, whatever was
    /// drawn; or the assembly met a dead end, and then the language has one.
    /// A language without dead ends always gives a chain.
    pub fn generate_syllables_by_count(&self, syllable_count: u8) -> (res: Result<
        Syllables,
        RNGError,
    >)
        ensures
            res matches Ok(chain) ==> self.is_chain(length_for(syllable_count), chain@),
            res matches Err(e) ==> e == RNGError::GenerationError && self.can_fail(
                length_for(syllable_count),
            ),
    {
        let mut source = RandomSource::new();
        self.generate_syllables_by_count_with(&mut source, syllable_count)
    }

    /// A chain of `count` syllables, of two where `count` is less, with every
    /// draw from `source`: first a prefix, then centers, then a suffix, each
    /// drawn among those that may follow the syllable before it.
    pub fn generate_syllables_by_count_with(
        &self,
        source: &mut RandomSource,
        syllable_count: u8,
    ) -> (res: Result<Syllables, RNGError>)
        ensures
            res matches Ok(chain) ==> self.is_chain(length_for(syllable_count), chain@),
            res matches Err(e) ==> e == RNGError::GenerationError && self.can_fail(
                length_for(syllable_count),
            ),
    {
        let ghost n = length_for(syllable_count);
        let mut syllables = Syllables::new();
        let mut last = match self.prefixes.get_random_with(source) {
            Some(prefix) => prefix.clone(),
            None => {
                proof {
                    self.lemma_dead_end(n, Seq::<SyllableView>::empty());
                }
                return Err(RNGError::GenerationError);
            },
        };
        syllables.add(last.clone());
        proof {
            self.lemma_stem_starts(last@);
            assert(syllables@ =~= seq![last@]);
        }
        let mut left: u8 = if syllable_count > 2 { syllable_count } else { 2 };
        while left > 2
            invariant
                2 <= left,
                n == length_for(syllable_count),
                syllables@.len() + left == n + 1,
                syllables@.len() >= 1,
                self.is_stem(syllables@),
                syllables@.last() == last@,
            decreases left,
        {
            let center_syllables = self.centers.filter_from(last.jnext);
            let ghost stem = syllables@;
            match center_syllables.get_random_with(source) {
                Some(center) => {
                    proof {
                        lemma_follower_joins(self.centers@, last.jnext, center@);
                        self.lemma_stem_grows(stem, center@);
                    }
                    last = center.clone();
                },
                None => {
                    proof {
                        self.lemma_dead_end(n, stem);
                    }
                    return Err(RNGError::GenerationError);
                },
            }
            syllables.add(last.clone());
            left -= 1;
        }
        let ghost stem = syllables@;
        let last_syllables = self.suffixes.filter_from(last.jnext);
        match last_syllables.get_random_with(source) {
            Some(suffix) => {
                proof {
                    lemma_follower_joins(self.suffixes@, last.jnext, suffix@);
                    self.lemma_chain_closes(stem, suffix@);
                }
                syllables.add(suffix.clone());
            },
            None => {
                proof {
                    self.lemma_dead_end(n, stem);
                }
                return Err(RNGError::GenerationError);
            },
        }
        Ok(syllables)
    }

    /// The shape of a chain: it starts with a prefix, ends with a suffix, has
    /// centers between them and nothing else, and each of its syllables joins
    /// the next.
    pub proof fn lemma_chain_shape(&self, n: int, chain: Seq<SyllableView>)
        requires
            self.is_chain(n, chain),
        ensures
            n >= 2,
            chain.len() == n,
            self.prefixes@.contains(chain.first()),
            forall|i: int| 0 < i < n - 1 ==> self.centers@.contains(#[trigger] chain[i]),
            self.suffixes@.contains(chain.last()),
            forall|i: int|
                0 <= i < n - 1 ==> (#[trigger] chain[i]).jnext.joins(&chain[i + 1].jprevious),
    {
        reveal(RNG::is_stem);
        let stem = chain.drop_last();
        assert(chain.first() == stem[0]);
        assert forall|i: int| 0 < i < n - 1 implies self.centers@.contains(
            #[trigger] chain[i],
        ) by {
            assert(chain[i] == stem[i]);
        }
        assert forall|i: int| 0 <= i < n - 1 implies (#[trigger] chain[i]).jnext.joins(
            &chain[i + 1].jprevious,
        ) by {
            if i < n - 2 {
                assert(chain[i] == stem[i] && chain[i + 1] == stem[i + 1]);
            }
        }
    }

    /// Where every syllable that can stand before another joins every
    /// syllable that can stand behind one, and no place is empty, no assembly
    /// fails.
    pub proof fn lemma_open_language_never_fails(&self, n: int)
        requires
            self.prefixes@.len() > 0,
            self.centers@.len() > 0,
            self.suffixes@.len() > 0,
            self.all_join(),
        ensures
            !self.can_fail(n),
    {
        reveal(RNG::can_fail);
        reveal(RNG::is_stem);
        assert forall|stem: Seq<SyllableView>| !#[trigger] self.is_dead_end(n, stem) by {
            if 0 < stem.len() < n && self.is_stem(stem) {
                let last = stem.last();
                assert(self.prefixes@.contains(last) || self.centers@.contains(last)) by {
                    if stem.len() > 1 {
                        assert(self.centers@.contains(stem[stem.len() - 1]));
                    }
                }
                let pool = if stem.len() < n - 1 {
                    self.centers@
                } else {
                    self.suffixes@
                };
                let next = pool[0];
                assert(pool.contains(next));
                assert(last.jnext.joins(&next.jprevious));
                lemma_joining_follows(pool, last.jnext, next);
            }
        }
    }

    /// What holds among some lengths holds among more.
    pub proof fn lemma_among_wider(&self, counts: Set<u8>, more: Set<u8>)
        requires
            counts.subset_of(more),
        ensures
            forall|name: Seq<char>| #[trigger]
                self.is_name_among(counts, name) ==> self.is_name_among(more, name),
            forall|chain: Seq<SyllableView>| #[trigger]
                self.is_chain_among(counts, chain) ==> self.is_chain_among(more, chain),
            self.can_fail_among(counts) ==> self.can_fail_among(more),
    {
        reveal(RNG::is_name_among);
        reveal(RNG::is_chain_among);
        reveal(RNG::can_fail_among);
    }

    /// A prefix alone is a stem.
    pub proof fn lemma_stem_starts(&self, prefix: SyllableView)
        requires
            self.prefixes@.contains(prefix),
        ensures
            self.is_stem(seq![prefix]),
    {
        reveal(RNG::is_stem);
    }

    /// A stem and a center that its last syllable joins make a stem.
    pub proof fn lemma_stem_grows(&self, stem: Seq<SyllableView>, center: SyllableView)
        requires
            self.is_stem(stem),
            self.centers@.contains(center),
            stem.last().jnext.joins(&center.jprevious),
        ensures
            self.is_stem(stem.push(center)),
    {
        reveal(RNG::is_stem);
        let longer = stem.push(center);
        assert(longer[0] == stem[0]);
        assert forall|i: int| 0 < i < longer.len() implies self.centers@.contains(
            #[trigger] longer[i],
        ) by {
            if i < stem.len() {
                assert(longer[i] == stem[i]);
            }
        }
        assert forall|i: int| 0 <= i < longer.len() - 1 implies (#[trigger] longer[i]).jnext.joins(
            &longer[i + 1].jprevious,
        ) by {
            if i < stem.len() - 1 {
                assert(longer[i] == stem[i] && longer[i + 1] == stem[i + 1]);
            }
        }
    }

    /// A stem and a suffix that its last syllable joins make a chain.
    pub proof fn lemma_chain_closes(&self, stem: Seq<SyllableView>, suffix: SyllableView)
        requires
            self.is_stem(stem),
            self.suffixes@.contains(suffix),
            stem.last().jnext.joins(&suffix.jprevious),
        ensures
            self.is_chain(stem.len() as int + 1, stem.push(suffix)),
    {
        reveal(RNG::is_stem);
        assert(stem.push(suffix).drop_last() =~= stem);
    }

    /// Where nothing may follow a stem that is shorter than the chain, the
    /// assembly of the chain can fail.
    pub proof fn lemma_dead_end(&self, n: int, stem: Seq<SyllableView>)
        requires
            self.is_dead_end(n, stem),
        ensures
            self.can_fail(n),
    {
        reveal(RNG::can_fail);
    }

    /// All the syllables of the language: prefixes, then centers, then
    /// suffixes.
    pub fn syllables(&self) -> (all: Syllables)
        ensures
            all@ == self.prefixes@ + self.centers@ + self.suffixes@,
    {
        let mut v: Vec<Syllable> = Vec::new();
        append_clones(&mut v, self.prefixes.all());
        append_clones(&mut v, self.centers.all());
        append_clones(&mut v, self.suffixes.all());
        Syllables::new_from_vector(v)
    }
}

fn append_clones(to: &mut Vec<Syllable>, from: &Vec<Syllable>)
    ensures
        views(final(to)@) == views(old(to)@) + views(from@),
{
    let mut i: usize = 0;
    while i < from.len()
        invariant
            i <= from@.len(),
            views(to@) == views(old(to)@) + views(from@.take(i as int)),
        decreases from@.len() - i,
    {
        let ghost before = views(to@);
        to.push(from[i].clone());
        assert(views(to@) =~= before.push(from@[i as int]@));
        i += 1;
    }
}

fn join_with_spaces(names: &Vec<String>) -> (line: String)
    ensures
        line@ == spaced(texts(names@)),
{
    let mut line = String::from_str("");
    proof {
        reveal_strlit("");
        reveal_strlit(" ");
    }
    let mut i: usize = 0;
    while i < names.len()
        invariant
            i <= names@.len(),
            line@ == spaced(texts(names@).take(i as int)),
            " "@ == seq![' '],
        decreases names@.len() - i,
    {
        assert(texts(names@).take(i + 1).drop_last() =~= texts(names@).take(i as int));
        if i > 0 {
            line.append(" ");
        }
        line.append(names[i].as_str());
        i += 1;
    }
    assert(texts(names@).take(i as int) =~= texts(names@));
    line
}

} // verus!
