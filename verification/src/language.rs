//! The languages that come with the library, and where their files lie.

use vstd::prelude::*;
use vstd::string::StringExecFns;

use crate::chance::RandomSource;

verus! {

/// A language by name. Four of them come in Russian too.
#[derive(Clone, Copy, Debug, PartialEq, Eq, Structural)]
pub enum Language {
    Curse,
    Demonic,
    Elven,
    ElvenRussian,
    Fantasy,
    FantasyRussian,
    Goblin,
    GoblinRussian,
    Roman,
    RomanRussian,
}

/// The answer to a language that is not known.
#[derive(Clone, Copy, Debug, PartialEq, Eq, Structural)]
pub struct BadLanguage;

/// The name of a language, which is also the stem of its file name.
pub open spec fn name_of(language: Language) -> Seq<char> {
    match language {
        Language::Curse => "Curse"@,
        Language::Demonic => "Demonic"@,
        Language::Elven => "Elven"@,
        Language::ElvenRussian => "Эльфийский"@,
        Language::Fantasy => "Fantasy"@,
        Language::FantasyRussian => "Фантазия"@,
        Language::Goblin => "Goblin"@,
        Language::GoblinRussian => "Гоблин"@,
        Language::Roman => "Roman"@,
        Language::RomanRussian => "Римский"@,
    }
}

/// The language that a number stands for when one is drawn: one of five,
/// the last for every number from 4 on.
pub open spec fn drawn(roll: int) -> Language {
    if roll == 0 {
        Language::Demonic
    } else if roll == 1 {
        Language::Elven
    } else if roll == 2 {
        Language::Fantasy
    } else if roll == 3 {
        Language::Goblin
    } else {
        Language::Roman
    }
}

impl Language {
    /// The name of the language.
    pub fn to_string(&self) -> (s: String)
        ensures
            s@ == name_of(*self),
    {
        let name = match self {
            Language::Curse => "Curse",
            Language::Demonic => "Demonic",
            Language::Elven => "Elven",
            Language::ElvenRussian => "Эльфийский",
            Language::Fantasy => "Fantasy",
            Language::FantasyRussian => "Фантазия",
            Language::Goblin => "Goblin",
            Language::GoblinRussian => "Гоблин",
            Language::Roman => "Roman",
            Language::RomanRussian => "Римский",
        };
        String::from_str(name)
    }

    /// The name of the file that holds the language.
    pub fn get_filename(&self) -> (s: String)
        ensures
            s@ == name_of(*self) + ".txt"@,
    {
        let mut s = self.to_string();
        s.append(".txt");
        s
    }

    /// The place of that file among the sources.
    pub fn get_path(&self) -> (s: String)
        ensures
            s@ == "./src/languages/"@ + name_of(*self) + ".txt"@,
    {
        let mut s = String::from_str("./src/languages/");
        s.append(self.get_filename().as_str());
        s
    }

    /// The language that a number stands for when one is drawn.
    pub fn from_roll(roll: usize) -> (language: Language)
        ensures
            language == drawn(roll as int),
    {
        match roll {
            0 => Language::Demonic,
            1 => Language::Elven,
            2 => Language::Fantasy,
            3 => Language::Goblin,
            _ => Language::Roman,
        }
    }

    /// One of the five languages that are drawn from, each as likely as any
    /// other.
    pub fn random() -> (language: Language)
        ensures
            exists|roll: int| 0 <= roll < 5 && language == #[trigger] drawn(roll),
    {
        let mut source = RandomSource::new();
        Language::random_with(&mut source)
    }

    /// One of the five languages that are drawn from, as `source` has it.
    pub fn random_with(source: &mut RandomSource) -> (language: Language)
        ensures
            exists|roll: int| 0 <= roll < 5 && language == #[trigger] drawn(roll),
    {
        let roll = source.index_below(5);
        Language::from_roll(roll)
    }
}

impl BadLanguage {
    /// What to tell the user.
    pub fn to_string(&self) -> (s: String)
        ensures
            s@ == "Invalid Language"@,
    {
        String::from_str("Invalid Language")
    }
}

} // verus!
