//! An ordered collection of syllables.
//!
//! A language keeps one collection for each place in a name. Nothing is
//! removed and nothing is merged: a syllable that was added twice is there
//! twice, and is picked twice as often.

use vstd::prelude::*;
use vstd::std_specs::iter::IteratorSpec;
use vstd::string::StringExecFns;

use crate::chance::RandomSource;
use crate::rng_joiner::Joiner;
use crate::rng_syllable::is_line;
use crate::rng_syllable::parsed;
use crate::rng_syllable::Syllable;
use crate::rng_syllable::SyllableView;

verus! {

/// Syllables in the order in which they were added.
#[derive(Clone, Debug, PartialEq)]
pub struct Syllables(Vec<Syllable>);

/// The syllables of a sequence as mathematical values.
pub open spec fn views(items: Seq<Syllable>) -> Seq<SyllableView> {
    items.map_values(|s: Syllable| s@)
}

/// The texts of the syllables, one after the other, with nothing between
/// them.
pub open spec fn collapsed(items: Seq<SyllableView>) -> Seq<char>
    decreases items.len(),
{
    if items.len() == 0 {
        Seq::empty()
    } else {
        collapsed(items.drop_last()) + items.last().value
    }
}

/// The syllables that may follow an edge `from`: those whose front joins it.
pub open spec fn followers(items: Seq<SyllableView>, from: Joiner) -> Seq<SyllableView> {
    items.filter(|s: SyllableView| from.joins(&s.jprevious))
}

/// What follows an edge is part of the collection and joins the edge.
pub proof fn lemma_follower_joins(items: Seq<SyllableView>, from: Joiner, s: SyllableView)
    requires
        followers(items, from).contains(s),
    ensures
        items.contains(s),
        from.joins(&s.jprevious),
{
    let pred = |s: SyllableView| from.joins(&s.jprevious);
    let i = choose|i: int| 0 <= i < followers(items, from).len() && followers(items, from)[i] == s;
    items.lemma_filter_pred(pred, i);
    items.lemma_filter_contains_rev(pred, s);
}

/// What is part of the collection and joins an edge follows the edge.
pub proof fn lemma_joining_follows(items: Seq<SyllableView>, from: Joiner, s: SyllableView)
    requires
        items.contains(s),
        from.joins(&s.jprevious),
    ensures
        followers(items, from).contains(s),
{
    let pred = |s: SyllableView| from.joins(&s.jprevious);
    let i = choose|i: int| 0 <= i < items.len() && items[i] == s;
    items.lemma_filter_contains(pred, i);
}

impl View for Syllables {
    type V = Seq<SyllableView>;

    closed spec fn view(&self) -> Seq<SyllableView> {
        views(self.0@)
    }
}

impl Syllables {
    /// A collection of nothing.
    pub fn new() -> (res: Syllables)
        ensures
            res@ == Seq::<SyllableView>::empty(),
    {
        Syllables::new_from_vector(Vec::new())
    }

    /// The collection of the syllables of a vector.
    pub fn new_from_vector(v: Vec<Syllable>) -> (res: Syllables)
        ensures
            res@ == views(v@),
    {
        Syllables(v)
    }

    /// The collection that the lines declare, in their order. Every line
    /// must be in the grammar.
    pub fn new_from_array(syl_strs: &[&str]) -> (res: Syllables)
        requires
            forall|i: int| 0 <= i < syl_strs@.len() ==> is_line(#[trigger] syl_strs@[i]@),
        ensures
            res@.len() == syl_strs@.len(),
            forall|i: int| 0 <= i < syl_strs@.len() ==> #[trigger] res@[i] == parsed(syl_strs@[i]@),
    {
        let mut syllables: Vec<Syllable> = Vec::new();
        let mut i: usize = 0;
        while i < syl_strs.len()
            invariant
                i <= syl_strs@.len(),
                syllables@.len() == i,
                forall|k: int| 0 <= k < syl_strs@.len() ==> is_line(#[trigger] syl_strs@[k]@),
                forall|k: int| 0 <= k < i ==> (#[trigger] syllables@[k])@ == parsed(syl_strs@[k]@),
            decreases syl_strs@.len() - i,
        {
            match Syllable::new(syl_strs[i]) {
                Ok(syllable) => {
                    syllables.push(syllable);
                },
                Err(_) => {
                    assert(false);
                },
            }
            i += 1;
        }
        Syllables::new_from_vector(syllables)
    }

    /// The collection that the lines declare, in their order; none where a
    /// line is not in the grammar.
    pub fn try_new_from_array(syl_strs: &[&str]) -> (res: Option<Syllables>)
        ensures
            res is Some <==> forall|i: int|
                0 <= i < syl_strs@.len() ==> is_line(#[trigger] syl_strs@[i]@),
            res matches Some(syllables) ==> syllables@.len() == syl_strs@.len() && forall|i: int|
                0 <= i < syl_strs@.len() ==> #[trigger] syllables@[i] == parsed(syl_strs@[i]@),
    {
        let mut i: usize = 0;
        while i < syl_strs.len()
            invariant
                i <= syl_strs@.len(),
                forall|k: int| 0 <= k < i ==> is_line(#[trigger] syl_strs@[k]@),
            decreases syl_strs@.len() - i,
        {
            if !Syllable::accepts(syl_strs[i]) {
                return None;
            }
            i += 1;
        }
        Some(Syllables::new_from_array(syl_strs))
    }

    /// Puts one more syllable at the end.
    pub fn add(&mut self, elem: Syllable)
        ensures
            final(self)@ == old(self)@.push(elem@),
    {
        self.0.push(elem);
    }

    /// The syllables as a vector.
    pub fn all(&self) -> (v: &Vec<Syllable>)
        ensures
            views(v@) == self@,
    {
        &self.0
    }

    /// All the texts in one string.
    pub fn collapse(&self) -> (s: String)
        ensures
            s@ == collapsed(self@),
    {
        let mut s = String::from_str("");
        proof {
            reveal_strlit("");
        }
        let mut i: usize = 0;
        while i < self.0.len()
            invariant
                i <= self.0@.len(),
                s@ == collapsed(self@.take(i as int)),
            decreases self.0@.len() - i,
        {
            s.append(self.0[i].value.as_str());
            assert(self@.take(i + 1).drop_last() =~= self@.take(i as int));
            i += 1;
        }
        assert(self@.take(i as int) =~= self@);
        s
    }

    /// Whether the collection holds a syllable equal to this one in text,
    /// place and both joiners.
    pub fn contains(&self, syllable: &Syllable) -> (b: bool)
        ensures
            b == self@.contains(syllable@),
    {
        let mut i: usize = 0;
        while i < self.0.len()
            invariant
                i <= self.0@.len(),
                forall|k: int| 0 <= k < i ==> self@[k] != syllable@,
            decreases self.0@.len() - i,
        {
            if self.0[i] == *syllable {
                assert(self@[i as int] == syllable@);
                return true;
            }
            i += 1;
        }
        false
    }

    /// The syllables that may follow an edge `from`, in their order.
    pub fn filter_from(&self, from: Joiner) -> (res: Syllables)
        ensures
            res@ == followers(self@, from),
    {
        let ghost pred = |s: SyllableView| from.joins(&s.jprevious);
        let mut v: Vec<Syllable> = Vec::new();
        proof {
            reveal(Seq::filter);
        }
        let mut i: usize = 0;
        while i < self.0.len()
            invariant
                i <= self.0@.len(),
                pred == |s: SyllableView| from.joins(&s.jprevious),
                views(v@) == self@.take(i as int).filter(pred),
            decreases self.0@.len() - i,
        {
            proof {
                reveal(Seq::filter);
                assert(self@.take(i + 1).drop_last() =~= self@.take(i as int));
            }
            if from.joins(&self.0[i].jprevious) {
                v.push(self.0[i].clone());
            }
            i += 1;
        }
        assert(self@.take(i as int) =~= self@);
        Syllables::new_from_vector(v)
    }

    /// The first syllable; none where there is none.
    pub fn first(&self) -> (res: Option<&Syllable>)
        ensures
            self@.len() == 0 ==> res is None,
            self@.len() > 0 ==> res is Some && res.unwrap()@ == self@.first(),
    {
        self.get(0)
    }

    /// The syllable at `index`; none where there is none.
    pub fn get(&self, index: usize) -> (res: Option<&Syllable>)
        ensures
            index >= self@.len() ==> res is None,
            index < self@.len() ==> res is Some && res.unwrap()@ == self@[index as int],
    {
        if index < self.0.len() {
            Some(&self.0[index])
        } else {
            None
        }
    }

    /// One of the syllables, each as likely as any other; none where there
    /// is none.
    pub fn get_random(&self) -> (res: Option<&Syllable>)
        ensures
            self@.len() == 0 ==> res is None,
            self@.len() > 0 ==> res is Some && self@.contains(res.unwrap()@),
    {
        let mut source = RandomSource::new();
        self.get_random_with(&mut source)
    }

    /// One of the syllables, drawn from `source`; none where there is none.
    pub fn get_random_with(&self, source: &mut RandomSource) -> (res: Option<&Syllable>)
        ensures
            self@.len() == 0 ==> res is None,
            self@.len() > 0 ==> res is Some && self@.contains(res.unwrap()@),
    {
        if self.0.len() == 0 {
            None
        } else {
            self.get(self.rnd_with(source))
        }
    }

    /// Whether there is no syllable.
    pub fn is_empty(&self) -> (b: bool)
        ensures
            b == (self@.len() == 0),
    {
        self.0.len() == 0
    }

    /// The last syllable; none where there is none.
    pub fn last(&self) -> (res: Option<&Syllable>)
        ensures
            self@.len() == 0 ==> res is None,
            self@.len() > 0 ==> res is Some && res.unwrap()@ == self@.last(),
    {
        if self.0.len() == 0 {
            None
        } else {
            self.get(self.0.len() - 1)
        }
    }

    /// How many syllables there are.
    pub fn len(&self) -> (n: usize)
        ensures
            n == self@.len(),
    {
        self.0.len()
    }

    /// One of the syllables that may follow `from_syllable`. There must be
    /// one.
    pub fn next_from(&self, from_syllable: Syllable) -> (res: Syllable)
        requires
            followers(self@, from_syllable.jnext).len() > 0,
        ensures
            self@.contains(res@),
            from_syllable.jnext.joins(&res@.jprevious),
    {
        let mut source = RandomSource::new();
        self.next_from_with(&mut source, from_syllable)
    }

    /// One of the syllables that may follow `from_syllable`, drawn from
    /// `source`. There must be one.
    pub fn next_from_with(&self, source: &mut RandomSource, from_syllable: Syllable) -> (res:
        Syllable)
        requires
            followers(self@, from_syllable.jnext).len() > 0,
        ensures
            self@.contains(res@),
            from_syllable.jnext.joins(&res@.jprevious),
    {
        let candidates = self.filter_from(from_syllable.jnext);
        match candidates.get_random_with(source) {
            Some(syllable) => {
                proof {
                    lemma_follower_joins(self@, from_syllable.jnext, syllable@);
                }
                syllable.clone()
            },
            None => {
                assert(false);
                from_syllable
            },
        }
    }

    /// A position in the collection, each as likely as any other; 0 where
    /// the collection is empty.
    pub fn rnd(&self) -> (index: usize)
        ensures
            self@.len() > 0 ==> index < self@.len(),
            self@.len() == 0 ==> index == 0,
    {
        let mut source = RandomSource::new();
        self.rnd_with(&mut source)
    }

    /// A position in the collection, drawn from `source`; 0 where the
    /// collection is empty.
    pub fn rnd_with(&self, source: &mut RandomSource) -> (index: usize)
        ensures
            self@.len() > 0 ==> index < self@.len(),
            self@.len() == 0 ==> index == 0,
    {
        let length = self.0.len();
        if length < 2 {
            0
        } else {
            source.index_below(length)
        }
    }
}

impl IntoIterator for Syllables {
    type Item = Syllable;

    type IntoIter = std::vec::IntoIter<Syllable>;

    /// The syllables one by one, in their order.
    fn into_iter(self) -> (iter: std::vec::IntoIter<Syllable>)
        ensures
            views(iter.remaining()) == self@,
    {
        proof {
            vstd::std_specs::vec::axiom_spec_into_iter(self.0);
        }
        self.0.into_iter()
    }
}

} // verus!
