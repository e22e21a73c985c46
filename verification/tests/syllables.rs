#![allow(non_snake_case)]

use rnglib::Joiner;
use rnglib::Syllable;
use rnglib::Syllables;

fn values(syllables: &Syllables) -> Vec<String> {
    syllables.all().iter().map(|s| s.value.clone()).collect()
}

#[test]
fn add() {
    let mut syllables = Syllables::new_from_array(&["ch", "abc"]);
    syllables.add(Syllable::new("efg").unwrap());
    syllables.add(Syllable::new("hij").unwrap());

    assert_eq!(syllables.len(), 4);
}

#[test]
fn add_appends_at_the_end() {
    let mut syllables = Syllables::new_from_array(&["ch", "abc"]);
    syllables.add(Syllable::new("efg").unwrap());
    syllables.add(Syllable::new("ch").unwrap());

    assert_eq!(values(&syllables), vec!["ch", "abc", "efg", "ch"]);
}

#[test]
fn all() {
    let c = Syllables::new_from_array(&["ch", "abc"]);
    let all: &Vec<Syllable> = c.all();

    assert_eq!(c.len(), 2);
    assert_eq!(c.get(0).unwrap(), &Syllable::new("ch").unwrap());
    assert_eq!(c.get(1).unwrap(), &Syllable::new("abc").unwrap());
    assert_eq!(all.len(), 2);
    assert_eq!(all.get(0).unwrap(), &Syllable::new("ch").unwrap());
    assert_eq!(all.get(1).unwrap(), &Syllable::new("abc").unwrap());
}

#[test]
fn collapse() {
    let syllables = Syllables::new_from_array(&["ch", "abc"]);

    let s = syllables.collapse();

    assert_eq!("chabc".to_string(), s);
}

#[test]
fn collapse_of_nothing_is_empty() {
    assert_eq!(Syllables::new().collapse(), "");
}

#[test]
fn collapse_leaves_markers_and_directives_out() {
    let syllables = Syllables::new_from_array(&["-ch +v", "abc -c", "+d"]);

    assert_eq!(syllables.collapse(), "chabcd");
}

#[test]
fn rng_syllables_contains() {
    let mut syllables = Syllables::new_from_array(&["ch", "abc"]);
    let efg = Syllable::new("efg").unwrap();
    assert!(!syllables.contains(&efg));

    syllables.add(efg.clone());
    assert!(syllables.contains(&efg));
}

#[test]
fn contains_looks_at_place_and_joiners() {
    let syllables = Syllables::new_from_array(&["ch", "-abc", "de +v"]);

    assert!(syllables.contains(&Syllable::new("ch").unwrap()));
    assert!(!syllables.contains(&Syllable::new("-ch").unwrap()));
    assert!(!syllables.contains(&Syllable::new("abc").unwrap()));
    assert!(syllables.contains(&Syllable::new("-abc").unwrap()));
    assert!(!syllables.contains(&Syllable::new("de").unwrap()));
    assert!(syllables.contains(&Syllable::new("de +V").unwrap()));
}

#[test]
fn filter_from() {
    let syllables = Syllables::new_from_array(&["ch", "abc"]);
    let joiner = Joiner::SOME() | Joiner::ONLY_VOWEL();

    let filtered = syllables.filter_from(joiner);

    assert!(!filtered.contains(&Syllable::new("ch").unwrap()));
    assert!(filtered.contains(&Syllable::new("abc").unwrap()));
}

#[test]
fn filter_from_keeps_order_and_duplicates() {
    let syllables = Syllables::new_from_array(&["ab", "ch", "ab", "e -c", "i -v", "ab"]);

    // a consonant edge that asks for a vowel
    let filtered = syllables.filter_from(Joiner::SOME() | Joiner::ONLY_VOWEL());
    assert_eq!(values(&filtered), vec!["ab", "ab", "e", "ab"]);

    // a vowel edge without a demand
    let filtered = syllables.filter_from(Joiner::SOME() | Joiner::VOWEL());
    assert_eq!(values(&filtered), vec!["ab", "ch", "ab", "i", "ab"]);

    // nothing follows an edge that is not there
    assert!(syllables.filter_from(Joiner::NONE()).is_empty());
    assert_eq!(syllables.len(), 6);
}

#[test]
fn first() {
    let zero = Syllables::new();
    let three = Syllables::new_from_array(&["ch", "abc", "efg"]);

    assert!(zero.first().is_none());
    assert_eq!(three.first().unwrap(), &Syllable::new("ch").unwrap());
}

#[test]
fn last() {
    let zero = Syllables::new();
    let three = Syllables::new_from_array(&["ch", "abc", "efg"]);

    assert!(zero.last().is_none());
    assert_eq!(three.last().unwrap(), &Syllable::new("efg").unwrap());
}

#[test]
fn len() {
    let zero = Syllables::new();
    let three = Syllables::new_from_array(&["ch", "abc", "efg"]);

    assert_eq!(zero.len(), 0);
    assert_eq!(three.len(), 3);
}

#[test]
fn is_empty_of_collections() {
    assert!(Syllables::new().is_empty());
    assert!(Syllables::new_from_vector(Vec::new()).is_empty());
    assert!(!Syllables::new_from_array(&["ch"]).is_empty());
}

#[test]
fn get() {
    let syllables = Syllables::new_from_array(&["ch", "abc", "er", "go", "to"]);

    assert_eq!(syllables.len(), 5);
    assert_eq!(syllables.get(0).unwrap(), &Syllable::new("ch").unwrap());
    assert_eq!(syllables.get(1).unwrap(), &Syllable::new("abc").unwrap());
    assert_eq!(syllables.get(2).unwrap(), &Syllable::new("er").unwrap());
    assert_eq!(syllables.get(3).unwrap(), &Syllable::new("go").unwrap());
    assert_eq!(syllables.get(4).unwrap(), &Syllable::new("to").unwrap());
    assert!(syllables.get(5).is_none());
}

#[test]
fn next_from() {
    let b = Syllable::new("b").unwrap();
    let mut v = Syllables::new();
    v.add(b.clone());
    let a = Syllable::new("a").unwrap();

    let actual = v.next_from(a);

    assert_eq!(actual, b);
}

#[test]
fn next_from_gives_a_follower() {
    let pool = Syllables::new_from_array(&["ch", "abc", "er", "go -c", "to -v"]);
    let from = Syllable::new("ka +v").unwrap();

    for _ in 0..200 {
        let next = pool.next_from(from.clone());
        assert!(pool.contains(&next));
        assert!(from.connects(&next));
        assert!(next.value == "abc" || next.value == "er");
    }
}

#[test]
fn rnd_test() {
    let c = Syllables::new_from_array(&["ch", "abc", "er", "go", "to"]);
    for _ in 0..200 {
        let n = c.rnd();
        assert!(n < c.len());
    }
}

#[test]
fn rnd_of_small_collections_is_zero() {
    assert_eq!(Syllables::new().rnd(), 0);
    assert_eq!(Syllables::new_from_array(&["ch"]).rnd(), 0);
}

#[test]
fn get_random() {
    let syllables = Syllables::new_from_array(&["ch", "abc", "er", "go", "to"]);
    let non = Syllable::new("efg").unwrap();

    for _ in 0..200 {
        let rnd = syllables.get_random().unwrap();

        assert!(syllables.contains(rnd));
        assert!(!syllables.contains(&non));
    }
}

#[test]
fn get_random_of_nothing_is_none() {
    assert!(Syllables::new().get_random().is_none());
}

#[test]
fn get_random_of_one_is_that_one() {
    let one = Syllables::new_from_array(&["ch"]);
    for _ in 0..50 {
        assert_eq!(one.get_random().unwrap(), &Syllable::new("ch").unwrap());
    }
}

#[test]
fn get_random_reaches_every_syllable() {
    let lines = ["ch", "abc", "er", "go", "to"];
    let syllables = Syllables::new_from_array(&lines);
    let mut seen = [0usize; 5];

    for _ in 0..10_000 {
        let picked = syllables.get_random().unwrap();
        let at = lines.iter().position(|l| *l == picked.value).unwrap();
        seen[at] += 1;
    }

    for (at, count) in seen.iter().enumerate() {
        assert!(*count > 0, "the syllable at {} never came", at);
    }
    // the last one is as good as the others
    assert!(seen[4] > 1_000);
}

#[test]
fn rnd_reaches_the_last_index() {
    let two = Syllables::new_from_array(&["ch", "abc"]);
    let mut seen = [false; 2];
    for _ in 0..1_000 {
        seen[two.rnd()] = true;
    }
    assert!(seen[0] && seen[1]);
}

#[test]
fn into_iter_gives_the_syllables_in_order() {
    let syllables = Syllables::new_from_array(&["ch", "-abc", "+er"]);

    let collected: Vec<Syllable> = syllables.into_iter().collect();

    assert_eq!(
        collected,
        vec![
            Syllable::new("ch").unwrap(),
            Syllable::new("-abc").unwrap(),
            Syllable::new("+er").unwrap()
        ]
    );
}

#[test]
fn new_from_vector_keeps_the_vector() {
    let v = vec![Syllable::new("ch").unwrap(), Syllable::new("ch").unwrap()];

    let syllables = Syllables::new_from_vector(v.clone());

    assert_eq!(syllables.all(), &v);
}

#[test]
fn try_new_from_array_takes_lines_of_the_grammar() {
    let syllables = Syllables::try_new_from_array(&["ch", "-abc +v", "+er -c"]).unwrap();

    assert_eq!(syllables, Syllables::new_from_array(&["ch", "-abc +v", "+er -c"]));
    assert_eq!(Syllables::try_new_from_array(&[]).unwrap().len(), 0);
}

#[test]
fn try_new_from_array_refuses_any_other_line() {
    assert!(Syllables::try_new_from_array(&["ch", "a1", "er"]).is_none());
    assert!(Syllables::try_new_from_array(&[""]).is_none());
    assert!(Syllables::try_new_from_array(&["ch", "abc", "er -c -v +c"]).is_none());
}
