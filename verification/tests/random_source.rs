use rnglib::Language;
use rnglib::RandomSource;
use rnglib::Syllable;
use rnglib::Syllables;
use rnglib::WeightedRnd;
use rnglib::NORMAL_WEIGHT;
use rnglib::RNG;
use rnglib::SHORT_WEIGHT;

const SAMPLE: &str = "-ael\n-an +c\n-thi +v\n-ga\ndor\nia\nlen -c\neth -v\nra +v\n+iel\n+dil\n+wen -v\n+or -c\n";

#[test]
fn index_below_stays_below() {
    let mut source = RandomSource::from_seed(1);
    for bound in 1..50usize {
        for _ in 0..50 {
            assert!(source.index_below(bound) < bound);
        }
    }
    assert_eq!(source.index_below(1), 0);
}

#[test]
fn index_below_reaches_every_number() {
    let mut source = RandomSource::new();
    let mut seen = [0usize; 5];
    for _ in 0..10_000 {
        seen[source.index_below(5)] += 1;
    }
    for count in seen {
        assert!(count > 1_500 && count < 2_500, "{:?}", seen);
    }
}

#[test]
fn weighted_index_follows_the_weights() {
    let mut source = RandomSource::new();
    let weights: Vec<u8> = vec![4, 10, 3, 1];
    let mut seen = [0usize; 4];
    for _ in 0..18_000 {
        let index = source.weighted_index(&weights);
        assert!(index < 4);
        seen[index] += 1;
    }
    // of 18 draws about 4, 10, 3 and 1
    assert!(seen[0] > 3_400 && seen[0] < 4_600, "{:?}", seen);
    assert!(seen[1] > 9_200 && seen[1] < 10_800, "{:?}", seen);
    assert!(seen[2] > 2_500 && seen[2] < 3_500, "{:?}", seen);
    assert!(seen[3] > 700 && seen[3] < 1_300, "{:?}", seen);
}

#[test]
fn weighted_index_skips_weights_of_zero() {
    let mut source = RandomSource::from_seed(3);
    let weights: Vec<u8> = vec![0, 0, 7, 0, 1, 0];
    for _ in 0..2_000 {
        let index = source.weighted_index(&weights);
        assert!(index == 2 || index == 4);
    }
}

#[test]
fn weighted_index_takes_the_largest_sum() {
    let mut source = RandomSource::from_seed(4);
    let weights: Vec<u8> = vec![200, 55];
    let mut seen = [0usize; 2];
    for _ in 0..2_000 {
        seen[source.weighted_index(&weights)] += 1;
    }
    assert!(seen[0] > seen[1] && seen[1] > 0);
}

#[test]
fn one_seed_gives_the_same_draws() {
    let mut one = RandomSource::from_seed(42);
    let mut other = RandomSource::from_seed(42);
    for bound in 1..200usize {
        assert_eq!(one.index_below(bound), other.index_below(bound));
    }
    let weights: Vec<u8> = vec![4, 10, 3, 1];
    for _ in 0..200 {
        assert_eq!(one.weighted_index(&weights), other.weighted_index(&weights));
    }
}

#[test]
fn other_seeds_give_other_draws() {
    let mut one = RandomSource::from_seed(1);
    let mut other = RandomSource::from_seed(2);
    let a: Vec<usize> = (0..64).map(|_| one.index_below(1_000_000)).collect();
    let b: Vec<usize> = (0..64).map(|_| other.index_below(1_000_000)).collect();
    assert_ne!(a, b);
}

#[test]
fn one_seed_gives_the_same_names() {
    let rng = RNG::new(&Language::Elven, SAMPLE).unwrap();
    let mut one = RandomSource::from_seed(7);
    let mut other = RandomSource::from_seed(7);

    let first = rng.generate_names_with(&mut one, 40, &NORMAL_WEIGHT()).unwrap();
    let second = rng.generate_names_with(&mut other, 40, &NORMAL_WEIGHT()).unwrap();

    assert_eq!(first.len(), 40);
    assert_eq!(first, second);
}

#[test]
fn one_seed_gives_the_same_chain() {
    let rng = RNG::new(&Language::Elven, SAMPLE).unwrap();
    for seed in 0..20u64 {
        let mut one = RandomSource::from_seed(seed);
        let mut other = RandomSource::from_seed(seed);
        let first = rng.generate_syllables_by_count_with(&mut one, 5).unwrap();
        let second = rng.generate_syllables_by_count_with(&mut other, 5).unwrap();
        assert_eq!(first, second);
        assert_eq!(first.len(), 5);
    }
}

#[test]
fn name_with_is_the_title_of_the_chain_with() {
    let rng = RNG::new(&Language::Elven, SAMPLE).unwrap();
    for seed in 0..50u64 {
        let mut one = RandomSource::from_seed(seed);
        let mut other = RandomSource::from_seed(seed);
        let name = rng.generate_name_by_count_with(&mut one, 4).unwrap();
        let chain = rng.generate_syllables_by_count_with(&mut other, 4).unwrap();
        let word = chain.collapse();
        let mut letters = word.chars();
        let first = letters.next().unwrap().to_uppercase().to_string();
        assert_eq!(name, format!("{}{}", first, letters.as_str()));
    }
}

#[test]
fn generate_name_with_draws_the_length_from_the_table() {
    let min = RNG::classify("-a\nb\n+c", "Min".to_string());
    let mut source = RandomSource::from_seed(11);

    for _ in 0..100 {
        let name = min.generate_name_with(&mut source, &SHORT_WEIGHT()).unwrap();
        assert!(name == "Ac" || name == "Abc");
    }
    let only_four = WeightedRnd { counts: vec![2, 4, 9], weights: vec![0, 3, 0] };
    for _ in 0..100 {
        assert_eq!(min.generate_name_with(&mut source, &only_four).unwrap(), "Abbc");
        assert_eq!(min.generate_syllables_with(&mut source, &only_four).unwrap().len(), 4);
    }
}

#[test]
fn gen_with_gives_a_count_of_the_table() {
    let mut source = RandomSource::from_seed(5);
    let table = NORMAL_WEIGHT();
    let mut seen = [false; 6];
    for _ in 0..1_000 {
        let count = table.gen_with(&mut source);
        assert!((2..=5).contains(&count));
        seen[count as usize] = true;
    }
    assert_eq!(seen, [false, false, true, true, true, true]);
}

#[test]
fn get_random_with_gives_a_syllable_of_the_collection() {
    let syllables = Syllables::new_from_array(&["ch", "abc", "er", "go", "to"]);
    let mut source = RandomSource::from_seed(9);
    let mut seen = [false; 5];
    for _ in 0..500 {
        let at = syllables.rnd_with(&mut source);
        assert!(at < 5);
        seen[at] = true;
        assert!(syllables.contains(syllables.get_random_with(&mut source).unwrap()));
    }
    assert_eq!(seen, [true; 5]);
    assert!(Syllables::new().get_random_with(&mut source).is_none());
    assert_eq!(Syllables::new().rnd_with(&mut source), 0);
}

#[test]
fn next_from_with_gives_a_follower() {
    let pool = Syllables::new_from_array(&["ch", "abc", "er", "go -c", "to -v"]);
    let from = Syllable::new("kan +c").unwrap();
    let mut source = RandomSource::from_seed(13);
    let mut seen = [false; 2];

    for _ in 0..200 {
        let next = pool.next_from_with(&mut source, from.clone());
        assert!(from.connects(&next));
        match next.value.as_str() {
            "ch" => seen[0] = true,
            "go" => seen[1] = true,
            other => panic!("{} does not follow", other),
        }
    }
    assert_eq!(seen, [true; 2]);
}

#[test]
fn random_with_gives_one_of_five() {
    let mut source = RandomSource::from_seed(17);
    for _ in 0..200 {
        let language = Language::random_with(&mut source);
        assert!([
            Language::Demonic,
            Language::Elven,
            Language::Fantasy,
            Language::Goblin,
            Language::Roman
        ]
        .contains(&language));
    }
}
