use rnglib::WeightedRnd;
use rnglib::NORMAL_WEIGHT;
use rnglib::SHORT_WEIGHT;

#[test]
fn normal_weight() {
    let chain: Vec<u8> = (1..100).map(|_| NORMAL_WEIGHT().gen()).collect();
    let non: Vec<u8> = vec![0, 1, 6, 7, 8];

    chain
        .iter()
        .for_each(|i| assert!(NORMAL_WEIGHT().counts.contains(i)));
    chain.iter().for_each(|i| assert!(!non.contains(i)));
}

#[test]
fn short_weight() {
    let chain: Vec<u8> = (1..100).map(|_| SHORT_WEIGHT().gen()).collect();
    let non: Vec<u8> = vec![0, 1, 4, 5, 6];

    chain
        .iter()
        .for_each(|i| assert!(SHORT_WEIGHT().counts.contains(i)));
    chain.iter().for_each(|i| assert!(!non.contains(i)));
}

#[test]
fn profiles_are_the_two_tables() {
    assert_eq!(NORMAL_WEIGHT().counts, vec![2, 3, 4, 5]);
    assert_eq!(NORMAL_WEIGHT().weights, vec![4, 10, 3, 1]);
    assert_eq!(SHORT_WEIGHT().counts, vec![2, 3]);
    assert_eq!(SHORT_WEIGHT().weights, vec![4, 1]);
    assert!(NORMAL_WEIGHT().is_valid());
    assert!(SHORT_WEIGHT().is_valid());
}

#[test]
fn test_gen_rnd_syllable_count() {
    for _ in 0..100 {
        let count = NORMAL_WEIGHT().gen();
        assert!(
            (count < 6) && (count > 1),
            "count of {} should be less than 6 and greater than 1",
            count
        );
    }
}

#[test]
fn normal_stays_within_two_and_five() {
    let table = NORMAL_WEIGHT();
    let mut seen = [0usize; 6];
    for _ in 0..2_000 {
        let count = table.gen();
        assert!((2..=5).contains(&count));
        seen[count as usize] += 1;
    }
    assert!(seen[2] > 0 && seen[3] > 0 && seen[4] > 0 && seen[5] > 0);
    // three is the heaviest
    assert!(seen[3] > seen[2] && seen[3] > seen[4] && seen[3] > seen[5]);
}

#[test]
fn short_stays_within_two_and_three() {
    let table = SHORT_WEIGHT();
    let mut seen = [0usize; 4];
    for _ in 0..2_000 {
        let count = table.gen();
        assert!(count == 2 || count == 3);
        seen[count as usize] += 1;
    }
    assert!(seen[2] > seen[3] && seen[3] > 0);
}

#[test]
fn weight_zero_never_comes() {
    let table = WeightedRnd { counts: vec![7, 8, 9], weights: vec![0, 1, 0] };
    assert!(table.is_valid());
    for _ in 0..500 {
        assert_eq!(table.gen(), 8);
    }
}

#[test]
fn last_weight_can_come() {
    let table = WeightedRnd { counts: vec![7, 8, 9], weights: vec![0, 0, 5] };
    assert!(table.is_valid());
    for _ in 0..100 {
        assert_eq!(table.gen(), 9);
    }
}

#[test]
fn is_valid_tells_the_tables_apart() {
    let valid = |counts: Vec<u8>, weights: Vec<u8>| WeightedRnd { counts, weights }.is_valid();

    assert!(valid(vec![2], vec![1]));
    assert!(valid(vec![2, 3], vec![255, 0]));
    assert!(valid(vec![2, 3], vec![128, 127]));
    // nothing to draw
    assert!(!valid(vec![], vec![]));
    // no weight above zero
    assert!(!valid(vec![2, 3], vec![0, 0]));
    // a count without a weight, a weight without a count
    assert!(!valid(vec![2, 3], vec![1]));
    assert!(!valid(vec![2], vec![1, 1]));
    // more than can be added up
    assert!(!valid(vec![2, 3], vec![128, 128]));
    assert!(!valid(vec![2, 3, 4], vec![255, 0, 1]));
}
