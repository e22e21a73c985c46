use rnglib::BadLanguage;
use rnglib::Language;

#[test]
fn to_filename() {
    assert_eq!(String::from("Elven.txt"), Language::Elven.get_filename());
}

#[test]
fn to_string() {
    assert_eq!(String::from("Elven"), Language::Elven.to_string());
}

#[test]
fn get_path() {
    assert_eq!(
        "./src/languages/Fantasy.txt".to_string(),
        Language::Fantasy.get_path()
    );
}

#[test]
fn every_language_has_its_name() {
    let names = [
        (Language::Curse, "Curse"),
        (Language::Demonic, "Demonic"),
        (Language::Elven, "Elven"),
        (Language::ElvenRussian, "Эльфийский"),
        (Language::Fantasy, "Fantasy"),
        (Language::FantasyRussian, "Фантазия"),
        (Language::Goblin, "Goblin"),
        (Language::GoblinRussian, "Гоблин"),
        (Language::Roman, "Roman"),
        (Language::RomanRussian, "Римский"),
    ];
    for (language, name) in names {
        assert_eq!(language.to_string(), name);
        assert_eq!(language.get_filename(), format!("{}.txt", name));
        assert_eq!(language.get_path(), format!("./src/languages/{}.txt", name));
    }
}

#[test]
fn from_roll_gives_one_of_five() {
    assert_eq!(Language::from_roll(0), Language::Demonic);
    assert_eq!(Language::from_roll(1), Language::Elven);
    assert_eq!(Language::from_roll(2), Language::Fantasy);
    assert_eq!(Language::from_roll(3), Language::Goblin);
    assert_eq!(Language::from_roll(4), Language::Roman);
    assert_eq!(Language::from_roll(5), Language::Roman);
    assert_eq!(Language::from_roll(usize::MAX), Language::Roman);
}

#[test]
fn random_language_is_one_of_five() {
    let five = [
        Language::Demonic,
        Language::Elven,
        Language::Fantasy,
        Language::Goblin,
        Language::Roman,
    ];
    let mut seen = [false; 5];
    for _ in 0..2_000 {
        let language = Language::random();
        let at = five.iter().position(|l| *l == language);
        assert!(at.is_some(), "{:?} is not drawn from", language);
        seen[at.unwrap()] = true;
    }
    assert_eq!(seen, [true; 5]);
}

#[test]
fn bad_language_to_string() {
    assert_eq!(BadLanguage.to_string(), "Invalid Language");
}
