use geoip_lookup::names::LocalizedNameTable;

fn table(entries: &[(&str, &str)]) -> LocalizedNameTable {
    let mut names = LocalizedNameTable::new();
    for (locale, name) in entries {
        names.insert(locale.to_string(), name.to_string());
    }
    names
}

fn resolve<'a>(names: &'a LocalizedNameTable, locale: &str) -> Option<&'a str> {
    names.resolve(locale).map(|name| name.as_str())
}

#[test]
fn exact_locale_wins() {
    let names = table(&[("de", "Deutschland"), ("en", "Germany"), ("en-US", "Germany (US)")]);
    assert_eq!(resolve(&names, "de"), Some("Deutschland"));
    assert_eq!(resolve(&names, "en"), Some("Germany"));
    assert_eq!(resolve(&names, "en-US"), Some("Germany (US)"));
}

#[test]
fn fallback_to_english() {
    let names = table(&[("de", "Deutschland"), ("en", "Germany")]);
    assert_eq!(resolve(&names, "fr"), Some("Germany"));
}

#[test]
fn english_comes_before_american_english() {
    let names = table(&[("en-US", "Germany (US)"), ("de", "Deutschland"), ("en", "Germany")]);
    assert_eq!(resolve(&names, "fr"), Some("Germany"));
}

#[test]
fn fallback_to_american_english() {
    let names = table(&[("de", "Deutschland"), ("en-US", "Germany (US)")]);
    assert_eq!(resolve(&names, "fr"), Some("Germany (US)"));
}

#[test]
fn fallback_to_first_entry() {
    let names = table(&[("ja", "ドイツ")]);
    assert_eq!(resolve(&names, "fr"), Some("ドイツ"));
    let names = table(&[("ja", "ドイツ"), ("de", "Deutschland")]);
    assert_eq!(resolve(&names, "fr"), Some("ドイツ"));
    let names = table(&[("de", "Deutschland"), ("ja", "ドイツ")]);
    assert_eq!(resolve(&names, "fr"), Some("Deutschland"));
}

#[test]
fn empty_table_has_no_name() {
    let names = LocalizedNameTable::new();
    assert_eq!(names.len(), 0);
    assert_eq!(resolve(&names, "fr"), None);
    assert_eq!(resolve(&names, "en"), None);
    assert_eq!(names.first(), None);
    assert_eq!(names.get("en"), None);
}

#[test]
fn locale_codes_are_compared_exactly() {
    let names = table(&[("EN", "Upper"), ("en-us", "Lower")]);
    assert_eq!(names.get("en"), None);
    assert_eq!(names.get("en-US"), None);
    assert_eq!(resolve(&names, "en"), Some("Upper"));
    assert_eq!(names.get("EN").map(|n| n.as_str()), Some("Upper"));
}

#[test]
fn get_finds_the_name_of_a_locale() {
    let names = table(&[("de", "Deutschland"), ("en", "Germany")]);
    assert_eq!(names.get("de").map(|n| n.as_str()), Some("Deutschland"));
    assert_eq!(names.get("en").map(|n| n.as_str()), Some("Germany"));
    assert_eq!(names.get("fr"), None);
    assert_eq!(names.get(""), None);
    assert_eq!(names.first().map(|n| n.as_str()), Some("Deutschland"));
}

#[test]
fn insert_appends_a_new_locale() {
    let mut names = LocalizedNameTable::new();
    names.insert("de".to_string(), "Deutschland".to_string());
    assert_eq!(names.len(), 1);
    names.insert("en".to_string(), "Germany".to_string());
    assert_eq!(names.len(), 2);
    let (locale, name) = names.entry(0).unwrap();
    assert_eq!((locale.as_str(), name.as_str()), ("de", "Deutschland"));
    let (locale, name) = names.entry(1).unwrap();
    assert_eq!((locale.as_str(), name.as_str()), ("en", "Germany"));
    assert_eq!(names.entry(2), None);
    assert_eq!(LocalizedNameTable::new().entry(0), None);
}

#[test]
fn insert_replaces_the_name_of_a_known_locale_in_place() {
    let mut names = table(&[("de", "Deutschland"), ("en", "Germany"), ("fr", "Allemagne")]);
    names.insert("en".to_string(), "Federal Republic of Germany".to_string());
    assert_eq!(names.len(), 3);
    let (locale, name) = names.entry(1).unwrap();
    assert_eq!((locale.as_str(), name.as_str()), ("en", "Federal Republic of Germany"));
    let (locale, name) = names.entry(0).unwrap();
    assert_eq!((locale.as_str(), name.as_str()), ("de", "Deutschland"));
    let (locale, name) = names.entry(2).unwrap();
    assert_eq!((locale.as_str(), name.as_str()), ("fr", "Allemagne"));
}

#[test]
fn from_entries_keeps_the_order() {
    let names = LocalizedNameTable::from_entries(vec![
        ("ru".to_string(), "Германия".to_string()),
        ("de".to_string(), "Deutschland".to_string()),
        ("en".to_string(), "Germany".to_string()),
    ]);
    assert_eq!(names, table(&[("ru", "Германия"), ("de", "Deutschland"), ("en", "Germany")]));
    assert_eq!(names.first().map(|n| n.as_str()), Some("Германия"));
}

#[test]
fn from_entries_lets_the_later_entry_give_the_name() {
    let names = LocalizedNameTable::from_entries(vec![
        ("de".to_string(), "Deutschland".to_string()),
        ("en".to_string(), "Germany".to_string()),
        ("de".to_string(), "Bundesrepublik".to_string()),
    ]);
    assert_eq!(names, table(&[("de", "Bundesrepublik"), ("en", "Germany")]));
    assert_eq!(LocalizedNameTable::from_entries(vec![]), LocalizedNameTable::new());
}
