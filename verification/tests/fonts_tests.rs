use blackboard::FontCatalog;

fn catalog() -> FontCatalog {
    let mut c = FontCatalog::new();
    c.add(String::from("Sans"), String::from("/fonts/sans.ttf"));
    c.add(String::from("Serif"), String::from("/fonts/serif.ttf"));
    c.add(String::from("Sans"), String::from("/fonts/sans-bold.ttf"));
    c
}

#[test]
fn resolve_finds_first_matching_entry() {
    let c = catalog();
    let i = c.resolve(&String::from("Sans")).expect("present");
    assert_eq!(i, 0);
    assert_eq!(c.path_of(i).as_str(), "/fonts/sans.ttf");
    assert_eq!(c.family_of(i).as_str(), "Sans");
}

#[test]
fn resolve_second_family() {
    let c = catalog();
    let i = c.resolve(&String::from("Serif")).expect("present");
    assert_eq!(i, 1);
    assert_eq!(c.path_of(i).as_str(), "/fonts/serif.ttf");
}

#[test]
fn resolve_misses_unknown_family() {
    let c = catalog();
    assert!(c.resolve(&String::from("Mono")).is_none());
}

#[test]
fn resolve_on_empty_catalog() {
    let c = FontCatalog::new();
    assert!(c.resolve(&String::from("Sans")).is_none());
}
