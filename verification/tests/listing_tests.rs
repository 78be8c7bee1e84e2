use browser_select::browser::{BinaryType, Browser, VersionInfo};
use browser_select::listing::{build_list, subtitle_of, BSEvent};

fn candidate(name: &str, version: &str) -> Browser {
    let mut b = Browser::default();
    b.name = name.to_string();
    b.version.product_name = name.to_string();
    b.version.product_version = version.to_string();
    b
}

#[test]
fn sorts_uppercase_before_lowercase() {
    let input = vec![candidate("Zeta", "1"), candidate("Alpha", "2"), candidate("alpha", "3")];
    let items = build_list(&input);
    let titles: Vec<&str> = items.iter().map(|it| it.title.as_str()).collect();
    assert_eq!(titles, vec!["Alpha", "Zeta", "alpha"]);
}

#[test]
fn equal_titles_keep_discovery_order() {
    let input = vec![
        candidate("Browser", "first"),
        candidate("Another", "0"),
        candidate("Browser", "second"),
        candidate("Browser", "third"),
    ];
    let items = build_list(&input);
    assert_eq!(items.len(), 4);
    assert_eq!(items[0].title, "Another");
    assert_eq!(items[1].subtitle, "first");
    assert_eq!(items[2].subtitle, "second");
    assert_eq!(items[3].subtitle, "third");
}

#[test]
fn empty_input_builds_empty_list() {
    let items = build_list(&Vec::new());
    assert!(items.is_empty());
}

#[test]
fn rows_carry_name_and_joined_details() {
    let mut b = candidate("Firefox", "123.0");
    b.version.company_name = "Mozilla".to_string();
    let items = build_list(&vec![b]);
    assert_eq!(items.len(), 1);
    assert_eq!(items[0].title, "Firefox");
    assert_eq!(items[0].subtitle, "123.0 | Mozilla");
    assert!(items[0].image.is_none());
}

#[test]
fn subtitle_skips_empty_details() {
    let mut v = VersionInfo::default();
    assert_eq!(subtitle_of(&v), "");
    v.product_version = "2.0".to_string();
    assert_eq!(subtitle_of(&v), "2.0");
    v.company_name = "Acme".to_string();
    v.file_description = "A browser".to_string();
    assert_eq!(subtitle_of(&v), "2.0 | Acme | A browser");
    v.binary_type = BinaryType::Bits64;
    assert_eq!(subtitle_of(&v), "2.0 | 64-bit | Acme | A browser");
    v.product_version = String::new();
    assert_eq!(subtitle_of(&v), "64-bit | Acme | A browser");
}

#[test]
fn binary_type_labels() {
    assert_eq!(BinaryType::Unknown.label(), "");
    assert_eq!(BinaryType::Bits32.label(), "32-bit");
    assert_eq!(BinaryType::Bits64.label(), "64-bit");
}

#[test]
fn selection_events_compare() {
    assert_eq!(BSEvent::BrowserSelected(2), BSEvent::BrowserSelected(2));
    assert_ne!(BSEvent::BrowserSelected(2), BSEvent::BrowserSelected(3));
    assert_ne!(BSEvent::BrowserSelected(0), BSEvent::Close);
}

#[test]
fn default_candidate_is_empty_and_absent() {
    let b = Browser::default();
    assert_eq!(b.exe_path, "");
    assert!(b.arguments.is_empty());
    assert_eq!(b.name, "");
    assert_eq!(b.icon, "");
    assert!(!b.exe_exists);
    assert!(!b.icon_exists);
    assert_eq!(b.version.product_name, "");
    assert_eq!(b.version.binary_type, BinaryType::Unknown);
}
