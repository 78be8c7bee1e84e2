use browser_select::filter::{has_required_scheme, supported_url_schemes, FilterError};
use browser_select::manifest::ManifestValue;

fn dict(entries: Vec<(&str, ManifestValue)>) -> ManifestValue {
    ManifestValue::Dict(entries.into_iter().map(|(k, v)| (k.to_string(), v)).collect())
}

fn s(text: &str) -> ManifestValue {
    ManifestValue::Str(text.to_string())
}

fn url_type(schemes: Vec<ManifestValue>) -> ManifestValue {
    dict(vec![("CFBundleURLSchemes", ManifestValue::Array(schemes))])
}

#[test]
fn missing_declaration_is_a_normal_negative() {
    let doc = dict(vec![("CFBundleName", s("Notes"))]);
    let scan = supported_url_schemes(&doc).unwrap();
    assert!(scan.schemes.is_empty());
    assert!(scan.entry_errors.is_empty());
    assert!(!has_required_scheme(&scan.schemes));
}

#[test]
fn flattens_schemes_across_declarations() {
    let doc = dict(vec![(
        "CFBundleURLTypes",
        ManifestValue::Array(vec![
            url_type(vec![s("ftp"), s("http")]),
            url_type(vec![s("mailto")]),
        ]),
    )]);
    let scan = supported_url_schemes(&doc).unwrap();
    assert_eq!(scan.schemes, vec!["ftp", "http", "mailto"]);
    assert!(scan.entry_errors.is_empty());
    assert!(has_required_scheme(&scan.schemes));
}

#[test]
fn one_malformed_declaration_does_not_hide_the_others() {
    let doc = dict(vec![(
        "CFBundleURLTypes",
        ManifestValue::Array(vec![
            s("not a dictionary"),
            url_type(vec![s("https")]),
            dict(vec![("SomethingElse", s("x"))]),
            dict(vec![("CFBundleURLSchemes", s("not an array"))]),
        ]),
    )]);
    let scan = supported_url_schemes(&doc).unwrap();
    assert_eq!(scan.schemes, vec!["https"]);
    assert_eq!(
        scan.entry_errors,
        vec![
            FilterError::EntryNotDict { index: 0 },
            FilterError::SchemesMissing { index: 2 },
            FilterError::SchemesNotArray { index: 3 },
        ]
    );
    assert!(has_required_scheme(&scan.schemes));
}

#[test]
fn declaration_payload_of_wrong_shape_rejects_the_manifest() {
    let doc = dict(vec![("CFBundleURLTypes", s("oops"))]);
    assert_eq!(supported_url_schemes(&doc).unwrap_err(), FilterError::UrlTypesNotArray);
}

#[test]
fn non_string_scheme_items_are_ignored() {
    let doc = dict(vec![(
        "CFBundleURLTypes",
        ManifestValue::Array(vec![url_type(vec![
            ManifestValue::Other,
            s("https"),
            ManifestValue::Array(vec![]),
        ])]),
    )]);
    let scan = supported_url_schemes(&doc).unwrap();
    assert_eq!(scan.schemes, vec!["https"]);
    assert!(scan.entry_errors.is_empty());
}

#[test]
fn matching_is_exact_and_case_sensitive() {
    let https_upper = vec!["HTTPS".to_string()];
    assert!(!has_required_scheme(&https_upper));
    let prefixed = vec!["http-like".to_string(), "xhttp".to_string()];
    assert!(!has_required_scheme(&prefixed));
    let plain_http = vec!["gopher".to_string(), "http".to_string()];
    assert!(has_required_scheme(&plain_http));
    let plain_https = vec!["https".to_string()];
    assert!(has_required_scheme(&plain_https));
}
