use browser_select::browser::BinaryType;
use browser_select::extract::{browser_from_manifest, ExtractError, FieldName};
use browser_select::manifest::ManifestValue;

fn dict(entries: Vec<(&str, ManifestValue)>) -> ManifestValue {
    ManifestValue::Dict(entries.into_iter().map(|(k, v)| (k.to_string(), v)).collect())
}

fn s(text: &str) -> ManifestValue {
    ManifestValue::Str(text.to_string())
}

fn full_doc() -> ManifestValue {
    dict(vec![
        ("CFBundleExecutable", s("firefox")),
        ("CFBundleName", s("Firefox")),
        ("CFBundleShortVersionString", s("123.0")),
    ])
}

fn exes(names: &[&str]) -> Vec<String> {
    names.iter().map(|n| n.to_string()).collect()
}

#[test]
fn extracts_full_candidate() {
    let doc = full_doc();
    let b = browser_from_manifest(&doc, "/Applications/Firefox.app/Contents", &exes(&["firefox"]))
        .unwrap();
    assert_eq!(b.exe_path, "/Applications/Firefox.app/Contents/MacOS/firefox");
    assert_eq!(b.name, "Firefox");
    assert!(b.exe_exists);
    assert!(!b.icon_exists);
    assert!(b.arguments.is_empty());
    assert_eq!(b.icon, "");
    assert_eq!(b.version.product_name, "Firefox");
    assert_eq!(b.version.product_version, "123.0");
    assert_eq!(b.version.company_name, "");
    assert_eq!(b.version.file_description, "");
    assert_eq!(b.version.binary_type, BinaryType::Unknown);
}

#[test]
fn missing_executable_is_absent_not_fatal() {
    let doc = full_doc();
    let b = browser_from_manifest(&doc, "/apps/F.app/Contents", &exes(&["other", "tool"]))
        .unwrap();
    assert!(!b.exe_exists);
    assert_eq!(b.exe_path, "/apps/F.app/Contents/MacOS/firefox");
}

#[test]
fn missing_fields_are_named() {
    let no_exe = dict(vec![
        ("CFBundleName", s("Firefox")),
        ("CFBundleShortVersionString", s("123.0")),
    ]);
    assert_eq!(
        browser_from_manifest(&no_exe, "/a", &exes(&[])).unwrap_err(),
        ExtractError::MissingField(FieldName::Executable)
    );

    let no_name = dict(vec![
        ("CFBundleExecutable", s("firefox")),
        ("CFBundleShortVersionString", s("123.0")),
    ]);
    assert_eq!(
        browser_from_manifest(&no_name, "/a", &exes(&[])).unwrap_err(),
        ExtractError::MissingField(FieldName::DisplayName)
    );

    let no_version = dict(vec![
        ("CFBundleExecutable", s("firefox")),
        ("CFBundleName", s("Firefox")),
    ]);
    assert_eq!(
        browser_from_manifest(&no_version, "/a", &exes(&[])).unwrap_err(),
        ExtractError::MissingField(FieldName::Version)
    );
}

#[test]
fn mistyped_fields_are_named() {
    let bad_name = dict(vec![
        ("CFBundleExecutable", s("firefox")),
        ("CFBundleName", ManifestValue::Array(vec![])),
        ("CFBundleShortVersionString", s("123.0")),
    ]);
    assert_eq!(
        browser_from_manifest(&bad_name, "/a", &exes(&[])).unwrap_err(),
        ExtractError::WrongType(FieldName::DisplayName)
    );
}

#[test]
fn first_failing_field_wins() {
    let doc = dict(vec![("CFBundleShortVersionString", s("1.0"))]);
    assert_eq!(
        browser_from_manifest(&doc, "/a", &exes(&[])).unwrap_err(),
        ExtractError::MissingField(FieldName::Executable)
    );
}
