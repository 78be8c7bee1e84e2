use browser_select::manifest::{LookupError, ManifestValue, ReadError};
use browser_select::manifest::read_manifest_bytes;

fn dict(entries: Vec<(&str, ManifestValue)>) -> ManifestValue {
    ManifestValue::Dict(entries.into_iter().map(|(k, v)| (k.to_string(), v)).collect())
}

fn s(text: &str) -> ManifestValue {
    ManifestValue::Str(text.to_string())
}

#[test]
fn get_finds_first_binding() {
    let doc = dict(vec![("a", s("one")), ("b", s("two")), ("a", s("three"))]);
    match doc.get("a") {
        Some(ManifestValue::Str(v)) => assert_eq!(v, "one"),
        other => panic!("unexpected lookup result: {:?}", other),
    }
    assert!(doc.get("missing").is_none());
}

#[test]
fn get_on_non_dict_is_none() {
    let doc = s("text");
    assert!(doc.get("a").is_none());
    let doc = ManifestValue::Array(vec![]);
    assert!(doc.get("a").is_none());
}

#[test]
fn get_string_distinguishes_missing_from_wrong_type() {
    let doc = dict(vec![("name", s("Firefox")), ("types", ManifestValue::Array(vec![]))]);
    assert_eq!(doc.get_string("name").unwrap(), "Firefox");
    assert_eq!(doc.get_string("absent").unwrap_err(), LookupError::Missing);
    assert_eq!(doc.get_string("types").unwrap_err(), LookupError::WrongType);
}

#[test]
fn get_array_and_get_dict_check_shape() {
    let doc = dict(vec![
        ("arr", ManifestValue::Array(vec![s("x")])),
        ("map", dict(vec![("k", s("v"))])),
    ]);
    assert_eq!(doc.get_array("arr").unwrap().len(), 1);
    assert_eq!(doc.get_array("map").unwrap_err(), LookupError::WrongType);
    assert_eq!(doc.get_dict("map").unwrap().len(), 1);
    assert_eq!(doc.get_dict("arr").unwrap_err(), LookupError::WrongType);
    assert_eq!(doc.get_dict("gone").unwrap_err(), LookupError::Missing);
}

const SIMPLE_PLIST: &str = r#"<?xml version="1.0" encoding="UTF-8"?>
<plist version="1.0">
<dict>
    <key>CFBundleExecutable</key><string>firefox</string>
    <key>CFBundleName</key><string>Firefox</string>
    <key>CFBundleShortVersionString</key><string>123.0</string>
    <key>CFBundleVersion</key><integer>7</integer>
</dict>
</plist>
"#;

#[test]
fn parses_xml_property_list_bytes() {
    let bytes = SIMPLE_PLIST.as_bytes().to_vec();
    let doc = read_manifest_bytes(&bytes).unwrap();
    assert_eq!(doc.get_string("CFBundleExecutable").unwrap(), "firefox");
    assert_eq!(doc.get_string("CFBundleName").unwrap(), "Firefox");
    assert_eq!(doc.get_string("CFBundleShortVersionString").unwrap(), "123.0");
    // Payloads the discovery logic never reads collapse to Other.
    match doc.get("CFBundleVersion") {
        Some(ManifestValue::Other) => {}
        other => panic!("integer payload should be opaque, got {:?}", other),
    }
}

#[test]
fn rejects_bytes_that_are_no_property_list() {
    let bytes = b"not a plist at all".to_vec();
    assert_eq!(read_manifest_bytes(&bytes).unwrap_err(), ReadError::Malformed);
}

#[test]
fn parses_nested_url_types() {
    let text = r#"<?xml version="1.0" encoding="UTF-8"?>
<plist version="1.0">
<dict>
    <key>CFBundleURLTypes</key>
    <array>
        <dict>
            <key>CFBundleURLSchemes</key>
            <array><string>http</string><string>https</string></array>
        </dict>
    </array>
</dict>
</plist>
"#;
    let doc = read_manifest_bytes(&text.as_bytes().to_vec()).unwrap();
    let types = doc.get_array("CFBundleURLTypes").unwrap();
    assert_eq!(types.len(), 1);
    match &types[0] {
        ManifestValue::Dict(entries) => {
            assert_eq!(entries[0].0, "CFBundleURLSchemes");
            match &entries[0].1 {
                ManifestValue::Array(schemes) => {
                    assert!(matches!(&schemes[0], ManifestValue::Str(x) if x == "http"));
                    assert!(matches!(&schemes[1], ManifestValue::Str(x) if x == "https"));
                }
                other => panic!("schemes should be an array, got {:?}", other),
            }
        }
        other => panic!("declaration should be a dictionary, got {:?}", other),
    }
}
