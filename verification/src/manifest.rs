//! The manifest document model: a structured, possibly nested key/value
//! document describing one installed application, with typed lookups that
//! fail explicitly instead of panicking, and a parser for the on-disk
//! property-list encoding.

use vstd::prelude::*;

verus! {

/// One value inside a manifest document. Only the shapes the discovery
/// logic reads are kept distinct; every other payload (numbers, dates,
/// booleans, raw data) collapses into `Other`.
#[derive(Debug)]
pub enum ManifestValue {
    Str(String),
    Array(Vec<ManifestValue>),
    Dict(Vec<(String, ManifestValue)>),
    Other,
}

/// Why a manifest could not be read: the file was missing or unreadable,
/// or its bytes did not form a well-formed document.
#[derive(Debug, Clone, Copy, PartialEq, Eq, Structural)]
pub enum ReadError {
    NotFound,
    Malformed,
}

/// Why a typed lookup failed: the key is absent, or present with a payload
/// of the wrong shape. Callers can treat a missing optional field
/// differently from a corrupt document.
#[derive(Debug, Clone, Copy, PartialEq, Eq, Structural)]
pub enum LookupError {
    Missing,
    WrongType,
}

/// The first value bound to `key` among `entries`, by character equality.
pub open spec fn dict_lookup(entries: Seq<(String, ManifestValue)>, key: Seq<char>) -> Option<
    ManifestValue,
>
    decreases entries.len(),
{
    if entries.len() == 0 {
        None
    } else if entries[0].0@ == key {
        Some(entries[0].1)
    } else {
        dict_lookup(entries.drop_first(), key)
    }
}

/// The value bound to `key` when `doc` is a dictionary holding it.
pub open spec fn spec_get(doc: ManifestValue, key: Seq<char>) -> Option<ManifestValue> {
    match doc {
        ManifestValue::Dict(entries) => dict_lookup(entries@, key),
        _ => None,
    }
}

impl ManifestValue {
    /// The first value bound to `key`, when this value is a dictionary
    /// that holds the key.
    pub fn get(&self, key: &str) -> (r: Option<&ManifestValue>)
        ensures
            match r {
                Some(v) => spec_get(*self, key@) == Some(*v),
                None => spec_get(*self, key@) is None,
            },
    {
        match self {
            ManifestValue::Dict(entries) => {
                proof {
                    assert(entries@.skip(0) =~= entries@);
                    assert(spec_get(*self, key@) == dict_lookup(entries@, key@));
                }
                let mut i: usize = 0;
                while i < entries.len()
                    invariant
                        0 <= i <= entries@.len(),
                        spec_get(*self, key@) == dict_lookup(entries@.skip(i as int), key@),
                    decreases entries@.len() - i,
                {
                    proof {
                        assert(entries@.skip(i as int)[0] == entries@[i as int]);
                    }
                    if crate::text::str_eq(entries[i].0.as_str(), key) {
                        proof {
                            assert(dict_lookup(entries@.skip(i as int), key@) == Some(
                                entries@[i as int].1,
                            ));
                        }
                        return Some(&entries[i].1);
                    }
                    proof {
                        assert(entries@.skip(i as int).drop_first() =~= entries@.skip(i + 1));
                    }
                    i = i + 1;
                }
                None
            },
            _ => None,
        }
    }

    /// The string bound to `key`, distinguishing an absent key from one
    /// bound to a non-string payload.
    pub fn get_string(&self, key: &str) -> (r: Result<&String, LookupError>)
        ensures
            match r {
                Ok(s) => spec_get(*self, key@) matches Some(v) && v matches ManifestValue::Str(t)
                    && t == *s,
                Err(LookupError::Missing) => spec_get(*self, key@) is None,
                Err(LookupError::WrongType) => spec_get(*self, key@) matches Some(v) && !(
                v matches ManifestValue::Str(_)),
            },
    {
        match self.get(key) {
            Some(ManifestValue::Str(s)) => Ok(s),
            Some(_) => Err(LookupError::WrongType),
            None => Err(LookupError::Missing),
        }
    }

    /// The array bound to `key`, distinguishing an absent key from one
    /// bound to a non-array payload.
    pub fn get_array(&self, key: &str) -> (r: Result<&Vec<ManifestValue>, LookupError>)
        ensures
            match r {
                Ok(items) => spec_get(*self, key@) matches Some(v) && v matches
                    ManifestValue::Array(a) && a == *items,
                Err(LookupError::Missing) => spec_get(*self, key@) is None,
                Err(LookupError::WrongType) => spec_get(*self, key@) matches Some(v) && !(
                v matches ManifestValue::Array(_)),
            },
    {
        match self.get(key) {
            Some(ManifestValue::Array(items)) => Ok(items),
            Some(_) => Err(LookupError::WrongType),
            None => Err(LookupError::Missing),
        }
    }

    /// The dictionary bound to `key`, distinguishing an absent key from
    /// one bound to a non-dictionary payload.
    pub fn get_dict(&self, key: &str) -> (r: Result<&Vec<(String, ManifestValue)>, LookupError>)
        ensures
            match r {
                Ok(entries) => spec_get(*self, key@) matches Some(v) && v matches
                    ManifestValue::Dict(d) && d == *entries,
                Err(LookupError::Missing) => spec_get(*self, key@) is None,
                Err(LookupError::WrongType) => spec_get(*self, key@) matches Some(v) && !(
                v matches ManifestValue::Dict(_)),
            },
    {
        match self.get(key) {
            Some(ManifestValue::Dict(entries)) => Ok(entries),
            Some(_) => Err(LookupError::WrongType),
            None => Err(LookupError::Missing),
        }
    }
}

/// The document encoded by the given property-list bytes, or `None` when
/// the bytes are not a well-formed property list. The result is a function
/// of the bytes alone: parsing consults nothing else.
pub uninterp spec fn parsed_manifest(bytes: Seq<u8>) -> Option<ManifestValue>;

#[verifier::external_type_specification]
#[verifier::external_body]
pub struct ExPlistValue(plist::Value);

/// Relies on `plist::Value::from_reader`, which decodes a property list of
/// any encoding from a seekable byte stream; the outcome depends on the
/// bytes alone.
#[verifier::external_body]
fn parse_plist(bytes: &Vec<u8>) -> (r: Option<ManifestValue>)
    ensures
        r == parsed_manifest(bytes@),
{
    plist::Value::from_reader(std::io::Cursor::new(bytes.as_slice())).ok().map(
        |v| manifest_of_plist(&v),
    )
}

/// Relies on the shape of `plist::Value` alone: each variant is mapped to
/// the matching `ManifestValue` variant, field for field, and every payload
/// the discovery logic never reads becomes `Other`.
#[verifier::external_body]
fn manifest_of_plist(v: &plist::Value) -> ManifestValue {
    match v {
        plist::Value::String(s) => ManifestValue::Str(s.clone()),
        plist::Value::Array(a) => ManifestValue::Array(
            a.iter().map(manifest_of_plist).collect(),
        ),
        plist::Value::Dictionary(d) => ManifestValue::Dict(
            d.into_iter().map(|(k, x)| (k.clone(), manifest_of_plist(x))).collect(),
        ),
        _ => ManifestValue::Other,
    }
}

/// Decodes one manifest from its on-disk bytes. Bytes that do not form a
/// well-formed property list yield `ReadError::Malformed`; locating and
/// reading the file is the caller's concern and yields
/// `ReadError::NotFound` there.
pub fn read_manifest_bytes(bytes: &Vec<u8>) -> (r: Result<ManifestValue, ReadError>)
    ensures
        match parsed_manifest(bytes@) {
            Some(doc) => r matches Ok(d) && d == doc,
            None => r matches Err(e) && e == ReadError::Malformed,
        },
{
    match parse_plist(bytes) {
        Some(doc) => Ok(doc),
        None => Err(ReadError::Malformed),
    }
}

} // verus!
