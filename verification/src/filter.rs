//! The URL-capability filter: reads a manifest's URL-type declarations and
//! flattens every declared scheme into one list, tolerating malformed
//! declarations entry by entry so that one broken declaration never hides
//! the others.

use vstd::prelude::*;
use crate::manifest::{spec_get, LookupError, ManifestValue};

verus! {

/// A structural fault found while reading URL-type declarations. Each
/// variant carries enough context (the declaration's position) to appear
/// in a diagnostic.
#[derive(Debug, Clone, Copy, PartialEq, Eq, Structural)]
pub enum FilterError {
    /// The URL-type key is present but its payload is not an array.
    UrlTypesNotArray,
    /// The declaration at `index` is not a dictionary.
    EntryNotDict { index: usize },
    /// The declaration at `index` has no scheme list.
    SchemesMissing { index: usize },
    /// The declaration at `index` has a scheme list that is not an array.
    SchemesNotArray { index: usize },
}

/// The outcome of walking all URL-type declarations of one manifest: every
/// scheme string found, in declaration order, plus one fault per
/// declaration that could not be read. A partially malformed manifest
/// still yields the schemes of its well-formed declarations.
#[derive(Debug)]
pub struct SchemeScan {
    pub schemes: Vec<String>,
    pub entry_errors: Vec<FilterError>,
}

/// The string payloads among `items`, in order; non-string items are
/// ignored.
pub open spec fn spec_scheme_strings(items: Seq<ManifestValue>) -> Seq<String>
    decreases items.len(),
{
    if items.len() == 0 {
        Seq::<String>::empty()
    } else {
        spec_scheme_strings(items.drop_last()) + (match items.last() {
            ManifestValue::Str(s) => seq![s],
            _ => Seq::<String>::empty(),
        })
    }
}

/// The schemes of the URL-type declaration at `index`, or the fault that
/// makes the declaration unreadable.
pub open spec fn spec_entry_schemes(entry: ManifestValue, index: usize) -> Result<
    Seq<String>,
    FilterError,
> {
    match entry {
        ManifestValue::Dict(_) => match spec_get(entry, "CFBundleURLSchemes"@) {
            None => Err(FilterError::SchemesMissing { index }),
            Some(v) => match v {
                ManifestValue::Array(items) => Ok(spec_scheme_strings(items@)),
                _ => Err(FilterError::SchemesNotArray { index }),
            },
        },
        _ => Err(FilterError::EntryNotDict { index }),
    }
}

/// Folds the declarations left to right: schemes of readable declarations
/// accumulate in order, faults of unreadable ones accumulate beside them.
pub open spec fn spec_scheme_scan(entries: Seq<ManifestValue>) -> (Seq<String>, Seq<FilterError>)
    decreases entries.len(),
{
    if entries.len() == 0 {
        (Seq::<String>::empty(), Seq::<FilterError>::empty())
    } else {
        let prev = spec_scheme_scan(entries.drop_last());
        match spec_entry_schemes(entries.last(), (entries.len() - 1) as usize) {
            Ok(ss) => (prev.0 + ss, prev.1),
            Err(f) => (prev.0, prev.1.push(f)),
        }
    }
}

/// What the filter returns for `doc`. A manifest without the URL-type key
/// declares nothing: it yields empty schemes and no fault, a normal
/// negative. Only a URL-type payload that is not an array rejects the
/// whole manifest.
pub open spec fn spec_supported_url_schemes(doc: ManifestValue) -> Result<
    (Seq<String>, Seq<FilterError>),
    FilterError,
> {
    match spec_get(doc, "CFBundleURLTypes"@) {
        None => Ok((Seq::<String>::empty(), Seq::<FilterError>::empty())),
        Some(v) => match v {
            ManifestValue::Array(items) => Ok(spec_scheme_scan(items@)),
            _ => Err(FilterError::UrlTypesNotArray),
        },
    }
}

/// Whether `s` is one of the schemes that make an application a browser.
/// Matching is exact and case-sensitive.
pub open spec fn spec_is_required_scheme(s: Seq<char>) -> bool {
    s == "http"@ || s == "https"@
}

/// Whether any collected scheme is `http` or `https`.
pub open spec fn spec_has_required_scheme(schemes: Seq<String>) -> bool {
    exists|i: int| 0 <= i < schemes.len() && spec_is_required_scheme(schemes[i]@)
}

/// The string payloads among `items`, in order.
fn scheme_strings(items: &Vec<ManifestValue>) -> (r: Vec<String>)
    ensures
        r@ == spec_scheme_strings(items@),
{
    let mut out: Vec<String> = Vec::new();
    let mut i: usize = 0;
    proof {
        assert(items@.take(0) =~= Seq::<ManifestValue>::empty());
    }
    while i < items.len()
        invariant
            0 <= i <= items@.len(),
            out@ == spec_scheme_strings(items@.take(i as int)),
        decreases items@.len() - i,
    {
        proof {
            assert(items@.take(i + 1).drop_last() =~= items@.take(i as int));
            assert(items@.take(i + 1).last() == items@[i as int]);
        }
        if let ManifestValue::Str(s) = &items[i] {
            out.push(s.clone());
        }
        i = i + 1;
    }
    proof {
        assert(items@.take(i as int) =~= items@);
    }
    out
}

/// Walks the manifest's URL-type declarations and flattens all their
/// scheme strings, recording one fault per unreadable declaration instead
/// of giving up on the manifest.
pub fn supported_url_schemes(doc: &ManifestValue) -> (r: Result<SchemeScan, FilterError>)
    ensures
        match r {
            Ok(scan) => spec_supported_url_schemes(*doc) == Ok::<_, FilterError>(
                (scan.schemes@, scan.entry_errors@),
            ),
            Err(e) => spec_supported_url_schemes(*doc) == Err::<(Seq<String>, Seq<FilterError>), _>(
                e,
            ),
        },
{
    let url_types = match doc.get("CFBundleURLTypes") {
        None => {
            return Ok(SchemeScan { schemes: Vec::new(), entry_errors: Vec::new() });
        },
        Some(v) => v,
    };
    let items = match url_types {
        ManifestValue::Array(items) => items,
        _ => {
            return Err(FilterError::UrlTypesNotArray);
        },
    };
    let ghost full = items@;
    let mut schemes: Vec<String> = Vec::new();
    let mut entry_errors: Vec<FilterError> = Vec::new();
    let mut i: usize = 0;
    proof {
        assert(full.take(0) =~= Seq::<ManifestValue>::empty());
    }
    while i < items.len()
        invariant
            0 <= i <= full.len(),
            full == items@,
            schemes@ == spec_scheme_scan(full.take(i as int)).0,
            entry_errors@ == spec_scheme_scan(full.take(i as int)).1,
        decreases full.len() - i,
    {
        proof {
            assert(full.take(i + 1).drop_last() =~= full.take(i as int));
            assert(full.take(i + 1).last() == full[i as int]);
        }
        let entry = &items[i];
        if let ManifestValue::Dict(_) = entry {
            match entry.get_array("CFBundleURLSchemes") {
                Ok(arr) => {
                    let mut found = scheme_strings(arr);
                    schemes.append(&mut found);
                },
                Err(LookupError::Missing) => {
                    entry_errors.push(FilterError::SchemesMissing { index: i });
                },
                Err(LookupError::WrongType) => {
                    entry_errors.push(FilterError::SchemesNotArray { index: i });
                },
            }
        } else {
            entry_errors.push(FilterError::EntryNotDict { index: i });
        }
        i = i + 1;
    }
    proof {
        assert(full.take(i as int) =~= full);
    }
    Ok(SchemeScan { schemes, entry_errors })
}

/// Whether any of the collected schemes is `http` or `https`.
pub fn has_required_scheme(schemes: &Vec<String>) -> (r: bool)
    ensures
        r == spec_has_required_scheme(schemes@),
{
    let mut i: usize = 0;
    while i < schemes.len()
        invariant
            0 <= i <= schemes@.len(),
            forall|j: int| 0 <= j < i ==> !spec_is_required_scheme(schemes@[j]@),
        decreases schemes@.len() - i,
    {
        let s = schemes[i].as_str();
        if crate::text::str_eq(s, "http") || crate::text::str_eq(s, "https") {
            return true;
        }
        i = i + 1;
    }
    false
}

} // verus!
