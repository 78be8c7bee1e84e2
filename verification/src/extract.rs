//! The metadata extractor: given a manifest that passed the URL filter and
//! the application's root directory, it pulls out the executable name, the
//! display name and the version string, computes the executable's absolute
//! path, records whether that executable is present, and builds the
//! canonical candidate record.

use vstd::prelude::*;
use crate::browser::{BinaryType, Browser, BrowserView, VersionInfo, VersionInfoView};
use crate::manifest::{spec_get, LookupError, ManifestValue};
use crate::text::spec_contains_str;

verus! {

/// The manifest fields extraction cannot do without.
#[derive(Debug, Clone, Copy, PartialEq, Eq, Structural)]
pub enum FieldName {
    /// The executable file name inside the application's binary directory.
    Executable,
    /// The human-readable program name.
    DisplayName,
    /// The publisher's version string.
    Version,
}

impl FieldName {
    /// The manifest key this field is read from.
    pub open spec fn spec_key(self) -> Seq<char> {
        match self {
            FieldName::Executable => "CFBundleExecutable"@,
            FieldName::DisplayName => "CFBundleName"@,
            FieldName::Version => "CFBundleShortVersionString"@,
        }
    }

    /// The manifest key this field is read from.
    pub fn key(&self) -> (r: &'static str)
        ensures
            r@ == self.spec_key(),
    {
        match self {
            FieldName::Executable => "CFBundleExecutable",
            FieldName::DisplayName => "CFBundleName",
            FieldName::Version => "CFBundleShortVersionString",
        }
    }
}

/// Why extraction failed, naming the offending field so a diagnostic can
/// point at it.
#[derive(Debug, Clone, Copy, PartialEq, Eq, Structural)]
pub enum ExtractError {
    /// The named required field is absent from the manifest.
    MissingField(FieldName),
    /// The named required field is present but not a string.
    WrongType(FieldName),
}

/// The characters of required field `f` in `doc`, or the error extraction
/// reports for it.
pub open spec fn spec_required_field(doc: ManifestValue, f: FieldName) -> Result<
    Seq<char>,
    ExtractError,
> {
    match spec_get(doc, f.spec_key()) {
        None => Err(ExtractError::MissingField(f)),
        Some(v) => match v {
            ManifestValue::Str(s) => Ok(s@),
            _ => Err(ExtractError::WrongType(f)),
        },
    }
}

/// The candidate extracted from `doc` for the application rooted at
/// `app_dir`, whose binary directory holds the file names `executables`;
/// or the first error among the required fields, checked in the order
/// executable name, display name, version string.
pub open spec fn spec_extract(
    doc: ManifestValue,
    app_dir: Seq<char>,
    executables: Seq<String>,
) -> Result<BrowserView, ExtractError> {
    match spec_required_field(doc, FieldName::Executable) {
        Err(e) => Err(e),
        Ok(exe) => match spec_required_field(doc, FieldName::DisplayName) {
            Err(e) => Err(e),
            Ok(name) => match spec_required_field(doc, FieldName::Version) {
                Err(e) => Err(e),
                Ok(ver) => Ok(
                    BrowserView {
                        exe_path: app_dir + "/MacOS/"@ + exe,
                        arguments: Seq::<Seq<char>>::empty(),
                        name: name,
                        icon: Seq::<char>::empty(),
                        exe_exists: spec_contains_str(executables, exe),
                        icon_exists: false,
                        version: VersionInfoView {
                            product_name: name,
                            product_version: ver,
                            company_name: Seq::<char>::empty(),
                            file_description: Seq::<char>::empty(),
                            binary_type: BinaryType::Unknown,
                        },
                    },
                ),
            },
        },
    }
}

/// Reads one required string field, mapping an absent key to
/// `MissingField` and a non-string payload to `WrongType`, each naming
/// the field.
fn required_field<'a>(doc: &'a ManifestValue, f: FieldName) -> (r: Result<&'a String, ExtractError>)
    ensures
        match r {
            Ok(s) => spec_required_field(*doc, f) == Ok::<_, ExtractError>(s@),
            Err(e) => spec_required_field(*doc, f) == Err::<Seq<char>, _>(e),
        },
{
    match doc.get_string(f.key()) {
        Ok(s) => Ok(s),
        Err(LookupError::Missing) => Err(ExtractError::MissingField(f)),
        Err(LookupError::WrongType) => Err(ExtractError::WrongType(f)),
    }
}

/// Builds the candidate record for the manifest `doc` of the application
/// rooted at `app_dir`, whose binary directory holds the file names
/// `executables`. A missing executable file is recorded, not an error;
/// only a missing or non-string required field fails, naming the field.
pub fn browser_from_manifest(
    doc: &ManifestValue,
    app_dir: &str,
    executables: &Vec<String>,
) -> (r: Result<Browser, ExtractError>)
    ensures
        match r {
            Ok(b) => spec_extract(*doc, app_dir@, executables@) == Ok::<_, ExtractError>(b@),
            Err(e) => spec_extract(*doc, app_dir@, executables@) == Err::<BrowserView, _>(e),
        },
{
    let exe = match required_field(doc, FieldName::Executable) {
        Ok(s) => s,
        Err(e) => {
            return Err(e);
        },
    };
    let name = match required_field(doc, FieldName::DisplayName) {
        Ok(s) => s,
        Err(e) => {
            return Err(e);
        },
    };
    let ver = match required_field(doc, FieldName::Version) {
        Ok(s) => s,
        Err(e) => {
            return Err(e);
        },
    };
    let exe_path = crate::text::concat3(app_dir, "/MacOS/", exe.as_str());
    let exe_exists = crate::text::contains_str(executables, exe.as_str());
    let b = Browser {
        exe_path,
        arguments: Vec::new(),
        name: name.clone(),
        icon: String::new(),
        exe_exists,
        icon_exists: false,
        version: VersionInfo {
            product_name: name.clone(),
            product_version: ver.clone(),
            company_name: String::new(),
            file_description: String::new(),
            binary_type: BinaryType::Unknown,
        },
    };
    proof {
        assert(b.arguments.deep_view() =~= Seq::<Seq<char>>::empty());
        assert(spec_extract(*doc, app_dir@, executables@) matches Ok(bv) && bv =~~= b@);
    }
    Ok(b)
}

} // verus!
