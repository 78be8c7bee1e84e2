//! The candidate record produced for each discovered browser-capable
//! application, together with its version metadata.

use vstd::prelude::*;

verus! {

/// The architecture class of a program binary, when the platform reports
/// one; `Unknown` when it does not.
#[derive(Debug, Clone, Copy, PartialEq, Eq, Structural)]
pub enum BinaryType {
    Unknown,
    Bits32,
    Bits64,
}

impl BinaryType {
    /// The displayable label of this architecture class; empty for `Unknown`
    /// so that it vanishes from joined subtitle text.
    pub open spec fn spec_label(self) -> Seq<char> {
        match self {
            BinaryType::Unknown => Seq::<char>::empty(),
            BinaryType::Bits32 => "32-bit"@,
            BinaryType::Bits64 => "64-bit"@,
        }
    }

    /// The displayable label of this architecture class.
    pub fn label(&self) -> (r: &'static str)
        ensures
            r@ == self.spec_label(),
    {
        match self {
            BinaryType::Unknown => {
                proof {
                    reveal_strlit("");
                    assert(""@ =~= Seq::<char>::empty());
                }
                ""
            },
            BinaryType::Bits32 => "32-bit",
            BinaryType::Bits64 => "64-bit",
        }
    }
}

/// Version metadata of a discovered program, as declared by its publisher.
/// Unknown fields hold the empty string, never an absent value.
#[derive(Debug, Clone)]
pub struct VersionInfo {
    pub product_name: String,
    pub product_version: String,
    pub company_name: String,
    pub file_description: String,
    pub binary_type: BinaryType,
}

/// The mathematical image of a `VersionInfo`: each text field as its
/// character sequence.
pub ghost struct VersionInfoView {
    pub product_name: Seq<char>,
    pub product_version: Seq<char>,
    pub company_name: Seq<char>,
    pub file_description: Seq<char>,
    pub binary_type: BinaryType,
}

impl View for VersionInfo {
    type V = VersionInfoView;

    open spec fn view(&self) -> VersionInfoView {
        VersionInfoView {
            product_name: self.product_name@,
            product_version: self.product_version@,
            company_name: self.company_name@,
            file_description: self.file_description@,
            binary_type: self.binary_type,
        }
    }
}

impl Default for VersionInfo {
    /// All fields empty, with no architecture class.
    fn default() -> (r: VersionInfo)
        ensures
            r@ == VersionInfoView::empty(),
    {
        VersionInfo {
            product_name: String::new(),
            product_version: String::new(),
            company_name: String::new(),
            file_description: String::new(),
            binary_type: BinaryType::Unknown,
        }
    }
}

impl VersionInfoView {
    /// The view of a default `VersionInfo`.
    pub open spec fn empty() -> VersionInfoView {
        VersionInfoView {
            product_name: Seq::<char>::empty(),
            product_version: Seq::<char>::empty(),
            company_name: Seq::<char>::empty(),
            file_description: Seq::<char>::empty(),
            binary_type: BinaryType::Unknown,
        }
    }
}

/// One discovered browser-capable application.
#[derive(Debug, Clone)]
pub struct Browser {
    /// The path to the executable binary or script that is the entry point
    /// of the browser program. This path is absolute and free of arguments.
    pub exe_path: String,
    /// The arguments that should be passed when executing the browser
    /// binary, in order, before the URL.
    pub arguments: Vec<String>,
    /// User friendly browser program name, as declared by the publisher in
    /// the program's manifest; never empty after successful extraction.
    pub name: String,
    /// Path to the browser program icon, when one was located; resolved
    /// lazily, empty until then.
    pub icon: String,
    /// Whether the executable was present when the candidate was built.
    pub exe_exists: bool,
    /// Whether an icon resource was located for the candidate.
    pub icon_exists: bool,
    /// Version metadata extracted from the manifest.
    pub version: VersionInfo,
}

/// The mathematical image of a `Browser`: each text field as its character
/// sequence.
#[verifier::ext_equal]
pub ghost struct BrowserView {
    pub exe_path: Seq<char>,
    pub arguments: Seq<Seq<char>>,
    pub name: Seq<char>,
    pub icon: Seq<char>,
    pub exe_exists: bool,
    pub icon_exists: bool,
    pub version: VersionInfoView,
}

impl View for Browser {
    type V = BrowserView;

    open spec fn view(&self) -> BrowserView {
        BrowserView {
            exe_path: self.exe_path@,
            arguments: self.arguments.deep_view(),
            name: self.name@,
            icon: self.icon@,
            exe_exists: self.exe_exists,
            icon_exists: self.icon_exists,
            version: self.version@,
        }
    }
}

impl Default for Browser {
    /// A candidate with every field empty and both presence flags down.
    fn default() -> (r: Browser)
        ensures
            r@ == BrowserView::empty(),
    {
        let r = Browser {
            exe_path: String::new(),
            arguments: Vec::new(),
            name: String::new(),
            icon: String::new(),
            exe_exists: false,
            icon_exists: false,
            version: VersionInfo::default(),
        };
        proof {
            assert(r.arguments.deep_view() =~= Seq::<Seq<char>>::empty());
            assert(r@ =~~= BrowserView::empty());
        }
        r
    }
}

impl BrowserView {
    /// The view of a default `Browser`.
    pub open spec fn empty() -> BrowserView {
        BrowserView {
            exe_path: Seq::<char>::empty(),
            arguments: Seq::<Seq<char>>::empty(),
            name: Seq::<char>::empty(),
            icon: Seq::<char>::empty(),
            exe_exists: false,
            icon_exists: false,
            version: VersionInfoView::empty(),
        }
    }
}

} // verus!
