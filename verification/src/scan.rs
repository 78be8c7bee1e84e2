//! The directory scanner: folds many per-application entries into one
//! outcome. Every per-entry failure becomes a diagnostic tagged with the
//! offending path and pipeline stage, and scanning continues; no single
//! broken application can halt or lose the rest of the scan.

use vstd::prelude::*;
use crate::browser::{Browser, BrowserView};
use crate::extract::{browser_from_manifest, spec_extract, ExtractError};
use crate::filter::{
    has_required_scheme, spec_has_required_scheme, spec_supported_url_schemes,
    supported_url_schemes, FilterError,
};
use crate::manifest::{ManifestValue, ReadError};

verus! {

/// What was found at an entry's manifest location.
#[derive(Debug)]
pub enum ManifestPayload {
    /// No manifest file: the entry is not an application in this domain
    /// and is skipped silently.
    Absent,
    /// A manifest file exists but could not be read.
    Unreadable,
    /// Manifest bytes were read but do not form a well-formed document.
    Malformed,
    /// The parsed manifest document.
    Doc(ManifestValue),
}

/// One child of a root directory, as handed to the scanner: the
/// application directory path, the file names found in its binary
/// directory, and what was found at its manifest location.
#[derive(Debug)]
pub struct ScanEntry {
    pub path: String,
    pub executables: Vec<String>,
    pub payload: ManifestPayload,
}

/// The pipeline stage a diagnostic came from.
#[derive(Debug, Clone, Copy, PartialEq, Eq, Structural)]
pub enum ScanStage {
    Root,
    Read,
    Filter,
    Extract,
}

/// The fault behind a diagnostic.
#[derive(Debug, Clone, Copy, PartialEq, Eq, Structural)]
pub enum ScanFault {
    Read(ReadError),
    Filter(FilterError),
    Extract(ExtractError),
}

/// A non-fatal issue met during scanning: the offending path, the stage
/// that failed there, and the fault itself.
#[derive(Debug)]
pub struct ScanDiagnostic {
    pub path: String,
    pub stage: ScanStage,
    pub fault: ScanFault,
}

/// The mathematical image of a `ScanDiagnostic`.
#[verifier::ext_equal]
pub ghost struct DiagView {
    pub path: Seq<char>,
    pub stage: ScanStage,
    pub fault: ScanFault,
}

impl View for ScanDiagnostic {
    type V = DiagView;

    open spec fn view(&self) -> DiagView {
        DiagView { path: self.path@, stage: self.stage, fault: self.fault }
    }
}

/// A diagnostic value, for use in contracts.
pub open spec fn diag(path: Seq<char>, stage: ScanStage, fault: ScanFault) -> DiagView {
    DiagView { path, stage, fault }
}

/// The views of a sequence of candidates.
pub open spec fn views_of_browsers(s: Seq<Browser>) -> Seq<BrowserView> {
    s.map_values(|b: Browser| b@)
}

/// The views of a sequence of diagnostics.
pub open spec fn views_of_diags(s: Seq<ScanDiagnostic>) -> Seq<DiagView> {
    s.map_values(|d: ScanDiagnostic| d@)
}

/// One filter diagnostic per declaration fault, all at `path`.
pub open spec fn spec_filter_diags(path: Seq<char>, errs: Seq<FilterError>) -> Seq<DiagView> {
    errs.map_values(|f: FilterError| diag(path, ScanStage::Filter, ScanFault::Filter(f)))
}

/// The candidates a single entry contributes: one when its manifest is
/// well-formed, declares `http` or `https`, and extraction succeeds;
/// none otherwise.
pub open spec fn spec_entry_candidates(e: ScanEntry) -> Seq<BrowserView> {
    match e.payload {
        ManifestPayload::Doc(doc) => match spec_supported_url_schemes(doc) {
            Ok(p) => if spec_has_required_scheme(p.0) {
                match spec_extract(doc, e.path@, e.executables@) {
                    Ok(b) => seq![b],
                    Err(_) => Seq::<BrowserView>::empty(),
                }
            } else {
                Seq::<BrowserView>::empty()
            },
            Err(_) => Seq::<BrowserView>::empty(),
        },
        _ => Seq::<BrowserView>::empty(),
    }
}

/// The diagnostics a single entry contributes. An absent manifest is
/// silent; an unreadable or malformed one reports the read stage; a
/// URL-type payload of the wrong shape reports the filter stage; a
/// readable manifest reports one filter diagnostic per unreadable
/// declaration, and, when it declares a required scheme but a required
/// field is missing or mistyped, one extract diagnostic. Exclusion for
/// want of a required scheme is silent.
pub open spec fn spec_entry_diags(e: ScanEntry) -> Seq<DiagView> {
    match e.payload {
        ManifestPayload::Absent => Seq::<DiagView>::empty(),
        ManifestPayload::Unreadable => seq![
            diag(e.path@, ScanStage::Read, ScanFault::Read(ReadError::NotFound)),
        ],
        ManifestPayload::Malformed => seq![
            diag(e.path@, ScanStage::Read, ScanFault::Read(ReadError::Malformed)),
        ],
        ManifestPayload::Doc(doc) => match spec_supported_url_schemes(doc) {
            Err(f) => seq![diag(e.path@, ScanStage::Filter, ScanFault::Filter(f))],
            Ok(p) => spec_filter_diags(e.path@, p.1) + (if spec_has_required_scheme(p.0) {
                match spec_extract(doc, e.path@, e.executables@) {
                    Err(er) => seq![diag(e.path@, ScanStage::Extract, ScanFault::Extract(er))],
                    Ok(_) => Seq::<DiagView>::empty(),
                }
            } else {
                Seq::<DiagView>::empty()
            }),
        },
    }
}

/// All candidates of a scan, in entry order.
pub open spec fn spec_scan_candidates(entries: Seq<ScanEntry>) -> Seq<BrowserView>
    decreases entries.len(),
{
    if entries.len() == 0 {
        Seq::<BrowserView>::empty()
    } else {
        spec_scan_candidates(entries.drop_last()) + spec_entry_candidates(entries.last())
    }
}

/// All diagnostics of a scan, in entry order.
pub open spec fn spec_scan_diags(entries: Seq<ScanEntry>) -> Seq<DiagView>
    decreases entries.len(),
{
    if entries.len() == 0 {
        Seq::<DiagView>::empty()
    } else {
        spec_scan_diags(entries.drop_last()) + spec_entry_diags(entries.last())
    }
}

/// What a whole scan returns: the surviving candidates and the non-fatal
/// diagnostics gathered beside them.
#[derive(Debug)]
pub struct ScanOutcome {
    pub candidates: Vec<Browser>,
    pub diagnostics: Vec<ScanDiagnostic>,
}

/// Runs filter and extractor over one entry's manifest, yielding at most
/// one candidate and this entry's diagnostics.
fn scan_one(e: &ScanEntry) -> (r: (Option<Browser>, Vec<ScanDiagnostic>))
    ensures
        match r.0 {
            Some(b) => spec_entry_candidates(*e) == seq![b@],
            None => spec_entry_candidates(*e) == Seq::<BrowserView>::empty(),
        },
        views_of_diags(r.1@) == spec_entry_diags(*e),
{
    match &e.payload {
        ManifestPayload::Absent => {
            let r = (None, Vec::new());
            proof {
                assert(views_of_diags(Seq::<ScanDiagnostic>::empty()) =~= Seq::<
                    DiagView,
                >::empty());
            }
            r
        },
        ManifestPayload::Unreadable => {
            let d = ScanDiagnostic {
                path: e.path.clone(),
                stage: ScanStage::Read,
                fault: ScanFault::Read(ReadError::NotFound),
            };
            let mut ds: Vec<ScanDiagnostic> = Vec::new();
            ds.push(d);
            proof {
                assert(views_of_diags(ds@) =~= spec_entry_diags(*e));
            }
            (None, ds)
        },
        ManifestPayload::Malformed => {
            let d = ScanDiagnostic {
                path: e.path.clone(),
                stage: ScanStage::Read,
                fault: ScanFault::Read(ReadError::Malformed),
            };
            let mut ds: Vec<ScanDiagnostic> = Vec::new();
            ds.push(d);
            proof {
                assert(views_of_diags(ds@) =~= spec_entry_diags(*e));
            }
            (None, ds)
        },
        ManifestPayload::Doc(doc) => {
            match supported_url_schemes(doc) {
                Err(f) => {
                    let d = ScanDiagnostic {
                        path: e.path.clone(),
                        stage: ScanStage::Filter,
                        fault: ScanFault::Filter(f),
                    };
                    let mut ds: Vec<ScanDiagnostic> = Vec::new();
                    ds.push(d);
                    proof {
                        assert(views_of_diags(ds@) =~= spec_entry_diags(*e));
                    }
                    (None, ds)
                },
                Ok(scan) => {
                    let ghost errs = scan.entry_errors@;
                    let mut ds: Vec<ScanDiagnostic> = Vec::new();
                    let mut j: usize = 0;
                    proof {
                        assert(views_of_diags(ds@) =~= spec_filter_diags(
                            e.path@,
                            errs.take(0),
                        ));
                    }
                    while j < scan.entry_errors.len()
                        invariant
                            0 <= j <= errs.len(),
                            errs == scan.entry_errors@,
                            views_of_diags(ds@) == spec_filter_diags(e.path@, errs.take(j as int)),
                        decreases errs.len() - j,
                    {
                        let ghost old_ds = ds@;
                        ds.push(
                            ScanDiagnostic {
                                path: e.path.clone(),
                                stage: ScanStage::Filter,
                                fault: ScanFault::Filter(scan.entry_errors[j]),
                            },
                        );
                        proof {
                            lemma_filter_diags_push(
                                old_ds,
                                ds@.last(),
                                e.path@,
                                errs,
                                j as int,
                            );
                            assert(ds@ =~= old_ds.push(ds@.last()));
                        }
                        j = j + 1;
                    }
                    proof {
                        assert(errs.take(errs.len() as int) =~= errs);
                    }
                    if has_required_scheme(&scan.schemes) {
                        match browser_from_manifest(doc, e.path.as_str(), &e.executables) {
                            Ok(b) => {
                                proof {
                                    assert(spec_entry_diags(*e) =~= views_of_diags(ds@));
                                }
                                (Some(b), ds)
                            },
                            Err(er) => {
                                ds.push(
                                    ScanDiagnostic {
                                        path: e.path.clone(),
                                        stage: ScanStage::Extract,
                                        fault: ScanFault::Extract(er),
                                    },
                                );
                                proof {
                                    assert(views_of_diags(ds@) =~= spec_entry_diags(*e));
                                }
                                (None, ds)
                            },
                        }
                    } else {
                        proof {
                            assert(spec_entry_diags(*e) =~= views_of_diags(ds@));
                        }
                        (None, ds)
                    }
                },
            }
        },
    }
}

/// Scans the entries of one root directory in order. Each entry is read,
/// filtered and extracted independently: a candidate is appended when the
/// whole pipeline succeeds, diagnostics are appended for every per-entry
/// fault, and no entry's failure disturbs any other entry.
pub fn scan_entries(entries: &Vec<ScanEntry>) -> (r: ScanOutcome)
    ensures
        views_of_browsers(r.candidates@) == spec_scan_candidates(entries@),
        views_of_diags(r.diagnostics@) == spec_scan_diags(entries@),
{
    let mut candidates: Vec<Browser> = Vec::new();
    let mut diagnostics: Vec<ScanDiagnostic> = Vec::new();
    let mut i: usize = 0;
    proof {
        assert(entries@.take(0) =~= Seq::<ScanEntry>::empty());
        assert(views_of_browsers(candidates@) =~= spec_scan_candidates(entries@.take(0)));
        assert(views_of_diags(diagnostics@) =~= spec_scan_diags(entries@.take(0)));
    }
    while i < entries.len()
        invariant
            0 <= i <= entries@.len(),
            views_of_browsers(candidates@) == spec_scan_candidates(entries@.take(i as int)),
            views_of_diags(diagnostics@) == spec_scan_diags(entries@.take(i as int)),
        decreases entries@.len() - i,
    {
        proof {
            assert(entries@.take(i + 1).drop_last() =~= entries@.take(i as int));
            assert(entries@.take(i + 1).last() == entries@[i as int]);
        }
        let (cand, mut ds) = scan_one(&entries[i]);
        let ghost old_cands = candidates@;
        let ghost old_diags = diagnostics@;
        let ghost new_ds = ds@;
        if let Some(b) = cand {
            candidates.push(b);
        }
        diagnostics.append(&mut ds);
        proof {
            assert(views_of_browsers(candidates@) =~= views_of_browsers(old_cands)
                + spec_entry_candidates(entries@[i as int]));
            assert(views_of_diags(diagnostics@) =~= views_of_diags(old_diags) + views_of_diags(
                new_ds,
            ));
        }
        i = i + 1;
    }
    proof {
        assert(entries@.take(i as int) =~= entries@);
    }
    ScanOutcome { candidates, diagnostics }
}

/// What a root directory offered the scanner: its immediate children, or
/// nothing because the root itself could not be listed.
#[derive(Debug)]
pub enum RootListing {
    /// The root could not be read (missing, not a directory, or
    /// permission denied).
    Unreadable,
    /// The root's immediate children.
    Entries(Vec<ScanEntry>),
}

/// One configured installation root and what listing it yielded.
#[derive(Debug)]
pub struct RootScan {
    pub root: String,
    pub listing: RootListing,
}

/// The candidates a single root contributes.
pub open spec fn spec_root_candidates(r: RootScan) -> Seq<BrowserView> {
    match r.listing {
        RootListing::Unreadable => Seq::<BrowserView>::empty(),
        RootListing::Entries(es) => spec_scan_candidates(es@),
    }
}

/// The diagnostics a single root contributes: one read diagnostic for an
/// unreadable root, else whatever its entries contribute.
pub open spec fn spec_root_diags(r: RootScan) -> Seq<DiagView> {
    match r.listing {
        RootListing::Unreadable => seq![
            diag(r.root@, ScanStage::Root, ScanFault::Read(ReadError::NotFound)),
        ],
        RootListing::Entries(es) => spec_scan_diags(es@),
    }
}

/// All candidates over a sequence of roots, in order.
pub open spec fn spec_roots_candidates(roots: Seq<RootScan>) -> Seq<BrowserView>
    decreases roots.len(),
{
    if roots.len() == 0 {
        Seq::<BrowserView>::empty()
    } else {
        spec_roots_candidates(roots.drop_last()) + spec_root_candidates(roots.last())
    }
}

/// All diagnostics over a sequence of roots, in order.
pub open spec fn spec_roots_diags(roots: Seq<RootScan>) -> Seq<DiagView>
    decreases roots.len(),
{
    if roots.len() == 0 {
        Seq::<DiagView>::empty()
    } else {
        spec_roots_diags(roots.drop_last()) + spec_root_diags(roots.last())
    }
}

/// The scan entry point: folds every configured root directory into one
/// candidate list and one diagnostic list. An unreadable root is reported
/// once and costs nothing else; the scan as a whole never fails.
pub fn discover_browsers(roots: &Vec<RootScan>) -> (r: ScanOutcome)
    ensures
        views_of_browsers(r.candidates@) == spec_roots_candidates(roots@),
        views_of_diags(r.diagnostics@) == spec_roots_diags(roots@),
{
    let mut candidates: Vec<Browser> = Vec::new();
    let mut diagnostics: Vec<ScanDiagnostic> = Vec::new();
    let mut i: usize = 0;
    proof {
        assert(roots@.take(0) =~= Seq::<RootScan>::empty());
        assert(views_of_browsers(candidates@) =~= spec_roots_candidates(roots@.take(0)));
        assert(views_of_diags(diagnostics@) =~= spec_roots_diags(roots@.take(0)));
    }
    while i < roots.len()
        invariant
            0 <= i <= roots@.len(),
            views_of_browsers(candidates@) == spec_roots_candidates(roots@.take(i as int)),
            views_of_diags(diagnostics@) == spec_roots_diags(roots@.take(i as int)),
        decreases roots@.len() - i,
    {
        proof {
            assert(roots@.take(i + 1).drop_last() =~= roots@.take(i as int));
            assert(roots@.take(i + 1).last() == roots@[i as int]);
        }
        let ghost old_cands = candidates@;
        let ghost old_diags = diagnostics@;
        match &roots[i].listing {
            RootListing::Unreadable => {
                diagnostics.push(
                    ScanDiagnostic {
                        path: roots[i].root.clone(),
                        stage: ScanStage::Root,
                        fault: ScanFault::Read(ReadError::NotFound),
                    },
                );
                proof {
                    assert(views_of_browsers(candidates@) =~= views_of_browsers(old_cands)
                        + spec_root_candidates(roots@[i as int]));
                    assert(views_of_diags(diagnostics@) =~= views_of_diags(old_diags)
                        + spec_root_diags(roots@[i as int]));
                }
            },
            RootListing::Entries(es) => {
                let mut out = scan_entries(es);
                let ghost out_cands = out.candidates@;
                let ghost out_diags = out.diagnostics@;
                candidates.append(&mut out.candidates);
                diagnostics.append(&mut out.diagnostics);
                proof {
                    assert(views_of_browsers(candidates@) =~= views_of_browsers(old_cands)
                        + views_of_browsers(out_cands));
                    assert(views_of_diags(diagnostics@) =~= views_of_diags(old_diags)
                        + views_of_diags(out_diags));
                }
            },
        }
        i = i + 1;
    }
    proof {
        assert(roots@.take(i as int) =~= roots@);
    }
    ScanOutcome { candidates, diagnostics }
}

/// Appending the diagnostic for fault `errs[j]` extends the mapped
/// filter diagnostics by one position.
proof fn lemma_filter_diags_push(
    ds: Seq<ScanDiagnostic>,
    d: ScanDiagnostic,
    path: Seq<char>,
    errs: Seq<FilterError>,
    j: int,
)
    requires
        0 <= j < errs.len(),
        views_of_diags(ds) == spec_filter_diags(path, errs.take(j)),
        d@ == diag(path, ScanStage::Filter, ScanFault::Filter(errs[j])),
    ensures
        views_of_diags(ds.push(d)) == spec_filter_diags(path, errs.take(j + 1)),
{
    assert(views_of_diags(ds).len() == ds.len());
    assert(spec_filter_diags(path, errs.take(j)).len() == errs.take(j).len());
    assert(ds.len() == j);
    let lhs = views_of_diags(ds.push(d));
    let rhs = spec_filter_diags(path, errs.take(j + 1));
    assert(lhs.len() == ds.len() + 1);
    assert(rhs.len() == j + 1);
    assert forall|k: int| 0 <= k < lhs.len() implies lhs[k] == rhs[k] by {
        assert(lhs[k] == ds.push(d)[k]@);
        assert(rhs[k] == diag(path, ScanStage::Filter, ScanFault::Filter(errs.take(j + 1)[k])));
        assert(errs.take(j + 1)[k] == errs[k]);
        if k < j {
            assert(ds.push(d)[k] == ds[k]);
            assert(views_of_diags(ds)[k] == ds[k]@);
            assert(spec_filter_diags(path, errs.take(j))[k] == diag(
                path,
                ScanStage::Filter,
                ScanFault::Filter(errs.take(j)[k]),
            ));
            assert(errs.take(j)[k] == errs[k]);
        } else {
            assert(ds.push(d)[k] == d);
        }
    }
    assert(lhs =~= rhs);
}


/// A manifest that declares no URL types at all is excluded silently: its
/// entry contributes no candidate and no diagnostic.
pub proof fn lemma_undeclared_entry_silent(e: ScanEntry, doc: ManifestValue)
    requires
        e.payload == ManifestPayload::Doc(doc),
        crate::manifest::spec_get(doc, "CFBundleURLTypes"@) is None,
    ensures
        spec_entry_candidates(e) == Seq::<BrowserView>::empty(),
        spec_entry_diags(e) == Seq::<DiagView>::empty(),
{
    let p = (Seq::<String>::empty(), Seq::<FilterError>::empty());
    assert(spec_supported_url_schemes(doc) == Ok::<_, FilterError>(p));
    assert(!spec_has_required_scheme(p.0));
    assert(spec_entry_diags(e) =~= spec_filter_diags(e.path@, p.1));
    assert(spec_filter_diags(e.path@, p.1) =~= Seq::<DiagView>::empty());
}

/// A manifest whose declarations yield at least one `http` or `https`
/// scheme, and whose required fields extract cleanly, is included: its
/// entry contributes exactly that candidate.
pub proof fn lemma_capable_entry_included(
    e: ScanEntry,
    doc: ManifestValue,
    schemes: Seq<String>,
    errs: Seq<FilterError>,
    b: BrowserView,
)
    requires
        e.payload == ManifestPayload::Doc(doc),
        spec_supported_url_schemes(doc) == Ok::<_, FilterError>((schemes, errs)),
        spec_has_required_scheme(schemes),
        spec_extract(doc, e.path@, e.executables@) == Ok::<_, ExtractError>(b),
    ensures
        spec_entry_candidates(e) == seq![b],
{
}

/// A manifest that declares a required scheme but lacks (or mistypes) a
/// required field yields no candidate; its entry ends in diagnostics
/// instead, the last of which carries the extraction error naming the
/// offending field.
pub proof fn lemma_missing_field_entry_diagnosed(
    e: ScanEntry,
    doc: ManifestValue,
    schemes: Seq<String>,
    errs: Seq<FilterError>,
    err: ExtractError,
)
    requires
        e.payload == ManifestPayload::Doc(doc),
        spec_supported_url_schemes(doc) == Ok::<_, FilterError>((schemes, errs)),
        spec_has_required_scheme(schemes),
        spec_extract(doc, e.path@, e.executables@) == Err::<BrowserView, _>(err),
    ensures
        spec_entry_candidates(e) == Seq::<BrowserView>::empty(),
        spec_entry_diags(e).len() == errs.len() + 1,
        spec_entry_diags(e).last() == diag(e.path@, ScanStage::Extract, ScanFault::Extract(err)),
{
    let tail = seq![diag(e.path@, ScanStage::Extract, ScanFault::Extract(err))];
    assert(spec_entry_diags(e) =~= spec_filter_diags(e.path@, errs) + tail);
    assert(spec_filter_diags(e.path@, errs).len() == errs.len());
}

/// Whether an entry is a valid application: a well-formed manifest whose
/// declarations all parse, which declares `http` or `https`, and whose
/// required fields extract cleanly.
pub open spec fn entry_is_valid_app(e: ScanEntry) -> bool {
    &&& e.payload matches ManifestPayload::Doc(doc)
    &&& spec_supported_url_schemes(doc) matches Ok(p)
    &&& p.1.len() == 0
    &&& spec_has_required_scheme(p.0)
    &&& spec_extract(doc, e.path@, e.executables@) is Ok
}

/// Whether an entry carries no manifest at all.
pub open spec fn entry_is_absent(e: ScanEntry) -> bool {
    e.payload matches ManifestPayload::Absent
}

/// Whether an entry is broken in one of the manifest-bearing ways: its
/// manifest is unreadable or malformed, its URL-type payload has the
/// wrong shape, or it declares a required scheme with all declarations
/// parsing but a required field missing or mistyped.
pub open spec fn entry_is_broken(e: ScanEntry) -> bool {
    ||| e.payload matches ManifestPayload::Unreadable
    ||| e.payload matches ManifestPayload::Malformed
    ||| (e.payload matches ManifestPayload::Doc(doc) && spec_supported_url_schemes(doc) is Err)
    ||| {
        &&& e.payload matches ManifestPayload::Doc(doc)
        &&& spec_supported_url_schemes(doc) matches Ok(p)
        &&& p.1.len() == 0
        &&& spec_has_required_scheme(p.0)
        &&& spec_extract(doc, e.path@, e.executables@) is Err
    }
}

/// How many entries satisfy `entry_is_valid_app`.
pub open spec fn count_valid(entries: Seq<ScanEntry>) -> int
    decreases entries.len(),
{
    if entries.len() == 0 {
        0
    } else {
        count_valid(entries.drop_last()) + if entry_is_valid_app(entries.last()) {
            1int
        } else {
            0int
        }
    }
}

/// How many entries satisfy `entry_is_broken`.
pub open spec fn count_broken(entries: Seq<ScanEntry>) -> int
    decreases entries.len(),
{
    if entries.len() == 0 {
        0
    } else {
        count_broken(entries.drop_last()) + if entry_is_broken(entries.last()) {
            1int
        } else {
            0int
        }
    }
}

/// Scanning a root whose entries are each valid, absent, or broken yields
/// exactly one candidate per valid application and exactly one diagnostic
/// per manifest-bearing broken one; absent manifests cost nothing.
pub proof fn lemma_scan_counts(entries: Seq<ScanEntry>)
    requires
        forall|i: int|
            0 <= i < entries.len() ==> entry_is_valid_app(#[trigger] entries[i])
                || entry_is_absent(entries[i]) || entry_is_broken(entries[i]),
    ensures
        spec_scan_candidates(entries).len() == count_valid(entries),
        spec_scan_diags(entries).len() == count_broken(entries),
    decreases entries.len(),
{
    if entries.len() > 0 {
        let head = entries.drop_last();
        let e = entries.last();
        assert(forall|i: int| 0 <= i < head.len() ==> head[i] == #[trigger] entries[i]);
        lemma_scan_counts(head);
        assert(e == entries[entries.len() - 1]);
        if entry_is_valid_app(e) {
            let doc = e.payload->Doc_0;
            let p = spec_supported_url_schemes(doc)->Ok_0;
            assert(spec_entry_candidates(e).len() == 1);
            assert(spec_filter_diags(e.path@, p.1).len() == 0);
            assert(spec_entry_diags(e) =~= Seq::<DiagView>::empty());
        } else if entry_is_absent(e) {
            assert(spec_entry_candidates(e).len() == 0);
            assert(spec_entry_diags(e).len() == 0);
        } else {
            assert(spec_entry_candidates(e).len() == 0);
            match e.payload {
                ManifestPayload::Doc(doc) => {
                    match spec_supported_url_schemes(doc) {
                        Ok(p) => {
                            assert(spec_filter_diags(e.path@, p.1).len() == 0);
                            assert(spec_entry_diags(e).len() == 1);
                        },
                        Err(_) => {
                            assert(spec_entry_diags(e).len() == 1);
                        },
                    }
                },
                _ => {
                    assert(spec_entry_diags(e).len() == 1);
                },
            }
        }
    }
}

/// Scanning a concatenation of entry lists yields the concatenation of
/// their scans: entries can be partitioned into disjoint stretches,
/// scanned separately, and merged, and nothing is gained or lost.
pub proof fn lemma_scan_split(a: Seq<ScanEntry>, b: Seq<ScanEntry>)
    ensures
        spec_scan_candidates(a + b) == spec_scan_candidates(a) + spec_scan_candidates(b),
        spec_scan_diags(a + b) == spec_scan_diags(a) + spec_scan_diags(b),
    decreases b.len(),
{
    if b.len() == 0 {
        assert(a + b =~= a);
        assert(spec_scan_candidates(a) + spec_scan_candidates(b) =~= spec_scan_candidates(a));
        assert(spec_scan_diags(a) + spec_scan_diags(b) =~= spec_scan_diags(a));
    } else {
        lemma_scan_split(a, b.drop_last());
        assert((a + b).drop_last() =~= a + b.drop_last());
        assert((a + b).last() == b.last());
        assert(spec_scan_candidates(a + b) =~= spec_scan_candidates(a) + spec_scan_candidates(b));
        assert(spec_scan_diags(a + b) =~= spec_scan_diags(a) + spec_scan_diags(b));
    }
}

/// Workers that split the entries in two and merge their results in
/// either order find the same candidates, as a multiset: merge order
/// changes only arrangement, never membership.
pub proof fn lemma_scan_merge_order_irrelevant(a: Seq<ScanEntry>, b: Seq<ScanEntry>)
    ensures
        spec_scan_candidates(a + b).to_multiset() == spec_scan_candidates(b + a).to_multiset(),
{
    lemma_scan_split(a, b);
    lemma_scan_split(b, a);
    vstd::seq_lib::lemma_seq_union_to_multiset_commutative(
        spec_scan_candidates(a),
        spec_scan_candidates(b),
    );
}

} // verus!
