//! The presentation list builder: turns candidates into display rows and
//! sorts them by display name in a stable, case-sensitive lexicographic
//! order, so that equal names keep their discovery order.

use vstd::prelude::*;
use crate::browser::{Browser, BrowserView, VersionInfo, VersionInfoView};
use crate::icon::{IconImage, IconImageView};
use crate::scan::views_of_browsers;
use crate::text::{lex_le, lex_lt, str_lt};
use vstd::string::StringExecFns;

verus! {

/// What the user-interface collaborator sends back about the presented
/// list: a row was chosen, or the window was dismissed.
#[derive(Debug, Clone, Copy, PartialEq, Eq, Structural)]
pub enum BSEvent {
    /// The row at this position in the presented list was chosen.
    BrowserSelected(u32),
    /// The selection window was dismissed without a choice.
    Close,
}

/// One display row: the candidate's name, a joined line of its version
/// details, and its decoded icon once one has been resolved.
#[derive(Debug)]
pub struct ListItem {
    pub title: String,
    pub subtitle: String,
    pub image: Option<IconImage>,
}

/// The mathematical image of a `ListItem`.
#[verifier::ext_equal]
pub ghost struct ListItemView {
    pub title: Seq<char>,
    pub subtitle: Seq<char>,
    pub image: Option<IconImageView>,
}

impl View for ListItem {
    type V = ListItemView;

    open spec fn view(&self) -> ListItemView {
        ListItemView {
            title: self.title@,
            subtitle: self.subtitle@,
            image: match self.image {
                Some(ref img) => Some(img@),
                None => None,
            },
        }
    }
}

/// The views of a sequence of display rows.
pub open spec fn item_views(s: Seq<ListItem>) -> Seq<ListItemView> {
    s.map_values(|it: ListItem| it@)
}

/// Joining one more detail onto a subtitle line: an empty detail adds
/// nothing, a detail after nothing stands alone, and otherwise a
/// separator goes between.
pub open spec fn spec_append_part(acc: Seq<char>, part: Seq<char>) -> Seq<char> {
    if part.len() == 0 {
        acc
    } else if acc.len() == 0 {
        part
    } else {
        acc + " | "@ + part
    }
}

/// The subtitle line of a candidate: its version, architecture label,
/// company and description, the empty ones skipped, the rest separated.
pub open spec fn spec_subtitle(v: VersionInfoView) -> Seq<char> {
    spec_append_part(
        spec_append_part(
            spec_append_part(
                spec_append_part(Seq::<char>::empty(), v.product_version),
                v.binary_type.spec_label(),
            ),
            v.company_name,
        ),
        v.file_description,
    )
}

/// Appends one detail to the subtitle under construction.
fn append_part(acc: &mut String, part: &str)
    ensures
        final(acc)@ == spec_append_part(old(acc)@, part@),
{
    if !part.is_empty() {
        if !acc.as_str().is_empty() {
            acc.append(" | ");
        }
        acc.append(part);
        proof {
            if old(acc)@.len() == 0 {
                assert(old(acc)@ + part@ =~= part@);
            }
        }
    }
}

/// The subtitle line of a candidate.
pub fn subtitle_of(v: &VersionInfo) -> (r: String)
    ensures
        r@ == spec_subtitle(v@),
{
    let mut acc = String::new();
    append_part(&mut acc, v.product_version.as_str());
    append_part(&mut acc, v.binary_type.label());
    append_part(&mut acc, v.company_name.as_str());
    append_part(&mut acc, v.file_description.as_str());
    acc
}

/// The display row a candidate maps to: the name as title, the joined
/// version details as subtitle, no icon yet.
pub open spec fn spec_item_of(b: BrowserView) -> ListItemView {
    ListItemView { title: b.name, subtitle: spec_subtitle(b.version), image: None }
}

impl Browser {
    /// The display row for this candidate; the icon stays unresolved, to
    /// be filled in on demand.
    pub fn to_list_item(&self) -> (r: ListItem)
        ensures
            r@ == spec_item_of(self@),
    {
        let r = ListItem {
            title: self.name.clone(),
            subtitle: subtitle_of(&self.version),
            image: None,
        };
        proof {
            assert(r@ =~= spec_item_of(self@));
        }
        r
    }
}

/// Where a new row lands among already-sorted rows: strictly after every
/// row whose title is not strictly greater, so a row never jumps ahead of
/// an equal title that was discovered earlier.
pub open spec fn spec_insert_by_title(s: Seq<ListItemView>, x: ListItemView) -> Seq<ListItemView>
    decreases s.len(),
{
    if s.len() == 0 {
        seq![x]
    } else if lex_lt(x.title, s.last().title) {
        spec_insert_by_title(s.drop_last(), x).push(s.last())
    } else {
        s.push(x)
    }
}

/// Insertion sort over titles, left to right, so the order is stable.
pub open spec fn spec_sort_by_title(s: Seq<ListItemView>) -> Seq<ListItemView>
    decreases s.len(),
{
    if s.len() == 0 {
        Seq::<ListItemView>::empty()
    } else {
        spec_insert_by_title(spec_sort_by_title(s.drop_last()), s.last())
    }
}

/// The rows of a candidate list, in sorted display order.
pub open spec fn spec_build_list(cands: Seq<BrowserView>) -> Seq<ListItemView> {
    spec_sort_by_title(cands.map_values(|b: BrowserView| spec_item_of(b)))
}

/// Inserting an element into the viewed rows mirrors inserting it into
/// the rows themselves.
proof fn lemma_item_views_insert(s: Seq<ListItem>, j: int, it: ListItem)
    requires
        0 <= j <= s.len(),
    ensures
        item_views(s.insert(j, it)) == item_views(s).insert(j, it@),
{
    let lhs = item_views(s.insert(j, it));
    let rhs = item_views(s).insert(j, it@);
    assert(lhs.len() == rhs.len());
    assert forall|k: int| 0 <= k < lhs.len() implies lhs[k] == rhs[k] by {
        assert(lhs[k] == s.insert(j, it)[k]@);
        if k < j {
            assert(s.insert(j, it)[k] == s[k]);
            assert(rhs[k] == item_views(s)[k]);
        } else if k == j {
            assert(s.insert(j, it)[k] == it);
        } else {
            assert(s.insert(j, it)[k] == s[k - 1]);
            assert(rhs[k] == item_views(s)[k - 1]);
        }
    }
    assert(lhs =~= rhs);
}

/// Builds the display list: one row per candidate, stable-sorted by title
/// in ascending case-sensitive lexicographic order. Titles that compare
/// equal keep the candidates' discovery order. Rows are not deduplicated:
/// every candidate the scan produced gets a row, and a caller that wants
/// one row per executable path must drop duplicates itself.
pub fn build_list(candidates: &Vec<Browser>) -> (items: Vec<ListItem>)
    ensures
        item_views(items@) == spec_build_list(views_of_browsers(candidates@)),
{
    let ghost full = views_of_browsers(candidates@).map_values(
        |b: BrowserView| spec_item_of(b),
    );
    let mut items: Vec<ListItem> = Vec::new();
    let mut i: usize = 0;
    proof {
        assert(full.take(0) =~= Seq::<ListItemView>::empty());
        assert(item_views(items@) =~= spec_sort_by_title(full.take(0)));
    }
    while i < candidates.len()
        invariant
            0 <= i <= candidates@.len(),
            full == views_of_browsers(candidates@).map_values(
                (|b: BrowserView| spec_item_of(b)),
            ),
            full.len() == candidates@.len(),
            item_views(items@) == spec_sort_by_title(full.take(i as int)),
        decreases candidates@.len() - i,
    {
        let item = candidates[i].to_list_item();
        proof {
            assert(full[i as int] == item@);
        }
        let ghost s = item_views(items@);
        let mut j: usize = items.len();
        proof {
            assert(s.len() == items@.len());
            assert(s.take(s.len() as int) =~= s);
            assert(s.skip(s.len() as int) =~= Seq::<ListItemView>::empty());
            assert(spec_insert_by_title(s.take(j as int), item@) + s.skip(j as int)
                =~= spec_insert_by_title(s, item@));
        }
        while j > 0 && str_lt(item.title.as_str(), items[j - 1].title.as_str())
            invariant
                0 <= j <= items@.len(),
                s == item_views(items@),
                item@.title == item.title@,
                spec_insert_by_title(s, item@) == spec_insert_by_title(s.take(j as int), item@)
                    + s.skip(j as int),
                forall|k: int| j <= k < s.len() ==> lex_lt(item@.title, #[trigger] s[k].title),
            decreases j,
        {
            proof {
                assert(s.take(j as int).last() == s[j - 1]);
                assert(s[j - 1] == items@[j - 1]@);
                assert(s.take(j as int).drop_last() =~= s.take(j - 1));
                assert(spec_insert_by_title(s.take(j as int), item@)
                    == spec_insert_by_title(s.take(j - 1), item@).push(s[j - 1]));
                assert(spec_insert_by_title(s.take(j - 1), item@).push(s[j - 1]) + s.skip(
                    j as int,
                ) =~= spec_insert_by_title(s.take(j - 1), item@) + s.skip(j - 1));
            }
            j = j - 1;
        }
        proof {
            if j > 0 {
                assert(s[j - 1] == items@[j - 1]@);
                assert(s.take(j as int).last() == s[j - 1]);
                assert(!lex_lt(item@.title, s.take(j as int).last().title));
                assert(spec_insert_by_title(s.take(j as int), item@) == s.take(j as int).push(
                    item@,
                ));
            } else {
                assert(s.take(0) =~= Seq::<ListItemView>::empty());
                assert(spec_insert_by_title(s.take(0), item@) == seq![item@]);
                assert(s.take(0).push(item@) =~= seq![item@]);
            }
            assert(s.take(j as int).push(item@) + s.skip(j as int) =~= s.insert(j as int, item@));
        }
        let ghost old_items = items@;
        items.insert(j, item);
        proof {
            lemma_item_views_insert(old_items, j as int, item);
            assert(full.take(i + 1).drop_last() =~= full.take(i as int));
            assert(full.take(i + 1).last() == full[i as int]);
            assert(item_views(items@) == spec_sort_by_title(full.take(i + 1)));
        }
        i = i + 1;
    }
    proof {
        assert(full.take(i as int) =~= full);
    }
    items
}


/// Rows whose titles never decrease from one position to the next.
pub open spec fn sorted_by_title(s: Seq<ListItemView>) -> bool {
    forall|k: int|
        0 <= k < s.len() - 1 ==> lex_le(#[trigger] s[k].title, s[k + 1].title)
}

/// The rows among `s` whose title is exactly `t`, in order.
pub open spec fn rows_titled(s: Seq<ListItemView>, t: Seq<char>) -> Seq<ListItemView> {
    s.filter(|it: ListItemView| it.title == t)
}

/// The last row after an insertion is the inserted row or the old last
/// row.
proof fn lemma_insert_last(s: Seq<ListItemView>, x: ListItemView)
    ensures
        spec_insert_by_title(s, x).len() == s.len() + 1,
        spec_insert_by_title(s, x).last() == x || (s.len() > 0 && spec_insert_by_title(
            s,
            x,
        ).last() == s.last()),
    decreases s.len(),
{
    if s.len() == 0 {
    } else if lex_lt(x.title, s.last().title) {
        lemma_insert_last(s.drop_last(), x);
    }
}

/// Inserting into sorted rows keeps them sorted.
proof fn lemma_insert_sorted(s: Seq<ListItemView>, x: ListItemView)
    requires
        sorted_by_title(s),
    ensures
        sorted_by_title(spec_insert_by_title(s, x)),
    decreases s.len(),
{
    if s.len() == 0 {
    } else if lex_lt(x.title, s.last().title) {
        let t = s.drop_last();
        assert(forall|k: int| 0 <= k < t.len() ==> t[k] == #[trigger] s[k]);
        assert(sorted_by_title(t));
        lemma_insert_sorted(t, x);
        lemma_insert_last(t, x);
        let r0 = spec_insert_by_title(t, x);
        let r = r0.push(s.last());
        assert(forall|k: int| 0 <= k < r0.len() ==> r[k] == #[trigger] r0[k]);
        assert(lex_le(r0.last().title, s.last().title)) by {
            if r0.last() == x {
            } else {
                assert(r0.last() == t.last());
                assert(t.last() == s[s.len() - 2]);
            }
        }
        assert(sorted_by_title(r));
    } else {
        let r = s.push(x);
        assert(forall|k: int| 0 <= k < s.len() ==> r[k] == #[trigger] s[k]);
        crate::text::lemma_lex_trichotomy(x.title, s.last().title);
        assert(lex_le(s.last().title, x.title));
        assert(sorted_by_title(r));
    }
}

/// The insertion sort yields sorted rows.
proof fn lemma_sort_sorted(s: Seq<ListItemView>)
    ensures
        sorted_by_title(spec_sort_by_title(s)),
    decreases s.len(),
{
    if s.len() > 0 {
        lemma_sort_sorted(s.drop_last());
        lemma_insert_sorted(spec_sort_by_title(s.drop_last()), s.last());
    }
}

/// Insertion puts a row after every equal title: per title, it only
/// appends.
proof fn lemma_insert_filter(s: Seq<ListItemView>, x: ListItemView, t: Seq<char>)
    ensures
        rows_titled(spec_insert_by_title(s, x), t) == if x.title == t {
            rows_titled(s, t).push(x)
        } else {
            rows_titled(s, t)
        },
    decreases s.len(),
{
    reveal(Seq::filter);
    if s.len() == 0 {
        let r = seq![x];
        assert(r.drop_last() =~= s);
        assert(rows_titled(r, t) == if x.title == t {
            rows_titled(s, t).push(x)
        } else {
            rows_titled(s, t)
        });
    } else if lex_lt(x.title, s.last().title) {
        let tail = s.drop_last();
        lemma_insert_filter(tail, x, t);
        let r0 = spec_insert_by_title(tail, x);
        let r = r0.push(s.last());
        assert(r.drop_last() =~= r0);
        assert(r.last() == s.last());
        assert(rows_titled(r, t) == if s.last().title == t {
            rows_titled(r0, t).push(s.last())
        } else {
            rows_titled(r0, t)
        });
        assert(rows_titled(s, t) == if s.last().title == t {
            rows_titled(tail, t).push(s.last())
        } else {
            rows_titled(tail, t)
        });
        crate::text::lemma_lex_trichotomy(x.title, s.last().title);
        assert(x.title != s.last().title);
    } else {
        let r = s.push(x);
        assert(r.drop_last() =~= s);
        assert(r.last() == x);
        assert(rows_titled(r, t) == if x.title == t {
            rows_titled(s, t).push(x)
        } else {
            rows_titled(s, t)
        });
    }
}

/// The insertion sort keeps, for every title, exactly the rows that were
/// there, in their original order.
proof fn lemma_sort_stable(s: Seq<ListItemView>, t: Seq<char>)
    ensures
        rows_titled(spec_sort_by_title(s), t) == rows_titled(s, t),
    decreases s.len(),
{
    reveal(Seq::filter);
    if s.len() == 0 {
        assert(rows_titled(spec_sort_by_title(s), t) =~= rows_titled(s, t));
    } else {
        let tail = s.drop_last();
        lemma_sort_stable(tail, t);
        lemma_insert_filter(spec_sort_by_title(tail), s.last(), t);
        assert(rows_titled(s, t) == if s.last().title == t {
            rows_titled(tail, t).push(s.last())
        } else {
            rows_titled(tail, t)
        });
    }
}

/// The built list is sorted by display name, ascending, in case-sensitive
/// lexicographic code-point order.
pub proof fn lemma_build_list_sorted(cands: Seq<BrowserView>)
    ensures
        sorted_by_title(spec_build_list(cands)),
{
    lemma_sort_sorted(cands.map_values(|b: BrowserView| spec_item_of(b)));
}

/// The built list is a permutation of the candidates' rows that is stable
/// for equal display names: for every title, the built list holds exactly
/// the rows of candidates bearing it, in discovery order.
pub proof fn lemma_build_list_stable(cands: Seq<BrowserView>, t: Seq<char>)
    ensures
        rows_titled(spec_build_list(cands), t) == rows_titled(
            cands.map_values(|b: BrowserView| spec_item_of(b)),
            t,
        ),
{
    lemma_sort_stable(cands.map_values(|b: BrowserView| spec_item_of(b)), t);
}

} // verus!
