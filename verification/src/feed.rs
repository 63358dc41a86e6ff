//! The feed builder: maps a catalog snapshot to feed items, orders them by
//! publication date descending, and fills in the fixed channel metadata.

use crate::model::{
    channel_description, channel_link, channel_title, cve_link_of, item_view_of, CatalogResponse,
    FeedDocument, FeedItem, FeedItemView, Vulnerability, VulnerabilityView,
};
use crate::order::{lemma_lex_refl, lemma_lex_total, lemma_lex_trans, lex_le, str_le};
use vstd::prelude::*;
use vstd::string::StringExecFns;

verus! {

broadcast use vstd::seq_lib::group_to_multiset_ensures;

/// The views of a run of feed items.
pub open spec fn items_of(s: Seq<FeedItem>) -> Seq<FeedItemView> {
    s.map_values(|x: FeedItem| x@)
}

/// The items are in descending order of their publication-date strings.
pub open spec fn sorted_desc(s: Seq<FeedItemView>) -> bool {
    forall|i: int, j: int| 0 <= i <= j < s.len() ==> lex_le(s[j].pub_date, s[i].pub_date)
}

/// The feed item views derived from a run of catalog rows.
pub open spec fn derived_items(vs: Seq<VulnerabilityView>) -> Seq<FeedItemView> {
    vs.map_values(|v: VulnerabilityView| item_view_of(v))
}

/// `m` is the position served first among these items: every item's date is
/// at most its date, and it is the earliest such position — so items with
/// equal dates keep their relative order.
pub open spec fn is_first_max(s: Seq<FeedItemView>, m: int) -> bool {
    &&& 0 <= m < s.len()
    &&& forall|k: int| 0 <= k < s.len() ==> lex_le(s[k].pub_date, s[m].pub_date)
    &&& forall|k: int| 0 <= k < m ==> !lex_le(s[m].pub_date, s[k].pub_date)
}

/// The position served first, which is unique.
pub open spec fn first_max_index(s: Seq<FeedItemView>) -> int {
    choose|m: int| is_first_max(s, m)
}

proof fn lemma_first_max_unique(s: Seq<FeedItemView>, m1: int, m2: int)
    requires
        is_first_max(s, m1),
        is_first_max(s, m2),
    ensures
        m1 == m2,
{
    if m1 < m2 {
        assert(lex_le(s[m2].pub_date, s[m1].pub_date));
        assert(!lex_le(s[m2].pub_date, s[m1].pub_date));
    }
    if m2 < m1 {
        assert(lex_le(s[m1].pub_date, s[m2].pub_date));
        assert(!lex_le(s[m1].pub_date, s[m2].pub_date));
    }
}

/// The descending order the feed publishes: the first-served item, then the
/// rest, recursively. This pins the output completely, ties included.
pub open spec fn sort_desc_spec(s: Seq<FeedItemView>) -> Seq<FeedItemView>
    decreases s.len(),
{
    if s.len() == 0 {
        Seq::empty()
    } else {
        let m = first_max_index(s);
        if 0 <= m < s.len() {
            seq![s[m]] + sort_desc_spec(s.remove(m))
        } else {
            s
        }
    }
}

/// The reference link for a CVE identifier.
pub fn make_cve_link(cve: String) -> (r: String)
    ensures
        r@ == cve_link_of(cve@),
{
    let base = String::from_str("https://nvd.nist.gov/vuln/detail/");
    base.concat(cve.as_str())
}

/// Maps one catalog row to one feed entry.
pub fn entry_to_item(v: &Vulnerability) -> (r: FeedItem)
    ensures
        r@ == item_view_of(v@),
{
    let link = match &v.cve_id {
        Some(c) => Some(make_cve_link(c.clone())),
        None => None,
    };
    FeedItem {
        title: v.vulnerability_name.clone(),
        description: v.short_description.clone(),
        pub_date: v.date_added.clone(),
        link,
    }
}

/// A row without a CVE identifier yields an item without a link; a row with
/// one yields an item whose link is the synthesized reference link.
pub proof fn lemma_link_of_entry(v: VulnerabilityView)
    ensures
        v.cve_id is None ==> item_view_of(v).link is None,
        v.cve_id matches Some(c) ==> item_view_of(v).link == Some(cve_link_of(c)),
{
}

/// The first index of an item whose publication date is lexicographically
/// maximal.
fn max_date_index(items: &Vec<FeedItem>) -> (m: usize)
    requires
        items@.len() > 0,
    ensures
        is_first_max(items_of(items@), m as int),
{
    let mut m: usize = 0;
    let mut j: usize = 1;
    proof {
        lemma_lex_refl(items@[0]@.pub_date);
    }
    while j < items.len()
        invariant
            m < j <= items@.len(),
            forall|k: int| 0 <= k < j ==> lex_le(items@[k]@.pub_date, items@[m as int]@.pub_date),
            forall|k: int| 0 <= k < m ==> !lex_le(items@[m as int]@.pub_date, items@[k]@.pub_date),
        decreases items@.len() - j,
    {
        if !str_le(items[j].pub_date.as_str(), items[m].pub_date.as_str()) {
            proof {
                lemma_lex_total(items@[j as int]@.pub_date, items@[m as int]@.pub_date);
                lemma_lex_refl(items@[j as int]@.pub_date);
                assert forall|k: int| 0 <= k < j implies lex_le(
                    items@[k]@.pub_date,
                    items@[j as int]@.pub_date,
                ) by {
                    lemma_lex_trans(
                        items@[k]@.pub_date,
                        items@[m as int]@.pub_date,
                        items@[j as int]@.pub_date,
                    );
                }
                assert forall|k: int| 0 <= k < j implies !lex_le(
                    items@[j as int]@.pub_date,
                    items@[k]@.pub_date,
                ) by {
                    if lex_le(items@[j as int]@.pub_date, items@[k]@.pub_date) {
                        lemma_lex_trans(
                            items@[j as int]@.pub_date,
                            items@[k]@.pub_date,
                            items@[m as int]@.pub_date,
                        );
                    }
                }
            }
            m = j;
        }
        j = j + 1;
    }
    proof {
        let s = items_of(items@);
        assert forall|k: int| 0 <= k < s.len() implies lex_le(
            s[k].pub_date,
            s[m as int].pub_date,
        ) by {
            assert(s[k] == items@[k]@);
        }
        assert forall|k: int| 0 <= k < m implies !lex_le(s[m as int].pub_date, s[k].pub_date) by {
            assert(s[k] == items@[k]@);
        }
    }
    m
}

/// Sorts feed items by publication date, newest first. The result is a
/// permutation of the input, and exactly the run that `sort_desc_spec`
/// prescribes: items with equal dates keep their relative order.
pub fn sort_items_desc(items: Vec<FeedItem>) -> (r: Vec<FeedItem>)
    ensures
        r@.len() == items@.len(),
        items_of(r@).to_multiset() == items_of(items@).to_multiset(),
        sorted_desc(items_of(r@)),
        items_of(r@) == sort_desc_spec(items_of(items@)),
{
    let ghost orig: Seq<FeedItem> = items@;
    let mut rest = items;
    let mut out: Vec<FeedItem> = Vec::new();
    proof {
        assert(items_of(out@) =~= Seq::<FeedItemView>::empty());
        assert(items_of(out@) + sort_desc_spec(items_of(rest@)) =~= sort_desc_spec(
            items_of(orig),
        ));
    }
    while rest.len() > 0
        invariant
            out@.len() + rest@.len() == orig.len(),
            items_of(out@).to_multiset().add(items_of(rest@).to_multiset()) == items_of(
                orig,
            ).to_multiset(),
            sorted_desc(items_of(out@)),
            forall|a: int, k: int|
                0 <= a < out@.len() && 0 <= k < rest@.len() ==> lex_le(
                    rest@[k]@.pub_date,
                    out@[a]@.pub_date,
                ),
            items_of(out@) + sort_desc_spec(items_of(rest@)) == sort_desc_spec(items_of(orig)),
        decreases rest@.len(),
    {
        let m = max_date_index(&rest);
        let ghost pre_rest: Seq<FeedItem> = rest@;
        let ghost pre_out: Seq<FeedItem> = out@;
        let it = rest.remove(m);
        out.push(it);
        proof {
            let s = items_of(pre_rest);
            assert(is_first_max(s, m as int));
            assert(exists|x: int| is_first_max(s, x));
            lemma_first_max_unique(s, first_max_index(s), m as int);
            assert(sort_desc_spec(s) == seq![s[m as int]] + sort_desc_spec(s.remove(m as int)));
            let iv = it@;
            assert(items_of(pre_rest)[m as int] == iv);
            assert(items_of(pre_rest).contains(iv));
            assert(items_of(rest@) =~= items_of(pre_rest).remove(m as int));
            assert(items_of(out@) =~= items_of(pre_out).push(iv));
            assert(items_of(out@).to_multiset().add(items_of(rest@).to_multiset())
                =~= items_of(orig).to_multiset());
            assert forall|a: int, k: int|
                0 <= a < out@.len() && 0 <= k < rest@.len() implies lex_le(
                rest@[k]@.pub_date,
                out@[a]@.pub_date,
            ) by {
                let kk = if k < m { k } else { k + 1 };
                assert(rest@[k] == pre_rest[kk]);
                assert(s[kk] == pre_rest[kk]@);
                assert(lex_le(s[kk].pub_date, s[m as int].pub_date));
                if a < pre_out.len() {
                    assert(out@[a] == pre_out[a]);
                } else {
                    assert(out@[a] == it);
                }
            }
            assert forall|a: int, b: int| 0 <= a <= b < out@.len() implies lex_le(
                items_of(out@)[b].pub_date,
                items_of(out@)[a].pub_date,
            ) by {
                if b < pre_out.len() {
                    assert(lex_le(items_of(pre_out)[b].pub_date, items_of(pre_out)[a].pub_date));
                } else if a < pre_out.len() {
                    assert(lex_le(pre_rest[m as int]@.pub_date, pre_out[a]@.pub_date));
                } else {
                    lemma_lex_refl(iv.pub_date);
                }
            }
            assert(s[m as int] == iv);
            assert(items_of(out@) =~= items_of(pre_out) + seq![iv]);
            assert((items_of(pre_out) + seq![iv]) + sort_desc_spec(s.remove(m as int))
                =~= items_of(pre_out) + (seq![iv] + sort_desc_spec(s.remove(m as int))));
            assert(items_of(out@) + sort_desc_spec(items_of(rest@)) == sort_desc_spec(
                items_of(orig),
            ));
        }
    }
    proof {
        assert(items_of(rest@) =~= Seq::<FeedItemView>::empty());
        assert(sort_desc_spec(items_of(rest@)) =~= Seq::<FeedItemView>::empty());
        assert(items_of(out@) + sort_desc_spec(items_of(rest@)) =~= items_of(out@));
    }
    out
}

/// Builds the channel document for one catalog snapshot: one item per row,
/// ordered by publication date descending, under the fixed channel metadata;
/// the channel dates both carry the snapshot's release date.
pub fn build_feed(catalog: &CatalogResponse) -> (r: FeedDocument)
    ensures
        r.title@ == channel_title(),
        r.link@ == channel_link(),
        r.description@ == channel_description(),
        r.pub_date@ == catalog.date_released@,
        r.last_build_date@ == catalog.date_released@,
        r.items@.len() == catalog.vulnerabilities@.len(),
        items_of(r.items@).to_multiset() == derived_items(catalog@.vulnerabilities).to_multiset(),
        sorted_desc(items_of(r.items@)),
        items_of(r.items@) == sort_desc_spec(derived_items(catalog@.vulnerabilities)),
{
    let mut raw: Vec<FeedItem> = Vec::new();
    let n = catalog.vulnerabilities.len();
    let mut i: usize = 0;
    while i < n
        invariant
            i <= n,
            n == catalog.vulnerabilities@.len(),
            raw@.len() == i,
            forall|k: int| 0 <= k < i ==> raw@[k]@ == item_view_of(catalog.vulnerabilities@[k]@),
        decreases n - i,
    {
        let it = entry_to_item(&catalog.vulnerabilities[i]);
        raw.push(it);
        i = i + 1;
    }
    proof {
        assert(items_of(raw@) =~= derived_items(catalog@.vulnerabilities));
    }
    let sorted = sort_items_desc(raw);
    FeedDocument {
        title: String::from_str("CISA Exploited Vulnerabilities"),
        link: String::from_str("https://www.cisa.gov/known-exploited-vulnerabilities-catalog"),
        description: String::from_str("RSS feed of the CISA exploited vulnerabilities list"),
        pub_date: catalog.date_released.clone(),
        last_build_date: catalog.date_released.clone(),
        items: sorted,
    }
}

} // verus!
