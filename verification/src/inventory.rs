use vstd::prelude::*;

use crate::chart::{last_hyphen, split_chart_label, Chart, Charts};
use crate::json::{as_object_of, as_str_of, map_get_of, object_get, value_as_object, value_as_str};

verus! {

/// The metadata one cluster API item is consulted for: its namespace and the
/// three labels the inventory reader reads. A field is `None` whenever the
/// item does not carry it in the expected place and shape.
pub struct ItemMeta {
    pub namespace: Option<String>,
    pub heritage: Option<String>,
    pub release: Option<String>,
    pub chart: Option<String>,
}

/// The mathematical content of an `ItemMeta`.
pub struct MetaView {
    pub namespace: Option<Seq<char>>,
    pub heritage: Option<Seq<char>>,
    pub release: Option<Seq<char>>,
    pub chart: Option<Seq<char>>,
}

impl View for ItemMeta {
    type V = MetaView;

    open spec fn view(&self) -> MetaView {
        MetaView {
            namespace: match self.namespace {
                Some(s) => Some(s@),
                None => None,
            },
            heritage: match self.heritage {
                Some(s) => Some(s@),
                None => None,
            },
            release: match self.release {
                Some(s) => Some(s@),
                None => None,
            },
            chart: match self.chart {
                Some(s) => Some(s@),
                None => None,
            },
        }
    }
}

/// The item metadata with every field absent.
pub open spec fn absent_meta() -> MetaView {
    MetaView { namespace: None, heritage: None, release: None, chart: None }
}

/// What the tolerant decode reads out of one raw API item: the namespace
/// under `metadata` and the `heritage`, `release` and `chart` labels under
/// `metadata.labels`, each absent when not there as a string in that shape.
pub open spec fn spec_item_meta(v: serde_json::Value) -> MetaView {
    match as_object_of(v) {
        Some(obj) => match map_get_of(obj, "metadata"@) {
            Some(md) => match as_object_of(md) {
                Some(mdo) => {
                    let namespace = match map_get_of(mdo, "namespace"@) {
                        Some(n) => as_str_of(n),
                        None => None,
                    };
                    match map_get_of(mdo, "labels"@) {
                        Some(l) => match as_object_of(l) {
                            Some(lo) => MetaView {
                                namespace,
                                heritage: match map_get_of(lo, "heritage"@) {
                                    Some(x) => as_str_of(x),
                                    None => None,
                                },
                                release: match map_get_of(lo, "release"@) {
                                    Some(x) => as_str_of(x),
                                    None => None,
                                },
                                chart: match map_get_of(lo, "chart"@) {
                                    Some(x) => as_str_of(x),
                                    None => None,
                                },
                            },
                            None => MetaView { namespace, heritage: None, release: None, chart: None },
                        },
                        None => MetaView { namespace, heritage: None, release: None, chart: None },
                    }
                },
                None => absent_meta(),
            },
            None => absent_meta(),
        },
        None => absent_meta(),
    }
}

/// An item joins the inventory only when it sits in the configured namespace,
/// carries the fixed provenance marker `"Tiller"` as its heritage label,
/// names a release, and has a chart label with a hyphen to split on.
pub open spec fn item_kept(it: MetaView, ns: Seq<char>) -> bool {
    &&& it.namespace == Some(ns)
    &&& it.heritage == Some("Tiller"@)
    &&& it.release is Some
    &&& it.chart matches Some(c) && last_hyphen(c) is Some
}

/// How a reconstructed chart relates to the kept item it came from: the
/// release is taken verbatim, and the chart label is split on its last hyphen
/// into name and version. Reconstruction never attaches overrides.
pub open spec fn chart_matches_item(c: Chart, it: MetaView, ns: Seq<char>) -> bool {
    &&& item_kept(it, ns)
    &&& c.release@ == it.release->Some_0
    &&& {
        let label = it.chart->Some_0;
        let i = last_hyphen(label)->Some_0;
        &&& c.name@ == label.subrange(0, i)
        &&& c.version matches Some(v) && v@ == label.subrange(i + 1, label.len() as int)
    }
    &&& c.overrides is None
}

/// The items that survive the namespace and provenance filter, in order.
pub open spec fn kept_items(items: Seq<MetaView>, ns: Seq<char>) -> Seq<MetaView>
    decreases items.len(),
{
    if items.len() == 0 {
        Seq::empty()
    } else {
        let rest = kept_items(items.drop_last(), ns);
        if item_kept(items.last(), ns) {
            rest.push(items.last())
        } else {
            rest
        }
    }
}

/// The views of a decoded item sequence.
pub open spec fn metas_view(items: Seq<ItemMeta>) -> Seq<MetaView> {
    items.map_values(|m: ItemMeta| m@)
}

proof fn lemma_kept_items_push(items: Seq<MetaView>, it: MetaView, ns: Seq<char>)
    ensures
        item_kept(it, ns) ==> kept_items(items.push(it), ns) == kept_items(items, ns).push(it),
        !item_kept(it, ns) ==> kept_items(items.push(it), ns) == kept_items(items, ns),
{
    assert(items.push(it).drop_last() =~= items);
    assert(items.push(it).last() == it);
}

/// Every item of the filtered inventory sits in the configured namespace and
/// carries the `"Tiller"` heritage label: an item lacking either never
/// appears, whatever the payload held.
pub proof fn lemma_only_managed_items_kept(items: Seq<MetaView>, ns: Seq<char>)
    ensures
        forall|k: int|
            0 <= k < kept_items(items, ns).len() ==> item_kept(
                #[trigger] kept_items(items, ns)[k],
                ns,
            ),
    decreases items.len(),
{
    if items.len() > 0 {
        lemma_only_managed_items_kept(items.drop_last(), ns);
        let rest = kept_items(items.drop_last(), ns);
        let all = kept_items(items, ns);
        assert forall|k: int| 0 <= k < all.len() implies item_kept(all[k], ns) by {
            if k < rest.len() {
                assert(all[k] == rest[k]);
            } else {
                assert(all[k] == items.last());
            }
        }
    }
}

/// Reconstructs the inventory from the metadata of the returned items: an
/// item from another namespace or without the `"Tiller"` heritage marker is
/// dropped silently, as is one missing a release or a splittable chart label.
/// Output order follows the input order.
pub fn charts_from_items(items: &Vec<ItemMeta>, namespace: &String) -> (r: Charts)
    ensures
        r@.len() == kept_items(metas_view(items@), namespace@).len(),
        forall|k: int|
            0 <= k < r@.len() ==> chart_matches_item(
                #[trigger] r@[k],
                kept_items(metas_view(items@), namespace@)[k],
                namespace@,
            ),
{
    let tiller: String = "Tiller".to_owned();
    let mut r: Charts = Vec::new();
    let mut idx: usize = 0;
    while idx < items.len()
        invariant
            idx <= items@.len(),
            tiller@ == "Tiller"@,
            r@.len() == kept_items(metas_view(items@.take(idx as int)), namespace@).len(),
            forall|k: int|
                0 <= k < r@.len() ==> chart_matches_item(
                    #[trigger] r@[k],
                    kept_items(metas_view(items@.take(idx as int)), namespace@)[k],
                    namespace@,
                ),
        decreases items@.len() - idx,
    {
        let it = &items[idx];
        let in_namespace = match &it.namespace {
            Some(n) => *n == *namespace,
            None => false,
        };
        let managed = match &it.heritage {
            Some(h) => *h == tiller,
            None => false,
        };
        if in_namespace && managed {
            if let Some(release) = &it.release {
                if let Some(label) = &it.chart {
                    if let Some((name, version)) = split_chart_label(label.as_str()) {
                        r.push(
                            Chart {
                                release: release.clone(),
                                name,
                                version: Some(version),
                                overrides: None,
                            },
                        );
                    }
                }
            }
        }
        proof {
            assert(metas_view(items@.take(idx + 1)) =~= metas_view(items@.take(idx as int)).push(
                items@[idx as int]@,
            ));
            lemma_kept_items_push(
                metas_view(items@.take(idx as int)),
                items@[idx as int]@,
                namespace@,
            );
        }
        idx = idx + 1;
    }
    proof {
        assert(items@.take(items@.len() as int) =~= items@);
    }
    r
}

/// Reads the metadata fields of one raw API item, tolerating any shape: a
/// missing or differently typed field comes back `None`, exactly as the
/// tolerant decode prescribes.
pub fn item_meta(v: &serde_json::Value) -> (m: ItemMeta)
    ensures
        m@ == spec_item_meta(*v),
{
    let none_meta = ItemMeta { namespace: None, heritage: None, release: None, chart: None };
    let obj = match value_as_object(v) {
        Some(o) => o,
        None => {
            return none_meta;
        },
    };
    let metadata = match object_get(obj, "metadata") {
        Some(m) => m,
        None => {
            return none_meta;
        },
    };
    let metadata = match value_as_object(metadata) {
        Some(m) => m,
        None => {
            return none_meta;
        },
    };
    let namespace = match object_get(metadata, "namespace") {
        Some(n) => value_as_str(n),
        None => None,
    };
    let labels = match object_get(metadata, "labels") {
        Some(l) => value_as_object(l),
        None => None,
    };
    match labels {
        Some(labels) => {
            let heritage = match object_get(labels, "heritage") {
                Some(x) => value_as_str(x),
                None => None,
            };
            let release = match object_get(labels, "release") {
                Some(x) => value_as_str(x),
                None => None,
            };
            let chart = match object_get(labels, "chart") {
                Some(x) => value_as_str(x),
                None => None,
            };
            ItemMeta { namespace, heritage, release, chart }
        },
        None => ItemMeta { namespace, heritage: None, release: None, chart: None },
    }
}

} // verus!
