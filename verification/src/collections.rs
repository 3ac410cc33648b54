//! A collection: an ordered mapping of label to payload, with an
//! optional default runner. The pairs live in an `indexmap::IndexMap`,
//! which keeps insertion order; the library reads it through a small
//! set of trusted wrappers.

use vstd::prelude::*;
use crate::text::{lower_chars, lowered, is_substring, contains_chars, lemma_filter_push};
use indexmap::IndexMap;

verus! {

/// The label/payload pairs that an `IndexMap<String, String>` holds,
/// in insertion order.
pub uninterp spec fn items_of(m: IndexMap<String, String>) -> Seq<(Seq<char>, Seq<char>)>;

#[verifier::external_type_specification]
#[verifier::external_body]
#[verifier::reject_recursive_types(K)]
#[verifier::reject_recursive_types(V)]
#[verifier::reject_recursive_types(S)]
pub struct ExIndexMap<K, V, S>(IndexMap<K, V, S>);

/// Some pair in `items` carries exactly this key.
pub open spec fn has_key(items: Seq<(Seq<char>, Seq<char>)>, k: Seq<char>) -> bool {
    exists|j: int| 0 <= j < items.len() && (#[trigger] items[j]).0 == k
}

/// Relies on indexmap::IndexMap::new: the fresh map holds no pairs.
#[verifier::external_body]
pub(crate) fn items_new() -> (r: IndexMap<String, String>)
    ensures
        items_of(r) == Seq::<(Seq<char>, Seq<char>)>::empty(),
{
    IndexMap::new()
}

/// Relies on indexmap::IndexMap::len: the number of stored pairs.
#[verifier::external_body]
pub(crate) fn items_len(m: &IndexMap<String, String>) -> (r: usize)
    ensures
        r == items_of(*m).len(),
{
    m.len()
}

/// Relies on indexmap::IndexMap::get_index (plus String::clone): the
/// pair at position `i` in insertion order.
#[verifier::external_body]
pub(crate) fn items_at(m: &IndexMap<String, String>, i: usize) -> (r: (String, String))
    requires
        i < items_of(*m).len(),
    ensures
        (r.0@, r.1@) == items_of(*m)[i as int],
{
    let (k, v) = m.get_index(i).unwrap();
    (k.clone(), v.clone())
}

/// Relies on indexmap::IndexMap::contains_key: whether some stored
/// pair carries exactly this key.
#[verifier::external_body]
pub(crate) fn items_contains_key(m: &IndexMap<String, String>, k: &str) -> (r: bool)
    ensures
        r == has_key(items_of(*m), k@),
{
    m.contains_key(k)
}

/// Relies on indexmap::IndexMap::insert: a key that is not yet
/// present is appended at the end of the insertion order.
#[verifier::external_body]
pub(crate) fn items_insert(m: &mut IndexMap<String, String>, k: String, v: String)
    requires
        !has_key(items_of(*old(m)), k@),
    ensures
        items_of(*final(m)) == items_of(*old(m)).push((k@, v@)),
{
    m.insert(k, v);
}

/// Relies on indexmap::IndexMap::clone: the clone holds the same
/// pairs in the same order.
#[verifier::external_body]
pub(crate) fn items_clone(m: &IndexMap<String, String>) -> (r: IndexMap<String, String>)
    ensures
        items_of(r) == items_of(*m),
{
    m.clone()
}

/// A named group of label/payload pairs sharing an optional default
/// runner.
#[derive(Debug)]
pub struct Collection {
    pub default_runner: Option<String>,
    pub items: IndexMap<String, String>,
}

pub ghost struct CollectionView {
    pub default_runner: Option<Seq<char>>,
    pub items: Seq<(Seq<char>, Seq<char>)>,
}

impl View for Collection {
    type V = CollectionView;

    open spec fn view(&self) -> CollectionView {
        CollectionView {
            default_runner: match self.default_runner {
                Option::Some(s) => Option::Some(s@),
                Option::None => Option::None,
            },
            items: items_of(self.items),
        }
    }
}

/// The pair matches the query when the query occurs, case ignored,
/// in its label or in its payload.
pub open spec fn pair_matches(p: (Seq<char>, Seq<char>), q: Seq<char>) -> bool {
    is_substring(lowered(q), lowered(p.0)) || is_substring(lowered(q), lowered(p.1))
}

/// The predicate that `query` induces on label/payload pairs.
pub open spec fn item_pred(q: Seq<char>) -> spec_fn((Seq<char>, Seq<char>)) -> bool {
    |p: (Seq<char>, Seq<char>)| pair_matches(p, q)
}

/// The views of a vector of owned label/payload pairs.
pub open spec fn pairs_view(s: Seq<(String, String)>) -> Seq<(Seq<char>, Seq<char>)> {
    s.map_values(|p: (String, String)| (p.0@, p.1@))
}

impl Collection {
    /// A collection with no pairs and no runner override.
    pub fn new() -> (r: Collection)
        ensures
            r@.default_runner is None,
            r@.items == Seq::<(Seq<char>, Seq<char>)>::empty(),
    {
        Collection { default_runner: None, items: items_new() }
    }

    /// Appends a pair unless the label is already present; reports
    /// whether the pair went in.
    pub fn insert_item(&mut self, key: String, value: String) -> (r: bool)
        ensures
            r == !has_key(old(self)@.items, key@),
            r ==> final(self)@.items == old(self)@.items.push((key@, value@))
                && final(self)@.default_runner == old(self)@.default_runner,
            !r ==> final(self)@ == old(self)@,
    {
        if items_contains_key(&self.items, key.as_str()) {
            false
        } else {
            items_insert(&mut self.items, key, value);
            true
        }
    }

    /// A copy of the collection with the same view.
    pub fn duplicate(&self) -> (r: Collection)
        ensures
            r@ == self@,
    {
        let dr = match &self.default_runner {
            Some(s) => Some(s.clone()),
            None => None,
        };
        Collection { default_runner: dr, items: items_clone(&self.items) }
    }

    /// Every pair whose label or payload contains `query` as a
    /// case-insensitive substring, in original order.
    pub fn query_items(&self, query: &str) -> (r: Vec<(String, String)>)
        ensures
            pairs_view(r@) == self@.items.filter(item_pred(query@)),
    {
        let ql = lower_chars(query);
        let mut out: Vec<(String, String)> = Vec::new();
        let n = items_len(&self.items);
        let mut i: usize = 0;
        while i < n
            invariant
                n == self@.items.len(),
                i <= n,
                ql@ == lowered(query@),
                pairs_view(out@) == self@.items.take(i as int).filter(item_pred(query@)),
            decreases n - i,
        {
            let (k, v) = items_at(&self.items, i);
            let kl = lower_chars(k.as_str());
            let matched = if contains_chars(&kl, &ql) {
                true
            } else {
                let vl = lower_chars(v.as_str());
                contains_chars(&vl, &ql)
            };
            proof {
                assert(self@.items.take(i + 1) =~= self@.items.take(i as int).push(self@.items[i as int]));
                lemma_filter_push(self@.items.take(i as int), self@.items[i as int], item_pred(query@));
                assert(matched == item_pred(query@)(self@.items[i as int]));
            }
            let ghost prev = out@;
            if matched {
                out.push((k, v));
                proof {
                    assert(pairs_view(out@) =~= pairs_view(prev).push(self@.items[i as int]));
                }
            }
            i += 1;
        }
        proof {
            assert(self@.items.take(n as int) =~= self@.items);
        }
        out
    }

    /// The example collection that a generated configuration embeds.
    pub fn template() -> (r: Collection)
        ensures
            r@.default_runner is None,
            r@.items =~= seq![("example key"@, "example value"@)],
    {
        let mut c = Collection::new();
        let _inserted = c.insert_item("example key".to_owned(), "example value".to_owned());
        proof {
            assert(Seq::<(Seq<char>, Seq<char>)>::empty().push(("example key"@, "example value"@))
                =~= seq![("example key"@, "example value"@)]);
        }
        c
    }
}

} // verus!
