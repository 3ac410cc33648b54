//! The configuration snapshot: the global runner and menu defaults
//! and the ordered list of named collections, with the query and
//! filter engine over them.

use vstd::prelude::*;
use crate::collections::{
    Collection, CollectionView, item_pred, pairs_view,
};
use crate::error::QtaiError;
use crate::text::{
    lower_chars, lowered, is_substring, contains_chars, chars_eq, lemma_filter_push,
    lemma_filter_all, lemma_substring_empty,
};

verus! {

/// The in-memory configuration snapshot, loaded once per command and
/// never written back; mutation goes through the raw document text.
///
/// Invariant (`wf`): collection names are unique. The persisted
/// format enforces it, and every constructor of the library keeps it.
#[derive(Debug)]
pub struct Config {
    pub default_runner: String,
    pub default_menu: String,
    pub collections: Vec<(String, Collection)>,
}

pub ghost struct ConfigView {
    pub default_runner: Seq<char>,
    pub default_menu: Seq<char>,
    pub collections: Seq<(Seq<char>, CollectionView)>,
}

/// The views of a vector of owned name/collection pairs.
pub open spec fn colls_view(s: Seq<(String, Collection)>) -> Seq<(Seq<char>, CollectionView)> {
    s.map_values(|c: (String, Collection)| (c.0@, c.1@))
}

/// The views of a vector of owned strings.
pub open spec fn strs_view(s: Seq<String>) -> Seq<Seq<char>> {
    s.map_values(|x: String| x@)
}

impl View for Config {
    type V = ConfigView;

    open spec fn view(&self) -> ConfigView {
        ConfigView {
            default_runner: self.default_runner@,
            default_menu: self.default_menu@,
            collections: colls_view(self.collections@),
        }
    }
}

/// The collection name is retained by this input list: any entry at
/// all when the list is empty, an exact case-insensitive name match
/// when `selective`, a case-insensitive substring match otherwise.
pub open spec fn coll_selected(name: Seq<char>, input: Seq<Seq<char>>, selective: bool) -> bool {
    if input.len() == 0 {
        true
    } else if selective {
        exists|j: int| 0 <= j < input.len() && lowered(name) == lowered(#[trigger] input[j])
    } else {
        exists|j: int| 0 <= j < input.len() && is_substring(lowered(#[trigger] input[j]), lowered(name))
    }
}

/// The predicate that a filter input induces on name/collection pairs.
pub open spec fn coll_pred(input: Seq<Seq<char>>, selective: bool) -> spec_fn(
    (Seq<char>, CollectionView),
) -> bool {
    |c: (Seq<char>, CollectionView)| coll_selected(c.0, input, selective)
}

/// The collection name matches the query as a case-insensitive
/// substring.
pub open spec fn name_matches(name: Seq<char>, q: Seq<char>) -> bool {
    is_substring(lowered(q), lowered(name))
}

/// The predicate that a name query induces on name/collection pairs.
pub open spec fn name_pred(q: Seq<char>) -> spec_fn((Seq<char>, CollectionView)) -> bool {
    |c: (Seq<char>, CollectionView)| name_matches(c.0, q)
}

/// What querying every collection for its matching items yields:
/// each collection paired with its matching items, collections with
/// no match dropped.
pub open spec fn query_items_spec(cs: Seq<(Seq<char>, CollectionView)>, q: Seq<char>) -> Seq<
    (Seq<char>, Seq<(Seq<char>, Seq<char>)>),
> {
    cs.map_values(|c: (Seq<char>, CollectionView)| (c.0, c.1.items.filter(item_pred(q)))).filter(
        |e: (Seq<char>, Seq<(Seq<char>, Seq<char>)>)| e.1.len() != 0,
    )
}

/// The views of a vector of name/matching-items pairs.
pub open spec fn grouped_view(s: Seq<(String, Vec<(String, String)>)>) -> Seq<
    (Seq<char>, Seq<(Seq<char>, Seq<char>)>),
> {
    s.map_values(|e: (String, Vec<(String, String)>)| (e.0@, pairs_view(e.1@)))
}

/// Whether `name` is matched by the filter input, as the filter
/// engine decides it.
fn input_matches(name: &str, input: &Vec<String>, selective: bool) -> (r: bool)
    ensures
        r == coll_selected(name@, strs_view(input@), selective),
{
    if input.len() == 0 {
        return true;
    }
    let nl = lower_chars(name);
    let mut j: usize = 0;
    while j < input.len()
        invariant
            nl@ == lowered(name@),
            j <= input@.len(),
            forall|k: int| 0 <= k < j ==> !(if selective {
                lowered(name@) == lowered(strs_view(input@)[k])
            } else {
                is_substring(lowered(#[trigger] strs_view(input@)[k]), lowered(name@))
            }),
        decreases input@.len() - j,
    {
        let ql = lower_chars(input[j].as_str());
        let hit = if selective {
            chars_eq(&nl, &ql)
        } else {
            contains_chars(&nl, &ql)
        };
        if hit {
            proof {
                assert(strs_view(input@)[j as int] == input@[j as int]@);
            }
            return true;
        }
        j += 1;
    }
    false
}

impl Config {
    /// Collection names are unique in the snapshot.
    pub open spec fn wf(&self) -> bool {
        forall|i: int, j: int|
            0 <= i < j < self@.collections.len() ==> (#[trigger] self@.collections[i]).0 != (
            #[trigger] self@.collections[j]).0
    }

    /// The configuration a generated document starts from.
    pub fn template() -> (r: Config)
        ensures
            r@.default_runner == ""@,
            r@.default_menu == "dmenu"@,
            r@.collections == Seq::<(Seq<char>, CollectionView)>::empty(),
            r.wf(),
    {
        let r = Config {
            default_runner: "".to_owned(),
            default_menu: "dmenu".to_owned(),
            collections: Vec::new(),
        };
        proof {
            assert(colls_view(r.collections@) =~= Seq::<(Seq<char>, CollectionView)>::empty());
        }
        r
    }

    /// The collections retained by `collections_input`, in original
    /// order: all of them on empty input, exact case-insensitive name
    /// matches when `selective`, substring matches otherwise.
    pub fn filter_collections(&self, collections_input: &Vec<String>, selective: bool) -> (r: Vec<
        (String, Collection),
    >)
        ensures
            colls_view(r@) == self@.collections.filter(
                coll_pred(strs_view(collections_input@), selective),
            ),
    {
        let mut out: Vec<(String, Collection)> = Vec::new();
        let n = self.collections.len();
        let mut i: usize = 0;
        while i < n
            invariant
                n == self.collections@.len(),
                i <= n,
                colls_view(out@) == self@.collections.take(i as int).filter(
                    coll_pred(strs_view(collections_input@), selective),
                ),
            decreases n - i,
        {
            let entry = &self.collections[i];
            let keep = input_matches(entry.0.as_str(), collections_input, selective);
            proof {
                assert(self@.collections.take(i + 1) =~= self@.collections.take(i as int).push(
                    self@.collections[i as int],
                ));
                lemma_filter_push(
                    self@.collections.take(i as int),
                    self@.collections[i as int],
                    coll_pred(strs_view(collections_input@), selective),
                );
                assert(self@.collections[i as int] == (entry.0@, entry.1@));
            }
            let ghost prev = out@;
            if keep {
                out.push((entry.0.clone(), entry.1.duplicate()));
                proof {
                    assert(colls_view(out@) =~= colls_view(prev).push(self@.collections[i as int]));
                }
            }
            i += 1;
        }
        proof {
            assert(self@.collections.take(n as int) =~= self@.collections);
        }
        out
    }

    /// The collections whose name contains `query` as a
    /// case-insensitive substring, in original order.
    pub fn query_collections(&self, query: &str) -> (r: Vec<(String, Collection)>)
        ensures
            colls_view(r@) == self@.collections.filter(name_pred(query@)),
    {
        let ql = lower_chars(query);
        let mut out: Vec<(String, Collection)> = Vec::new();
        let n = self.collections.len();
        let mut i: usize = 0;
        while i < n
            invariant
                n == self.collections@.len(),
                i <= n,
                ql@ == lowered(query@),
                colls_view(out@) == self@.collections.take(i as int).filter(name_pred(query@)),
            decreases n - i,
        {
            let entry = &self.collections[i];
            let nl = lower_chars(entry.0.as_str());
            let keep = contains_chars(&nl, &ql);
            proof {
                assert(self@.collections.take(i + 1) =~= self@.collections.take(i as int).push(
                    self@.collections[i as int],
                ));
                lemma_filter_push(
                    self@.collections.take(i as int),
                    self@.collections[i as int],
                    name_pred(query@),
                );
                assert(self@.collections[i as int] == (entry.0@, entry.1@));
            }
            let ghost prev = out@;
            if keep {
                out.push((entry.0.clone(), entry.1.duplicate()));
                proof {
                    assert(colls_view(out@) =~= colls_view(prev).push(self@.collections[i as int]));
                }
            }
            i += 1;
        }
        proof {
            assert(self@.collections.take(n as int) =~= self@.collections);
        }
        out
    }

    /// Each collection paired with its items matching `query`,
    /// collections with no matching item dropped entirely.
    pub fn query_items(&self, query: &str) -> (r: Vec<(String, Vec<(String, String)>)>)
        ensures
            grouped_view(r@) == query_items_spec(self@.collections, query@),
    {
        let ghost mapper = |c: (Seq<char>, CollectionView)| (c.0, c.1.items.filter(item_pred(query@)));
        let ghost keeper = |e: (Seq<char>, Seq<(Seq<char>, Seq<char>)>)| e.1.len() != 0;
        let mut out: Vec<(String, Vec<(String, String)>)> = Vec::new();
        let n = self.collections.len();
        let mut i: usize = 0;
        while i < n
            invariant
                n == self.collections@.len(),
                i <= n,
                mapper == (|c: (Seq<char>, CollectionView)| (c.0, c.1.items.filter(item_pred(query@)))),
                keeper == (|e: (Seq<char>, Seq<(Seq<char>, Seq<char>)>)| e.1.len() != 0),
                grouped_view(out@) == self@.collections.take(i as int).map_values(mapper).filter(keeper),
            decreases n - i,
        {
            let entry = &self.collections[i];
            let matched = entry.1.query_items(query);
            proof {
                assert(self@.collections.take(i + 1).map_values(mapper) =~= self@.collections.take(
                    i as int,
                ).map_values(mapper).push(mapper(self@.collections[i as int])));
                lemma_filter_push(
                    self@.collections.take(i as int).map_values(mapper),
                    mapper(self@.collections[i as int]),
                    keeper,
                );
                assert(self@.collections[i as int] == (entry.0@, entry.1@));
                assert(pairs_view(matched@).len() == matched@.len());
            }
            let ghost prev = out@;
            if matched.len() != 0 {
                out.push((entry.0.clone(), matched));
                proof {
                    assert(grouped_view(out@) =~= grouped_view(prev).push(
                        mapper(self@.collections[i as int]),
                    ));
                }
            }
            i += 1;
        }
        proof {
            assert(self@.collections.take(n as int) =~= self@.collections);
        }
        out
    }

    /// The first collection stored under exactly this name.
    pub fn get_collection(&self, name: &str) -> (r: Option<&Collection>)
        ensures
            match r {
                Some(c) => find_collection(self@.collections, name@) == Some(c@),
                None => find_collection(self@.collections, name@) is None,
            },
    {
        let wanted: String = name.to_owned();
        let n = self.collections.len();
        let mut i: usize = 0;
        proof {
            assert(self@.collections.skip(0) =~= self@.collections);
        }
        while i < n
            invariant
                n == self.collections@.len(),
                i <= n,
                wanted@ == name@,
                find_collection(self@.collections, name@) == find_collection(
                    self@.collections.skip(i as int),
                    name@,
                ),
            decreases n - i,
        {
            proof {
                assert(self@.collections.skip(i as int).drop_first() =~= self@.collections.skip(
                    i + 1,
                ));
                assert(self@.collections.skip(i as int)[0] == self@.collections[i as int]);
            }
            if self.collections[i].0 == wanted {
                return Some(&self.collections[i].1);
            }
            i += 1;
        }
        proof {
            assert(self@.collections.skip(n as int) =~= Seq::<(Seq<char>, CollectionView)>::empty());
        }
        None
    }

    /// The data behind the `list` command: the filtered collections,
    /// or `NotFound` when the filter retains none.
    pub fn list_collections(&self, collections_input: &Vec<String>, selective: bool) -> (r: Result<
        Vec<(String, Collection)>,
        QtaiError,
    >)
        ensures
            ({
                let f = self@.collections.filter(coll_pred(strs_view(collections_input@), selective));
                &&& (r is Err) == (f.len() == 0)
                &&& r is Err ==> r->Err_0 == QtaiError::NotFound
                &&& r is Ok ==> colls_view(r->Ok_0@) == f
            }),
    {
        let filtered = self.filter_collections(collections_input, selective);
        proof {
            assert(colls_view(filtered@).len() == filtered@.len());
        }
        if filtered.len() == 0 {
            Err(QtaiError::NotFound)
        } else {
            Ok(filtered)
        }
    }

    /// The data behind the `search` command: every collection with
    /// its matching items, or `NotFound` when nothing matches.
    pub fn search_items(&self, query: &str) -> (r: Result<
        Vec<(String, Vec<(String, String)>)>,
        QtaiError,
    >)
        ensures
            ({
                let f = query_items_spec(self@.collections, query@);
                &&& (r is Err) == (f.len() == 0)
                &&& r is Err ==> r->Err_0 == QtaiError::NotFound
                &&& r is Ok ==> grouped_view(r->Ok_0@) == f
            }),
    {
        let results = self.query_items(query);
        proof {
            assert(grouped_view(results@).len() == results@.len());
        }
        if results.len() == 0 {
            Err(QtaiError::NotFound)
        } else {
            Ok(results)
        }
    }
}

/// The first collection in `cs` stored under exactly `name`.
pub open spec fn find_collection(cs: Seq<(Seq<char>, CollectionView)>, name: Seq<char>) -> Option<
    CollectionView,
>
    decreases cs.len(),
{
    if cs.len() == 0 {
        None
    } else if cs[0].0 == name {
        Some(cs[0].1)
    } else {
        find_collection(cs.drop_first(), name)
    }
}

/// An empty query keeps every item of a collection: the empty string
/// is a substring of everything.
pub proof fn lemma_query_items_empty_query(items: Seq<(Seq<char>, Seq<char>)>, q: Seq<char>)
    requires
        q.len() == 0,
    ensures
        items.filter(item_pred(q)) == items,
{
    assert forall|i: int| 0 <= i < items.len() implies item_pred(q)(#[trigger] items[i]) by {
        lemma_substring_empty(lowered(q), lowered(items[i].0));
    }
    lemma_filter_all(items, item_pred(q));
}

/// Matching is case-insensitive: two queries with the same lowercase
/// form select the same items.
pub proof fn lemma_query_items_case_insensitive(
    items: Seq<(Seq<char>, Seq<char>)>,
    q1: Seq<char>,
    q2: Seq<char>,
)
    requires
        lowered(q1) == lowered(q2),
    ensures
        items.filter(item_pred(q1)) == items.filter(item_pred(q2)),
{
    assert(item_pred(q1) =~= item_pred(q2));
}

/// An empty filter input keeps every collection, unchanged and in
/// order.
pub proof fn lemma_filter_collections_empty_input(
    cs: Seq<(Seq<char>, CollectionView)>,
    input: Seq<Seq<char>>,
    selective: bool,
)
    requires
        input.len() == 0,
    ensures
        cs.filter(coll_pred(input, selective)) == cs,
{
    assert(forall|i: int| 0 <= i < cs.len() ==> coll_pred(input, selective)(#[trigger] cs[i]));
    lemma_filter_all(cs, coll_pred(input, selective));
}

} // verus!
