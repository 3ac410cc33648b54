//! The selection resolver: zero candidates fail, a single candidate
//! is taken directly, several candidates need a chooser's index. The
//! chooser itself is a capability of the caller; this module decides
//! everything around it, including the disambiguated display labels.

use vstd::prelude::*;
use vstd::string::StringExecFns;
use crate::collections::{Collection, CollectionView, item_pred, pairs_view};
use crate::config::{Config, colls_view};
use crate::error::QtaiError;

verus! {

/// How many candidates a query produced, as the resolver sees it.
#[derive(Debug, Clone, Copy, PartialEq, Eq, Structural)]
pub enum SelectState {
    Empty,
    Single,
    Multiple,
}

/// The first step of the disambiguation policy: whether the caller
/// must fail, may take the sole candidate, or has to ask a chooser.
pub fn selection_state<T>(candidates: &Vec<T>) -> (r: SelectState)
    ensures
        (r is Empty) == (candidates@.len() == 0),
        (r is Single) == (candidates@.len() == 1),
        (r is Multiple) == (candidates@.len() >= 2),
{
    if candidates.len() == 0 {
        SelectState::Empty
    } else if candidates.len() == 1 {
        SelectState::Single
    } else {
        SelectState::Multiple
    }
}

/// The sole or leading candidate, without any chooser involved:
/// `NotFound` when the query produced nothing, the first candidate
/// otherwise. Callers use it when the candidate list has at most one
/// entry.
pub fn first_candidate<T>(candidates: Vec<T>) -> (r: Result<T, QtaiError>)
    ensures
        candidates@.len() == 0 ==> r == Err::<T, QtaiError>(QtaiError::NotFound),
        candidates@.len() >= 1 ==> r == Ok::<T, QtaiError>(candidates@[0]),
{
    let mut c = candidates;
    if c.len() == 0 {
        Err(QtaiError::NotFound)
    } else {
        Ok(c.remove(0))
    }
}

/// The second step: the candidate at the chooser's index, unmodified,
/// or `IndexOutOfBounds` when the chooser misbehaved.
pub fn choose_candidate<T>(candidates: Vec<T>, index: usize) -> (r: Result<T, QtaiError>)
    ensures
        index < candidates@.len() ==> r == Ok::<T, QtaiError>(candidates@[index as int]),
        index >= candidates@.len() ==> r == Err::<T, QtaiError>(QtaiError::IndexOutOfBounds),
{
    let mut c = candidates;
    if index < c.len() {
        Ok(c.remove(index))
    } else {
        Err(QtaiError::IndexOutOfBounds)
    }
}

/// Each matching pair of `items`, tagged with its collection name.
pub open spec fn tag_items(name: Seq<char>, items: Seq<(Seq<char>, Seq<char>)>) -> Seq<
    (Seq<char>, (Seq<char>, Seq<char>)),
> {
    items.map_values(|p: (Seq<char>, Seq<char>)| (name, p))
}

/// Every pair matching `q` across `cs`, each tagged with its
/// collection name, in original order.
pub open spec fn flat_items(cs: Seq<(Seq<char>, CollectionView)>, q: Seq<char>) -> Seq<
    (Seq<char>, (Seq<char>, Seq<char>)),
>
    decreases cs.len(),
{
    if cs.len() == 0 {
        Seq::empty()
    } else {
        flat_items(cs.drop_last(), q) + tag_items(
            cs.last().0,
            cs.last().1.items.filter(item_pred(q)),
        )
    }
}

/// The views of a vector of owned tagged pairs.
pub open spec fn cands_view(s: Seq<(String, (String, String))>) -> Seq<
    (Seq<char>, (Seq<char>, Seq<char>)),
> {
    s.map_values(|c: (String, (String, String))| (c.0@, (c.1.0@, c.1.1@)))
}

/// Appends every matching pair of one collection, tagged with the
/// collection's name, to `out`.
fn push_tagged(
    out: &mut Vec<(String, (String, String))>,
    name: &String,
    matched: Vec<(String, String)>,
)
    ensures
        cands_view(final(out)@) == cands_view(old(out)@) + tag_items(name@, pairs_view(matched@)),
{
    let ghost base = out@;
    let ghost tagged = tag_items(name@, pairs_view(matched@));
    let rest = matched;
    let n = rest.len();
    let mut k: usize = 0;
    while k < n
        invariant
            n == rest@.len(),
            k <= n,
            tagged == tag_items(name@, pairs_view(rest@)),
            cands_view(out@) == cands_view(base) + tagged.take(k as int),
        decreases n - k,
    {
        let p = &rest[k];
        let pair = (p.0.clone(), p.1.clone());
        let ghost prev = out@;
        out.push((name.clone(), pair));
        proof {
            assert(tagged.take(k + 1) =~= tagged.take(k as int).push(tagged[k as int]));
            assert(pairs_view(rest@)[k as int] == (rest@[k as int].0@, rest@[k as int].1@));
            assert(cands_view(out@) =~= cands_view(prev).push(tagged[k as int]));
        }
        k += 1;
    }
    proof {
        assert(tagged.take(n as int) =~= tagged);
    }
}

/// Every matching pair of a filtered collection list, tagged with its
/// collection name; an empty query keeps every pair.
pub fn all_candidates(colls: &Vec<(String, Collection)>, query: &str) -> (r: Vec<
    (String, (String, String)),
>)
    ensures
        cands_view(r@) == flat_items(colls_view(colls@), query@),
{
    let mut out: Vec<(String, (String, String))> = Vec::new();
    let n = colls.len();
    let mut i: usize = 0;
    proof {
        assert(cands_view(out@) =~= Seq::<(Seq<char>, (Seq<char>, Seq<char>))>::empty());
        assert(colls_view(colls@).take(0) =~= Seq::<(Seq<char>, CollectionView)>::empty());
    }
    while i < n
        invariant
            n == colls@.len(),
            i <= n,
            cands_view(out@) == flat_items(colls_view(colls@).take(i as int), query@),
        decreases n - i,
    {
        let entry = &colls[i];
        let matched = entry.1.query_items(query);
        proof {
            let cv = colls_view(colls@);
            assert(cv.take(i + 1).drop_last() =~= cv.take(i as int));
            assert(cv.take(i + 1).last() == cv[i as int]);
            assert(cv[i as int] == (entry.0@, entry.1@));
        }
        push_tagged(&mut out, &entry.0, matched);
        i += 1;
    }
    proof {
        assert(colls_view(colls@).take(n as int) =~= colls_view(colls@));
    }
    out
}

impl Config {
    /// Every pair matching `query` across the whole configuration,
    /// tagged with its collection name: the candidate list that item
    /// selection and item removal disambiguate over.
    pub fn select_item_candidates(&self, query: &str) -> (r: Vec<(String, (String, String))>)
        ensures
            cands_view(r@) == flat_items(self@.collections, query@),
    {
        let mut out: Vec<(String, (String, String))> = Vec::new();
        let n = self.collections.len();
        let mut i: usize = 0;
        proof {
            assert(cands_view(out@) =~= Seq::<(Seq<char>, (Seq<char>, Seq<char>))>::empty());
            assert(self@.collections.take(0) =~= Seq::<(Seq<char>, CollectionView)>::empty());
        }
        while i < n
            invariant
                n == self.collections@.len(),
                i <= n,
                cands_view(out@) == flat_items(self@.collections.take(i as int), query@),
            decreases n - i,
        {
            let entry = &self.collections[i];
            let matched = entry.1.query_items(query);
            proof {
                let cv = self@.collections;
                assert(cv.take(i + 1).drop_last() =~= cv.take(i as int));
                assert(cv.take(i + 1).last() == cv[i as int]);
                assert(cv[i as int] == (entry.0@, entry.1@));
            }
            push_tagged(&mut out, &entry.0, matched);
            i += 1;
        }
        proof {
            assert(self@.collections.take(n as int) =~= self@.collections);
        }
        out
    }
}

/// The label at `i` collides with another candidate's label.
pub open spec fn dup_label(cands: Seq<(Seq<char>, (Seq<char>, Seq<char>))>, i: int) -> bool {
    exists|j: int| 0 <= j < cands.len() && j != i && (#[trigger] cands[j]).1.0 == cands[i].1.0
}

/// What the chooser is shown for candidate `i`: the bare label, or,
/// when the label collides, the label with its collection appended.
pub open spec fn display_label(cands: Seq<(Seq<char>, (Seq<char>, Seq<char>))>, i: int) -> Seq<
    char,
> {
    if dup_label(cands, i) {
        cands[i].1.0 + " (from collection \""@ + cands[i].0 + "\")"@
    } else {
        cands[i].1.0
    }
}

/// Whether the label at `i` occurs under another index too.
fn label_collides(pairs: &Vec<(String, (String, String))>, i: usize) -> (r: bool)
    requires
        i < pairs@.len(),
    ensures
        r == dup_label(cands_view(pairs@), i as int),
{
    let ghost cv = cands_view(pairs@);
    let n = pairs.len();
    let mut j: usize = 0;
    while j < n
        invariant
            n == pairs@.len(),
            j <= n,
            i < pairs@.len(),
            cv == cands_view(pairs@),
            forall|k: int| 0 <= k < j && k != i ==> (#[trigger] cv[k]).1.0 != cv[i as int].1.0,
        decreases n - j,
    {
        if j != i {
            if pairs[j].1.0 == pairs[i].1.0 {
                proof {
                    assert(cv[j as int].1.0 == cv[i as int].1.0);
                }
                return true;
            }
            proof {
                assert(cv[j as int].1.0 == pairs@[j as int].1.0@);
                assert(cv[i as int].1.0 == pairs@[i as int].1.0@);
            }
        }
        j += 1;
    }
    false
}

/// The display labels for a candidate list, in order: bare labels,
/// except that a label colliding with another candidate's is suffixed
/// with its collection name.
pub fn display_pairs(pairs: &Vec<(String, (String, String))>) -> (r: Vec<String>)
    ensures
        r@.len() == pairs@.len(),
        forall|i: int|
            0 <= i < r@.len() ==> (#[trigger] r@[i])@ == display_label(cands_view(pairs@), i),
{
    let mut out: Vec<String> = Vec::new();
    let n = pairs.len();
    let mut i: usize = 0;
    while i < n
        invariant
            n == pairs@.len(),
            i <= n,
            out@.len() == i,
            forall|k: int|
                0 <= k < i ==> (#[trigger] out@[k])@ == display_label(cands_view(pairs@), k),
        decreases n - i,
    {
        let collides = label_collides(pairs, i);
        let entry = &pairs[i];
        let mut s: String = entry.1.0.clone();
        if collides {
            s.append(" (from collection \"");
            s.append(entry.0.as_str());
            s.append("\")");
        }
        out.push(s);
        i += 1;
    }
    out
}

} // verus!
