//! Case-insensitive substring matching: the text engine every query
//! in the library goes through.

use vstd::prelude::*;

verus! {

/// The sequence of characters that `str::to_lowercase` returns for a
/// non-empty input; it depends on the input characters alone.
pub uninterp spec fn lower_of(s: Seq<char>) -> Seq<char>;

/// The lowercase form of `s`: empty input stays empty, any other
/// input is named by `lower_of`.
pub open spec fn lowered(s: Seq<char>) -> Seq<char> {
    if s.len() == 0 {
        Seq::empty()
    } else {
        lower_of(s)
    }
}

/// Relies on str::to_lowercase: the result is a function of the
/// characters alone, and the lowercase form of the empty string is
/// empty.
#[verifier::external_body]
pub(crate) fn lower_chars(s: &str) -> (r: Vec<char>)
    ensures
        s@.len() != 0 ==> r@ == lower_of(s@),
        s@.len() == 0 ==> r@ == Seq::<char>::empty(),
        r@ == lowered(s@),
{
    s.to_lowercase().chars().collect()
}

/// `needle` occurs contiguously inside `hay`. The empty needle occurs
/// in every haystack.
pub open spec fn is_substring(needle: Seq<char>, hay: Seq<char>) -> bool {
    exists|i: int| 0 <= i && i + needle.len() <= hay.len() && #[trigger] hay.subrange(i, i + needle.len()) == needle
}

pub proof fn lemma_substring_empty(needle: Seq<char>, hay: Seq<char>)
    requires
        needle.len() == 0,
    ensures
        is_substring(needle, hay),
{
    assert(hay.subrange(0, 0 + needle.len() as int) =~= needle);
    assert(hay.subrange(0, 0 + needle.len() as int) == needle);
}

/// `needle` matches `hay` starting at position `i`.
fn match_at(hay: &Vec<char>, needle: &Vec<char>, i: usize) -> (r: bool)
    requires
        i + needle@.len() <= hay@.len(),
    ensures
        r == (hay@.subrange(i as int, i as int + needle@.len() as int) == needle@),
{
    let ghost sub = hay@.subrange(i as int, i as int + needle@.len() as int);
    let mut j: usize = 0;
    while j < needle.len()
        invariant
            i + needle@.len() <= hay@.len(),
            j <= needle@.len(),
            sub == hay@.subrange(i as int, i as int + needle@.len() as int),
            forall|k: int| 0 <= k < j ==> hay@[i + k] == needle@[k],
        decreases needle@.len() - j,
    {
        proof {
            assert(hay.len() == hay@.len());
            assert(i + j < hay@.len());
        }
        if hay[i + j] != needle[j] {
            proof {
                assert(sub[j as int] == hay@[i + j]);
            }
            return false;
        }
        j += 1;
    }
    proof {
        assert(sub =~= needle@);
    }
    true
}

/// Whether `needle` occurs contiguously inside `hay`.
pub fn contains_chars(hay: &Vec<char>, needle: &Vec<char>) -> (r: bool)
    ensures
        r == is_substring(needle@, hay@),
{
    if needle.len() > hay.len() {
        return false;
    }
    let bound = hay.len() - needle.len();
    let mut i: usize = 0;
    loop
        invariant
            needle@.len() <= hay@.len(),
            bound == hay@.len() - needle@.len(),
            i <= bound,
            forall|k: int| 0 <= k < i ==> #[trigger] hay@.subrange(k, k + needle@.len() as int) != needle@,
        ensures
            forall|k: int| 0 <= k <= bound ==> #[trigger] hay@.subrange(k, k + needle@.len() as int) != needle@,
        decreases bound - i,
    {
        if match_at(hay, needle, i) {
            proof {
                assert(0 <= i as int && i as int + needle@.len() <= hay@.len());
            }
            return true;
        }
        if i == bound {
            break;
        }
        i += 1;
    }
    false
}

/// The two character sequences are equal.
pub fn chars_eq(a: &Vec<char>, b: &Vec<char>) -> (r: bool)
    ensures
        r == (a@ == b@),
{
    if a.len() != b.len() {
        return false;
    }
    let mut i: usize = 0;
    while i < a.len()
        invariant
            a@.len() == b@.len(),
            i <= a@.len(),
            forall|k: int| 0 <= k < i ==> a@[k] == b@[k],
        decreases a@.len() - i,
    {
        if a[i] != b[i] {
            return false;
        }
        i += 1;
    }
    proof {
        assert(a@ =~= b@);
    }
    true
}

/// Filtering keeps a sequence unchanged when the predicate holds of
/// every element.
pub proof fn lemma_filter_all<A>(s: Seq<A>, pred: spec_fn(A) -> bool)
    requires
        forall|i: int| 0 <= i < s.len() ==> pred(#[trigger] s[i]),
    ensures
        s.filter(pred) == s,
    decreases s.len(),
{
    reveal(Seq::filter);
    if s.len() == 0 {
        assert(s.filter(pred) =~= s);
    } else {
        lemma_filter_all(s.drop_last(), pred);
        assert(pred(s.last()));
        assert(s.drop_last().push(s.last()) =~= s);
    }
}

/// How one filtering step extends the filtered prefix.
pub proof fn lemma_filter_push<A>(s: Seq<A>, x: A, pred: spec_fn(A) -> bool)
    ensures
        s.push(x).filter(pred) == if pred(x) {
            s.filter(pred).push(x)
        } else {
            s.filter(pred)
        },
{
    reveal(Seq::filter);
    assert(s.push(x).drop_last() =~= s);
    assert(s.push(x).last() == x);
}

} // verus!
