//! First-match search over sequences, shared by the schedule lookups,
//! the correlation engine and the feed builder.

use vstd::prelude::*;

verus! {

/// Index of the first element of `s` satisfying `p`, if any.
pub open spec fn find_index<T>(s: Seq<T>, p: spec_fn(T) -> bool) -> Option<int>
    decreases s.len(),
{
    if s.len() == 0 {
        None
    } else if p(s[0]) {
        Some(0)
    } else {
        match find_index(s.drop_first(), p) {
            Some(i) => Some(i + 1),
            None => None,
        }
    }
}

/// What `find_index` returns: the first matching index, or nothing when
/// no element matches.
pub proof fn lemma_find_index<T>(s: Seq<T>, p: spec_fn(T) -> bool)
    ensures
        match find_index(s, p) {
            Some(i) => 0 <= i < s.len() && p(s[i]) && (forall|j: int|
                0 <= j < i ==> !p(#[trigger] s[j])),
            None => forall|j: int| 0 <= j < s.len() ==> !p(#[trigger] s[j]),
        },
    decreases s.len(),
{
    if s.len() > 0 && !p(s[0]) {
        let t = s.drop_first();
        lemma_find_index(t, p);
        match find_index(t, p) {
            Some(i) => {
                assert(t[i] == s[i + 1]);
                assert forall|j: int| 0 <= j < i + 1 implies !p(#[trigger] s[j]) by {
                    if j > 0 {
                        assert(s[j] == t[j - 1]);
                        assert(!p(t[j - 1]));
                    }
                }
            },
            None => {
                assert forall|j: int| 0 <= j < s.len() implies !p(#[trigger] s[j]) by {
                    if j > 0 {
                        assert(s[j] == t[j - 1]);
                        assert(!p(t[j - 1]));
                    }
                }
            },
        }
    }
}

/// An index that matches, below which nothing matches, is what
/// `find_index` returns.
pub proof fn lemma_find_index_of<T>(s: Seq<T>, p: spec_fn(T) -> bool, i: int)
    requires
        0 <= i < s.len(),
        p(s[i]),
        forall|j: int| 0 <= j < i ==> !p(#[trigger] s[j]),
    ensures
        find_index(s, p) == Some(i),
{
    lemma_find_index(s, p);
    match find_index(s, p) {
        Some(k) => {
            if k < i {
                assert(!p(s[k]));
            }
            if k > i {
                assert(!p(s[i]));
            }
        },
        None => {
            assert(!p(s[i]));
        },
    }
}

} // verus!
