//! Finding the first item of a sequence that has a given property.

use vstd::prelude::*;

verus! {

/// Index of the first item of `s`, from `start` on, of which `p` holds.
pub open spec fn first_from<T>(s: Seq<T>, p: spec_fn(T) -> bool, start: int) -> Option<int>
    decreases s.len() - start,
{
    if start < 0 || start >= s.len() {
        None
    } else if p(s[start]) {
        Some(start)
    } else {
        first_from(s, p, start + 1)
    }
}

/// Index of the first item of `s` of which `p` holds.
pub open spec fn first<T>(s: Seq<T>, p: spec_fn(T) -> bool) -> Option<int> {
    first_from(s, p, 0)
}

/// What `first_from` finds is the least index from `start` on at which `p`
/// holds; it finds nothing only if `p` holds nowhere from `start` on.
pub proof fn lemma_first_from<T>(s: Seq<T>, p: spec_fn(T) -> bool, start: int)
    requires
        0 <= start <= s.len(),
    ensures
        first_from(s, p, start) matches Some(i) ==> start <= i < s.len() && p(s[i]) && forall|j: int|
            start <= j < i ==> !p(#[trigger] s[j]),
        first_from(s, p, start) is None ==> forall|j: int| start <= j < s.len() ==> !p(#[trigger] s[j]),
    decreases s.len() - start,
{
    if start < s.len() && !p(s[start]) {
        lemma_first_from(s, p, start + 1);
    }
}

/// What `first` finds is the least index at which `p` holds; it finds
/// nothing only if `p` holds nowhere.
pub proof fn lemma_first<T>(s: Seq<T>, p: spec_fn(T) -> bool)
    ensures
        first(s, p) matches Some(i) ==> 0 <= i < s.len() && p(s[i]) && forall|j: int|
            0 <= j < i ==> !p(#[trigger] s[j]),
        first(s, p) is None ==> forall|j: int| 0 <= j < s.len() ==> !p(#[trigger] s[j]),
{
    lemma_first_from(s, p, 0);
}

/// An index at which `p` holds, with `p` holding nowhere before it, is what
/// `first` finds.
pub proof fn lemma_first_is<T>(s: Seq<T>, p: spec_fn(T) -> bool, i: int)
    requires
        0 <= i < s.len(),
        p(s[i]),
        forall|j: int| 0 <= j < i ==> !p(#[trigger] s[j]),
    ensures
        first(s, p) == Some(i),
{
    lemma_first(s, p);
}

/// Where `p` holds nowhere, `first` finds nothing.
pub proof fn lemma_first_none<T>(s: Seq<T>, p: spec_fn(T) -> bool)
    requires
        forall|j: int| 0 <= j < s.len() ==> !p(#[trigger] s[j]),
    ensures
        first(s, p) is None,
{
    lemma_first(s, p);
}

} // verus!
