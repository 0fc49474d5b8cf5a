use vstd::prelude::*;

verus! {

/// Whether `i` is the place of the first element of `s` that satisfies `p`.
pub open spec fn is_first<T>(s: Seq<T>, p: spec_fn(T) -> bool, i: int) -> bool {
    &&& 0 <= i < s.len()
    &&& p(s[i])
    &&& forall|j: int| 0 <= j < i ==> !p(s[j])
}

/// The place of the first element of `s` that satisfies `p`, if there is one.
pub open spec fn first_index<T>(s: Seq<T>, p: spec_fn(T) -> bool) -> Option<int> {
    if exists|i: int| is_first(s, p, i) {
        Some(choose|i: int| is_first(s, p, i))
    } else {
        None
    }
}

/// The first element of `s` that satisfies `p`, if there is one.
pub open spec fn first_match<T>(s: Seq<T>, p: spec_fn(T) -> bool) -> Option<T> {
    match first_index(s, p) {
        Some(i) => Some(s[i]),
        None => None,
    }
}

/// A place that is first for `p` is the one `first_index` gives.
pub proof fn lemma_first_index_found<T>(s: Seq<T>, p: spec_fn(T) -> bool, i: int)
    requires
        is_first(s, p, i),
    ensures
        first_index(s, p) == Some(i),
        first_match(s, p) == Some(s[i]),
{
    let k = choose|k: int| is_first(s, p, k);
    if k < i {
    } else if i < k {
    }
}

/// Where no element satisfies `p`, `first_index` gives none.
pub proof fn lemma_first_index_missing<T>(s: Seq<T>, p: spec_fn(T) -> bool)
    requires
        forall|j: int| 0 <= j < s.len() ==> !p(s[j]),
    ensures
        first_index(s, p) == None::<int>,
        first_match(s, p) == None::<T>,
{
}

/// What `first_index` gives is a place that is first for `p`, and it gives none
/// only where no element satisfies `p`.
pub proof fn lemma_first_index_is_first<T>(s: Seq<T>, p: spec_fn(T) -> bool)
    ensures
        match first_index(s, p) {
            Some(i) => is_first(s, p, i),
            None => forall|j: int| 0 <= j < s.len() ==> !p(s[j]),
        },
{
    if first_index(s, p) is None {
        assert forall|j: int| 0 <= j < s.len() implies !p(s[j]) by {
            if p(s[j]) {
                lemma_some_is_first(s, p, j);
            }
        }
    }
}

/// Where some element up to `j` satisfies `p`, some place is first for `p`.
proof fn lemma_some_is_first<T>(s: Seq<T>, p: spec_fn(T) -> bool, j: int)
    requires
        0 <= j < s.len(),
        p(s[j]),
    ensures
        exists|i: int| is_first(s, p, i),
    decreases j,
{
    if exists|k: int| 0 <= k < j && p(s[k]) {
        let k = choose|k: int| 0 <= k < j && p(s[k]);
        lemma_some_is_first(s, p, k);
    } else {
        assert(is_first(s, p, j));
    }
}

} // verus!
