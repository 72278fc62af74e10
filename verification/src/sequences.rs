//! Searching a sequence for its first element with a property, and facts
//! about filtering that the rest of the library builds on.

use vstd::prelude::*;

verus! {

/// `i` is the position of the first element of `s` that satisfies `p`.
pub open spec fn is_first_match<T>(s: Seq<T>, p: spec_fn(T) -> bool, i: int) -> bool {
    &&& 0 <= i < s.len()
    &&& p(s[i])
    &&& forall|j: int| 0 <= j < i ==> !p(#[trigger] s[j])
}

/// The position of the first element of `s` that satisfies `p`, if any
/// element does.
pub open spec fn first_match<T>(s: Seq<T>, p: spec_fn(T) -> bool) -> Option<int> {
    if exists|i: int| is_first_match(s, p, i) {
        Some(choose|i: int| is_first_match(s, p, i))
    } else {
        None
    }
}

/// A first match is the only one: whoever exhibits it knows `first_match`.
pub proof fn lemma_first_match_found<T>(s: Seq<T>, p: spec_fn(T) -> bool, i: int)
    requires
        is_first_match(s, p, i),
    ensures
        first_match(s, p) == Some(i),
{
    let k = choose|k: int| is_first_match(s, p, k);
    if k < i {
        assert(!p(s[k]));
    } else if i < k {
        assert(!p(s[i]));
    }
}

/// Where no element satisfies `p`, there is no first match.
pub proof fn lemma_first_match_none<T>(s: Seq<T>, p: spec_fn(T) -> bool)
    requires
        forall|j: int| 0 <= j < s.len() ==> !p(#[trigger] s[j]),
    ensures
        first_match(s, p) is None,
{
}

/// What `first_match` finds is a position of `s` whose element satisfies
/// `p`, and no earlier element does; where it finds nothing, no element
/// satisfies `p`.
pub proof fn lemma_first_match_is_exact<T>(s: Seq<T>, p: spec_fn(T) -> bool)
    ensures
        match first_match(s, p) {
            Some(i) => is_first_match(s, p, i),
            None => forall|j: int| 0 <= j < s.len() ==> !p(#[trigger] s[j]),
        },
{
    if first_match(s, p) is None {
        assert forall|j: int| 0 <= j < s.len() implies !p(#[trigger] s[j]) by {
            if p(s[j]) {
                lemma_some_match_has_first(s, p, j);
            }
        }
    }
}

/// Where some element satisfies `p`, there is a first one, at or before it.
pub proof fn lemma_some_match_has_first<T>(s: Seq<T>, p: spec_fn(T) -> bool, j: int)
    requires
        0 <= j < s.len(),
        p(s[j]),
    ensures
        first_match(s, p) is Some,
        first_match(s, p).unwrap() <= j,
    decreases j,
{
    if exists|k: int| 0 <= k < j && p(s[k]) {
        let k = choose|k: int| 0 <= k < j && p(s[k]);
        lemma_some_match_has_first(s, p, k);
    } else {
        assert(is_first_match(s, p, j));
        lemma_first_match_found(s, p, j);
    }
}

/// Filtering twice by the same property keeps what filtering once keeps.
pub proof fn lemma_filter_idempotent<T>(s: Seq<T>, p: spec_fn(T) -> bool)
    ensures
        s.filter(p).filter(p) == s.filter(p),
    decreases s.len(),
{
    reveal(Seq::filter);
    if s.len() > 0 {
        lemma_filter_idempotent(s.drop_last(), p);
        if p(s.last()) {
            s.drop_last().filter(p).lemma_filter_push(s.last(), p);
        }
    }
}

/// Filtering a sequence in which every element has the property changes
/// nothing.
pub proof fn lemma_filter_keeps_all<T>(s: Seq<T>, p: spec_fn(T) -> bool)
    requires
        forall|j: int| 0 <= j < s.len() ==> p(#[trigger] s[j]),
    ensures
        s.filter(p) == s,
    decreases s.len(),
{
    reveal(Seq::filter);
    if s.len() > 0 {
        lemma_filter_keeps_all(s.drop_last(), p);
        assert(s.drop_last().push(s.last()) =~= s);
    }
}

/// Taking one more element of a sequence and filtering is filtering and
/// then, if the new element has the property, appending it.
pub proof fn lemma_filter_take_next<T>(s: Seq<T>, p: spec_fn(T) -> bool, i: int)
    requires
        0 <= i < s.len(),
    ensures
        s.take(i + 1).filter(p) == if p(s[i]) {
            s.take(i).filter(p).push(s[i])
        } else {
            s.take(i).filter(p)
        },
{
    assert(s.take(i + 1) =~= s.take(i).push(s[i]));
    s.take(i).lemma_filter_push(s[i], p);
}

/// Appending an element changes the first match only where there was none
/// and the new element has the property.
pub proof fn lemma_first_match_push<T>(s: Seq<T>, x: T, p: spec_fn(T) -> bool)
    ensures
        first_match(s.push(x), p) == match first_match(s, p) {
            Some(i) => Some(i),
            None => if p(x) {
                Some(s.len() as int)
            } else {
                None
            },
        },
{
    lemma_first_match_is_exact(s, p);
    match first_match(s, p) {
        Some(i) => {
            assert(s.push(x)[i] == s[i]);
            assert forall|j: int| 0 <= j < i implies !p(#[trigger] s.push(x)[j]) by {
                assert(s.push(x)[j] == s[j]);
            }
            lemma_first_match_found(s.push(x), p, i);
        },
        None => {
            assert forall|j: int| 0 <= j < s.len() implies !p(#[trigger] s.push(x)[j]) by {
                assert(s.push(x)[j] == s[j]);
            }
            if p(x) {
                assert(s.push(x)[s.len() as int] == x);
                lemma_first_match_found(s.push(x), p, s.len() as int);
            } else {
                lemma_first_match_none(s.push(x), p);
            }
        },
    }
}

/// Where everything with the property `q` passes the filter `keep`, the
/// first element with `q` is the same before and after filtering.
pub proof fn lemma_first_match_after_filter<T>(
    s: Seq<T>,
    keep: spec_fn(T) -> bool,
    q: spec_fn(T) -> bool,
)
    requires
        forall|x: T| #[trigger] q(x) ==> keep(x),
    ensures
        match (first_match(s, q), first_match(s.filter(keep), q)) {
            (Some(i), Some(j)) => s[i] == s.filter(keep)[j],
            (None, None) => true,
            _ => false,
        },
    decreases s.len(),
{
    reveal(Seq::filter);
    if s.len() == 0 {
        lemma_first_match_none(s, q);
        lemma_first_match_none(s.filter(keep), q);
    } else {
        let rest = s.drop_last();
        let last = s.last();
        assert(rest.push(last) =~= s);
        lemma_first_match_after_filter(rest, keep, q);
        lemma_first_match_push(rest, last, q);
        lemma_first_match_is_exact(rest, q);
        lemma_first_match_is_exact(rest.filter(keep), q);
        if keep(last) {
            lemma_first_match_push(rest.filter(keep), last, q);
        }
    }
}

/// No two elements of `s` have the same key.
pub open spec fn keys_are_distinct<T, K>(s: Seq<T>, key: spec_fn(T) -> K) -> bool {
    forall|i: int, j: int| 0 <= i < j < s.len() ==> key(#[trigger] s[i]) != key(#[trigger] s[j])
}

/// Filtering keeps keys distinct.
pub proof fn lemma_filter_keeps_keys_distinct<T, K>(
    s: Seq<T>,
    keep: spec_fn(T) -> bool,
    key: spec_fn(T) -> K,
)
    requires
        keys_are_distinct(s, key),
    ensures
        keys_are_distinct(s.filter(keep), key),
    decreases s.len(),
{
    reveal(Seq::filter);
    if s.len() > 0 {
        let rest = s.drop_last();
        let last = s.last();
        assert forall|i: int, j: int| 0 <= i < j < rest.len() implies key(#[trigger] rest[i])
            != key(#[trigger] rest[j]) by {
            assert(rest[i] == s[i] && rest[j] == s[j]);
        }
        lemma_filter_keeps_keys_distinct(rest, keep, key);
        if keep(last) {
            let kept = rest.filter(keep);
            let all = kept.push(last);
            assert forall|i: int, j: int| 0 <= i < j < all.len() implies key(#[trigger] all[i])
                != key(#[trigger] all[j]) by {
                if j < kept.len() {
                    assert(all[i] == kept[i] && all[j] == kept[j]);
                } else {
                    assert(all[i] == kept[i] && all[j] == last);
                    assert(kept.contains(kept[i]));
                    rest.lemma_filter_contains_rev(keep, kept[i]);
                    let k = choose|k: int| 0 <= k < rest.len() && rest[k] == kept[i];
                    assert(s[k] == kept[i] && s[s.len() - 1] == last);
                }
            }
        }
    }
}

} // verus!
