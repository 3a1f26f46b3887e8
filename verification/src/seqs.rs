//! Sequence operations that the contracts of this crate are written in.

use vstd::prelude::*;

verus! {

/// Whether some element of `s` has the key `k`.
pub open spec fn has_key<A>(s: Seq<A>, key: spec_fn(A) -> Seq<char>, k: Seq<char>) -> bool {
    exists|i: int| 0 <= i < s.len() && key(#[trigger] s[i]) == k
}

/// `s` without every element whose key an earlier element of `s` has: of the
/// elements that share a key the first stays, and the order is kept.
pub open spec fn keep_first<A>(s: Seq<A>, key: spec_fn(A) -> Seq<char>) -> Seq<A>
    decreases s.len(),
{
    if s.len() == 0 {
        Seq::empty()
    } else {
        let init = keep_first(s.drop_last(), key);
        if has_key(s.drop_last(), key, key(s.last())) {
            init
        } else {
            init.push(s.last())
        }
    }
}

/// `keep_first` of a sequence that grew by one element.
pub proof fn lemma_keep_first_push<A>(s: Seq<A>, a: A, key: spec_fn(A) -> Seq<char>)
    ensures
        keep_first(s.push(a), key) == if has_key(s, key, key(a)) {
            keep_first(s, key)
        } else {
            keep_first(s, key).push(a)
        },
{
    assert(s.push(a).drop_last() =~= s);
}

/// `keep_first` loses no key and adds none.
pub proof fn lemma_keep_first_keys<A>(s: Seq<A>, key: spec_fn(A) -> Seq<char>, k: Seq<char>)
    ensures
        has_key(keep_first(s, key), key, k) <==> has_key(s, key, k),
    decreases s.len(),
{
    if s.len() > 0 {
        let init = s.drop_last();
        let last = s.last();
        let kept = keep_first(init, key);
        lemma_keep_first_keys(init, key, k);
        lemma_keep_first_keys(init, key, key(last));
        if has_key(s, key, k) {
            let i = choose|i: int| 0 <= i < s.len() && key(#[trigger] s[i]) == k;
            if i < init.len() {
                assert(key(init[i]) == k);
            }
            if has_key(init, key, k) && !has_key(init, key, key(last)) {
                let j = choose|j: int| 0 <= j < kept.len() && key(#[trigger] kept[j]) == k;
                assert(key(kept.push(last)[j]) == k);
            }
            if !has_key(init, key, k) {
                assert(key(last) == k);
                assert(key(kept.push(last)[kept.len() as int]) == k);
            }
        }
        if has_key(keep_first(s, key), key, k) {
            let out = keep_first(s, key);
            let j = choose|j: int| 0 <= j < out.len() && key(#[trigger] out[j]) == k;
            if j < kept.len() {
                assert(key(kept[j]) == k);
                let i = choose|i: int| 0 <= i < init.len() && key(#[trigger] init[i]) == k;
                assert(key(s[i]) == k);
            } else {
                assert(key(s[s.len() - 1]) == k);
            }
        }
    }
}

/// No two elements of `keep_first` share a key.
pub proof fn lemma_keep_first_distinct<A>(s: Seq<A>, key: spec_fn(A) -> Seq<char>)
    ensures
        forall|i: int, j: int|
            0 <= i < j < keep_first(s, key).len() ==> key(#[trigger] keep_first(s, key)[i]) != key(
                #[trigger] keep_first(s, key)[j],
            ),
    decreases s.len(),
{
    if s.len() > 0 {
        let init = s.drop_last();
        let kept = keep_first(init, key);
        lemma_keep_first_distinct(init, key);
        lemma_keep_first_keys(init, key, key(s.last()));
        let out = keep_first(s, key);
        assert forall|i: int, j: int| 0 <= i < j < out.len() implies key(#[trigger] out[i]) != key(
            #[trigger] out[j],
        ) by {
            if j < kept.len() {
                assert(out[i] == kept[i] && out[j] == kept[j]);
            } else {
                assert(out[i] == kept[i]);
            }
        }
    }
}

/// Every element of `keep_first` is an element of the sequence it was made
/// from, and the elements come in the order they had there.
pub proof fn lemma_keep_first_in_order<A>(s: Seq<A>, key: spec_fn(A) -> Seq<char>) -> (at: Seq<int>)
    ensures
        at.len() == keep_first(s, key).len(),
        forall|i: int| 0 <= i < at.len() ==> 0 <= #[trigger] at[i] < s.len(),
        forall|i: int| 0 <= i < at.len() ==> keep_first(s, key)[i] == s[#[trigger] at[i]],
        forall|i: int, j: int| 0 <= i < j < at.len() ==> #[trigger] at[i] < #[trigger] at[j],
    decreases s.len(),
{
    if s.len() == 0 {
        Seq::empty()
    } else {
        let init = s.drop_last();
        let before = lemma_keep_first_in_order(init, key);
        if has_key(init, key, key(s.last())) {
            before
        } else {
            before.push(s.len() - 1)
        }
    }
}

/// For every element of `s`, the first element of `s` with the same key is
/// in `keep_first`: it stands at or before that element.
pub proof fn lemma_keep_first_earliest<A>(s: Seq<A>, key: spec_fn(A) -> Seq<char>, i: int) -> (first: int)
    requires
        0 <= i < s.len(),
    ensures
        0 <= first <= i,
        key(s[first]) == key(s[i]),
        keep_first(s, key).contains(s[first]),
    decreases s.len(),
{
    let init = s.drop_last();
    let kept = keep_first(init, key);
    let out = keep_first(s, key);
    if i < s.len() - 1 {
        let first = lemma_keep_first_earliest(init, key, i);
        let at = choose|at: int| 0 <= at < kept.len() && kept[at] == init[first];
        assert(out[at] == s[first]);
        first
    } else if has_key(init, key, key(s.last())) {
        let j = choose|j: int| 0 <= j < init.len() && key(#[trigger] init[j]) == key(s.last());
        let first = lemma_keep_first_earliest(init, key, j);
        let at = choose|at: int| 0 <= at < kept.len() && kept[at] == init[first];
        assert(out[at] == s[first]);
        first
    } else {
        assert(out[out.len() - 1] == s[i]);
        i
    }
}

} // verus!
