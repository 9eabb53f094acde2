//! Searching and filtering sequences: the specifications shared by the
//! collections of this library.
use vstd::prelude::*;

verus! {

/// `i` is the first position of `s` whose item satisfies `p`.
pub open spec fn is_first<T>(s: Seq<T>, p: spec_fn(T) -> bool, i: int) -> bool {
    &&& 0 <= i < s.len()
    &&& p(s[i])
    &&& forall|j: int| 0 <= j < i ==> !p(#[trigger] s[j])
}

/// Some item of `s` satisfies `p`.
pub open spec fn any<T>(s: Seq<T>, p: spec_fn(T) -> bool) -> bool {
    exists|i: int| 0 <= i < s.len() && p(#[trigger] s[i])
}

/// The first position of `s` whose item satisfies `p`, or -1 where none does.
pub open spec fn first_index<T>(s: Seq<T>, p: spec_fn(T) -> bool) -> int {
    if exists|i: int| is_first(s, p, i) {
        choose|i: int| is_first(s, p, i)
    } else {
        -1
    }
}

/// The first position is unique.
pub proof fn lemma_first_index<T>(s: Seq<T>, p: spec_fn(T) -> bool, i: int)
    requires
        is_first(s, p, i),
    ensures
        first_index(s, p) == i,
{
    let k = choose|k: int| is_first(s, p, k);
    if k < i {
        assert(!p(s[k]));
    } else if k > i {
        assert(!p(s[i]));
    }
}

/// Where no item satisfies `p`, the first position is -1.
pub proof fn lemma_first_index_none<T>(s: Seq<T>, p: spec_fn(T) -> bool)
    requires
        !any(s, p),
    ensures
        first_index(s, p) == -1,
{
    if exists|i: int| is_first(s, p, i) {
        let k = choose|k: int| is_first(s, p, k);
        assert(p(s[k]));
    }
}

/// Some item satisfies `p` exactly when there is a first one.
pub proof fn lemma_first_index_any<T>(s: Seq<T>, p: spec_fn(T) -> bool)
    ensures
        any(s, p) <==> 0 <= first_index(s, p) < s.len(),
        any(s, p) ==> is_first(s, p, first_index(s, p)),
    decreases s.len(),
{
    if any(s, p) {
        if p(s[0]) {
            assert(is_first(s, p, 0));
            lemma_first_index(s, p, 0);
        } else {
            let t = s.drop_first();
            let w = choose|i: int| 0 <= i < s.len() && p(#[trigger] s[i]);
            assert(t[w - 1] == s[w]);
            lemma_first_index_any(t, p);
            let k = first_index(t, p);
            assert(is_first(s, p, k + 1)) by {
                assert forall|j: int| 0 <= j < k + 1 implies !p(#[trigger] s[j]) by {
                    if j > 0 {
                        assert(s[j] == t[j - 1]);
                    }
                }
            }
            lemma_first_index(s, p, k + 1);
        }
    } else {
        lemma_first_index_none(s, p);
    }
}

/// The items of `s` that satisfy `p`, in order.
pub open spec fn keep<T>(s: Seq<T>, p: spec_fn(T) -> bool) -> Seq<T>
    decreases s.len(),
{
    if s.len() == 0 {
        Seq::<T>::empty()
    } else {
        let r = keep(s.drop_last(), p);
        if p(s.last()) {
            r.push(s.last())
        } else {
            r
        }
    }
}

/// Every kept item satisfies `p` and comes from `s`; no more items are kept
/// than `s` has, and all are kept exactly when all satisfy `p`.
pub proof fn lemma_keep<T>(s: Seq<T>, p: spec_fn(T) -> bool)
    ensures
        forall|i: int| 0 <= i < keep(s, p).len() ==> p(#[trigger] keep(s, p)[i]),
        forall|i: int| 0 <= i < keep(s, p).len() ==> s.contains(#[trigger] keep(s, p)[i]),
        keep(s, p).len() <= s.len(),
        keep(s, p).len() == s.len() <==> (forall|i: int| 0 <= i < s.len() ==> p(#[trigger] s[i])),
        keep(s, p).len() == s.len() ==> keep(s, p) == s,
    decreases s.len(),
{
    if s.len() > 0 {
        let t = s.drop_last();
        lemma_keep(t, p);
        let r = keep(t, p);
        assert forall|i: int| 0 <= i < keep(s, p).len() implies s.contains(
            #[trigger] keep(s, p)[i],
        ) by {
            if i < r.len() {
                let j = choose|j: int| 0 <= j < t.len() && t[j] == r[i];
                assert(s[j] == t[j]);
            } else {
                assert(s[s.len() - 1] == s.last());
            }
        }
        if keep(s, p).len() == s.len() {
            assert(p(s.last()));
            assert forall|i: int| 0 <= i < s.len() implies p(#[trigger] s[i]) by {
                if i < s.len() - 1 {
                    assert(s[i] == t[i]);
                }
            }
            assert(keep(s, p) =~= s);
        }
        if forall|i: int| 0 <= i < s.len() ==> p(#[trigger] s[i]) {
            assert forall|i: int| 0 <= i < t.len() implies p(#[trigger] t[i]) by {
                assert(t[i] == s[i]);
            }
            assert(p(s[s.len() - 1]));
        }
    }
}

/// An item of `s` that satisfies `p` is kept.
pub proof fn lemma_keep_has<T>(s: Seq<T>, p: spec_fn(T) -> bool, x: T)
    requires
        s.contains(x),
        p(x),
    ensures
        keep(s, p).contains(x),
    decreases s.len(),
{
    if s.last() == x {
        assert(keep(s, p).last() == x);
    } else {
        let i = choose|i: int| 0 <= i < s.len() && s[i] == x;
        assert(s.drop_last()[i] == x);
        lemma_keep_has(s.drop_last(), p, x);
        let r = keep(s.drop_last(), p);
        let k = choose|k: int| 0 <= k < r.len() && r[k] == x;
        if p(s.last()) {
            assert(r.push(s.last())[k] == x);
        }
    }
}

/// How many items of `s` satisfy `p`.
pub open spec fn count<T>(s: Seq<T>, p: spec_fn(T) -> bool) -> nat {
    keep(s, p).len()
}


/// Items satisfying `p` and items satisfying its negation `q` together make
/// up the whole sequence.
pub proof fn lemma_keep_complement<T>(s: Seq<T>, p: spec_fn(T) -> bool, q: spec_fn(T) -> bool)
    requires
        forall|x: T| #[trigger] q(x) == !p(x),
    ensures
        keep(s, p).len() + keep(s, q).len() == s.len(),
    decreases s.len(),
{
    if s.len() > 0 {
        lemma_keep_complement(s.drop_last(), p, q);
        assert(q(s.last()) == !p(s.last()));
    }
}

/// Where no item of `s` satisfies `p`, keeping those that do leaves nothing.
pub proof fn lemma_keep_none<T>(s: Seq<T>, p: spec_fn(T) -> bool)
    requires
        forall|i: int| 0 <= i < s.len() ==> !p(#[trigger] s[i]),
    ensures
        keep(s, p) == Seq::<T>::empty(),
    decreases s.len(),
{
    if s.len() > 0 {
        assert forall|i: int| 0 <= i < s.drop_last().len() implies !p(#[trigger] s.drop_last()[i]) by {
            assert(s.drop_last()[i] == s[i]);
        }
        lemma_keep_none(s.drop_last(), p);
        assert(!p(s[s.len() - 1]));
    }
}

} // verus!
