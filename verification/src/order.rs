//! Listing orders and a stable sort by them. A listing order is a strict weak
//! order: `sorts_before` is irreflexive and transitive, and two values that
//! neither sorts before the other tie (`sorts_with`), ties being compatible
//! with the order. Sorting keeps the input order among ties.
use vstd::prelude::*;

verus! {

/// A type with a listing order.
pub trait ListingOrder: Sized {
    /// Whether `self` is listed before `other`.
    spec fn sorts_before(self, other: Self) -> bool;

    /// Whether `self` and `other` agree on every key of the order.
    spec fn sorts_with(self, other: Self) -> bool;

    /// The order is a strict weak order whose ties are `sorts_with`.
    proof fn lemma_listing_order(a: Self, b: Self, c: Self)
        ensures
            !a.sorts_before(a),
            a.sorts_before(b) ==> !b.sorts_before(a),
            !a.sorts_before(b) && !b.sorts_before(a) ==> a.sorts_with(b),
            a.sorts_before(b) && b.sorts_before(c) ==> a.sorts_before(c),
            a.sorts_before(b) && b.sorts_with(c) ==> a.sorts_before(c),
            a.sorts_with(b) && b.sorts_before(c) ==> a.sorts_before(c),
    ;

    /// Whether `self` is listed before `other`.
    fn listed_before(&self, other: &Self) -> (r: bool)
        ensures
            r == self.sorts_before(*other),
    ;
}

/// Whether `out` lists the elements of `input` in listing order, keeping the
/// input order among ties; `idx[j]` is the input position of `out[j]`.
pub open spec fn stable_order<T: ListingOrder>(input: Seq<T>, out: Seq<T>, idx: Seq<int>) -> bool {
    &&& idx.len() == out.len()
    &&& out.len() == input.len()
    &&& forall|j: int| 0 <= j < out.len() ==> 0 <= #[trigger] idx[j] < input.len()
    &&& forall|j: int| 0 <= j < out.len() ==> #[trigger] out[j] == input[idx[j]]
    &&& forall|j: int, l: int| 0 <= j < l < out.len() ==> idx[j] != idx[l]
    &&& forall|j: int, l: int|
        0 <= j < l < out.len() ==> (#[trigger] out[j]).sorts_before(#[trigger] out[l]) || (
        out[j].sorts_with(out[l]) && idx[j] < idx[l])
}

/// Whether `out` is `input` stably sorted by the listing order.
pub open spec fn stably_sorted<T: ListingOrder>(input: Seq<T>, out: Seq<T>) -> bool {
    exists|idx: Seq<int>| stable_order(input, out, idx)
}

/// The partial state of an insertion sort after `n` elements of `input`.
spec fn sort_state<T: ListingOrder>(input: Seq<T>, n: int, out: Seq<T>, idx: Seq<int>) -> bool {
    &&& idx.len() == out.len()
    &&& out.len() == n
    &&& forall|j: int| 0 <= j < out.len() ==> 0 <= #[trigger] idx[j] < n
    &&& forall|j: int| 0 <= j < out.len() ==> #[trigger] out[j] == input[idx[j]]
    &&& forall|j: int, l: int| 0 <= j < l < out.len() ==> idx[j] != idx[l]
    &&& forall|j: int, l: int|
        0 <= j < l < out.len() ==> (#[trigger] out[j]).sorts_before(#[trigger] out[l]) || (
        out[j].sorts_with(out[l]) && idx[j] < idx[l])
}

proof fn lemma_sort_insert<T: ListingOrder>(input: Seq<T>, n: int, out: Seq<T>, idx: Seq<int>, p: int)
    requires
        0 <= n < input.len(),
        sort_state(input, n, out, idx),
        0 <= p <= out.len(),
        forall|j: int| 0 <= j < p ==> !input[n].sorts_before(#[trigger] out[j]),
        p < out.len() ==> input[n].sorts_before(out[p]),
    ensures
        sort_state(input, n + 1, out.insert(p, input[n]), idx.insert(p, n)),
{
    let x = input[n];
    let out2 = out.insert(p, x);
    let idx2 = idx.insert(p, n);
    assert forall|j: int| 0 <= j < out2.len() implies 0 <= #[trigger] idx2[j] < n + 1 && out2[j]
        == input[idx2[j]] by {
        if j < p {
            assert(idx2[j] == idx[j] && out2[j] == out[j]);
        } else if j > p {
            assert(idx2[j] == idx[j - 1] && out2[j] == out[j - 1]);
        }
    }
    assert forall|j: int| 0 <= j < out2.len() implies #[trigger] out2[j] == input[idx2[j]] by {
        assert(0 <= idx2[j] < n + 1);
    }
    assert forall|j: int, l: int| 0 <= j < l < out2.len() implies idx2[j] != idx2[l] by {
        let oj = if j < p {
            j
        } else {
            j - 1
        };
        let ol = if l < p {
            l
        } else {
            l - 1
        };
        if j != p && l != p {
            assert(idx2[j] == idx[oj] && idx2[l] == idx[ol]);
        } else if j == p {
            assert(idx2[l] == idx[ol]);
            assert(idx[ol] < n);
        } else {
            assert(idx2[j] == idx[oj]);
            assert(idx[oj] < n);
        }
    }
    assert forall|j: int, l: int| 0 <= j < l < out2.len() implies (#[trigger] out2[j]).sorts_before(
        #[trigger] out2[l],
    ) || (out2[j].sorts_with(out2[l]) && idx2[j] < idx2[l]) by {
        let oj = if j < p {
            j
        } else {
            j - 1
        };
        let ol = if l < p {
            l
        } else {
            l - 1
        };
        if j != p && l != p {
            assert(idx2[j] == idx[oj] && idx2[l] == idx[ol]);
            assert(out2[j] == out[oj] && out2[l] == out[ol]);
            assert(oj < ol);
            assert(out[oj].sorts_before(out[ol]) || (out[oj].sorts_with(out[ol]) && idx[oj]
                < idx[ol]));
        } else if l == p {
            assert(out2[j] == out[j] && idx2[j] == idx[j]);
            assert(!x.sorts_before(out[j]));
            T::lemma_listing_order(out[j], x, x);
            assert(idx[j] < n);
        } else {
            assert(out2[l] == out[ol] && idx2[l] == idx[ol]);
            assert(p <= ol < out.len());
            assert(x.sorts_before(out[p]));
            if ol > p {
                assert(out[p].sorts_before(out[ol]) || (out[p].sorts_with(out[ol]) && idx[p]
                    < idx[ol]));
                T::lemma_listing_order(x, out[p], out[ol]);
            }
        }
    }
}

/// `v` stably sorted by its listing order (an insertion sort).
pub fn stable_sort<T: ListingOrder>(v: Vec<T>) -> (r: Vec<T>)
    ensures
        stably_sorted(v@, r@),
{
    let ghost input = v@;
    let total = v.len();
    let mut rest = v;
    let mut out: Vec<T> = Vec::new();
    let ghost mut idx: Seq<int> = seq![];
    let mut n: usize = 0;
    while rest.len() > 0
        invariant
            total == input.len(),
            n <= input.len(),
            rest@ == input.skip(n as int),
            sort_state(input, n as int, out@, idx),
        decreases rest@.len(),
    {
        let x = rest.remove(0);
        assert(x == input[n as int]);
        let mut p: usize = 0;
        while p < out.len() && !x.listed_before(&out[p])
            invariant
                p <= out@.len(),
                x == input[n as int],
                forall|j: int| 0 <= j < p ==> !input[n as int].sorts_before(#[trigger] out@[j]),
            decreases out@.len() - p,
        {
            p = p + 1;
        }
        proof {
            lemma_sort_insert(input, n as int, out@, idx, p as int);
            idx = idx.insert(p as int, n as int);
            assert(rest@ == input.skip(n + 1));
        }
        out.insert(p, x);
        n = n + 1;
    }
    proof {
        assert(n == input.len());
        assert(stable_order(input, out@, idx));
    }
    out
}

} // verus!
