//! The order in which the entities of a tick are visited: by ascending id.

use vstd::prelude::*;
use vstd::laws_cmp::{
    obeys_cmp_ord, obeys_cmp_partial_ord, obeys_partial_cmp_spec_properties,
};
use vstd::laws_eq::{group_laws_eq, obeys_eq_spec_properties};
use vstd::std_specs::btree::{axiom_increasing_seq_meaning, increasing_seq};
use vstd::std_specs::cmp::OrdSpec;

verus! {

/// Whether each entry of `ids` is smaller than all that follow it.
pub open spec fn is_ascending(ids: Seq<i32>) -> bool {
    forall|i: int, j: int| 0 <= i < j < ids.len() ==> ids[i] < ids[j]
}

/// The members of `ids`, each once, from the smallest to the largest. This
/// is the order in which the entities of a tick are visited.
pub open spec fn ascending(ids: Set<i32>) -> Seq<i32> {
    choose|listing: Seq<i32>| is_ascending(listing) && listing.to_set() == ids
}

/// Two ascending listings of the same ids are the same listing.
pub proof fn lemma_ascending_is_unique(a: Seq<i32>, b: Seq<i32>)
    requires
        is_ascending(a),
        is_ascending(b),
        a.to_set() == b.to_set(),
    ensures
        a == b,
    decreases a.len(),
{
    if a.len() == 0 {
        if b.len() > 0 {
            assert(a.to_set().contains(b[0]));
        }
    } else {
        // Both listings begin with the least of the ids.
        assert(b.to_set().contains(a[0]));
        assert(a.to_set().contains(b[0]));
        let a1 = a.drop_first();
        let b1 = b.drop_first();
        assert(a1.to_set() =~= b1.to_set()) by {
            assert forall|x: i32| a1.to_set().contains(x) <==> b1.to_set().contains(x) by {
                if a1.to_set().contains(x) {
                    assert(b.to_set().contains(x));
                    let j = choose|j: int| 0 <= j < b.len() && b[j] == x;
                    assert(b1[j - 1] == x);
                }
                if b1.to_set().contains(x) {
                    assert(a.to_set().contains(x));
                    let j = choose|j: int| 0 <= j < a.len() && a[j] == x;
                    assert(a1[j - 1] == x);
                }
            }
        }
        lemma_ascending_is_unique(a1, b1);
        assert(b =~= seq![b[0]] + b1);
    }
}

/// Every finite set of ids has its ascending listing: `ascending` lists
/// the members of `ids`, each once, from the smallest to the largest.
pub proof fn lemma_ascending_lists(ids: Set<i32>)
    requires
        ids.finite(),
    ensures
        is_ascending(ascending(ids)),
        ascending(ids).to_set() == ids,
        ascending(ids).len() == ids.len(),
    decreases ids.len(),
{
    lemma_ascending_exists(ids);
    let listing = ascending(ids);
    listing.unique_seq_to_set();
}

proof fn lemma_ascending_exists(ids: Set<i32>)
    requires
        ids.finite(),
    ensures
        exists|listing: Seq<i32>| is_ascending(listing) && listing.to_set() == ids,
    decreases ids.len(),
{
    if ids.len() == 0 {
        let empty = Seq::<i32>::empty();
        assert(is_ascending(empty) && empty.to_set() == ids);
    } else {
        // The greatest of the ids follows the listing of the others.
        let top = greatest(ids);
        lemma_greatest(ids);
        let rest = ids.remove(top);
        lemma_ascending_exists(rest);
        let below = choose|listing: Seq<i32>| is_ascending(listing) && listing.to_set() == rest;
        let listing = below.push(top);
        assert forall|i: int, j: int| 0 <= i < j < listing.len() implies listing[i] < listing[j] by {
            if j == below.len() {
                assert(rest.contains(below[i]));
            }
        }
        assert(listing.to_set() =~= ids) by {
            assert forall|x: i32| ids.contains(x) implies listing.to_set().contains(x) by {
                if x == top {
                    assert(listing[below.len() as int] == x);
                } else {
                    let i = choose|i: int| 0 <= i < below.len() && below[i] == x;
                    assert(listing[i] == x);
                }
            }
        }
    }
}

/// A member of `ids` that no member of `ids` is greater than.
spec fn greatest(ids: Set<i32>) -> i32 {
    choose|top: i32| ids.contains(top) && forall|x: i32| ids.contains(x) ==> x <= top
}

proof fn lemma_greatest(ids: Set<i32>)
    requires
        ids.finite(),
        ids.len() > 0,
    ensures
        ids.contains(greatest(ids)),
        forall|x: i32| ids.contains(x) ==> x <= greatest(ids),
    decreases ids.len(),
{
    let one = ids.choose();
    let rest = ids.remove(one);
    if rest.len() == 0 {
        assert forall|x: i32| ids.contains(x) implies x <= one by {
            assert(x != one ==> rest.contains(x));
        }
    } else {
        lemma_greatest(rest);
        let other = greatest(rest);
        let top = if one >= other { one } else { other };
        assert forall|x: i32| ids.contains(x) implies x <= top by {
            assert(x != one ==> rest.contains(x));
        }
    }
}

/// An ascending listing of `ids` is the ascending listing of `ids`.
pub proof fn lemma_ascending_listing(listing: Seq<i32>, ids: Set<i32>)
    requires
        is_ascending(listing),
        listing.to_set() == ids,
    ensures
        ascending(ids) == listing,
{
    lemma_ascending_is_unique(ascending(ids), listing);
}

/// What a B-tree's iterator promises of the references it hands out, said
/// of the integers behind them.
pub proof fn lemma_increasing_is_ascending(refs: Seq<&i32>)
    requires
        increasing_seq(refs),
    ensures
        is_ascending(refs.unref()),
{
    broadcast use group_laws_eq;

    reveal(obeys_eq_spec_properties);
    reveal(obeys_partial_cmp_spec_properties);
    reveal(obeys_cmp_partial_ord);
    reveal(obeys_cmp_ord);
    axiom_increasing_seq_meaning::<&i32>(refs);
    let ids = refs.unref();
    assert forall|i: int, j: int| 0 <= i < j < ids.len() implies ids[i] < ids[j] by {
        assert(OrdSpec::cmp_spec(&refs[i], &refs[j]) is Less);
    }
}

} // verus!
