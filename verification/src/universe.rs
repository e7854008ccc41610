//! Bookkeeping of the body collection: eviction, picking and lookup.
//!
//! The collection is a vector of bodies in the order of their creation. What
//! a body holds is of no concern here: the caller measures the bodies and
//! hands over one flag per body, and these functions decide what stays, in
//! which order, and which body a query answers with.

use vstd::prelude::*;

verus! {

/// Whether the body at index `i` is flagged. A body without a flag is not.
pub open spec fn flagged(flags: Seq<bool>, i: int) -> bool {
    0 <= i < flags.len() && flags[i]
}

/// The indices, among the first `n`, of the bodies that are not flagged, in
/// rising order.
pub open spec fn survivors(n: nat, distant: Seq<bool>) -> Seq<int>
    decreases n,
{
    if n == 0 {
        Seq::empty()
    } else {
        let rest = survivors((n - 1) as nat, distant);
        if flagged(distant, n - 1) {
            rest
        } else {
            rest.push(n - 1)
        }
    }
}

/// The bodies that an eviction leaves: those not flagged as distant, in
/// their former order.
pub open spec fn kept<T>(objects: Seq<T>, distant: Seq<bool>) -> Seq<T> {
    survivors(objects.len(), distant).map_values(|k: int| objects[k])
}

/// How many of the bodies below index `i` are flagged.
pub open spec fn flagged_before(flags: Seq<bool>, i: nat) -> nat
    decreases i,
{
    if i == 0 {
        0
    } else {
        flagged_before(flags, (i - 1) as nat) + (if flagged(flags, i - 1) {
            1nat
        } else {
            0nat
        })
    }
}

/// The lowest index below `n` whose body is flagged, if any is.
pub open spec fn first_flagged(n: nat, hits: Seq<bool>) -> Option<int>
    decreases n,
{
    if n == 0 {
        None
    } else {
        match first_flagged((n - 1) as nat, hits) {
            Some(i) => Some(i),
            None => if flagged(hits, n - 1) {
                Some(n - 1)
            } else {
                None
            },
        }
    }
}

/// Evicts the bodies flagged as distant. The others stay, in the order they
/// had; their indices shift down past each evicted body.
pub fn remove_distant_objects<T>(objects: &mut Vec<T>, distant: &Vec<bool>)
    ensures
        final(objects)@ == kept(old(objects)@, distant@),
{
    let ghost before = objects@;
    let n: usize = objects.len();
    let mut stack: Vec<T> = Vec::new();
    while objects.len() > 0
        invariant
            n == before.len(),
            objects@.len() + stack@.len() == n,
            objects@ =~= before.take(objects@.len() as int),
            forall|k: int| 0 <= k < stack@.len() ==> stack@[k] == before[n - 1 - k],
        decreases objects@.len(),
    {
        let last = objects.pop();
        match last {
            Some(body) => {
                stack.push(body);
            },
            None => {},
        }
    }
    let mut i: usize = 0;
    while i < n
        invariant
            n == before.len(),
            i <= n,
            stack@.len() == n - i,
            forall|k: int| 0 <= k < stack@.len() ==> stack@[k] == before[n - 1 - k],
            objects@ =~= survivors(i as nat, distant@).map_values(|k: int| before[k]),
        decreases n - i,
    {
        let next = stack.pop();
        let gone = i < distant.len() && distant[i];
        match next {
            Some(body) => {
                if !gone {
                    objects.push(body);
                }
            },
            None => {},
        }
        i += 1;
    }
}

/// Answers a picking query: the first body, in the order of the collection,
/// whose flag in `hits` is set, with its index. A later body is never
/// preferred to an earlier one, however well it matches.
pub fn get_object_at_position<'a, T>(objects: &'a Vec<T>, hits: &Vec<bool>) -> (r: Option<
    (usize, &'a T),
>)
    ensures
        match r {
            Some((i, body)) => first_flagged(objects@.len(), hits@) == Some(i as int)
                && i < objects@.len() && *body == objects@[i as int],
            None => first_flagged(objects@.len(), hits@) is None,
        },
{
    let mut i: usize = 0;
    while i < objects.len()
        invariant
            i <= objects@.len(),
            first_flagged(i as nat, hits@) is None,
        decreases objects@.len() - i,
    {
        if i < hits.len() && hits[i] {
            proof {
                lemma_first_flagged_extends(i as nat + 1, objects@.len(), hits@);
            }
            return Some((i, &objects[i]));
        }
        i += 1;
    }
    None
}

/// Looks a body up by its index in the collection.
pub fn get_object_by_index<T>(objects: &Vec<T>, index: usize) -> (r: Option<&T>)
    ensures
        index < objects@.len() ==> r == Some(&objects@[index as int]),
        index >= objects@.len() ==> r is None,
{
    if index < objects.len() {
        Some(&objects[index])
    } else {
        None
    }
}

/// A first flagged index stays the first when more bodies follow.
pub proof fn lemma_first_flagged_extends(m: nat, n: nat, hits: Seq<bool>)
    requires
        m <= n,
        first_flagged(m, hits) is Some,
    ensures
        first_flagged(n, hits) == first_flagged(m, hits),
    decreases n,
{
    if m < n {
        lemma_first_flagged_extends(m, (n - 1) as nat, hits);
    }
}

/// First match, not best match: the index that a query answers with is
/// flagged, and no index below it is. Without an answer no index is flagged.
pub proof fn lemma_first_flagged(n: nat, hits: Seq<bool>)
    ensures
        match first_flagged(n, hits) {
            Some(i) => 0 <= i < n && flagged(hits, i) && forall|k: int|
                0 <= k < i ==> !flagged(hits, k),
            None => forall|k: int| 0 <= k < n ==> !flagged(hits, k),
        },
    decreases n,
{
    if n > 0 {
        lemma_first_flagged((n - 1) as nat, hits);
    }
}

/// The survivors are indices of bodies that are not flagged, and they rise:
/// an eviction keeps the order of the bodies and keeps none twice.
pub proof fn lemma_survivors_rise(n: nat, distant: Seq<bool>)
    ensures
        survivors(n, distant).len() <= n,
        forall|p: int|
            0 <= p < survivors(n, distant).len() ==> 0 <= (#[trigger] survivors(n, distant)[p])
                < n && !flagged(distant, survivors(n, distant)[p]),
        forall|p: int, q: int|
            0 <= p < q < survivors(n, distant).len() ==> survivors(n, distant)[p] < survivors(
                n,
                distant,
            )[q],
    decreases n,
{
    if n > 0 {
        lemma_survivors_rise((n - 1) as nat, distant);
    }
}

/// A body that is not flagged survives.
pub proof fn lemma_unflagged_survives(n: nat, distant: Seq<bool>, i: int)
    requires
        0 <= i < n,
        !flagged(distant, i),
    ensures
        survivors(n, distant).contains(i),
    decreases n,
{
    let s = survivors(n, distant);
    if i == n - 1 {
        assert(s[s.len() - 1] == i);
    } else {
        lemma_unflagged_survives((n - 1) as nat, distant, i);
        let rest = survivors((n - 1) as nat, distant);
        let p = choose|p: int| 0 <= p < rest.len() && rest[p] == i;
        assert(s[p] == i);
    }
}

/// Where a survivor ends up: an eviction shifts the body at index `i` down
/// by the number of evicted bodies before it, and the collection shrinks by
/// the number of evicted bodies in all.
pub proof fn lemma_survivor_index(n: nat, distant: Seq<bool>, i: int)
    requires
        0 <= i < n,
        !flagged(distant, i),
    ensures
        survivors(n, distant).len() == n - flagged_before(distant, n),
        0 <= i - flagged_before(distant, i as nat) < survivors(n, distant).len(),
        survivors(n, distant)[i - flagged_before(distant, i as nat)] == i,
    decreases n,
{
    lemma_survivors_count(n, distant);
    lemma_survivors_count(i as nat, distant);
    if i < n - 1 {
        lemma_survivor_index((n - 1) as nat, distant, i);
    }
}

/// An eviction leaves as many bodies as were not flagged.
pub proof fn lemma_survivors_count(n: nat, distant: Seq<bool>)
    ensures
        survivors(n, distant).len() == n - flagged_before(distant, n),
        flagged_before(distant, n) <= n,
    decreases n,
{
    if n > 0 {
        lemma_survivors_count((n - 1) as nat, distant);
    }
}

/// A body flagged as distant is gone after the eviction.
pub proof fn lemma_flagged_evicted(n: nat, distant: Seq<bool>, i: int)
    requires
        flagged(distant, i),
    ensures
        !survivors(n, distant).contains(i),
{
    lemma_survivors_rise(n, distant);
}

/// An eviction never adds a body: it leaves as many as there are survivors,
/// at most as many as there were.
pub proof fn lemma_kept<T>(objects: Seq<T>, distant: Seq<bool>)
    ensures
        kept(objects, distant).len() == survivors(objects.len(), distant).len(),
        kept(objects, distant).len() <= objects.len(),
{
    lemma_survivors_rise(objects.len(), distant);
}

/// Where no body is flagged, an eviction changes nothing.
pub proof fn lemma_nothing_flagged<T>(objects: Seq<T>, distant: Seq<bool>)
    requires
        forall|i: int| 0 <= i < objects.len() ==> !flagged(distant, i),
    ensures
        kept(objects, distant) == objects,
{
    lemma_all_survive(objects.len(), distant);
    assert(kept(objects, distant) =~= objects);
}

/// Where none of the first `n` bodies is flagged, the survivors are all of
/// their indices.
pub proof fn lemma_all_survive(n: nat, distant: Seq<bool>)
    requires
        forall|i: int| 0 <= i < n ==> !flagged(distant, i),
    ensures
        survivors(n, distant) == Seq::new(n, |k: int| k),
    decreases n,
{
    if n > 0 {
        lemma_all_survive((n - 1) as nat, distant);
    }
    assert(survivors(n, distant) =~= Seq::new(n, |k: int| k));
}

} // verus!
