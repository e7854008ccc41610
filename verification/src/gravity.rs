//! The order in which pairs of bodies interact.
//!
//! A gravity pass over `n` bodies visits every unordered pair of distinct
//! bodies once: `(0, 1)`, `(0, 2)`, .., `(0, n - 1)`, `(1, 2)`, .. and last
//! `(n - 2, n - 1)`. The caller walks that order with [`first_pair`] and
//! [`next_pair`] and applies the force law to each pair it is handed.

use vstd::prelude::*;

verus! {

/// Whether `(i, j)` is a pair of the pass over `n` bodies.
pub open spec fn is_pair(n: int, i: int, j: int) -> bool {
    0 <= i < j < n
}

/// How many pairs have their first body below `i`.
pub open spec fn pairs_before_row(n: int, i: int) -> int
    decreases i,
{
    if i <= 0 {
        0
    } else {
        pairs_before_row(n, i - 1) + (n - i)
    }
}

/// How many pairs the pass over `n` bodies has.
pub open spec fn pair_count(n: int) -> int {
    pairs_before_row(n, n)
}

/// The step at which `(i, j)` is visited, counting from 0.
pub open spec fn pair_rank(n: int, i: int, j: int) -> int {
    pairs_before_row(n, i) + (j - i - 1)
}

/// The pair visited first, if there is any.
pub open spec fn pair_first(n: int) -> Option<(int, int)> {
    if n >= 2 {
        Some((0, 1))
    } else {
        None
    }
}

/// The pair visited right after `(i, j)`, if `(i, j)` is not the last.
pub open spec fn pair_after(n: int, i: int, j: int) -> Option<(int, int)> {
    if !is_pair(n, i, j) {
        None
    } else if j + 1 < n {
        Some((i, j + 1))
    } else if i + 2 < n {
        Some((i + 1, i + 2))
    } else {
        None
    }
}

/// The pair visited at step `k`, or `None` once the pass is over.
pub open spec fn pair_at(n: int, k: nat) -> Option<(int, int)>
    decreases k,
{
    if k == 0 {
        pair_first(n)
    } else {
        match pair_at(n, (k - 1) as nat) {
            Some((i, j)) => pair_after(n, i, j),
            None => None,
        }
    }
}

/// What an index pair stands for in the model.
pub open spec fn as_pair(p: Option<(usize, usize)>) -> Option<(int, int)> {
    match p {
        Some((i, j)) => Some((i as int, j as int)),
        None => None,
    }
}

/// Starts a pass over `n` bodies: the first pair to visit. With fewer than
/// two bodies there is none, and the pass is over before it began.
pub fn first_pair(n: usize) -> (r: Option<(usize, usize)>)
    ensures
        as_pair(r) == pair_first(n as int),
        r is None <==> n <= 1,
{
    if n >= 2 {
        Some((0, 1))
    } else {
        None
    }
}

/// Continues a pass over `n` bodies after the pair `(i, j)`: the next pair to
/// visit, or `None` when `(i, j)` was the last one. Indices that are no pair
/// of the pass have no successor.
pub fn next_pair(n: usize, i: usize, j: usize) -> (r: Option<(usize, usize)>)
    ensures
        as_pair(r) == pair_after(n as int, i as int, j as int),
{
    if !(i < j && j < n) {
        None
    } else if j + 1 < n {
        Some((i, j + 1))
    } else if i + 2 < n {
        Some((i + 1, i + 2))
    } else {
        None
    }
}

/// Rows further down start later: the count of pairs before a row never
/// shrinks as the row grows.
pub proof fn lemma_rows_monotone(n: int, i: int, a: int)
    requires
        0 <= i <= a <= n,
    ensures
        pairs_before_row(n, i) <= pairs_before_row(n, a),
    decreases a,
{
    if i < a {
        lemma_rows_monotone(n, i, a - 1);
    }
}

/// The pass over `n` bodies has `n (n - 1) / 2` pairs.
pub proof fn lemma_pair_count(n: int)
    requires
        0 <= n,
    ensures
        2 * pair_count(n) == n * (n - 1),
{
    lemma_rows_closed_form(n, n);
    assert(n * (2 * n - n - 1) == n * (n - 1)) by (nonlinear_arith);
}

/// Twice the count of pairs before row `i` is `i (2 n - i - 1)`.
pub proof fn lemma_rows_closed_form(n: int, i: int)
    requires
        0 <= i,
    ensures
        2 * pairs_before_row(n, i) == i * (2 * n - i - 1),
    decreases i,
{
    if i > 0 {
        lemma_rows_closed_form(n, i - 1);
        assert((i - 1) * (2 * n - (i - 1) - 1) + 2 * (n - i) == i * (2 * n - i - 1))
            by (nonlinear_arith);
    } else {
        assert(0 * (2 * n - 0 - 1) == 0);
    }
}

/// Every pair is visited at a step of the pass: its rank lies between 0 and
/// the count of pairs.
pub proof fn lemma_rank_in_range(n: int, i: int, j: int)
    requires
        is_pair(n, i, j),
    ensures
        0 <= pair_rank(n, i, j) < pair_count(n),
{
    lemma_rows_monotone(n, 0, i);
    lemma_rows_monotone(n, i + 1, n);
}

/// Two pairs visited at the same step are the same pair: no pair is visited
/// twice.
pub proof fn lemma_rank_unique(n: int, i: int, j: int, a: int, b: int)
    requires
        is_pair(n, i, j),
        is_pair(n, a, b),
        pair_rank(n, i, j) == pair_rank(n, a, b),
    ensures
        i == a && j == b,
{
    if i < a {
        lemma_rows_monotone(n, i + 1, a);
    } else if a < i {
        lemma_rows_monotone(n, a + 1, i);
    }
}

/// The first pair is visited at step 0. Each step leads from a pair to the
/// pair of the next rank, and the pair without a successor is the one of the
/// last rank.
pub proof fn lemma_next_rank(n: int, i: int, j: int)
    requires
        is_pair(n, i, j),
    ensures
        pair_rank(n, 0, 1) == 0,
        match pair_after(n, i, j) {
            Some((a, b)) => is_pair(n, a, b) && pair_rank(n, a, b) == pair_rank(n, i, j) + 1,
            None => pair_rank(n, i, j) + 1 == pair_count(n),
        },
{
    assert(pairs_before_row(n, 0) == 0);
    if j + 1 < n {
    } else if i + 2 < n {
        assert(pairs_before_row(n, i + 1) == pairs_before_row(n, i) + (n - (i + 1)));
    } else {
        assert(i == n - 2);
        assert(pairs_before_row(n, n) == pairs_before_row(n, n - 1) + 0);
        assert(pairs_before_row(n, n - 1) == pairs_before_row(n, n - 2) + 1);
    }
}

/// While the pass lasts, the pair visited at step `k` is a pair of rank `k`.
pub proof fn lemma_step_has_rank(n: int, k: nat)
    requires
        k < pair_count(n),
    ensures
        match pair_at(n, k) {
            Some((i, j)) => is_pair(n, i, j) && pair_rank(n, i, j) == k,
            None => false,
        },
    decreases k,
{
    if n < 2 {
        if n >= 1 {
            assert(pairs_before_row(n, 1) == pairs_before_row(n, 0) + (n - 1));
        }
        assert(pair_count(n) == 0);
    } else if k == 0 {
        assert(pairs_before_row(n, 0) == 0);
    } else {
        lemma_step_has_rank(n, (k - 1) as nat);
        match pair_at(n, (k - 1) as nat) {
            Some((i, j)) => {
                lemma_next_rank(n, i, j);
            },
            None => {},
        }
    }
}

/// Each pair of the pass is visited, at the step given by its rank.
pub proof fn lemma_every_pair_visited(n: int, i: int, j: int)
    requires
        is_pair(n, i, j),
    ensures
        pair_at(n, pair_rank(n, i, j) as nat) == Some((i, j)),
{
    lemma_rank_in_range(n, i, j);
    let k = pair_rank(n, i, j) as nat;
    lemma_step_has_rank(n, k);
    match pair_at(n, k) {
        Some((a, b)) => {
            lemma_rank_unique(n, i, j, a, b);
        },
        None => {},
    }
}

/// A pair is visited at one step only: the step of its rank.
pub proof fn lemma_visited_once(n: int, k: nat, m: nat)
    requires
        k < pair_count(n),
        m < pair_count(n),
        pair_at(n, k) == pair_at(n, m),
    ensures
        k == m,
{
    lemma_step_has_rank(n, k);
    lemma_step_has_rank(n, m);
}

/// The pass ends after its last pair: at the step that equals the count of
/// pairs there is nothing left to visit. With no body or a single one, that
/// is step 0.
pub proof fn lemma_pass_ends(n: int)
    requires
        0 <= n,
    ensures
        pair_at(n, pair_count(n) as nat) is None,
        n <= 1 ==> pair_count(n) == 0,
{
    lemma_pair_count(n);
    if n <= 1 {
        assert(n * (n - 1) == 0) by (nonlinear_arith)
            requires
                n == 0 || n == 1,
        ;
    } else {
        assert(n * (n - 1) >= 2) by (nonlinear_arith)
            requires
                n >= 2,
        ;
        let k = (pair_count(n) - 1) as nat;
        lemma_step_has_rank(n, k);
        match pair_at(n, k) {
            Some((i, j)) => {
                lemma_next_rank(n, i, j);
                lemma_rank_in_range(n, n - 2, n - 1);
                if pair_after(n, i, j) is Some {
                    let (a, b) = pair_after(n, i, j).unwrap();
                    lemma_rank_in_range(n, a, b);
                }
            },
            None => {},
        }
    }
}

} // verus!
