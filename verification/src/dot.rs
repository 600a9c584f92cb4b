//! The structure of a controller's connection graph, for rendering.
//!
//! The shell decides per weight whether it is significant (a floating-point
//! magnitude test) and renders the text; which connections and which
//! interior neurons appear in the drawing is decided here: a connection is
//! kept unless it writes into an input slot or reads from an output slot,
//! and an interior neuron is shown exactly when some kept connection
//! touches it.

use vstd::prelude::*;

use crate::brain::{is_input_slot, is_output_slot, NUM_FIXED, NUM_NEURONS};

verus! {

/// Whether the drawing keeps the connection from neuron `i` to neuron `j`.
pub open spec fn edge_kept(significant: Seq<Vec<bool>>, i: int, j: int) -> bool {
    &&& significant[i]@[j]
    &&& !is_input_slot(j)
    &&& !is_output_slot(i)
}

/// Whether some listed edge touches neuron `n`.
pub open spec fn appears(edges: Seq<(usize, usize)>, n: int) -> bool {
    exists|t: int| 0 <= t < edges.len() && ((#[trigger] edges[t]).0 == n || edges[t].1 == n)
}

/// The kept connections, in row-major order, and the interior neurons they
/// touch, in ascending order, from the per-weight significance flags.
pub fn graph_structure(significant: &Vec<Vec<bool>>) -> (r: (Vec<(usize, usize)>, Vec<usize>))
    requires
        significant@.len() == NUM_NEURONS,
        forall|i: int|
            0 <= i < NUM_NEURONS ==> (#[trigger] significant@[i])@.len() == NUM_NEURONS,
    ensures
        ({
            let (edges, interior) = r;
            &&& forall|t: int|
                0 <= t < edges@.len() ==> {
                    let e = #[trigger] edges@[t];
                    &&& e.0 < NUM_NEURONS
                    &&& e.1 < NUM_NEURONS
                    &&& edge_kept(significant@, e.0 as int, e.1 as int)
                }
            &&& forall|i: int, j: int|
                0 <= i < NUM_NEURONS && 0 <= j < NUM_NEURONS && edge_kept(significant@, i, j)
                    ==> appears_at(edges@, i, j)
            &&& forall|t1: int, t2: int|
                0 <= t1 < t2 < edges@.len() ==> lex_before(edges@[t1], edges@[t2])
            &&& forall|t: int|
                0 <= t < interior@.len() ==> NUM_FIXED <= (#[trigger] interior@[t]) < NUM_NEURONS
                    && appears(edges@, interior@[t] as int)
            &&& forall|n: int|
                NUM_FIXED <= n < NUM_NEURONS && appears(edges@, n) ==> interior_listed(
                    interior@,
                    n,
                )
            &&& forall|t1: int, t2: int|
                0 <= t1 < t2 < interior@.len() ==> interior@[t1] < interior@[t2]
        }),
{
    let mut edges: Vec<(usize, usize)> = Vec::new();
    let mut i: usize = 0;
    while i < NUM_NEURONS
        invariant
            i <= NUM_NEURONS,
            significant@.len() == NUM_NEURONS,
            forall|r: int|
                0 <= r < NUM_NEURONS ==> (#[trigger] significant@[r])@.len() == NUM_NEURONS,
            forall|t: int|
                0 <= t < edges@.len() ==> {
                    let e = #[trigger] edges@[t];
                    &&& e.0 < NUM_NEURONS
                    &&& e.1 < NUM_NEURONS
                    &&& edge_kept(significant@, e.0 as int, e.1 as int)
                    &&& (e.0 as int) < i
                },
            forall|a: int, b: int|
                0 <= a < i && 0 <= b < NUM_NEURONS && edge_kept(significant@, a, b)
                    ==> appears_at(edges@, a, b),
            forall|t1: int, t2: int|
                0 <= t1 < t2 < edges@.len() ==> lex_before(edges@[t1], edges@[t2]),
        decreases NUM_NEURONS - i,
    {
        let mut j: usize = 0;
        while j < NUM_NEURONS
            invariant
                i < NUM_NEURONS,
                j <= NUM_NEURONS,
                significant@.len() == NUM_NEURONS,
                forall|r: int|
                    0 <= r < NUM_NEURONS ==> (#[trigger] significant@[r])@.len() == NUM_NEURONS,
                forall|t: int|
                    0 <= t < edges@.len() ==> {
                        let e = #[trigger] edges@[t];
                        &&& e.0 < NUM_NEURONS
                        &&& e.1 < NUM_NEURONS
                        &&& edge_kept(significant@, e.0 as int, e.1 as int)
                        &&& ((e.0 as int) < i || ((e.0 as int) == i && (e.1 as int) < j))
                    },
                forall|a: int, b: int|
                    0 <= a < NUM_NEURONS && 0 <= b < NUM_NEURONS && (a < i || (a == i && b < j))
                        && edge_kept(significant@, a, b) ==> appears_at(edges@, a, b),
                forall|t1: int, t2: int|
                    0 <= t1 < t2 < edges@.len() ==> lex_before(edges@[t1], edges@[t2]),
            decreases NUM_NEURONS - j,
        {
            let keep = significant[i][j] && j >= crate::brain::NUM_INPUTS && !(i
                >= crate::brain::NUM_INPUTS && i < NUM_FIXED);
            if keep {
                let ghost before = edges@;
                edges.push((i, j));
                proof {
                    assert(edges@[edges@.len() - 1] == (i, j));
                    assert forall|a: int, b: int|
                        0 <= a < NUM_NEURONS && 0 <= b < NUM_NEURONS && (a < i || (a == i && b < j
                            + 1)) && edge_kept(significant@, a, b) implies appears_at(
                        edges@,
                        a,
                        b,
                    ) by {
                        if a < i || (a == i && b < j) {
                            assert(appears_at(before, a, b));
                            let u = choose|u: int|
                                0 <= u < before.len() && (#[trigger] before[u]).0 == a
                                    && before[u].1 == b;
                            assert(edges@[u] == before[u]);
                        } else {
                            assert(edges@[edges@.len() - 1] == (i, j));
                        }
                    }
                }
            }
            j = j + 1;
        }
        i = i + 1;
    }
    let mut interior: Vec<usize> = Vec::new();
    let mut n: usize = NUM_FIXED;
    while n < NUM_NEURONS
        invariant
            NUM_FIXED <= n <= NUM_NEURONS,
            forall|t: int|
                0 <= t < interior@.len() ==> NUM_FIXED <= (#[trigger] interior@[t]) < NUM_NEURONS
                    && (interior@[t] as int) < n && appears(edges@, interior@[t] as int),
            forall|m: int|
                NUM_FIXED <= m < n && appears(edges@, m) ==> interior_listed(interior@, m),
            forall|t1: int, t2: int|
                0 <= t1 < t2 < interior@.len() ==> interior@[t1] < interior@[t2],
        decreases NUM_NEURONS - n,
    {
        let mut found = false;
        let mut t: usize = 0;
        while t < edges.len()
            invariant
                t <= edges@.len(),
                found <==> exists|u: int|
                    0 <= u < t && ((#[trigger] edges@[u]).0 == n || edges@[u].1 == n),
            decreases edges@.len() - t,
        {
            let e = edges[t];
            if e.0 == n || e.1 == n {
                found = true;
            }
            t = t + 1;
        }
        if found {
            let ghost before = interior@;
            interior.push(n);
            proof {
                assert(interior@[interior@.len() - 1] == n);
                assert forall|m: int|
                    NUM_FIXED <= m < n + 1 && appears(edges@, m) implies interior_listed(
                    interior@,
                    m,
                ) by {
                    if m < n {
                        assert(interior_listed(before, m));
                        let u = choose|u: int|
                            0 <= u < before.len() && (#[trigger] before[u]) == m;
                        assert(interior@[u] == before[u]);
                    } else {
                        assert(interior@[interior@.len() - 1] == n);
                    }
                }
            }
        }
        n = n + 1;
    }
    (edges, interior)
}

/// Whether the edge list holds the connection `(i, j)`.
pub open spec fn appears_at(edges: Seq<(usize, usize)>, i: int, j: int) -> bool {
    exists|t: int| 0 <= t < edges.len() && (#[trigger] edges[t]).0 == i && edges[t].1 == j
}

/// Row-major order on connections.
pub open spec fn lex_before(a: (usize, usize), b: (usize, usize)) -> bool {
    a.0 < b.0 || (a.0 == b.0 && a.1 < b.1)
}

/// Whether the interior list holds neuron `n`.
pub open spec fn interior_listed(interior: Seq<usize>, n: int) -> bool {
    exists|t: int| 0 <= t < interior.len() && (#[trigger] interior[t]) == n
}

} // verus!
