//! Sampling a function over a domain.
//!
//! The sampler walks `n + 1` positions from one end of the domain to the
//! other, asks the function for its value at each, and keeps the points whose
//! value is finite. It does no arithmetic on real numbers itself: the function
//! and the rule that places the positions are closures over bit patterns.

use vstd::prelude::*;
use crate::double::Double;

verus! {

/// One sample of a curve.
#[derive(Clone, Copy, Debug, PartialEq, Eq, Structural)]
pub struct SamplePoint {
    pub x: Double,
    pub y: Double,
}

/// The candidates whose `y` is finite, in their order.
pub open spec fn retain_finite(candidates: Seq<SamplePoint>) -> Seq<SamplePoint> {
    candidates.filter(|point: SamplePoint| point.y.is_finite())
}

/// The values that a function may return at `x`, as a relation.
pub open spec fn function_relation<F: Fn(Double) -> Double>(f: F) -> spec_fn(Double, Double) -> bool {
    |x: Double, y: Double| call_ensures(f, (x,), y)
}

/// The positions that `interpolate` may give for index `i` out of `n` between
/// `x_min` and `x_max`, as a relation.
pub open spec fn grid_relation<G: Fn(Double, Double, usize, usize) -> Double>(
    interpolate: G,
    x_min: Double,
    x_max: Double,
    n: usize,
) -> spec_fn(int, Double) -> bool {
    |i: int, x: Double| call_ensures(interpolate, (x_min, x_max, i as usize, n), x)
}

/// Whether `candidates` is what one run of sampling looks at: `n + 1` points,
/// the `i`-th at a position that the grid gives for `i` (at `x_min` itself
/// where `n` is 0, which asks the grid nothing), each with a value that the
/// function gives there.
pub open spec fn is_trace(
    value_at: spec_fn(Double, Double) -> bool,
    grid: spec_fn(int, Double) -> bool,
    x_min: Double,
    n: usize,
    candidates: Seq<SamplePoint>,
) -> bool {
    &&& candidates.len() == n + 1
    &&& forall|i: int|
        0 <= i <= n ==> {
            &&& if n == 0 {
                (#[trigger] candidates[i]).x == x_min
            } else {
                grid(i, candidates[i].x)
            }
            &&& value_at(candidates[i].x, candidates[i].y)
        }
}

/// Whether the `x` of each point is `<=` that of every later point.
pub open spec fn in_order(points: Seq<SamplePoint>) -> bool {
    forall|i: int, j: int|
        0 <= i < j < points.len() ==> (#[trigger] points[i]).x.le((#[trigger] points[j]).x)
}

/// Samples `f` at `n + 1` positions from `x_min` to `x_max`.
///
/// Position `i` is `interpolate(x_min, x_max, i, n)`; with `n == 0` the one
/// position is `x_min` and `interpolate` is not called. The result holds, in
/// the order of `i`, the points at which `f` is finite.
pub fn sample<F: Fn(Double) -> Double, G: Fn(Double, Double, usize, usize) -> Double>(
    f: &F,
    x_min: Double,
    x_max: Double,
    n: usize,
    interpolate: &G,
) -> (points: Vec<SamplePoint>)
    requires
        forall|x: Double| call_requires(*f, (x,)),
        forall|i: usize| 0 < n && i <= n ==> call_requires(*interpolate, (x_min, x_max, i, n)),
    ensures
        exists|candidates: Seq<SamplePoint>|
            {
                &&& is_trace(
                    function_relation(*f),
                    grid_relation(*interpolate, x_min, x_max, n),
                    x_min,
                    n,
                    candidates,
                )
                &&& points@ == retain_finite(candidates)
            },
        points@.len() <= n + 1,
        forall|k: int| 0 <= k < points@.len() ==> (#[trigger] points@[k]).y.is_finite(),
{
    let mut points: Vec<SamplePoint> = Vec::new();
    let ghost mut candidates: Seq<SamplePoint> = Seq::empty();
    let ghost value_at = function_relation(*f);
    let ghost grid = grid_relation(*interpolate, x_min, x_max, n);
    let mut i: usize = 0;
    loop
        invariant_except_break
            i <= n,
            candidates.len() == i,
        invariant
            value_at == function_relation(*f),
            grid == grid_relation(*interpolate, x_min, x_max, n),
            forall|x: Double| call_requires(*f, (x,)),
            forall|i: usize| 0 < n && i <= n ==> call_requires(*interpolate, (x_min, x_max, i, n)),
            candidates.len() <= n + 1,
            forall|k: int|
                0 <= k < candidates.len() ==> {
                    &&& if n == 0 {
                        (#[trigger] candidates[k]).x == x_min
                    } else {
                        grid(k, candidates[k].x)
                    }
                    &&& value_at(candidates[k].x, candidates[k].y)
                },
            points@ == retain_finite(candidates),
        ensures
            candidates.len() == n + 1,
        decreases n - i,
    {
        let x = if n == 0 {
            x_min
        } else {
            interpolate(x_min, x_max, i, n)
        };
        let y = f(x);
        let point = SamplePoint { x, y };
        proof {
            candidates.lemma_filter_push(point, |point: SamplePoint| point.y.is_finite());
            candidates = candidates.push(point);
        }
        if y.is_finite() {
            points.push(point);
        }
        if i == n {
            break ;
        }
        i += 1;
    }
    proof {
        lemma_retained(candidates);
        assert(is_trace(value_at, grid, x_min, n, candidates));
    }
    points
}

/// What is kept is no longer than what was looked at, and every point kept is
/// finite.
pub proof fn lemma_retained(candidates: Seq<SamplePoint>)
    ensures
        retain_finite(candidates).len() <= candidates.len(),
        forall|k: int|
            0 <= k < retain_finite(candidates).len() ==> (#[trigger] retain_finite(
                candidates,
            )[k]).y.is_finite(),
{
    let finite = |point: SamplePoint| point.y.is_finite();
    candidates.lemma_filter_len(finite);
    assert forall|k: int| 0 <= k < retain_finite(candidates).len() implies (
    #[trigger] retain_finite(candidates)[k]).y.is_finite() by {
        candidates.lemma_filter_pred(finite, k);
    }
}

/// Dropping points keeps the order: where the candidates are in order, so are
/// the points kept.
pub proof fn lemma_retained_in_order(candidates: Seq<SamplePoint>)
    requires
        in_order(candidates),
    ensures
        in_order(retain_finite(candidates)),
    decreases candidates.len(),
{
    let finite = |point: SamplePoint| point.y.is_finite();
    reveal(Seq::filter);
    if candidates.len() > 0 {
        let rest = candidates.drop_last();
        let last = candidates.last();
        assert forall|i: int, j: int| 0 <= i < j < rest.len() implies (#[trigger] rest[i]).x.le(
            (#[trigger] rest[j]).x,
        ) by {
            assert(rest[i] == candidates[i] && rest[j] == candidates[j]);
        }
        lemma_retained_in_order(rest);
        let kept = retain_finite(rest);
        if last.y.is_finite() {
            assert(retain_finite(candidates) == kept.push(last));
            assert forall|i: int, j: int| 0 <= i < j < kept.push(last).len() implies (
            #[trigger] kept.push(last)[i]).x.le((#[trigger] kept.push(last)[j]).x) by {
                if j < kept.len() {
                    assert(kept.push(last)[i] == kept[i] && kept.push(last)[j] == kept[j]);
                } else {
                    assert(kept.contains(kept[i]));
                    rest.lemma_filter_contains_rev(finite, kept[i]);
                    let k = choose|k: int| 0 <= k < rest.len() && rest[k] == kept[i];
                    assert(candidates[k] == kept[i]);
                    assert(candidates[candidates.len() - 1] == last);
                }
            }
        } else {
            assert(retain_finite(candidates) == kept);
        }
    }
}

/// A grid whose positions do not go down as the index goes up.
pub open spec fn grid_is_monotone(grid: spec_fn(int, Double) -> bool, n: usize) -> bool {
    forall|i: int, j: int, a: Double, b: Double|
        0 <= i < j <= n && #[trigger] grid(i, a) && #[trigger] grid(j, b) ==> a.le(b)
}

/// On a monotone grid the points of a sample come with `x` in order, however
/// many of them were dropped.
pub proof fn lemma_sample_in_order(
    value_at: spec_fn(Double, Double) -> bool,
    grid: spec_fn(int, Double) -> bool,
    x_min: Double,
    n: usize,
    candidates: Seq<SamplePoint>,
)
    requires
        is_trace(value_at, grid, x_min, n, candidates),
        grid_is_monotone(grid, n),
    ensures
        in_order(retain_finite(candidates)),
        retain_finite(candidates).len() <= n + 1,
{
    assert forall|i: int, j: int| 0 <= i < j < candidates.len() implies (
    #[trigger] candidates[i]).x.le((#[trigger] candidates[j]).x) by {
        assert(grid(i, candidates[i].x) && grid(j, candidates[j].x));
    }
    lemma_retained_in_order(candidates);
    lemma_retained(candidates);
}

/// A relation that holds of at most one value for each argument.
pub open spec fn is_functional<A>(relation: spec_fn(A, Double) -> bool) -> bool {
    forall|a: A, first: Double, second: Double|
        #[trigger] relation(a, first) && #[trigger] relation(a, second) ==> first == second
}

/// Where the function and the grid each give one value only, sampling has one
/// outcome: two runs look at the same candidates and keep the same points.
pub proof fn lemma_sample_deterministic(
    value_at: spec_fn(Double, Double) -> bool,
    grid: spec_fn(int, Double) -> bool,
    x_min: Double,
    n: usize,
    first: Seq<SamplePoint>,
    second: Seq<SamplePoint>,
)
    requires
        is_functional(value_at),
        is_functional(grid),
        is_trace(value_at, grid, x_min, n, first),
        is_trace(value_at, grid, x_min, n, second),
    ensures
        first == second,
        retain_finite(first) == retain_finite(second),
{
    assert forall|i: int| 0 <= i < first.len() implies first[i] == second[i] by {
        if n > 0 {
            assert(grid(i, first[i].x) && grid(i, second[i].x));
        }
        assert(first[i].x == second[i].x);
        assert(value_at(first[i].x, first[i].y) && value_at(second[i].x, second[i].y));
    }
    assert(first =~= second);
}

} // verus!
