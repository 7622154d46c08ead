//! Triangle-strip geometry for stacked-area fills.
//!
//! The builder is generic over the coordinate type: it only copies
//! coordinates, so the same code serves any vertex format.

use vstd::prelude::*;

verus! {

/// Number of strip vertices for a curve of `n` points.
pub open spec fn strip_len(n: nat) -> nat {
    if n == 0 {
        0
    } else {
        ((n - 1) * 4 + 1) as nat
    }
}

/// Vertex `k` of the strip between `baseline` and `curve`.
///
/// The strip opens with the first baseline point. Segment `i` then adds four
/// vertices: the baseline at `i + 1`, the curve at `i`, the curve at `i + 1`
/// and the baseline at `i + 1` again.
pub open spec fn strip_vertex<T>(baseline: Seq<(T, T)>, curve: Seq<(T, T)>, k: int) -> (T, T) {
    if k == 0 {
        baseline[0]
    } else {
        let i = (k - 1) / 4;
        let corner = (k - 1) % 4;
        if corner == 1 {
            (baseline[i].0, curve[i].1)
        } else if corner == 2 {
            (baseline[i + 1].0, curve[i + 1].1)
        } else {
            baseline[i + 1]
        }
    }
}

/// The whole strip, vertex by vertex.
pub open spec fn area_strip<T>(baseline: Seq<(T, T)>, curve: Seq<(T, T)>) -> Seq<(T, T)> {
    Seq::new(strip_len(curve.len()), |k: int| strip_vertex(baseline, curve, k))
}

/// The baseline after a curve was stacked on it: every x is kept, every
/// height becomes the curve's height.
pub open spec fn raised_baseline<T>(baseline: Seq<(T, T)>, curve: Seq<(T, T)>) -> Seq<(T, T)> {
    Seq::new(baseline.len(), |i: int| (baseline[i].0, curve[i].1))
}

/// Vertex count of the strip for a curve of `points` points.
pub fn area_vertex_count(points: usize) -> (count: usize)
    requires
        strip_len(points as nat) <= usize::MAX,
    ensures
        count == strip_len(points as nat),
{
    if points == 0 {
        0
    } else {
        (points - 1) * 4 + 1
    }
}

/// Builds the fill strip between `baseline` and `curve`, then raises
/// `baseline` to the curve so that the next series stacks on top of it.
pub fn build_area_strip<T: Copy>(baseline: &mut Vec<(T, T)>, curve: &Vec<(T, T)>) -> (strip: Vec<
    (T, T),
>)
    requires
        curve.len() >= 1,
        old(baseline).len() == curve.len(),
    ensures
        strip@ == area_strip(old(baseline)@, curve@),
        strip@.len() == (curve.len() - 1) * 4 + 1,
        final(baseline)@ == raised_baseline(old(baseline)@, curve@),
{
    let ghost start = baseline@;
    let n: usize = curve.len();
    let mut strip: Vec<(T, T)> = Vec::new();
    strip.push(baseline[0]);
    let mut i: usize = 0;
    while i + 1 < n
        invariant
            n == curve.len(),
            n >= 1,
            i < n,
            baseline@.len() == n,
            start.len() == n,
            strip@.len() == 4 * i + 1,
            forall|k: int| 0 <= k < strip@.len() ==> strip@[k] == strip_vertex(start, curve@, k),
            forall|j: int| 0 <= j < i ==> baseline@[j] == (start[j].0, curve@[j].1),
            forall|j: int| i <= j < n ==> baseline@[j] == start[j],
        decreases n - i,
    {
        let (x0, _) = baseline[i];
        let (x1, below) = baseline[i + 1];
        let (_, y0) = curve[i];
        let (_, y1) = curve[i + 1];
        strip.push((x1, below));
        strip.push((x0, y0));
        strip.push((x1, y1));
        strip.push((x1, below));
        baseline.set(i, (x0, y0));
        i = i + 1;
    }
    let (x_end, _) = baseline[i];
    let (_, y_end) = curve[i];
    baseline.set(i, (x_end, y_end));
    proof {
        assert(strip@ =~= area_strip(start, curve@));
        assert(baseline@ =~= raised_baseline(start, curve@));
    }
    strip
}

/// Lifts `curve` onto `baseline`: as far as both reach, the height of each
/// point of the curve becomes `join` of that height and of the baseline's
/// height at the same index. The x positions stay, and so do the points
/// beyond the end of the baseline.
pub fn stack_on<T: Copy, F: Fn(T, T) -> T>(curve: &mut Vec<(T, T)>, baseline: &Vec<(T, T)>, join: F)
    requires
        forall|a: T, b: T| join.requires((a, b)),
    ensures
        final(curve)@.len() == old(curve)@.len(),
        forall|i: int|
            0 <= i < old(curve)@.len() && i < baseline@.len() ==> {
                &&& (#[trigger] final(curve)@[i]).0 == old(curve)@[i].0
                &&& join.ensures((old(curve)@[i].1, baseline@[i].1), final(curve)@[i].1)
            },
        forall|i: int|
            baseline@.len() <= i < old(curve)@.len() ==> #[trigger] final(curve)@[i] == old(
                curve,
            )@[i],
{
    let ghost start = curve@;
    let n: usize = if curve.len() < baseline.len() {
        curve.len()
    } else {
        baseline.len()
    };
    let mut i: usize = 0;
    while i < n
        invariant
            i <= n,
            n <= baseline@.len(),
            n <= start.len(),
            curve@.len() == start.len(),
            forall|a: T, b: T| join.requires((a, b)),
            forall|k: int|
                0 <= k < i ==> {
                    &&& (#[trigger] curve@[k]).0 == start[k].0
                    &&& join.ensures((start[k].1, baseline@[k].1), curve@[k].1)
                },
            forall|k: int| i <= k < start.len() ==> #[trigger] curve@[k] == start[k],
        decreases n - i,
    {
        let (x, y) = curve[i];
        let (_, below) = baseline[i];
        let lifted = join(y, below);
        curve.set(i, (x, lifted));
        i = i + 1;
    }
}

} // verus!
