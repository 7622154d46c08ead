//! Vertex data on its way to a buffer: points as pairs, and the flat run of
//! coordinates that a buffer holds, two per vertex.

use vstd::prelude::*;

verus! {

/// The coordinates of `points` one after the other: x, then y, of each point
/// in turn.
pub open spec fn flat<T>(points: Seq<(T, T)>) -> Seq<T> {
    Seq::new(
        2 * points.len(),
        |k: int|
            if k % 2 == 0 {
                points[k / 2].0
            } else {
                points[k / 2].1
            },
    )
}

/// The points of `curve` brought down to the height `ground`.
pub open spec fn grounded<T>(curve: Seq<(T, T)>, ground: T) -> Seq<(T, T)> {
    Seq::new(curve.len(), |i: int| (curve[i].0, ground))
}

/// Lays out `points` as a buffer holds them: two coordinates per vertex,
/// tightly packed.
pub fn flatten_points<T: Copy>(points: &Vec<(T, T)>) -> (out: Vec<T>)
    ensures
        out@ == flat(points@),
        out@.len() == 2 * points@.len(),
{
    let mut out: Vec<T> = Vec::new();
    let mut i: usize = 0;
    while i < points.len()
        invariant
            i <= points.len(),
            out@.len() == 2 * i,
            forall|k: int| 0 <= k < 2 * i ==> out@[k] == flat(points@)[k],
        decreases points.len() - i,
    {
        let (x, y) = points[i];
        out.push(x);
        out.push(y);
        i = i + 1;
    }
    assert(out@ =~= flat(points@));
    out
}

/// The baseline under the first series of a stack: the x positions of
/// `curve`, each at the height `ground`.
pub fn flat_baseline<T: Copy>(curve: &Vec<(T, T)>, ground: T) -> (out: Vec<(T, T)>)
    ensures
        out@ == grounded(curve@, ground),
{
    let mut out: Vec<(T, T)> = Vec::new();
    let mut i: usize = 0;
    while i < curve.len()
        invariant
            i <= curve.len(),
            out@.len() == i,
            forall|k: int| 0 <= k < i ==> out@[k] == (curve@[k].0, ground),
        decreases curve.len() - i,
    {
        let (x, _) = curve[i];
        out.push((x, ground));
        i = i + 1;
    }
    assert(out@ =~= grounded(curve@, ground));
    out
}

} // verus!
