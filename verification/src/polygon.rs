//! Closing an outline: the views draw each figure as a line through its points
//! followed by its first point again.
use vstd::prelude::*;

verus! {

/// The outline of `points` as a closed line: the points, then the first point
/// once more. An empty figure stays empty.
pub open spec fn closed_outline<T>(points: Seq<T>) -> Seq<T> {
    if points.len() == 0 {
        points
    } else {
        points.push(points[0])
    }
}

/// Repeats the first point of `points` after the last one, as
/// `cycle().take(len + 1)` does; an empty figure gives an empty outline.
pub fn close_polygon<T: Copy>(points: &Vec<T>) -> (outline: Vec<T>)
    ensures
        outline@ == closed_outline(points@),
{
    let n = points.len();
    let mut outline: Vec<T> = Vec::new();
    let mut i: usize = 0;
    while i < n
        invariant
            n == points.len(),
            i <= n,
            outline@ == points@.take(i as int),
        decreases n - i,
    {
        outline.push(points[i]);
        i = i + 1;
        assert(outline@ =~= points@.take(i as int));
    }
    assert(points@.take(n as int) =~= points@);
    if n > 0 {
        outline.push(points[0]);
    }
    outline
}

/// An outline has one point more than a figure with points: the figure's
/// points in order, then its first point again. An empty figure gives an
/// empty outline.
pub proof fn lemma_outline_closes_figure<T>(points: Seq<T>)
    ensures
        points.len() == 0 ==> closed_outline(points).len() == 0,
        points.len() > 0 ==> closed_outline(points).len() == points.len() + 1
            && closed_outline(points).take(points.len() as int) == points && closed_outline(
            points,
        ).last() == points[0] && closed_outline(points).first() == closed_outline(points).last(),
{
    if points.len() > 0 {
        assert(closed_outline(points).take(points.len() as int) =~= points);
    }
}

} // verus!
