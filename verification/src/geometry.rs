//! The outline that a rectangle drawn between two corners leaves on the image.

use vstd::prelude::*;

verus! {

/// What is drawn for a rectangle: a segment where it has no width or no height, a
/// hollow frame otherwise.
#[derive(Clone, Copy, Debug, PartialEq, Eq, Structural)]
pub enum RectOutline {
    Segment { x0: i32, y0: i32, x1: i32, y1: i32 },
    Frame { x: i32, y: i32, width: u32, height: u32 },
}

/// The smaller of two coordinates, kept at least at 0.
pub open spec fn low_edge(a: i32, b: i32) -> i32 {
    let m = if a <= b { a } else { b };
    if m >= 0 { m } else { 0 }
}

/// The larger of two coordinates, kept at least at 0.
pub open spec fn high_edge(a: i32, b: i32) -> i32 {
    let m = if a >= b { a } else { b };
    if m >= 0 { m } else { 0 }
}

/// The outline of the rectangle between the corners `(x0, y0)` and `(x1, y1)`, its edges
/// kept on the image's non-negative side.
pub open spec fn outline_of(x0: i32, y0: i32, x1: i32, y1: i32) -> RectOutline {
    let sx = low_edge(x0, x1);
    let ex = high_edge(x0, x1);
    let sy = low_edge(y0, y1);
    let ey = high_edge(y0, y1);
    if ex == sx || ey == sy {
        RectOutline::Segment { x0: sx, y0: sy, x1: ex, y1: ey }
    } else {
        RectOutline::Frame { x: sx, y: sy, width: (ex - sx) as u32, height: (ey - sy) as u32 }
    }
}

/// A rectangle is the same whichever of its two corners it is drawn from, and its outline
/// lies on the image's non-negative side.
pub proof fn lemma_outline_symmetric(x0: i32, y0: i32, x1: i32, y1: i32)
    ensures
        outline_of(x0, y0, x1, y1) == outline_of(x1, y1, x0, y0),
        outline_of(x0, y0, x1, y1) matches RectOutline::Frame { x, y, .. } ==> x >= 0 && y >= 0,
        outline_of(x0, y0, x1, y1) matches RectOutline::Segment { x0: a, y0: b, x1: c, y1: d } ==> a
            >= 0 && b >= 0 && c >= a && d >= b,
{
}

/// Between two corners on the image that differ in both coordinates, whichever way the
/// rectangle is dragged, a hollow frame is drawn: its corner is the smaller of each pair of
/// coordinates and its sides are the distances between them. Corners in one row or one
/// column give a segment between them.
pub proof fn lemma_outline_frame(x0: i32, y0: i32, x1: i32, y1: i32)
    requires
        x0 >= 0,
        y0 >= 0,
        x1 >= 0,
        y1 >= 0,
    ensures
        x0 != x1 && y0 != y1 ==> outline_of(x0, y0, x1, y1) == (RectOutline::Frame {
            x: if x0 < x1 { x0 } else { x1 },
            y: if y0 < y1 { y0 } else { y1 },
            width: (if x0 < x1 { x1 - x0 } else { x0 - x1 }) as u32,
            height: (if y0 < y1 { y1 - y0 } else { y0 - y1 }) as u32,
        }),
        x0 == x1 || y0 == y1 ==> outline_of(x0, y0, x1, y1) == (RectOutline::Segment {
            x0: if x0 < x1 { x0 } else { x1 },
            y0: if y0 < y1 { y0 } else { y1 },
            x1: if x0 < x1 { x1 } else { x0 },
            y1: if y0 < y1 { y1 } else { y0 },
        }),
{
}

/// The outline that drawing a rectangle between two corners leaves.
pub fn rect_outline(x0: i32, y0: i32, x1: i32, y1: i32) -> (r: RectOutline)
    ensures
        r == outline_of(x0, y0, x1, y1),
        r matches RectOutline::Frame { width, height, .. } ==> width > 0 && height > 0,
{
    let mut startx = if x0 <= x1 { x0 } else { x1 };
    let mut endx = if x0 >= x1 { x0 } else { x1 };
    let mut starty = if y0 <= y1 { y0 } else { y1 };
    let mut endy = if y0 >= y1 { y0 } else { y1 };
    if startx < 0 {
        startx = 0;
    }
    if starty < 0 {
        starty = 0;
    }
    if endx < 0 {
        endx = 0;
    }
    if endy < 0 {
        endy = 0;
    }
    let width = endx as u32 - startx as u32;
    let height = endy as u32 - starty as u32;
    if width == 0 || height == 0 {
        RectOutline::Segment { x0: startx, y0: starty, x1: endx, y1: endy }
    } else {
        RectOutline::Frame { x: startx, y: starty, width, height }
    }
}

} // verus!
