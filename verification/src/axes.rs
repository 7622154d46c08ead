//! Screen geometry of the axis frame, the tick marks and the grid.
//!
//! All coordinates are in half pixels, so that a line through the middle of
//! a pixel row or column has a whole coordinate: a tick at pixel offset `q`
//! along an axis lands on `floor(q) + 1/2`, which is `2 * floor(q) + 1` half
//! pixels.

use crate::job::PlotArea;
use crate::ticks::AxisTick;
use vstd::arithmetic::div_mod::lemma_fundamental_div_mod;
use vstd::arithmetic::div_mod::lemma_mod_bound;
use vstd::prelude::*;

verus! {

/// A straight line between two points, in half pixels.
#[derive(Clone, Copy, Debug, PartialEq, Eq, Structural)]
pub struct Segment {
    pub x0: i64,
    pub y0: i64,
    pub x1: i64,
    pub y1: i64,
}

/// Length of a tick mark, in pixels.
pub const TICK_LEN: i64 = 4;

/// The largest denominator of a tick position that the geometry takes.
pub const MAX_POS_DEN: i128 = 0x1_0000_0000_0000_0000_0000;

/// A tick whose position is a fraction between 0 and 1.
pub open spec fn tick_on_axis(t: AxisTick) -> bool {
    0 <= t.pos_num <= t.pos_den && 0 < t.pos_den <= MAX_POS_DEN
}

/// Every tick of `ticks` lies on its axis.
pub open spec fn ticks_on_axis(ticks: Seq<AxisTick>) -> bool {
    forall|i: int| 0 <= i < ticks.len() ==> tick_on_axis(#[trigger] ticks[i])
}

/// The half-pixel coordinate of a tick along an axis of `length` pixels:
/// the tick's pixel offset, rounded down, plus half a pixel.
pub open spec fn snap(length: u32, t: AxisTick) -> int {
    2 * ((length * t.pos_num) / (t.pos_den as int)) + 1
}

/// The half-pixel coordinate of a tick along an axis of `length` pixels.
pub fn snap_tick(length: u32, t: &AxisTick) -> (at: i64)
    requires
        tick_on_axis(*t),
    ensures
        at == snap(length, *t),
        1 <= at <= 2 * length + 1,
{
    proof {
        assert(0 <= (length as int) * (t.pos_num as int) <= (length as int) * (t.pos_den as int)
            && (length as int) * (t.pos_num as int) <= 0x1_0000_0000 * 0x1_0000_0000_0000_0000_0000)
            by (nonlinear_arith)
            requires
                0 <= t.pos_num <= t.pos_den,
                t.pos_den <= 0x1_0000_0000_0000_0000_0000,
                0 <= length <= 0xffff_ffff,
        ;
    }
    let scaled: i128 = (length as i128) * t.pos_num;
    let whole: i128 = scaled / t.pos_den;
    proof {
        lemma_fundamental_div_mod(scaled as int, t.pos_den as int);
        lemma_mod_bound(scaled as int, t.pos_den as int);
        assert(0 <= whole <= length) by (nonlinear_arith)
            requires
                scaled == t.pos_den * whole + scaled % t.pos_den,
                0 <= scaled % t.pos_den < t.pos_den,
                0 <= scaled <= length * t.pos_den,
                t.pos_den > 0,
        ;
    }
    (2 * whole + 1) as i64
}

/// The axis frame: from the top of the left axis down to the corner, then
/// along the bottom axis, one pixel outside the plot.
pub open spec fn frame_of(area: PlotArea) -> Seq<(i64, i64)> {
    let left = 2 * (area.x - 1);
    let low = 2 * (area.y - 1);
    seq![
        (left as i64, (2 * (area.y + area.height)) as i64),
        (left as i64, low as i64),
        ((2 * (area.x + area.width)) as i64, low as i64),
    ]
}

/// The mark of a tick of the horizontal axis: from the axis downwards.
pub open spec fn x_mark(area: PlotArea, t: AxisTick) -> Segment {
    let x = (2 * area.x + snap(area.width, t)) as i64;
    Segment { x0: x, y0: (2 * area.y) as i64, x1: x, y1: (2 * (area.y - TICK_LEN)) as i64 }
}

/// The mark of a tick of the vertical axis: from the axis to the left.
pub open spec fn y_mark(area: PlotArea, t: AxisTick) -> Segment {
    let y = (2 * area.y + snap(area.height, t)) as i64;
    Segment { x0: (2 * area.x) as i64, y0: y, x1: (2 * (area.x - TICK_LEN)) as i64, y1: y }
}

/// The grid line of a tick of the horizontal axis, inside the plot: from
/// bottom to top.
pub open spec fn x_grid_line(area: PlotArea, t: AxisTick) -> Segment {
    let x = snap(area.width, t) as i64;
    Segment { x0: x, y0: 0, x1: x, y1: (2 * area.height) as i64 }
}

/// The grid line of a tick of the vertical axis, inside the plot: from left
/// to right.
pub open spec fn y_grid_line(area: PlotArea, t: AxisTick) -> Segment {
    let y = snap(area.height, t) as i64;
    Segment { x0: 0, y0: y, x1: (2 * area.width) as i64, y1: y }
}

/// All tick marks: those of the horizontal axis, then those of the vertical.
pub open spec fn marks_of(area: PlotArea, x_ticks: Seq<AxisTick>, y_ticks: Seq<AxisTick>) -> Seq<
    Segment,
> {
    Seq::new(x_ticks.len(), |i: int| x_mark(area, x_ticks[i])) + Seq::new(
        y_ticks.len(),
        |i: int| y_mark(area, y_ticks[i]),
    )
}

/// All grid lines: the vertical ones, then the horizontal ones.
pub open spec fn grid_of(area: PlotArea, x_ticks: Seq<AxisTick>, y_ticks: Seq<AxisTick>) -> Seq<
    Segment,
> {
    Seq::new(x_ticks.len(), |i: int| x_grid_line(area, x_ticks[i])) + Seq::new(
        y_ticks.len(),
        |i: int| y_grid_line(area, y_ticks[i]),
    )
}

/// The three corners of the axis frame around `area`.
pub fn axis_frame(area: &PlotArea) -> (frame: Vec<(i64, i64)>)
    requires
        area.x + area.width <= u32::MAX,
        area.y + area.height <= u32::MAX,
    ensures
        frame@ == frame_of(*area),
{
    let left: i64 = 2 * (area.x as i64 - 1);
    let low: i64 = 2 * (area.y as i64 - 1);
    let top: i64 = 2 * (area.y as i64 + area.height as i64);
    let right: i64 = 2 * (area.x as i64 + area.width as i64);
    let mut frame: Vec<(i64, i64)> = Vec::new();
    frame.push((left, top));
    frame.push((left, low));
    frame.push((right, low));
    assert(frame@ =~= frame_of(*area));
    frame
}

/// The tick marks of both axes around `area`.
pub fn tick_marks(area: &PlotArea, x_ticks: &Vec<AxisTick>, y_ticks: &Vec<AxisTick>) -> (marks:
    Vec<Segment>)
    requires
        ticks_on_axis(x_ticks@),
        ticks_on_axis(y_ticks@),
    ensures
        marks@ == marks_of(*area, x_ticks@, y_ticks@),
{
    let mut marks: Vec<Segment> = Vec::new();
    let ghost first = Seq::new(x_ticks@.len(), |i: int| x_mark(*area, x_ticks@[i]));
    let ghost second = Seq::new(y_ticks@.len(), |i: int| y_mark(*area, y_ticks@[i]));
    let mut i: usize = 0;
    while i < x_ticks.len()
        invariant
            i <= x_ticks.len(),
            ticks_on_axis(x_ticks@),
            marks@ == first.take(i as int),
            first == Seq::new(x_ticks@.len(), |i: int| x_mark(*area, x_ticks@[i])),
        decreases x_ticks.len() - i,
    {
        let t = x_ticks[i];
        let x: i64 = 2 * (area.x as i64) + snap_tick(area.width, &t);
        let y: i64 = 2 * (area.y as i64);
        marks.push(Segment { x0: x, y0: y, x1: x, y1: y - 2 * TICK_LEN });
        assert(marks@ =~= first.take(i + 1));
        i = i + 1;
    }
    assert(first.take(i as int) =~= first);
    let mut j: usize = 0;
    while j < y_ticks.len()
        invariant
            j <= y_ticks.len(),
            ticks_on_axis(y_ticks@),
            marks@ == first + second.take(j as int),
            second == Seq::new(y_ticks@.len(), |i: int| y_mark(*area, y_ticks@[i])),
        decreases y_ticks.len() - j,
    {
        let t = y_ticks[j];
        let y: i64 = 2 * (area.y as i64) + snap_tick(area.height, &t);
        let x: i64 = 2 * (area.x as i64);
        marks.push(Segment { x0: x, y0: y, x1: x - 2 * TICK_LEN, y1: y });
        assert(marks@ =~= first + second.take(j + 1));
        j = j + 1;
    }
    assert(second.take(j as int) =~= second);
    marks
}

/// The grid lines of both axes inside `area`, in the plot's own coordinates.
pub fn grid_lines(area: &PlotArea, x_ticks: &Vec<AxisTick>, y_ticks: &Vec<AxisTick>) -> (lines:
    Vec<Segment>)
    requires
        ticks_on_axis(x_ticks@),
        ticks_on_axis(y_ticks@),
    ensures
        lines@ == grid_of(*area, x_ticks@, y_ticks@),
{
    let mut lines: Vec<Segment> = Vec::new();
    let ghost first = Seq::new(x_ticks@.len(), |i: int| x_grid_line(*area, x_ticks@[i]));
    let ghost second = Seq::new(y_ticks@.len(), |i: int| y_grid_line(*area, y_ticks@[i]));
    let far_x: i64 = 2 * (area.width as i64);
    let far_y: i64 = 2 * (area.height as i64);
    let mut i: usize = 0;
    while i < x_ticks.len()
        invariant
            i <= x_ticks.len(),
            ticks_on_axis(x_ticks@),
            far_y == 2 * area.height,
            lines@ == first.take(i as int),
            first == Seq::new(x_ticks@.len(), |i: int| x_grid_line(*area, x_ticks@[i])),
        decreases x_ticks.len() - i,
    {
        let t = x_ticks[i];
        let x: i64 = snap_tick(area.width, &t);
        lines.push(Segment { x0: x, y0: 0, x1: x, y1: far_y });
        assert(lines@ =~= first.take(i + 1));
        i = i + 1;
    }
    assert(first.take(i as int) =~= first);
    let mut j: usize = 0;
    while j < y_ticks.len()
        invariant
            j <= y_ticks.len(),
            ticks_on_axis(y_ticks@),
            far_x == 2 * area.width,
            lines@ == first + second.take(j as int),
            second == Seq::new(y_ticks@.len(), |i: int| y_grid_line(*area, y_ticks@[i])),
        decreases y_ticks.len() - j,
    {
        let t = y_ticks[j];
        let y: i64 = snap_tick(area.height, &t);
        lines.push(Segment { x0: 0, y0: y, x1: far_x, y1: y });
        assert(lines@ =~= first + second.take(j + 1));
        j = j + 1;
    }
    assert(second.take(j as int) =~= second);
    lines
}

} // verus!
