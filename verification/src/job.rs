//! What a caller asks of one frame.

use crate::bundle::Rgb;
use crate::store::names_handle;
use vstd::prelude::*;

verus! {

/// A trace that is drawn straight from the trace store, outside any bundle.
/// The width is in hundredths of a pixel.
#[derive(Clone, Copy, Debug)]
pub struct TraceStyle {
    pub idx: usize,
    pub width: u32,
    pub color: Rgb,
}

/// One frame to render: the visible range in whole units, the layout of the
/// surface in pixels, and what to draw.
#[derive(Clone, Debug)]
pub struct RenderJob {
    pub x_from: i64,
    pub x_to: i64,
    pub y_from: i64,
    pub y_to: i64,
    pub margin: u32,
    pub x_label_space: u32,
    pub y_label_space: u32,
    pub clear: bool,
    pub render_axes: bool,
    pub render_grid: bool,
    pub dark_mode: bool,
    pub bundles: Vec<usize>,
    pub traces: Vec<TraceStyle>,
    pub blacklist: Vec<usize>,
}

/// The plot interior on the surface, in pixels from the bottom-left corner.
#[derive(Clone, Copy, Debug, PartialEq, Eq, Structural)]
pub struct PlotArea {
    pub x: u32,
    pub y: u32,
    pub width: u32,
    pub height: u32,
}

impl RenderJob {
    /// Whether both axes span a positive range.
    pub open spec fn spans_range(&self) -> bool {
        self.x_from < self.x_to && self.y_from < self.y_to
    }

    /// Whether margins and label space leave a plot on a surface of this
    /// size.
    pub open spec fn fits_spec(&self, width: u32, height: u32) -> bool {
        &&& 2 * self.margin + self.y_label_space <= width
        &&& 2 * self.margin + self.x_label_space <= height
    }

    /// The plot interior that the job leaves on a surface of this size.
    pub open spec fn plot_area_spec(&self, width: u32, height: u32) -> PlotArea {
        PlotArea {
            x: (self.margin + self.y_label_space) as u32,
            y: (self.margin + self.x_label_space) as u32,
            width: (width - 2 * self.margin - self.y_label_space) as u32,
            height: (height - 2 * self.margin - self.x_label_space) as u32,
        }
    }

    /// Whether margins and label space leave a plot on a surface of this
    /// size.
    pub fn fits(&self, width: u32, height: u32) -> (ok: bool)
        ensures
            ok == self.fits_spec(width, height),
    {
        let m: u64 = self.margin as u64;
        2 * m + self.y_label_space as u64 <= width as u64 && 2 * m + self.x_label_space as u64
            <= height as u64
    }

    /// The plot interior that the job leaves on a surface of this size.
    pub fn plot_area(&self, width: u32, height: u32) -> (area: PlotArea)
        requires
            self.fits_spec(width, height),
        ensures
            area == self.plot_area_spec(width, height),
    {
        PlotArea {
            x: self.margin + self.y_label_space,
            y: self.margin + self.x_label_space,
            width: width - self.margin - self.margin - self.y_label_space,
            height: height - self.margin - self.margin - self.x_label_space,
        }
    }

    /// Whether the job hides the trace `handle`.
    pub fn is_blacklisted(&self, handle: usize) -> (hidden: bool)
        ensures
            hidden == self.blacklist@.contains(handle),
    {
        names_handle(&self.blacklist, handle)
    }

    /// The bundles that the job draws, in drawing order.
    pub fn get_bundles(&self) -> (bundles: &Vec<usize>)
        ensures
            bundles@ == self.bundles@,
    {
        &self.bundles
    }

    /// The traces that the job draws outside any bundle, in drawing order.
    pub fn get_traces(&self) -> (traces: &Vec<TraceStyle>)
        ensures
            traces@ == self.traces@,
    {
        &self.traces
    }
}

} // verus!
