//! The renderer's state and its operations, as seen by a caller.
//!
//! The renderer decides; the graphics layer that drives it executes the
//! commands it plans and releases the buffers it gives up.

use crate::axes::axis_frame;
use crate::axes::frame_of;
use crate::axes::grid_lines;
use crate::axes::grid_of;
use crate::axes::marks_of;
use crate::axes::tick_marks;
use crate::axes::ticks_on_axis;
use crate::axes::Segment;
use crate::bundle::entries_wf;
use crate::bundle::owned_buffers;
use crate::bundle::rebundled;
use crate::bundle::removed;
use crate::bundle::BufferEntry;
use crate::bundle::BundleEntry;
use crate::bundle::BundleView;
use crate::error::RenderError;
use crate::frame::frame_commands;
use crate::frame::plan_frame;
use crate::frame::DrawCommand;
use crate::job::RenderJob;
use crate::store::released;
use crate::store::released_below;
use crate::store::BundleStore;
use crate::ticks::calc_ticks;
use crate::ticks::ticks_of;
use crate::ticks::AxisTick;
use vstd::prelude::*;

verus! {

/// What a renderer is made with.
#[derive(Clone, Copy, Debug)]
pub struct RendererOptions {
    pub area_chart: bool,
}

/// The ticks that a frame was drawn with, for the caller to label.
#[derive(Clone, Debug)]
pub struct RenderJobResult {
    pub x_ticks: Vec<AxisTick>,
    pub y_ticks: Vec<AxisTick>,
}

/// The axis frame as a line strip, and the tick marks as single lines.
#[derive(Clone, Debug)]
pub struct AxesGeometry {
    pub frame: Vec<(i64, i64)>,
    pub marks: Vec<Segment>,
}

/// A planned frame: the commands to issue, and the ticks behind them.
#[derive(Clone, Debug)]
pub struct Frame {
    pub commands: Vec<DrawCommand>,
    pub result: RenderJobResult,
}

/// The renderer: the size of the surface in pixels, whether fills are
/// drawn, the native line-width ceiling in hundredths of a pixel, and the
/// bundle table.
pub struct WebGlRenderer {
    pub width: u32,
    pub height: u32,
    pub is_area: bool,
    pub line_width_limit: u32,
    pub store: BundleStore,
}

/// The span of a range, from its lower to its upper end.
pub open spec fn span_of(from: i64, to: i64) -> nat {
    (to - from) as nat
}

impl WebGlRenderer {
    /// Whether the bundle table is in order.
    pub open spec fn wf(&self) -> bool {
        self.store.wf()
    }

    /// A renderer for a surface of this size, with no bundles.
    pub fn new(width: u32, height: u32, ropts: RendererOptions, line_width_limit: u32) -> (r:
        WebGlRenderer)
        ensures
            r.wf(),
            r.width == width,
            r.height == height,
            r.is_area == ropts.area_chart,
            r.line_width_limit == line_width_limit,
            r.store@ == Map::<usize, BundleView>::empty(),
            r.store.next_handle() == 0,
    {
        WebGlRenderer {
            width,
            height,
            is_area: ropts.area_chart,
            line_width_limit,
            store: BundleStore::new(),
        }
    }

    /// The trace whose x positions give the baseline of a new bundle's
    /// stack: the first one of `data`, in area mode; none otherwise.
    pub fn baseline_trace(&self, data: &Vec<BundleEntry>) -> (first: Option<usize>)
        ensures
            first == if self.is_area && data@.len() > 0 {
                Some(data@[0].handle)
            } else {
                None
            },
    {
        if self.is_area && data.len() > 0 {
            Some(data[0].handle)
        } else {
            None
        }
    }

    /// The command that clears the target.
    pub fn clear(&self) -> (c: DrawCommand)
        ensures
            c == DrawCommand::Clear,
    {
        DrawCommand::Clear
    }

    /// The axis frame and the tick marks of a job, on the whole surface.
    pub fn render_axes(&self, job: &RenderJob, x_ticks: &Vec<AxisTick>, y_ticks: &Vec<AxisTick>) -> (g:
        AxesGeometry)
        requires
            job.fits_spec(self.width, self.height),
            ticks_on_axis(x_ticks@),
            ticks_on_axis(y_ticks@),
        ensures
            g.frame@ == frame_of(job.plot_area_spec(self.width, self.height)),
            g.marks@ == marks_of(job.plot_area_spec(self.width, self.height), x_ticks@, y_ticks@),
    {
        let area = job.plot_area(self.width, self.height);
        AxesGeometry { frame: axis_frame(&area), marks: tick_marks(&area, x_ticks, y_ticks) }
    }

    /// The grid lines of a job, inside the plot.
    pub fn render_grid(&self, job: &RenderJob, x_ticks: &Vec<AxisTick>, y_ticks: &Vec<AxisTick>) -> (lines:
        Vec<Segment>)
        requires
            job.fits_spec(self.width, self.height),
            ticks_on_axis(x_ticks@),
            ticks_on_axis(y_ticks@),
        ensures
            lines@ == grid_of(job.plot_area_spec(self.width, self.height), x_ticks@, y_ticks@),
    {
        let area = job.plot_area(self.width, self.height);
        grid_lines(&area, x_ticks, y_ticks)
    }

    /// Plans one frame: the ticks of both axes, and every command in order.
    pub fn render(&self, job: &RenderJob) -> (frame: Frame)
        requires
            job.spans_range(),
            job.fits_spec(self.width, self.height),
        ensures
            frame.result.x_ticks@ == ticks_of(job.x_from as int, span_of(job.x_from, job.x_to)),
            frame.result.y_ticks@ == ticks_of(job.y_from as int, span_of(job.y_from, job.y_to)),
            ticks_on_axis(frame.result.x_ticks@),
            ticks_on_axis(frame.result.y_ticks@),
            frame.commands@ == frame_commands(
                self.store@,
                *job,
                job.plot_area_spec(self.width, self.height),
                self.is_area,
                self.line_width_limit,
            ),
    {
        let x_span: u64 = (job.x_to as i128 - job.x_from as i128) as u64;
        let y_span: u64 = (job.y_to as i128 - job.y_from as i128) as u64;
        let x_ticks = calc_ticks(job.x_from, x_span);
        let y_ticks = calc_ticks(job.y_from, y_span);
        let area = job.plot_area(self.width, self.height);
        let commands = plan_frame(&self.store, job, area, self.is_area, self.line_width_limit);
        Frame { commands, result: RenderJobResult { x_ticks, y_ticks } }
    }

    /// Takes the new size of the surface. Bundles and their buffers stay.
    pub fn size_changed(&mut self, width: u32, height: u32)
        ensures
            final(self).width == width,
            final(self).height == height,
            final(self).is_area == old(self).is_area,
            final(self).line_width_limit == old(self).line_width_limit,
            final(self).store == old(self).store,
    {
        self.width = width;
        self.height = height;
    }

    /// Puts a bundle of uploaded entries into the table and names it.
    pub fn create_bundle(&mut self, from: i64, to: i64, data: Vec<BufferEntry>) -> (res: Result<
        usize,
        RenderError,
    >)
        requires
            old(self).wf(),
            entries_wf(data@),
        ensures
            final(self).wf(),
            final(self).width == old(self).width,
            final(self).height == old(self).height,
            final(self).is_area == old(self).is_area,
            final(self).line_width_limit == old(self).line_width_limit,
            match res {
                Ok(handle) => {
                    &&& old(self).store.next_handle() < usize::MAX
                    &&& handle == old(self).store.next_handle()
                    &&& final(self).store.next_handle() == handle + 1
                    &&& !old(self).store@.contains_key(handle)
                    &&& forall|h: usize| old(self).store@.contains_key(h) ==> h < handle
                    &&& final(self).store@ == old(self).store@.insert(
                        handle,
                        (BundleView { from, to, entries: data@ }),
                    )
                },
                Err(err) => {
                    &&& err == RenderError::ResourceExhausted
                    &&& old(self).store.next_handle() == usize::MAX
                    &&& final(self).store@ == old(self).store@
                    &&& final(self).store.next_handle() == old(self).store.next_handle()
                },
            },
    {
        self.store.create_bundle(from, to, data)
    }

    /// Disposes a bundle and returns the buffers to release. An unknown
    /// handle changes nothing.
    pub fn dispose_bundle(&mut self, bundle: usize) -> (freed: Vec<u64>)
        requires
            old(self).wf(),
        ensures
            final(self).wf(),
            final(self).width == old(self).width,
            final(self).height == old(self).height,
            final(self).is_area == old(self).is_area,
            final(self).line_width_limit == old(self).line_width_limit,
            final(self).store.next_handle() == old(self).store.next_handle(),
            final(self).store@ == old(self).store@.remove(bundle),
            freed@ == released(old(self).store@, bundle),
            !old(self).store@.contains_key(bundle) ==> final(self).store@ == old(self).store@,
    {
        self.store.dispose_bundle(bundle)
    }

    /// Updates a bundle: adds, deletes and restyles entries, and returns
    /// the buffers of the deleted ones.
    pub fn rebundle(
        &mut self,
        bundle: usize,
        to_add: &Vec<BufferEntry>,
        to_del: &Vec<usize>,
        to_mod: &Vec<BundleEntry>,
    ) -> (res: Result<Vec<u64>, RenderError>)
        requires
            old(self).wf(),
            old(self).store@.contains_key(bundle) ==> entries_wf(
                old(self).store@[bundle].entries + to_add@,
            ),
        ensures
            final(self).wf(),
            final(self).width == old(self).width,
            final(self).height == old(self).height,
            final(self).is_area == old(self).is_area,
            final(self).line_width_limit == old(self).line_width_limit,
            final(self).store.next_handle() == old(self).store.next_handle(),
            match res {
                Ok(freed) => {
                    &&& old(self).store@.contains_key(bundle)
                    &&& final(self).store@ == old(self).store@.insert(
                        bundle,
                        (BundleView {
                            entries: rebundled(
                                old(self).store@[bundle].entries,
                                to_add@,
                                to_del@,
                                to_mod@,
                            ),
                            ..old(self).store@[bundle]
                        }),
                    )
                    &&& freed@ == owned_buffers(
                        removed(old(self).store@[bundle].entries + to_add@, to_del@),
                    )
                },
                Err(err) => {
                    &&& err == RenderError::UnknownBundle
                    &&& !old(self).store@.contains_key(bundle)
                    &&& final(self).store@ == old(self).store@
                },
            },
    {
        self.store.rebundle(bundle, to_add, to_del, to_mod)
    }

    /// Disposes every bundle, as at teardown, and returns all their buffers.
    pub fn teardown(&mut self) -> (freed: Vec<u64>)
        requires
            old(self).wf(),
        ensures
            final(self).wf(),
            final(self).store@ == Map::<usize, BundleView>::empty(),
            final(self).store.next_handle() == old(self).store.next_handle(),
            freed@ == released_below(old(self).store@, old(self).store.next_handle() as nat),
    {
        self.store.dispose_all()
    }
}

} // verus!
