//! The draw plan of one frame: which GPU commands are issued, in which
//! order, for a job and the bundles it names.

use crate::bundle::BufferEntry;
use crate::bundle::BundleView;
use crate::bundle::Rgb;
use crate::job::PlotArea;
use crate::job::RenderJob;
use crate::job::TraceStyle;
use crate::line::draws_native;
use crate::line::pass_count;
use crate::line::pass_offset;
use crate::line::plan_line;
use crate::line::stacked_offsets;
use crate::line::LinePlan;
use crate::store::BundleStore;
use vstd::prelude::*;

verus! {

/// A colour as it is handed to the GPU: every channel, and the opacity, is a
/// fraction of 1020.
#[derive(Clone, Copy, Debug, PartialEq, Eq, Structural)]
pub struct Shade {
    pub r: u16,
    pub g: u16,
    pub b: u16,
    pub alpha: u16,
}

/// One step of a frame.
#[derive(Clone, Copy, Debug, PartialEq, Eq, Structural)]
pub enum DrawCommand {
    /// Clear the target to transparent.
    Clear,
    /// Draw the axis frame and the tick marks in this shade, with lines of
    /// this width in hundredths of a pixel.
    Axes { shade: Shade, width: u32 },
    /// Draw the grid lines in this shade, with lines of this width in
    /// hundredths of a pixel.
    Grid { shade: Shade, width: u32 },
    /// Restrict drawing to the plot interior.
    Viewport { area: PlotArea },
    /// Shift what follows horizontally by this many units: the distance
    /// from the origin of the uploaded vertices to the start of the view.
    Origin { shift: i128 },
    /// Draw a triangle strip from an area buffer.
    Area { buffer: u64, vertices: usize, shade: Shade },
    /// Draw a line strip at a native width, in hundredths of a pixel.
    Line { buffer: u64, vertices: usize, shade: Shade, width: u32 },
    /// Draw a line strip one pixel wide, shifted vertically by `offset`
    /// over the offset scale of the surface.
    Pass { buffer: u64, vertices: usize, shade: Shade, offset: i64 },
    /// Draw the vertices of a buffer as point markers.
    Points { buffer: u64, vertices: usize },
    /// Fetch the points of a trace between `from` and `to`, shifted
    /// horizontally by `origin`, upload them to the scratch buffer and draw
    /// them as a line strip.
    Trace { idx: usize, width: u32, shade: Shade, from: i128, to: i128, origin: i64 },
}

/// The full-strength, opaque shade of a colour.
pub open spec fn solid(c: Rgb) -> Shade {
    Shade { r: (4 * c.r) as u16, g: (4 * c.g) as u16, b: (4 * c.b) as u16, alpha: 1020 }
}

/// A colour at half brightness and half opacity.
pub open spec fn dimmed(c: Rgb) -> Shade {
    Shade { r: (2 * c.r) as u16, g: (2 * c.g) as u16, b: (2 * c.b) as u16, alpha: 510 }
}

/// An opaque grey, three tenths bright: the axes, and the grid on a dark
/// background.
pub open spec fn dark_grey() -> Shade {
    Shade { r: 306, g: 306, b: 306, alpha: 1020 }
}

/// An opaque grey, 85 hundredths bright: the grid on a light background.
pub open spec fn light_grey() -> Shade {
    Shade { r: 867, g: 867, b: 867, alpha: 1020 }
}

/// The shade of the grid: dark grey in dark mode, light grey otherwise.
pub open spec fn grid_shade(dark: bool) -> Shade {
    if dark {
        dark_grey()
    } else {
        light_grey()
    }
}

/// The command that draws the axes: dark grey, two pixels wide.
pub open spec fn axes_command() -> DrawCommand {
    DrawCommand::Axes { shade: dark_grey(), width: 200 }
}

/// The command that draws the grid: one pixel wide.
pub open spec fn grid_command(dark: bool) -> DrawCommand {
    DrawCommand::Grid { shade: grid_shade(dark), width: 100 }
}

/// The command that draws a trace outside any bundle: a pixel more than
/// the visible range on either side, shifted to the start of the view.
pub open spec fn trace_command(t: TraceStyle, x_from: i64, x_to: i64) -> DrawCommand {
    DrawCommand::Trace {
        idx: t.idx,
        width: t.width,
        shade: solid(t.color),
        from: (x_from - 1) as i128,
        to: (x_to + 1) as i128,
        origin: x_from,
    }
}

/// The fill of an entry: drawn only in area mode, and only if the entry has
/// an area buffer.
pub open spec fn area_commands(e: BufferEntry, is_area: bool) -> Seq<DrawCommand> {
    if is_area && e.area_buffer.is_some() {
        seq![
            DrawCommand::Area {
                buffer: e.area_buffer.unwrap(),
                vertices: e.area_buffer_points,
                shade: dimmed(e.color),
            },
        ]
    } else {
        Seq::empty()
    }
}

/// The line of an entry: one native draw, or one pass per pixel of width.
pub open spec fn line_commands(e: BufferEntry, ceiling: u32) -> Seq<DrawCommand> {
    if draws_native(e.width, ceiling) {
        seq![
            DrawCommand::Line {
                buffer: e.buffer,
                vertices: e.points,
                shade: solid(e.color),
                width: e.width,
            },
        ]
    } else {
        Seq::new(
            pass_count(e.width),
            |i: int|
                DrawCommand::Pass {
                    buffer: e.buffer,
                    vertices: e.points,
                    shade: solid(e.color),
                    offset: pass_offset(e.width, i) as i64,
                },
        )
    }
}

/// The point markers of an entry, if it asks for them.
pub open spec fn point_commands(e: BufferEntry) -> Seq<DrawCommand> {
    if e.points_mode {
        seq![DrawCommand::Points { buffer: e.buffer, vertices: e.points }]
    } else {
        Seq::empty()
    }
}

/// Everything drawn for one entry: fill, then line, then points.
pub open spec fn entry_commands(e: BufferEntry, is_area: bool, ceiling: u32) -> Seq<DrawCommand> {
    area_commands(e, is_area) + line_commands(e, ceiling) + point_commands(e)
}

/// Everything drawn for a run of entries, leaving out the hidden traces.
pub open spec fn entries_commands(
    s: Seq<BufferEntry>,
    hidden: Seq<usize>,
    is_area: bool,
    ceiling: u32,
) -> Seq<DrawCommand>
    decreases s.len(),
{
    if s.len() == 0 {
        Seq::empty()
    } else if hidden.contains(s.last().handle) {
        entries_commands(s.drop_last(), hidden, is_area, ceiling)
    } else {
        entries_commands(s.drop_last(), hidden, is_area, ceiling) + entry_commands(
            s.last(),
            is_area,
            ceiling,
        )
    }
}

/// Everything drawn for one bundle: its origin shift, then its entries.
pub open spec fn bundle_commands(
    b: BundleView,
    x_from: i64,
    hidden: Seq<usize>,
    is_area: bool,
    ceiling: u32,
) -> Seq<DrawCommand> {
    seq![DrawCommand::Origin { shift: (x_from - b.from) as i128 }] + entries_commands(
        b.entries,
        hidden,
        is_area,
        ceiling,
    )
}

/// Everything drawn for the bundles named by `ids`, in that order. A handle
/// that the table does not hold draws nothing.
pub open spec fn bundles_commands(
    m: Map<usize, BundleView>,
    ids: Seq<usize>,
    x_from: i64,
    hidden: Seq<usize>,
    is_area: bool,
    ceiling: u32,
) -> Seq<DrawCommand>
    decreases ids.len(),
{
    if ids.len() == 0 {
        Seq::empty()
    } else if m.contains_key(ids.last()) {
        bundles_commands(m, ids.drop_last(), x_from, hidden, is_area, ceiling) + bundle_commands(
            m[ids.last()],
            x_from,
            hidden,
            is_area,
            ceiling,
        )
    } else {
        bundles_commands(m, ids.drop_last(), x_from, hidden, is_area, ceiling)
    }
}

/// The commands for the traces drawn outside any bundle.
pub open spec fn trace_commands(traces: Seq<TraceStyle>, x_from: i64, x_to: i64) -> Seq<
    DrawCommand,
> {
    Seq::new(traces.len(), |i: int| trace_command(traces[i], x_from, x_to))
}

/// What precedes the traces: clearing, axes and grid as the job asks, then
/// the viewport of the plot.
pub open spec fn opening_commands(job: RenderJob, area: PlotArea) -> Seq<DrawCommand> {
    (if job.clear {
        seq![DrawCommand::Clear]
    } else {
        Seq::empty()
    }) + (if job.render_axes {
        seq![axes_command()]
    } else {
        Seq::empty()
    }) + (if job.render_grid {
        seq![grid_command(job.dark_mode)]
    } else {
        Seq::empty()
    }) + seq![DrawCommand::Viewport { area }]
}

/// The whole frame, in order: the opening, the bundles, the unshifted
/// origin, the traces outside bundles.
pub open spec fn frame_commands(
    m: Map<usize, BundleView>,
    job: RenderJob,
    area: PlotArea,
    is_area: bool,
    ceiling: u32,
) -> Seq<DrawCommand> {
    opening_commands(job, area) + bundles_commands(
        m,
        job.bundles@,
        job.x_from,
        job.blacklist@,
        is_area,
        ceiling,
    ) + seq![DrawCommand::Origin { shift: 0 }] + trace_commands(
        job.traces@,
        job.x_from,
        job.x_to,
    )
}

/// The full-strength, opaque shade of a colour.
pub fn solid_shade(c: Rgb) -> (s: Shade)
    ensures
        s == solid(c),
{
    Shade { r: 4 * (c.r as u16), g: 4 * (c.g as u16), b: 4 * (c.b as u16), alpha: 1020 }
}

/// A colour at half brightness and half opacity.
pub fn dimmed_shade(c: Rgb) -> (s: Shade)
    ensures
        s == dimmed(c),
{
    Shade { r: 2 * (c.r as u16), g: 2 * (c.g as u16), b: 2 * (c.b as u16), alpha: 510 }
}

/// Appends what is drawn for one entry.
pub fn plan_entry(out: &mut Vec<DrawCommand>, e: &BufferEntry, is_area: bool, ceiling: u32)
    ensures
        final(out)@ == old(out)@ + entry_commands(*e, is_area, ceiling),
{
    let ghost before = out@;
    if is_area {
        match e.area_buffer {
            Some(a) => {
                out.push(
                    DrawCommand::Area {
                        buffer: a,
                        vertices: e.area_buffer_points,
                        shade: dimmed_shade(e.color),
                    },
                );
            },
            None => {},
        }
    }
    assert(out@ =~= before + area_commands(*e, is_area));
    let ghost filled = out@;
    let shade = solid_shade(e.color);
    match plan_line(e.width, ceiling) {
        LinePlan::Native { width } => {
            out.push(DrawCommand::Line { buffer: e.buffer, vertices: e.points, shade, width });
        },
        LinePlan::Stacked { offsets } => {
            let mut i: usize = 0;
            while i < offsets.len()
                invariant
                    i <= offsets.len(),
                    offsets@ == stacked_offsets(e.width),
                    !draws_native(e.width, ceiling),
                    shade == solid(e.color),
                    out@ == filled + line_commands(*e, ceiling).take(i as int),
                decreases offsets.len() - i,
            {
                out.push(
                    DrawCommand::Pass {
                        buffer: e.buffer,
                        vertices: e.points,
                        shade,
                        offset: offsets[i],
                    },
                );
                assert(out@ =~= filled + line_commands(*e, ceiling).take(i + 1));
                i = i + 1;
            }
            assert(line_commands(*e, ceiling).take(i as int) =~= line_commands(*e, ceiling));
        },
    }
    assert(out@ =~= filled + line_commands(*e, ceiling));
    if e.points_mode {
        out.push(DrawCommand::Points { buffer: e.buffer, vertices: e.points });
    }
    assert(out@ =~= before + entry_commands(*e, is_area, ceiling));
}

/// Appends what is drawn for the entries of a bundle that the job shows.
pub fn plan_entries(
    out: &mut Vec<DrawCommand>,
    entries: &Vec<BufferEntry>,
    job: &RenderJob,
    is_area: bool,
    ceiling: u32,
)
    ensures
        final(out)@ == old(out)@ + entries_commands(entries@, job.blacklist@, is_area, ceiling),
{
    let ghost before = out@;
    let mut i: usize = 0;
    assert(out@ =~= before + entries_commands(
        entries@.take(0),
        job.blacklist@,
        is_area,
        ceiling,
    ));
    while i < entries.len()
        invariant
            i <= entries.len(),
            out@ == before + entries_commands(
                entries@.take(i as int),
                job.blacklist@,
                is_area,
                ceiling,
            ),
        decreases entries.len() - i,
    {
        let e = entries[i];
        proof {
            assert(entries@.take(i + 1).drop_last() =~= entries@.take(i as int));
            assert(entries@.take(i + 1).last() == e);
        }
        if !job.is_blacklisted(e.handle) {
            plan_entry(out, &e, is_area, ceiling);
            assert(out@ =~= before + entries_commands(
                entries@.take(i + 1),
                job.blacklist@,
                is_area,
                ceiling,
            ));
        }
        i = i + 1;
    }
    assert(entries@.take(i as int) =~= entries@);
}

/// Appends what is drawn for the bundles that the job names.
pub fn plan_bundles(
    out: &mut Vec<DrawCommand>,
    store: &BundleStore,
    job: &RenderJob,
    is_area: bool,
    ceiling: u32,
)
    ensures
        final(out)@ == old(out)@ + bundles_commands(
            store@,
            job.bundles@,
            job.x_from,
            job.blacklist@,
            is_area,
            ceiling,
        ),
{
    let ghost before = out@;
    let ids = job.get_bundles();
    let mut i: usize = 0;
    assert(out@ =~= before + bundles_commands(
        store@,
        ids@.take(0),
        job.x_from,
        job.blacklist@,
        is_area,
        ceiling,
    ));
    while i < ids.len()
        invariant
            i <= ids.len(),
            ids@ == job.bundles@,
            out@ == before + bundles_commands(
                store@,
                ids@.take(i as int),
                job.x_from,
                job.blacklist@,
                is_area,
                ceiling,
            ),
        decreases ids.len() - i,
    {
        let id = ids[i];
        proof {
            assert(ids@.take(i + 1).drop_last() =~= ids@.take(i as int));
            assert(ids@.take(i + 1).last() == id);
        }
        match store.get(id) {
            Some(bundle) => {
                let ghost so_far = out@;
                let shift: i128 = job.x_from as i128 - bundle.from as i128;
                out.push(DrawCommand::Origin { shift });
                plan_entries(out, &bundle.buffers, job, is_area, ceiling);
                assert(out@ =~= so_far + bundle_commands(
                    store@[id],
                    job.x_from,
                    job.blacklist@,
                    is_area,
                    ceiling,
                ));
            },
            None => {},
        }
        i = i + 1;
    }
    assert(ids@.take(i as int) =~= ids@);
}

/// Plans a frame: every command of it, in order.
pub fn plan_frame(
    store: &BundleStore,
    job: &RenderJob,
    area: PlotArea,
    is_area: bool,
    ceiling: u32,
) -> (out: Vec<DrawCommand>)
    ensures
        out@ == frame_commands(store@, *job, area, is_area, ceiling),
{
    let mut out: Vec<DrawCommand> = Vec::new();
    if job.clear {
        out.push(DrawCommand::Clear);
    }
    if job.render_axes {
        out.push(
            DrawCommand::Axes { shade: Shade { r: 306, g: 306, b: 306, alpha: 1020 }, width: 200 },
        );
    }
    if job.render_grid {
        let tone: u16 = if job.dark_mode {
            306
        } else {
            867
        };
        out.push(
            DrawCommand::Grid { shade: Shade { r: tone, g: tone, b: tone, alpha: 1020 }, width: 100 },
        );
    }
    out.push(DrawCommand::Viewport { area });
    assert(out@ =~= opening_commands(*job, area));
    plan_bundles(&mut out, store, job, is_area, ceiling);
    out.push(DrawCommand::Origin { shift: 0 });
    let ghost head = out@;
    let traces = job.get_traces();
    let mut i: usize = 0;
    while i < traces.len()
        invariant
            i <= traces.len(),
            traces@ == job.traces@,
            out@ == head + trace_commands(traces@, job.x_from, job.x_to).take(i as int),
        decreases traces.len() - i,
    {
        let t = traces[i];
        out.push(
            DrawCommand::Trace {
                idx: t.idx,
                width: t.width,
                shade: solid_shade(t.color),
                from: job.x_from as i128 - 1,
                to: job.x_to as i128 + 1,
                origin: job.x_from,
            },
        );
        assert(out@ =~= head + trace_commands(traces@, job.x_from, job.x_to).take(i + 1));
        i = i + 1;
    }
    assert(trace_commands(traces@, job.x_from, job.x_to).take(i as int) =~= trace_commands(
        traces@,
        job.x_from,
        job.x_to,
    ));
    out
}

/// A line a twentieth of a pixel wider than the ceiling is one native
/// draw. A line five pixels wider than the ceiling is drawn in as many
/// passes as its rounded width, pass `i` at the offset of pass `i`.
pub proof fn lemma_line_draws(e: BufferEntry, ceiling: u32)
    ensures
        e.width == ceiling + 5 ==> line_commands(e, ceiling) == seq![
            DrawCommand::Line {
                buffer: e.buffer,
                vertices: e.points,
                shade: solid(e.color),
                width: e.width,
            },
        ],
        e.width == ceiling + 500 ==> {
            &&& line_commands(e, ceiling).len() == pass_count(e.width)
            &&& forall|i: int|
                0 <= i < pass_count(e.width) ==> #[trigger] line_commands(e, ceiling)[i]
                    == (DrawCommand::Pass {
                    buffer: e.buffer,
                    vertices: e.points,
                    shade: solid(e.color),
                    offset: pass_offset(e.width, i) as i64,
                })
        },
{
}

} // verus!
