use chart_render::axes::{axis_frame, grid_lines, snap_tick, tick_marks, Segment};
use chart_render::bundle::{allocate_bundle_entry, BundleEntry, Rgb};
use chart_render::frame::{dimmed_shade, solid_shade, DrawCommand, Shade};
use chart_render::job::{PlotArea, RenderJob, TraceStyle};
use chart_render::program::{compile_shader, link_program};
use chart_render::renderer::{RendererOptions, WebGlRenderer};
use chart_render::ticks::AxisTick;

const GREEN: Rgb = Rgb { r: 0, g: 200, b: 0 };

fn job() -> RenderJob {
    RenderJob {
        x_from: 0,
        x_to: 2,
        y_from: 0,
        y_to: 2,
        margin: 10,
        x_label_space: 20,
        y_label_space: 30,
        clear: true,
        render_axes: true,
        render_grid: true,
        dark_mode: false,
        bundles: vec![],
        traces: vec![],
        blacklist: vec![],
    }
}

#[test]
fn bundle_of_three_points_is_one_line_strip_at_zero_shift() {
    let mut r = WebGlRenderer::new(640, 480, RendererOptions { area_chart: false }, 100);
    let d = BundleEntry { handle: 0, width: 100, color: GREEN, points_mode: false };
    let e = allocate_bundle_entry(&d, Some(1), Some(3), false, None).unwrap();
    let h = r.create_bundle(0, 2, vec![e]).unwrap();
    let mut j = job();
    j.bundles = vec![h];
    let frame = r.render(&j);
    let area = PlotArea { x: 40, y: 30, width: 590, height: 440 };
    assert_eq!(
        frame.commands,
        vec![
            DrawCommand::Clear,
            DrawCommand::Axes { shade: Shade { r: 306, g: 306, b: 306, alpha: 1020 }, width: 200 },
            DrawCommand::Grid { shade: Shade { r: 867, g: 867, b: 867, alpha: 1020 }, width: 100 },
            DrawCommand::Viewport { area },
            DrawCommand::Origin { shift: 0 },
            DrawCommand::Line {
                buffer: 1,
                vertices: 3,
                shade: Shade { r: 0, g: 800, b: 0, alpha: 1020 },
                width: 100,
            },
            DrawCommand::Origin { shift: 0 },
        ]
    );
    let xs: Vec<i128> = frame.result.x_ticks.iter().map(|t| t.val).collect();
    assert_eq!(xs, vec![5, 10, 15, 20]);
    assert_eq!(frame.result.y_ticks, frame.result.x_ticks);
}

#[test]
fn frame_draws_fill_then_line_then_points_and_skips_hidden_traces() {
    let mut r = WebGlRenderer::new(200, 100, RendererOptions { area_chart: true }, 100);
    let wide = BundleEntry { handle: 5, width: 300, color: GREEN, points_mode: true };
    let thin = BundleEntry { handle: 6, width: 100, color: GREEN, points_mode: false };
    let hidden = BundleEntry { handle: 7, width: 100, color: GREEN, points_mode: true };
    let entries = vec![
        allocate_bundle_entry(&wide, Some(1), Some(4), true, Some(2)).unwrap(),
        allocate_bundle_entry(&thin, Some(3), Some(4), true, Some(4)).unwrap(),
        allocate_bundle_entry(&hidden, Some(5), Some(4), true, Some(6)).unwrap(),
    ];
    let h = r.create_bundle(1000, 2000, entries).unwrap();
    let mut j = job();
    j.clear = false;
    j.render_axes = false;
    j.render_grid = false;
    j.x_from = 1200;
    j.x_to = 1300;
    j.bundles = vec![h + 1, h];
    j.blacklist = vec![7];
    j.traces = vec![TraceStyle { idx: 9, width: 200, color: GREEN }];
    let solid = Shade { r: 0, g: 800, b: 0, alpha: 1020 };
    let dim = Shade { r: 0, g: 400, b: 0, alpha: 510 };
    assert_eq!(solid_shade(GREEN), solid);
    assert_eq!(dimmed_shade(GREEN), dim);
    let frame = r.render(&j);
    assert_eq!(
        frame.commands,
        vec![
            DrawCommand::Viewport { area: PlotArea { x: 40, y: 30, width: 150, height: 60 } },
            DrawCommand::Origin { shift: 200 },
            DrawCommand::Area { buffer: 2, vertices: 13, shade: dim },
            DrawCommand::Pass { buffer: 1, vertices: 4, shade: solid, offset: 200 },
            DrawCommand::Pass { buffer: 1, vertices: 4, shade: solid, offset: 400 },
            DrawCommand::Pass { buffer: 1, vertices: 4, shade: solid, offset: 600 },
            DrawCommand::Points { buffer: 1, vertices: 4 },
            DrawCommand::Area { buffer: 4, vertices: 13, shade: dim },
            DrawCommand::Line { buffer: 3, vertices: 4, shade: solid, width: 100 },
            DrawCommand::Origin { shift: 0 },
            DrawCommand::Trace { idx: 9, width: 200, shade: solid, from: 1199, to: 1301, origin: 1200 },
        ]
    );
    assert_eq!(r.clear(), DrawCommand::Clear);
}

#[test]
fn fills_are_left_out_when_area_mode_is_off() {
    let mut r = WebGlRenderer::new(200, 100, RendererOptions { area_chart: false }, 100);
    let d = BundleEntry { handle: 5, width: 100, color: GREEN, points_mode: false };
    let e = allocate_bundle_entry(&d, Some(1), Some(4), true, Some(2)).unwrap();
    let h = r.create_bundle(0, 10, vec![e]).unwrap();
    let mut j = job();
    j.bundles = vec![h];
    let frame = r.render(&j);
    assert!(!frame.commands.iter().any(|c| matches!(c, DrawCommand::Area { .. })));
}

#[test]
fn job_layout() {
    let j = job();
    assert!(j.fits(640, 480));
    assert!(j.fits(50, 40));
    assert!(!j.fits(49, 40));
    assert!(!j.fits(50, 39));
    assert_eq!(j.plot_area(50, 40), PlotArea { x: 40, y: 30, width: 0, height: 0 });
    assert!(!j.is_blacklisted(3));
    assert!(j.get_bundles().is_empty());
    assert!(j.get_traces().is_empty());
}

#[test]
fn ticks_snap_to_pixel_centres() {
    let half = AxisTick { val: 0, pos_num: 1, pos_den: 2 };
    let third = AxisTick { val: 0, pos_num: 1, pos_den: 3 };
    let end = AxisTick { val: 0, pos_num: 5, pos_den: 5 };
    let start = AxisTick { val: 0, pos_num: 0, pos_den: 5 };
    assert_eq!(snap_tick(100, &half), 101);
    assert_eq!(snap_tick(100, &third), 67);
    assert_eq!(snap_tick(100, &end), 201);
    assert_eq!(snap_tick(100, &start), 1);
    assert_eq!(snap_tick(u32::MAX, &end), 2 * (u32::MAX as i64) + 1);
}

#[test]
fn axis_geometry() {
    let area = PlotArea { x: 40, y: 30, width: 100, height: 60 };
    assert_eq!(axis_frame(&area), vec![(78, 180), (78, 58), (280, 58)]);
    let x_ticks = vec![AxisTick { val: 5, pos_num: 1, pos_den: 4 }];
    let y_ticks = vec![AxisTick { val: 7, pos_num: 1, pos_den: 2 }];
    assert_eq!(
        tick_marks(&area, &x_ticks, &y_ticks),
        vec![
            Segment { x0: 131, y0: 60, x1: 131, y1: 52 },
            Segment { x0: 80, y0: 121, x1: 72, y1: 121 },
        ]
    );
    assert_eq!(
        grid_lines(&area, &x_ticks, &y_ticks),
        vec![
            Segment { x0: 51, y0: 0, x1: 51, y1: 120 },
            Segment { x0: 0, y0: 61, x1: 200, y1: 61 },
        ]
    );
}

#[test]
fn renderer_axes_and_grid_follow_the_job_layout() {
    let r = WebGlRenderer::new(150, 100, RendererOptions { area_chart: false }, 100);
    let j = job();
    let x_ticks = vec![AxisTick { val: 5, pos_num: 1, pos_den: 4 }];
    let y_ticks: Vec<AxisTick> = vec![];
    let g = r.render_axes(&j, &x_ticks, &y_ticks);
    // plot: x 40, y 30, width 100, height 60
    assert_eq!(g.frame, vec![(78, 180), (78, 58), (280, 58)]);
    assert_eq!(g.marks, vec![Segment { x0: 131, y0: 60, x1: 131, y1: 52 }]);
    assert_eq!(
        r.render_grid(&j, &x_ticks, &y_ticks),
        vec![Segment { x0: 51, y0: 0, x1: 51, y1: 120 }]
    );
}

#[test]
fn shader_outcomes() {
    assert_eq!(compile_shader(true, Some(true), None), Ok(()));
    assert_eq!(
        compile_shader(false, Some(true), None),
        Err(String::from("Unable to create shader object"))
    );
    assert_eq!(
        compile_shader(true, Some(false), Some(String::from("bad token"))),
        Err(String::from("bad token"))
    );
    assert_eq!(
        compile_shader(true, None, None),
        Err(String::from("Unknown error creating shader"))
    );
    assert_eq!(link_program(true, Some(true), Some(String::from("warning"))), Ok(()));
    assert_eq!(
        link_program(false, None, None),
        Err(String::from("Unable to create shader object"))
    );
    assert_eq!(
        link_program(true, Some(false), None),
        Err(String::from("Unknown error creating program object"))
    );
    assert_eq!(
        link_program(true, None, Some(String::from("unresolved"))),
        Err(String::from("unresolved"))
    );
}

#[test]
fn grid_is_darker_in_dark_mode() {
    let r = WebGlRenderer::new(640, 480, RendererOptions { area_chart: false }, 100);
    let mut j = job();
    j.clear = false;
    j.render_axes = false;
    j.dark_mode = true;
    let frame = r.render(&j);
    assert_eq!(
        frame.commands[0],
        DrawCommand::Grid { shade: Shade { r: 306, g: 306, b: 306, alpha: 1020 }, width: 100 }
    );
}
