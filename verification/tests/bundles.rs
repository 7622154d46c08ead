use chart_render::bundle::{allocate_bundle_entry, BufferEntry, BundleEntry, Rgb};
use chart_render::error::RenderError;
use chart_render::renderer::{RendererOptions, WebGlRenderer};
use chart_render::store::{collect_buffers, handles_distinct, names_handle, BundleStore};

const RED: Rgb = Rgb { r: 255, g: 0, b: 0 };
const BLUE: Rgb = Rgb { r: 0, g: 0, b: 255 };

fn descriptor(handle: usize) -> BundleEntry {
    BundleEntry { handle, width: 100, color: RED, points_mode: false }
}

fn entry(handle: usize, buffer: u64, area: Option<u64>) -> BufferEntry {
    allocate_bundle_entry(&descriptor(handle), Some(buffer), Some(3), area.is_some(), area).unwrap()
}

fn snapshot(e: &BufferEntry) -> (usize, usize, u64, Option<u64>, usize, u32, Rgb, bool) {
    (e.handle, e.points, e.buffer, e.area_buffer, e.area_buffer_points, e.width, e.color, e.points_mode)
}

#[test]
fn allocated_entry_takes_style_and_counts() {
    let d = BundleEntry { handle: 7, width: 250, color: BLUE, points_mode: true };
    let e = allocate_bundle_entry(&d, Some(11), Some(5), true, Some(12)).unwrap();
    assert_eq!(snapshot(&e), (7, 5, 11, Some(12), 17, 250, BLUE, true));
    let plain = allocate_bundle_entry(&d, Some(11), Some(5), false, Some(12)).unwrap();
    assert_eq!(snapshot(&plain), (7, 5, 11, None, 0, 250, BLUE, true));
}

#[test]
fn allocation_failures_are_reported() {
    let d = descriptor(1);
    assert_eq!(
        allocate_bundle_entry(&d, None, Some(3), false, None).unwrap_err(),
        RenderError::ResourceExhausted
    );
    assert_eq!(
        allocate_bundle_entry(&d, Some(1), Some(3), true, None).unwrap_err(),
        RenderError::ResourceExhausted
    );
    assert_eq!(
        allocate_bundle_entry(&d, Some(1), None, false, None).unwrap_err(),
        RenderError::UnknownTrace
    );
    assert_eq!(
        allocate_bundle_entry(&d, None, None, true, None).unwrap_err(),
        RenderError::ResourceExhausted
    );
}

#[test]
fn handles_count_up_and_are_not_reused_after_disposal() {
    let mut store = BundleStore::new();
    assert_eq!(store.upcoming_handle(), 0);
    let a = store.create_bundle(0, 2, vec![entry(1, 10, None)]).unwrap();
    let b = store.create_bundle(0, 2, vec![entry(1, 20, None)]).unwrap();
    assert_eq!((a, b), (0, 1));
    assert_eq!(store.dispose_bundle(b), vec![20]);
    assert_eq!(store.dispose_bundle(a), vec![10]);
    let c = store.create_bundle(5, 9, vec![]).unwrap();
    assert_eq!(c, 2);
    assert!(a < b && b < c);
    assert!(store.get(a).is_none());
    assert!(store.get(b).is_none());
    let kept = store.get(c).unwrap();
    assert_eq!((kept.from, kept.to, kept.buffers.len()), (5, 9, 0));
    assert_eq!(store.upcoming_handle(), 3);
}

#[test]
fn disposing_twice_releases_once() {
    let mut store = BundleStore::new();
    let h = store
        .create_bundle(0, 2, vec![entry(1, 10, Some(11)), entry(2, 12, None)])
        .unwrap();
    assert_eq!(store.dispose_bundle(h), vec![10, 11, 12]);
    assert_eq!(store.dispose_bundle(h), Vec::<u64>::new());
    assert!(store.get(h).is_none());
    assert_eq!(store.dispose_bundle(99), Vec::<u64>::new());
}

#[test]
fn delete_removes_exactly_that_entry() {
    let mut store = BundleStore::new();
    let h = store
        .create_bundle(0, 2, vec![entry(1, 10, None), entry(2, 20, Some(21)), entry(3, 30, None)])
        .unwrap();
    let before: Vec<_> = store.get(h).unwrap().buffers.iter().map(snapshot).collect();
    let freed = store.rebundle(h, &vec![], &vec![2], &vec![]).unwrap();
    assert_eq!(freed, vec![20, 21]);
    let after: Vec<_> = store.get(h).unwrap().buffers.iter().map(snapshot).collect();
    assert_eq!(after, vec![before[0], before[2]]);
}

#[test]
fn modify_restyles_without_touching_buffers() {
    let mut store = BundleStore::new();
    let h = store
        .create_bundle(0, 2, vec![entry(1, 10, Some(11)), entry(2, 20, None)])
        .unwrap();
    let restyle = BundleEntry { handle: 1, width: 300, color: BLUE, points_mode: true };
    let freed = store.rebundle(h, &vec![], &vec![], &vec![restyle]).unwrap();
    assert!(freed.is_empty());
    let after: Vec<_> = store.get(h).unwrap().buffers.iter().map(snapshot).collect();
    assert_eq!(
        after,
        vec![(1, 3, 10, Some(11), 9, 300, BLUE, true), (2, 3, 20, None, 0, 100, RED, false)]
    );
}

#[test]
fn update_adds_then_deletes_then_restyles() {
    let mut store = BundleStore::new();
    let h = store.create_bundle(-4, 4, vec![entry(1, 10, None), entry(2, 20, None)]).unwrap();
    let restyle3 = BundleEntry { handle: 3, width: 50, color: BLUE, points_mode: false };
    let restyle1 = BundleEntry { handle: 1, width: 70, color: BLUE, points_mode: false };
    let freed = store
        .rebundle(h, &vec![entry(3, 30, None), entry(4, 40, None)], &vec![1, 4], &vec![restyle3, restyle1])
        .unwrap();
    assert_eq!(freed, vec![10, 40]);
    let bundle = store.get(h).unwrap();
    assert_eq!((bundle.from, bundle.to), (-4, 4));
    let after: Vec<_> = bundle.buffers.iter().map(snapshot).collect();
    assert_eq!(
        after,
        vec![(2, 3, 20, None, 0, 100, RED, false), (3, 3, 30, None, 0, 50, BLUE, false)]
    );
}

#[test]
fn update_of_unknown_bundle_is_an_error() {
    let mut store = BundleStore::new();
    let h = store.create_bundle(0, 1, vec![entry(1, 10, None)]).unwrap();
    assert_eq!(
        store.rebundle(h + 1, &vec![], &vec![1], &vec![]).unwrap_err(),
        RenderError::UnknownBundle
    );
    assert_eq!(store.get(h).unwrap().buffers.len(), 1);
}

#[test]
fn teardown_releases_every_live_bundle_in_handle_order() {
    let mut r = WebGlRenderer::new(640, 480, RendererOptions { area_chart: true }, 100);
    let a = r.create_bundle(0, 1, vec![entry(1, 10, Some(11))]).unwrap();
    let b = r.create_bundle(0, 1, vec![entry(1, 20, None)]).unwrap();
    let c = r.create_bundle(0, 1, vec![entry(1, 30, None), entry(2, 31, None)]).unwrap();
    assert_eq!(r.dispose_bundle(b), vec![20]);
    assert_eq!(r.teardown(), vec![10, 11, 30, 31]);
    assert!(r.store.get(a).is_none() && r.store.get(c).is_none());
    assert_eq!(r.teardown(), Vec::<u64>::new());
    assert_eq!(r.create_bundle(0, 1, vec![]).unwrap(), 3);
}

#[test]
fn resize_keeps_bundles() {
    let mut r = WebGlRenderer::new(640, 480, RendererOptions { area_chart: false }, 100);
    let h = r.create_bundle(0, 1, vec![entry(1, 10, None)]).unwrap();
    r.size_changed(800, 600);
    assert_eq!((r.width, r.height, r.is_area, r.line_width_limit), (800, 600, false, 100));
    assert_eq!(r.store.get(h).unwrap().buffers[0].buffer, 10);
}

#[test]
fn helpers_on_handles_and_buffers() {
    let entries = vec![entry(1, 10, Some(11)), entry(2, 20, None)];
    assert!(handles_distinct(&entries));
    assert!(!handles_distinct(&vec![entry(1, 10, None), entry(2, 20, None), entry(1, 30, None)]));
    assert_eq!(collect_buffers(&entries), vec![10, 11, 20]);
    assert!(names_handle(&vec![4, 5], 5));
    assert!(!names_handle(&vec![4, 5], 6));
}

#[test]
fn baseline_comes_from_the_first_trace_in_area_mode() {
    let area = WebGlRenderer::new(1, 1, RendererOptions { area_chart: true }, 100);
    let lines = WebGlRenderer::new(1, 1, RendererOptions { area_chart: false }, 100);
    let data = vec![descriptor(8), descriptor(3)];
    assert_eq!(area.baseline_trace(&data), Some(8));
    assert_eq!(area.baseline_trace(&vec![]), None);
    assert_eq!(lines.baseline_trace(&data), None);
}
