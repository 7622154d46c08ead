use chart_render::area::{area_vertex_count, build_area_strip, stack_on};
use chart_render::vertices::{flat_baseline, flatten_points};

#[test]
fn area_strip_of_three_points() {
    let mut baseline: Vec<(f32, f32)> = vec![(0.0, 0.0), (1.0, 0.0), (2.0, 0.0)];
    let curve: Vec<(f32, f32)> = vec![(0.0, 0.0), (1.0, 2.0), (2.0, 1.0)];
    let strip = build_area_strip(&mut baseline, &curve);
    assert_eq!(
        strip,
        vec![
            (0.0, 0.0),
            (1.0, 0.0),
            (0.0, 0.0),
            (1.0, 2.0),
            (1.0, 0.0),
            (2.0, 0.0),
            (1.0, 2.0),
            (2.0, 1.0),
            (2.0, 0.0),
        ]
    );
    assert_eq!(baseline, vec![(0.0, 0.0), (1.0, 2.0), (2.0, 1.0)]);
}

#[test]
fn area_strip_has_four_vertices_per_segment_and_one() {
    for n in 1usize..40 {
        let mut baseline: Vec<(i32, i32)> = (0..n as i32).map(|x| (x, 0)).collect();
        let curve: Vec<(i32, i32)> = (0..n as i32).map(|x| (x, x * x + 1)).collect();
        let strip = build_area_strip(&mut baseline, &curve);
        assert_eq!(strip.len(), (n - 1) * 4 + 1);
        assert_eq!(strip.len(), area_vertex_count(n));
        assert_eq!(baseline, curve);
    }
    assert_eq!(area_vertex_count(0), 0);
    assert_eq!(area_vertex_count(2), 5);
}

#[test]
fn area_strips_stack_on_the_raised_baseline() {
    let mut baseline: Vec<(i32, i32)> = vec![(0, 0), (10, 0)];
    let first: Vec<(i32, i32)> = vec![(0, 3), (10, 4)];
    let second: Vec<(i32, i32)> = vec![(0, 8), (10, 6)];
    let low = build_area_strip(&mut baseline, &first);
    assert_eq!(low, vec![(0, 0), (10, 0), (0, 3), (10, 4), (10, 0)]);
    let high = build_area_strip(&mut baseline, &second);
    assert_eq!(high, vec![(0, 3), (10, 4), (0, 8), (10, 6), (10, 4)]);
    assert_eq!(baseline, vec![(0, 8), (10, 6)]);
}

#[test]
fn area_strip_keeps_the_baseline_x_positions() {
    let mut baseline: Vec<(i32, i32)> = vec![(5, 1), (6, 2), (7, 3)];
    let curve: Vec<(i32, i32)> = vec![(50, 10), (60, 20), (70, 30)];
    let strip = build_area_strip(&mut baseline, &curve);
    assert_eq!(
        strip,
        vec![(5, 1), (6, 2), (5, 10), (6, 20), (6, 2), (7, 3), (6, 20), (7, 30), (7, 3)]
    );
    assert_eq!(baseline, vec![(5, 10), (6, 20), (7, 30)]);
}

#[test]
fn area_strip_of_one_point_is_that_baseline_point() {
    let mut baseline: Vec<(i32, i32)> = vec![(4, 1)];
    let curve: Vec<(i32, i32)> = vec![(4, 9)];
    assert_eq!(build_area_strip(&mut baseline, &curve), vec![(4, 1)]);
    assert_eq!(baseline, vec![(4, 9)]);
}

#[test]
fn uploaded_coordinates_of_three_points() {
    let points: Vec<(f32, f32)> = vec![(0.0, 0.0), (1.0, 2.0), (2.0, 1.0)];
    let data = flatten_points(&points);
    assert_eq!(data, vec![0.0, 0.0, 1.0, 2.0, 2.0, 1.0]);
    let xs: Vec<f32> = data.iter().step_by(2).cloned().collect();
    let ys: Vec<f32> = data.iter().skip(1).step_by(2).cloned().collect();
    assert_eq!(xs, vec![0.0, 1.0, 2.0]);
    assert_eq!(ys, vec![0.0, 2.0, 1.0]);
    assert_eq!(flat_baseline(&points, 0.0), vec![(0.0, 0.0), (1.0, 0.0), (2.0, 0.0)]);
    assert_eq!(flatten_points(&Vec::<(u8, u8)>::new()), Vec::<u8>::new());
}

#[test]
fn stacking_adds_heights_as_far_as_the_baseline_reaches() {
    let baseline: Vec<(f32, f32)> = vec![(0.0, 1.0), (1.0, 2.0)];
    let mut curve: Vec<(f32, f32)> = vec![(0.0, 0.5), (1.0, 0.25), (2.0, 4.0)];
    stack_on(&mut curve, &baseline, |a: f32, b: f32| a + b);
    assert_eq!(curve, vec![(0.0, 1.5), (1.0, 2.25), (2.0, 4.0)]);
    let mut short: Vec<(i32, i32)> = vec![(7, 1)];
    stack_on(&mut short, &vec![(0, 10), (0, 20)], |a: i32, b: i32| a + b);
    assert_eq!(short, vec![(7, 11)]);
}
