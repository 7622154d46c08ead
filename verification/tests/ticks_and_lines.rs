use chart_render::line::{offset_scale, plan_line, LinePlan};
use chart_render::ticks::{calc_ticks, AxisTick};

fn values(ticks: &[AxisTick]) -> Vec<i128> {
    ticks.iter().map(|t| t.val).collect()
}

#[test]
fn ticks_of_zero_to_ninety_five_are_multiples_of_ten() {
    let ticks = calc_ticks(0, 95);
    assert_eq!(values(&ticks), vec![100, 200, 300, 400, 500, 600, 700, 800, 900]);
    assert!(ticks.len() < 10);
    for t in &ticks {
        assert_eq!(t.val % 100, 0);
        assert_eq!(t.pos_den, 950);
        assert_eq!(t.pos_num, t.val);
    }
}

#[test]
fn ticks_of_unit_range_use_fifths() {
    let ticks = calc_ticks(0, 1);
    assert_eq!(values(&ticks), vec![2, 4, 6, 8, 10]);
    assert_eq!(ticks[0], AxisTick { val: 2, pos_num: 2, pos_den: 10 });
    assert_eq!(ticks[4], AxisTick { val: 10, pos_num: 10, pos_den: 10 });
}

#[test]
fn ticks_take_the_first_step_that_spans_in_under_ten() {
    // width 9: a step of a tenth would need 90 steps, 0.2 would need 45,
    // 0.5 would need 18, so the step is one unit.
    let ticks = calc_ticks(0, 9);
    assert_eq!(values(&ticks), vec![10, 20, 30, 40, 50, 60, 70, 80, 90]);
}

#[test]
fn ticks_of_negative_start_snap_downwards() {
    let ticks = calc_ticks(-7, 20);
    // steps of 1 and 2 need ten or more; with 5 the range counts from -10.
    assert_eq!(values(&ticks), vec![-50, 0, 50, 100]);
    assert_eq!(ticks[0].pos_num, 20);
    assert_eq!(ticks[0].pos_den, 200);
    assert_eq!(ticks[1].pos_num, 70);
}

#[test]
fn ticks_are_ascending_and_inside_the_range() {
    for &(start, width) in &[(0i64, 1u64), (3, 7), (-1000, 12345), (i64::MIN, u64::MAX), (i64::MAX, 1)] {
        let ticks = calc_ticks(start, width);
        assert!(ticks.len() <= 10);
        for pair in ticks.windows(2) {
            assert!(pair[0].val < pair[1].val);
        }
        for t in &ticks {
            assert!(0 < t.pos_num && t.pos_num <= t.pos_den);
            assert_eq!(t.pos_den, 10 * width as i128);
            assert_eq!(t.val - 10 * start as i128, t.pos_num);
        }
    }
}

#[test]
fn ticks_of_large_timestamps_stay_exact() {
    let ticks = calc_ticks(1_700_000_000_123, 3600);
    // steps of 100 and 200 need ten or more; 500 spans the range in 7.4.
    let expected: Vec<i128> = (1..=7).map(|i| 17_000_000_000_000 + 5_000 * i).collect();
    assert_eq!(values(&ticks), expected);
    assert_eq!(ticks[0].pos_num, 5_000 - 1_230);
    assert_eq!(ticks[0].pos_den, 36_000);
}

#[test]
fn line_just_above_ceiling_is_one_native_draw() {
    // ceiling 0.95 px, width 1.00 px
    match plan_line(100, 95) {
        LinePlan::Native { width } => assert_eq!(width, 100),
        LinePlan::Stacked { .. } => panic!("expected a native line"),
    }
    // a tenth of a pixel above the ceiling is still native
    assert!(matches!(plan_line(110, 100), LinePlan::Native { width: 110 }));
    assert!(matches!(plan_line(111, 100), LinePlan::Stacked { .. }));
}

#[test]
fn line_five_above_ceiling_is_emulated_in_rounded_width_passes() {
    // ceiling 1 px, width 6 px
    match plan_line(600, 100) {
        LinePlan::Stacked { offsets } => {
            assert_eq!(offsets, vec![500, 700, 900, 1100, 1300, 1500]);
        }
        LinePlan::Native { .. } => panic!("expected an emulated line"),
    }
    assert_eq!(offset_scale(480), 48_000);
}

#[test]
fn line_pass_count_rounds_half_up() {
    match plan_line(250, 100) {
        LinePlan::Stacked { offsets } => assert_eq!(offsets, vec![150, 350, 550]),
        LinePlan::Native { .. } => panic!("expected an emulated line"),
    }
    match plan_line(249, 100) {
        LinePlan::Stacked { offsets } => assert_eq!(offsets, vec![149, 349]),
        LinePlan::Native { .. } => panic!("expected an emulated line"),
    }
    // below one pixel with no native width at all: the only pass sits below
    match plan_line(60, 0) {
        LinePlan::Stacked { offsets } => assert_eq!(offsets, vec![-40]),
        LinePlan::Native { .. } => panic!("expected an emulated line"),
    }
}
