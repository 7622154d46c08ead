//! Round-number axis ticks for a numeric range.
//!
//! A range is given in whole units of the caller's choosing (seconds,
//! milliseconds, thousandths of a volt). The finest step is a tenth of a
//! unit, so every tick value is a whole number of tenths, and tick values
//! and positions come out exact however large the domain is.

use vstd::arithmetic::div_mod::lemma_fundamental_div_mod;
use vstd::arithmetic::div_mod::lemma_mod_bound;
use vstd::prelude::*;

verus! {

/// One tick of an axis. `val` is the tick's value in tenths of a unit; its
/// position along the axis is the fraction `pos_num / pos_den`.
#[derive(Clone, Copy, Debug, PartialEq, Eq, Structural)]
pub struct AxisTick {
    pub val: i128,
    pub pos_num: i128,
    pub pos_den: i128,
}

/// The largest power of ten that is at most `width` (1 for a width under 10).
pub open spec fn magnitude(width: nat) -> nat
    decreases width,
{
    if width < 10 {
        1
    } else {
        10 * magnitude(width / 10)
    }
}

/// The step multipliers, in the order in which they are tried.
pub open spec fn multiplier(choice: int) -> int {
    if choice == 0 {
        1
    } else if choice == 1 {
        2
    } else if choice == 2 {
        5
    } else {
        10
    }
}

/// The step for a width under a multiplier, in tenths of a unit: a tenth of
/// the width's magnitude, times the multiplier.
pub open spec fn step_of(width: nat, choice: int) -> int {
    magnitude(width) * multiplier(choice)
}

/// `value` rounded down to a multiple of `step`.
pub open spec fn floor_to(value: int, step: int) -> int {
    (value / step) * step
}

/// Whether fewer than ten steps under this multiplier span the range.
pub open spec fn spans(start: int, width: nat, choice: int) -> bool {
    10 * width + 10 * start - floor_to(10 * start, step_of(width, choice)) < 10 * step_of(
        width,
        choice,
    )
}

/// The first multiplier under which fewer than ten steps span the range; the
/// last one if none does.
pub open spec fn choice_of(start: int, width: nat) -> int {
    if spans(start, width, 0) {
        0
    } else if spans(start, width, 1) {
        1
    } else if spans(start, width, 2) {
        2
    } else {
        3
    }
}

/// The chosen step, in tenths of a unit.
pub open spec fn tick_step(start: int, width: nat) -> int {
    step_of(width, choice_of(start, width))
}

/// The multiple of the step from which the ticks count, in tenths.
pub open spec fn tick_base(start: int, width: nat) -> int {
    floor_to(10 * start, tick_step(start, width))
}

/// How many ticks the range holds.
pub open spec fn tick_count(start: int, width: nat) -> int {
    (10 * width + 10 * start - tick_base(start, width)) / tick_step(start, width)
}

/// The value of tick number `i`, counted from zero, in tenths of a unit.
pub open spec fn tick_value(start: int, width: nat, i: int) -> int {
    tick_base(start, width) + tick_step(start, width) * (i + 1)
}

/// Tick number `i`, counted from zero.
pub open spec fn tick_at(start: int, width: nat, i: int) -> AxisTick {
    let val = tick_value(start, width, i);
    AxisTick {
        val: val as i128,
        pos_num: (val - 10 * start) as i128,
        pos_den: (10 * width) as i128,
    }
}

/// The ticks of the range `[start, start + width]`, ascending.
pub open spec fn ticks_of(start: int, width: nat) -> Seq<AxisTick> {
    Seq::new(tick_count(start, width) as nat, |i: int| tick_at(start, width, i))
}

/// A width lies between its magnitude and ten times its magnitude.
pub proof fn lemma_magnitude_bounds(width: nat)
    requires
        width >= 1,
    ensures
        1 <= magnitude(width) <= width < 10 * magnitude(width),
    decreases width,
{
    if width >= 10 {
        lemma_magnitude_bounds(width / 10);
    }
}

/// The step is one, two, five or ten times the magnitude of the width, and
/// every tick value is a whole multiple of the step.
pub proof fn lemma_ticks_are_round(start: int, width: nat, i: int)
    requires
        width >= 1,
    ensures
        tick_step(start, width) == magnitude(width) || tick_step(start, width) == 2 * magnitude(
            width,
        ) || tick_step(start, width) == 5 * magnitude(width) || tick_step(start, width) == 10
            * magnitude(width),
        tick_step(start, width) > 0,
        tick_value(start, width, i) == tick_step(start, width) * ((10 * start) / tick_step(
            start,
            width,
        ) + i + 1),
        tick_value(start, width, i) % tick_step(start, width) == 0,
{
    lemma_magnitude_bounds(width);
    let step = tick_step(start, width);
    let whole = (10 * start) / step;
    assert(magnitude(width) * 1 == magnitude(width));
    assert(whole * step + step * (i + 1) == step * (whole + i + 1)) by (nonlinear_arith);
    vstd::arithmetic::div_mod::lemma_mod_multiples_basic(whole + i + 1, step);
    assert(step * (whole + i + 1) == (whole + i + 1) * step) by (nonlinear_arith);
}

/// Where one of the multipliers spans the range in fewer than ten steps,
/// the range holds fewer than ten ticks.
pub proof fn lemma_few_ticks(start: int, width: nat)
    requires
        width >= 1,
        spans(start, width, choice_of(start, width)),
    ensures
        0 <= tick_count(start, width) < 10,
{
    lemma_magnitude_bounds(width);
    let step = tick_step(start, width);
    let reach = 10 * width + 10 * start - tick_base(start, width);
    assert(magnitude(width) * 1 == magnitude(width));
    lemma_fundamental_div_mod(10 * start, step);
    lemma_mod_bound(10 * start, step);
    assert(step * ((10 * start) / step) == ((10 * start) / step) * step) by (nonlinear_arith);
    assert(reach >= 0);
    lemma_fundamental_div_mod(reach, step);
    lemma_mod_bound(reach, step);
    assert(0 <= reach / step < 10) by (nonlinear_arith)
        requires
            0 <= reach < 10 * step,
            step > 0,
            reach == step * (reach / step) + reach % step,
            0 <= reach % step < step,
    ;
}

/// The greatest power of ten that is at most `width`.
fn magnitude_of(width: u64) -> (unit: u64)
    requires
        width >= 1,
    ensures
        unit == magnitude(width as nat),
{
    let mut rest: u64 = width;
    let mut unit: u64 = 1;
    proof {
        lemma_magnitude_bounds(width as nat);
    }
    while rest >= 10
        invariant
            rest >= 1,
            unit >= 1,
            unit * magnitude(rest as nat) == magnitude(width as nat),
            magnitude(width as nat) <= width,
        decreases rest,
    {
        proof {
            lemma_magnitude_bounds((rest / 10) as nat);
            assert(unit * (10 * magnitude((rest / 10) as nat)) == (unit * 10) * magnitude(
                (rest / 10) as nat,
            )) by (nonlinear_arith);
            assert(unit * 10 <= (unit * 10) * magnitude((rest / 10) as nat)) by (nonlinear_arith)
                requires
                    magnitude((rest / 10) as nat) >= 1,
                    unit >= 1,
            ;
        }
        unit = unit * 10;
        rest = rest / 10;
    }
    assert(unit * 1 == unit);
    unit
}

/// The rounded-down start and the excess of `value` over it.
fn snap_down(value: i128, step: i128) -> (out: (i128, i128))
    requires
        step > 0,
        -0x1_0000_0000_0000_0000_0000 <= value <= 0x1_0000_0000_0000_0000_0000,
        step <= 0x1_0000_0000_0000_0000_0000,
    ensures
        out.0 == floor_to(value as int, step as int),
        out.1 == value - out.0,
        0 <= out.1 < step,
{
    proof {
        lemma_fundamental_div_mod(value as int, step as int);
        lemma_mod_bound(value as int, step as int);
        assert(step * (value / step) == (value / step) * step) by (nonlinear_arith);
    }
    match value.checked_rem_euclid(step) {
        Some(excess) => (value - excess, excess),
        None => (value, 0),
    }
}

/// Computes the ticks of the range `[start, start + width]`: round values,
/// fewer than ten steps across the range where a multiplier allows it.
pub fn calc_ticks(start: i64, width: u64) -> (ticks: Vec<AxisTick>)
    requires
        width >= 1,
    ensures
        ticks@ == ticks_of(start as int, width as nat),
        ticks@.len() <= 10,
        forall|i: int|
            0 <= i < ticks@.len() ==> 0 < (#[trigger] ticks@[i]).pos_num <= ticks@[i].pos_den
                && ticks@[i].pos_den == 10 * width,
        forall|i: int, j: int| 0 <= i < j < ticks@.len() ==> ticks@[i].val < ticks@[j].val,
{
    let unit: i128 = magnitude_of(width) as i128;
    let from: i128 = 10 * (start as i128);
    let span: i128 = 10 * (width as i128);
    proof {
        lemma_magnitude_bounds(width as nat);
    }
    let mut step: i128 = unit;
    let mut snapped = snap_down(from, step);
    if !(span + snapped.1 < 10 * step) {
        step = unit * 2;
        snapped = snap_down(from, step);
        if !(span + snapped.1 < 10 * step) {
            step = unit * 5;
            snapped = snap_down(from, step);
            if !(span + snapped.1 < 10 * step) {
                step = unit * 10;
                snapped = snap_down(from, step);
            }
        }
    }
    let base: i128 = snapped.0;
    let reach: i128 = span + snapped.1;
    assert(step == tick_step(start as int, width as nat));
    assert(base == tick_base(start as int, width as nat));
    assert(reach < 11 * step);
    let count: i128 = reach / step;
    proof {
        lemma_fundamental_div_mod(reach as int, step as int);
        lemma_mod_bound(reach as int, step as int);
        assert(count == tick_count(start as int, width as nat));
        assert(count <= 10) by (nonlinear_arith)
            requires
                reach < 11 * step,
                step > 0,
                reach == step * count + reach % step,
                0 <= reach % step,
        ;
        assert(0 <= count) by (nonlinear_arith)
            requires
                reach >= 0,
                step > 0,
                reach == step * count + reach % step,
                reach % step < step,
        ;
    }
    let mut ticks: Vec<AxisTick> = Vec::new();
    let mut i: i128 = 0;
    let mut val: i128 = base;
    while i < count
        invariant
            0 <= i <= count <= 10,
            step > 0,
            step <= 0x1_0000_0000_0000_0000_0000,
            val == base + step * i,
            step * count <= reach,
            reach == span + (from - base),
            span == 10 * width,
            from == 10 * start,
            0 <= from - base < step,
            base == tick_base(start as int, width as nat),
            step == tick_step(start as int, width as nat),
            ticks@.len() == i,
            forall|k: int| 0 <= k < i ==> ticks@[k] == tick_at(start as int, width as nat, k),
            forall|k: int|
                0 <= k < i ==> 0 < (#[trigger] ticks@[k]).pos_num <= ticks@[k].pos_den
                    && ticks@[k].pos_den == span && ticks@[k].val == base + step * (k + 1),
        decreases count - i,
    {
        proof {
            assert(step * (i + 1) == step * i + step) by (nonlinear_arith);
            assert(step * (i + 1) <= step * count) by (nonlinear_arith)
                requires
                    i + 1 <= count,
                    step > 0,
            ;
        }
        val = val + step;
        ticks.push(AxisTick { val, pos_num: val - from, pos_den: span });
        i = i + 1;
    }
    proof {
        assert(ticks@ =~= ticks_of(start as int, width as nat));
        assert forall|a: int, b: int| 0 <= a < b < ticks@.len() implies ticks@[a].val
            < ticks@[b].val by {
            assert(step * (a + 1) < step * (b + 1)) by (nonlinear_arith)
                requires
                    a < b,
                    step > 0,
            ;
        }
    }
    ticks
}

} // verus!
