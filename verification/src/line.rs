//! Line-width emulation: one native thick line where the hardware allows it,
//! otherwise a stack of unit-width passes, each shifted vertically.
//!
//! Widths and the hardware ceiling are given in hundredths of a pixel.
//! A pass offset is a numerator over `offset_scale(surface_height)` in
//! clip-space units.

use vstd::prelude::*;

verus! {

/// How one line strip is put on screen.
#[derive(Clone, Debug)]
pub enum LinePlan {
    /// One draw at this native width (hundredths of a pixel).
    Native { width: u32 },
    /// One unit-width draw per offset, in order.
    Stacked { offsets: Vec<i64> },
}

/// Whether a line of `width` is drawn natively under `ceiling`: the width may
/// exceed the ceiling by a tenth of a pixel at most.
pub open spec fn draws_native(width: u32, ceiling: u32) -> bool {
    width <= ceiling + 10
}

/// The width in whole pixels, halves rounded up: the number of passes.
pub open spec fn pass_count(width: u32) -> nat {
    ((width + 50) / 100) as nat
}

/// Numerator of the clip-space offset of pass `pass`: with `w` the width in
/// pixels, the offset is `2 * (w / 2 - 1/2 + pass) / surface_height`, which
/// is `(width - 100 + 200 * pass) / (100 * surface_height)`.
pub open spec fn pass_offset(width: u32, pass: int) -> int {
    width - 100 + 200 * pass
}

/// All pass offsets of an emulated line, bottom pass first.
pub open spec fn stacked_offsets(width: u32) -> Seq<i64> {
    Seq::new(pass_count(width), |pass: int| pass_offset(width, pass) as i64)
}

/// The denominator under every pass offset.
pub open spec fn offset_scale_spec(surface_height: u32) -> int {
    100 * surface_height
}

/// The denominator under every pass offset, for a surface of this height.
pub fn offset_scale(surface_height: u32) -> (scale: u64)
    ensures
        scale == offset_scale_spec(surface_height),
{
    let h: u64 = surface_height as u64;
    100 * h
}

/// Decides how a line of `width` is drawn on hardware whose native ceiling is
/// `ceiling`.
pub fn plan_line(width: u32, ceiling: u32) -> (plan: LinePlan)
    ensures
        match plan {
            LinePlan::Native { width: native } => draws_native(width, ceiling) && native == width,
            LinePlan::Stacked { offsets } => !draws_native(width, ceiling) && offsets@
                == stacked_offsets(width),
        },
{
    let wide: u64 = width as u64;
    let limit: u64 = ceiling as u64;
    if wide <= limit + 10 {
        return LinePlan::Native { width };
    }
    let passes: u64 = (wide + 50) / 100;
    let base: i64 = width as i64;
    let mut offsets: Vec<i64> = Vec::new();
    let mut pass: u64 = 0;
    let mut offset: i64 = base - 100;
    while pass < passes
        invariant
            passes == pass_count(width),
            pass <= passes,
            offset == pass_offset(width, pass as int),
            offsets@.len() == pass,
            forall|k: int| 0 <= k < pass ==> offsets@[k] == pass_offset(width, k) as i64,
        decreases passes - pass,
    {
        offsets.push(offset);
        offset = offset + 200;
        pass = pass + 1;
    }
    proof {
        assert(offsets@ =~= stacked_offsets(width));
    }
    LinePlan::Stacked { offsets }
}

/// Just above the ceiling a line is still drawn natively; five pixels above
/// it, the line is emulated with as many passes as its rounded width.
pub proof fn lemma_plan_near_ceiling(ceiling: u32)
    ensures
        ceiling + 5 <= u32::MAX ==> draws_native((ceiling + 5) as u32, ceiling),
        ceiling + 500 <= u32::MAX ==> !draws_native((ceiling + 500) as u32, ceiling)
            && stacked_offsets((ceiling + 500) as u32).len() == pass_count((ceiling + 500) as u32),
{
}

/// Consecutive passes of an emulated line lie one pixel apart, and the first
/// sits half the width, less half a pixel, above the unshifted line.
pub proof fn lemma_pass_spacing(width: u32, pass: int)
    ensures
        pass_offset(width, 0) == width - 100,
        pass_offset(width, pass + 1) - pass_offset(width, pass) == 200,
{
}

} // verus!
