//! Shared display helpers: the color-bucketing policy that turns a reading
//! and its expected bounds into a severity color.

use vstd::prelude::*;

verus! {

/// A color tag for rendered dashboard elements.
#[derive(Clone, Copy, Debug, PartialEq, Eq, Structural)]
pub enum ChartColor {
    /// The terminal's default foreground; used for plain text.
    Reset,
    /// The frame color of a bar chart's brackets.
    Gray,
    /// The muted color of a bar chart's unfilled glyphs.
    DarkGray,
    /// A reading comfortably inside its bounds.
    Green,
    /// A reading approaching the top of its bounds.
    Yellow,
    /// A reading at or beyond the top of its bounds, or below the bottom.
    Red,
}

/// The color bucket for the exact ratio `num / den`, where `den > 0`.
///
/// Ratios in `[0, 0.6)` read "ok" (green), ratios in `[0.6, 0.85)` read
/// "warn" (yellow), and everything else -- including negative ratios --
/// reads "critical" (red). The comparisons are carried out in twentieths,
/// so the thresholds are exact.
pub open spec fn color_for_ratio(num: int, den: int) -> ChartColor {
    if 0 <= 20 * num && 20 * num < 12 * den {
        ChartColor::Green
    } else if 12 * den <= 20 * num && 20 * num < 17 * den {
        ChartColor::Yellow
    } else {
        ChartColor::Red
    }
}

/// Buckets the exact ratio `num / den` without ever forming the quotient,
/// so no precision is lost on the thresholds.
pub(crate) fn color_for_ratio_exec(num: i128, den: i128) -> (c: ChartColor)
    requires
        den > 0,
        -0x1000000000000000000000000 < num < 0x1000000000000000000000000,
        den < 0x1000000000000000000000000,
    ensures
        c == color_for_ratio(num as int, den as int),
{
    if 0 <= num && 20 * num < 12 * den {
        ChartColor::Green
    } else if 12 * den <= 20 * num && 20 * num < 17 * den {
        ChartColor::Yellow
    } else {
        ChartColor::Red
    }
}

/// The severity color of reading `v` against the expected bounds `r`:
/// the normalized ratio `(v - r.0) / (r.1 - r.0)` is bucketed by
/// [`color_for_ratio`]. The bounds must name a non-empty range.
pub fn get_color_for_range(v: i64, r: (i64, i64)) -> (c: ChartColor)
    requires
        r.1 > r.0,
    ensures
        c == color_for_ratio(v - r.0, r.1 - r.0),
{
    let num: i128 = v as i128 - r.0 as i128;
    let den: i128 = r.1 as i128 - r.0 as i128;
    color_for_ratio_exec(num, den)
}

} // verus!
