//! Generates a text-only bar chart to display one-dimensional data.
//!
//! A chart line is a sequence of [`Glyph`]s: an opening bracket, a run of
//! filled bar glyphs whose colors form a left-to-right gradient, a run of
//! muted unfilled glyphs, and a closing bracket.

use vstd::prelude::*;

use crate::display::util::{color_for_ratio, color_for_ratio_exec, ChartColor};
use crate::errors::MFError;

verus! {

/// One rendered character of a bar chart, together with its color tag.
#[derive(Clone, Copy, Debug, PartialEq, Eq, Structural)]
pub struct Glyph {
    pub symbol: char,
    pub color: ChartColor,
}

/// `a / d` for `d > 0`, rounded to the nearest integer with halves rounded
/// away from zero.
pub open spec fn round_ratio(a: int, d: int) -> int {
    if a >= 0 {
        (2 * a + d) / (2 * d)
    } else {
        -((2 * (-a) + d) / (2 * d))
    }
}

/// How many of the `interior` bar glyphs are filled for reading `value`
/// against bounds `(lo, hi)`: the rounded value of
/// `((value - lo) / hi) * interior`, clamped into `[0, interior]`.
///
/// The scale divisor is `hi`, not `hi - lo`; callers use bounds like
/// `(0, 100)` where the two coincide. Out-of-bounds readings are clamped so
/// a chart line always has exactly `interior` bar glyphs.
pub open spec fn blocks_of(value: int, lo: int, hi: int, interior: int) -> int {
    let raw = round_ratio((value - lo) * interior, hi);
    if raw < 0 {
        0
    } else if raw > interior {
        interior
    } else {
        raw
    }
}

/// The color of the filled glyph at position `i` of `interior`: the gradient
/// is driven by the position alone, bucketing the exact percentage
/// `100 * i / interior` against the bounds, with the normalized divisor
/// `hi - lo`.
pub open spec fn position_color(i: int, interior: int, lo: int, hi: int) -> ChartColor {
    color_for_ratio(100 * i - lo * interior, (hi - lo) * interior)
}

/// A bracket glyph framing the chart.
pub open spec fn bracket_glyph(symbol: char) -> Glyph {
    Glyph { symbol, color: ChartColor::Gray }
}

/// The filled bar glyph at position `i`.
pub open spec fn filled_glyph(i: int, interior: int, lo: int, hi: int) -> Glyph {
    Glyph { symbol: '|', color: position_color(i, interior, lo, hi) }
}

/// An unfilled bar glyph; always muted.
pub open spec fn empty_glyph() -> Glyph {
    Glyph { symbol: '|', color: ChartColor::DarkGray }
}

/// The `interior` bar glyphs for reading `value` against `(lo, hi)`: filled
/// up to [`blocks_of`], unfilled after it.
pub open spec fn chart_interior(value: int, lo: int, hi: int, interior: int) -> Seq<Glyph> {
    Seq::new(
        interior as nat,
        |i: int|
            if i < blocks_of(value, lo, hi, interior) {
                filled_glyph(i, interior, lo, hi)
            } else {
                empty_glyph()
            },
    )
}

/// The whole chart line of `width` glyphs. A width of two or less leaves no
/// room for bar glyphs between the brackets, so just the brackets appear.
pub open spec fn chart_line(value: int, lo: int, hi: int, width: int) -> Seq<Glyph> {
    if width <= 2 {
        seq![bracket_glyph('['), bracket_glyph(']')]
    } else {
        seq![bracket_glyph('[')] + chart_interior(value, lo, hi, width - 2) + seq![
            bracket_glyph(']'),
        ]
    }
}

/// The products the chart forms between a 64-bit difference and a terminal
/// width stay comfortably inside 128-bit arithmetic.
proof fn lemma_product_bound(x: int, y: int)
    requires
        -0x20000000000000000 <= x <= 0x20000000000000000,
        0 <= y <= 100000,
    ensures
        -0x30d400000000000000000 <= x * y <= 0x30d400000000000000000,
{
    assert(-0x30d400000000000000000 <= x * y <= 0x30d400000000000000000)
        by (nonlinear_arith)
        requires
            -0x20000000000000000 <= x <= 0x20000000000000000,
            0 <= y <= 100000,
    ;
}

/// Computes [`blocks_of`] exactly, in wide intermediate arithmetic.
fn compute_blocks(value: i64, lo: i64, hi: i64, interior: usize) -> (b: usize)
    requires
        hi >= 1,
        interior <= 100000,
    ensures
        b == blocks_of(value as int, lo as int, hi as int, interior as int),
{
    let diff: i128 = value as i128 - lo as i128;
    proof {
        lemma_product_bound(diff as int, interior as int);
    }
    let a: i128 = diff * (interior as i128);
    let d: i128 = hi as i128;
    let raw: i128 = if a >= 0 {
        (2 * a + d) / (2 * d)
    } else {
        let n: i128 = -a;
        -((2 * n + d) / (2 * d))
    };
    if raw < 0 {
        0
    } else if raw > interior as i128 {
        interior
    } else {
        raw as usize
    }
}

/// Renders the bar chart line for reading `value` against the bounds
/// `(lo, hi)`, `width` glyphs wide in all.
///
/// The bounds must name a non-empty range with a positive upper bound (the
/// upper bound is the scale divisor); violating that is a contract error at
/// the call site. The width is limited to what a terminal could show.
///
/// Whatever the reading, a too-narrow width yields exactly the two
/// brackets, and any other width yields exactly `width` glyphs: the filled
/// and unfilled runs between the brackets always sum to `width - 2`.
pub fn render(value: i64, bounds: (i64, i64), width: usize) -> (r: Vec<Glyph>)
    requires
        bounds.1 > bounds.0,
        bounds.1 >= 1,
        width <= 100000,
    ensures
        r@ == chart_line(value as int, bounds.0 as int, bounds.1 as int, width as int),
        width <= 2 ==> r@.len() == 2,
        width > 2 ==> r@.len() == width,
{
    let lo = bounds.0;
    let hi = bounds.1;
    let mut r: Vec<Glyph> = Vec::new();
    r.push(Glyph { symbol: '[', color: ChartColor::Gray });

    if width <= 2 {
        r.push(Glyph { symbol: ']', color: ChartColor::Gray });
        proof {
            assert(r@ =~= chart_line(value as int, lo as int, hi as int, width as int));
        }
        return r;
    }

    let interior: usize = width - 2;
    let blocks: usize = compute_blocks(value, lo, hi, interior);

    let mut i: usize = 0;
    while i < interior
        invariant
            bounds.1 > bounds.0,
            bounds.0 == lo,
            bounds.1 == hi,
            interior == width - 2,
            2 < width <= 100000,
            i <= interior,
            blocks == blocks_of(value as int, lo as int, hi as int, interior as int),
            r@.len() == 1 + i,
            r@[0] == bracket_glyph('['),
            forall|j: int|
                0 <= j < i ==> r@[1 + j] == chart_interior(
                    value as int,
                    lo as int,
                    hi as int,
                    interior as int,
                )[j],
        decreases interior - i,
    {
        if i < blocks {
            proof {
                lemma_product_bound(lo as int, interior as int);
                lemma_product_bound(hi - lo, interior as int);
                vstd::arithmetic::mul::lemma_mul_strictly_positive(hi - lo, interior as int);
            }
            let num: i128 = 100 * (i as i128) - (lo as i128) * (interior as i128);
            let den: i128 = (hi as i128 - lo as i128) * (interior as i128);
            let c = color_for_ratio_exec(num, den);
            r.push(Glyph { symbol: '|', color: c });
        } else {
            r.push(Glyph { symbol: '|', color: ChartColor::DarkGray });
        }
        i = i + 1;
    }

    r.push(Glyph { symbol: ']', color: ChartColor::Gray });
    proof {
        assert(r@ =~= chart_line(value as int, lo as int, hi as int, width as int));
    }
    r
}

/// The filled and unfilled runs of any chart line with room for bar glyphs
/// partition its interior: the filled count lies in `[0, width - 2]` and
/// the unfilled count is exactly the remainder, so the two always sum to
/// `width - 2`.
pub proof fn lemma_interior_split(value: int, lo: int, hi: int, width: int)
    requires
        hi > lo,
        hi >= 1,
        width > 2,
    ensures
        0 <= blocks_of(value, lo, hi, width - 2) <= width - 2,
        chart_interior(value, lo, hi, width - 2).len() == width - 2,
        chart_line(value, lo, hi, width).len() == width,
        forall|i: int|
            0 <= i < blocks_of(value, lo, hi, width - 2) ==> #[trigger] chart_interior(
                value,
                lo,
                hi,
                width - 2,
            )[i] == filled_glyph(i, width - 2, lo, hi),
        forall|i: int|
            blocks_of(value, lo, hi, width - 2) <= i < width - 2 ==> #[trigger] chart_interior(
                value,
                lo,
                hi,
                width - 2,
            )[i] == empty_glyph(),
{
}

/// Generates the bar glyphs of a labeled chart that is `width` characters
/// wide in all, of which the first `name_width` are reserved for the label
/// that sits to the left of the chart.
///
/// Bounds where the upper end does not exceed the lower, or is not
/// positive, are illegal bar chart bounds: they are rejected with an error,
/// never silently clamped. On success the glyphs are the chart line for the
/// width that remains after the label, at least the two brackets.
pub fn generate_bar_chart(value: i64, bounds: (i64, i64), name_width: usize, width: usize) -> (r:
    Result<Vec<Glyph>, MFError>)
    requires
        width <= 100000,
    ensures
        (bounds.1 <= bounds.0 || bounds.1 < 1) <==> r is Err,
        match r {
            Ok(g) => g@ == chart_line(
                value as int,
                bounds.0 as int,
                bounds.1 as int,
                if width <= name_width + 2 {
                    2
                } else {
                    width - name_width
                },
            ),
            Err(_) => true,
        },
{
    if bounds.1 <= bounds.0 || bounds.1 < 1 {
        return Err(MFError(String::from_str("Illegal bar chart bounds")));
    }

    let bar_width: usize = if width <= 2 || width - 2 <= name_width {
        2
    } else {
        width - name_width
    };
    Ok(render(value, bounds, bar_width))
}

} // verus!

