use mainframe::display::bar_chart::{generate_bar_chart, render, Glyph};
use mainframe::display::util::{get_color_for_range, ChartColor};

fn filled_count(glyphs: &[Glyph]) -> usize {
    glyphs
        .iter()
        .filter(|g| {
            g.symbol == '|'
                && g.color != ChartColor::DarkGray
                && g.color != ChartColor::Gray
        })
        .count()
}

fn empty_count(glyphs: &[Glyph]) -> usize {
    glyphs.iter().filter(|g| g.color == ChartColor::DarkGray).count()
}

#[test]
fn narrow_widths_yield_just_the_brackets() {
    for width in [0usize, 1, 2] {
        for value in [-50i64, 0, 42, 1000] {
            let g = render(value, (0, 100), width);
            assert_eq!(g.len(), 2);
            assert_eq!(g[0].symbol, '[');
            assert_eq!(g[1].symbol, ']');
            assert_eq!(g[0].color, ChartColor::Gray);
            assert_eq!(g[1].color, ChartColor::Gray);
        }
    }
}

#[test]
fn interior_always_sums_to_width_minus_two() {
    for width in [3usize, 4, 10, 20, 80] {
        for value in [-500i64, -1, 0, 17, 50, 99, 100, 500] {
            let g = render(value, (0, 100), width);
            assert_eq!(g.len(), width);
            assert_eq!(filled_count(&g) + empty_count(&g), width - 2);
        }
    }
}

#[test]
fn illegal_bounds_are_rejected() {
    for bounds in [(0i64, 0i64), (5, -5), (100, 100), (7, 3), (-10, -20)] {
        let r = generate_bar_chart(50, bounds, 0, 20);
        assert!(r.is_err());
    }
    // A non-positive upper bound is the scale divisor and is rejected too.
    assert!(generate_bar_chart(50, (-10, 0), 0, 20).is_err());

    assert!(generate_bar_chart(50, (0, 100), 0, 20).is_ok());
}

#[test]
fn three_quarters_of_twenty_wide() {
    // 18 interior glyphs; round(75 / 100 * 18) = round(13.5) = 14 filled.
    let g = render(75, (0, 100), 20);
    assert_eq!(g.len(), 20);
    assert_eq!(g[0].symbol, '[');
    assert_eq!(g[19].symbol, ']');

    let interior = &g[1..19];
    assert_eq!(interior.len(), 18);
    assert_eq!(filled_count(interior), 14);
    assert_eq!(empty_count(interior), 4);

    // The gradient is positional: green below 60%, yellow from there.
    assert_eq!(interior[0].color, ChartColor::Green);
    assert_eq!(interior[10].color, ChartColor::Green);
    assert_eq!(interior[11].color, ChartColor::Yellow);
    assert_eq!(interior[13].color, ChartColor::Yellow);
    assert_eq!(interior[14].color, ChartColor::DarkGray);
    assert_eq!(interior[17].color, ChartColor::DarkGray);
}

#[test]
fn out_of_range_values_clamp_the_fill() {
    let low = render(-500, (0, 100), 12);
    assert_eq!(filled_count(&low), 0);
    assert_eq!(empty_count(&low), 10);

    let high = render(100000, (0, 100), 12);
    assert_eq!(filled_count(&high), 10);
    assert_eq!(empty_count(&high), 0);
}

#[test]
fn label_width_narrows_the_bar() {
    // 20 columns in all, 6 reserved for the label: 14 remain for the
    // bar, 12 of them interior.
    let g = generate_bar_chart(50, (0, 100), 6, 20).unwrap();
    assert_eq!(g.len(), 14);
    assert_eq!(filled_count(&g) + empty_count(&g), 12);

    // A label as wide as the chart leaves just the brackets.
    let g = generate_bar_chart(50, (0, 100), 19, 20).unwrap();
    assert_eq!(g.len(), 2);
}

#[test]
fn color_buckets_follow_the_normalized_ratio() {
    assert_eq!(get_color_for_range(0, (0, 100)), ChartColor::Green);
    assert_eq!(get_color_for_range(59, (0, 100)), ChartColor::Green);
    assert_eq!(get_color_for_range(60, (0, 100)), ChartColor::Yellow);
    assert_eq!(get_color_for_range(84, (0, 100)), ChartColor::Yellow);
    assert_eq!(get_color_for_range(85, (0, 100)), ChartColor::Red);
    assert_eq!(get_color_for_range(200, (0, 100)), ChartColor::Red);
    assert_eq!(get_color_for_range(-1, (0, 100)), ChartColor::Red);

    // The bucket is taken over the normalized range, wherever it sits.
    assert_eq!(get_color_for_range(0, (-100, 100)), ChartColor::Green);
    assert_eq!(get_color_for_range(50, (-100, 100)), ChartColor::Yellow);
    assert_eq!(get_color_for_range(80, (-100, 100)), ChartColor::Red);
}
