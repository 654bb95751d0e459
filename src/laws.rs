use vstd::prelude::*;

use crate::color::css_color_ok;
use crate::document::{
    document, fill_path, line_commands, point_text, stroke_path,
};
use crate::geometry::{
    baseline, drawable, end_x, lemma_max_bounds, lemma_min_bounds, max_of, min_of, y_of, Scaling,
};
use crate::text::{decimal, digit_char, fraction_digits, padded, ratio_text};
use crate::{chart_result, ChartError};

verus! {

/// The number of times `c` occurs in `s`.
pub open spec fn occurrences(s: Seq<char>, c: char) -> nat
    decreases s.len(),
{
    if s.len() == 0 {
        0
    } else {
        occurrences(s.drop_last(), c) + if s.last() == c {
            1nat
        } else {
            0nat
        }
    }
}

pub proof fn lemma_occurrences_concat(a: Seq<char>, b: Seq<char>, c: char)
    ensures
        occurrences(a + b, c) == occurrences(a, c) + occurrences(b, c),
    decreases b.len(),
{
    if b.len() == 0 {
        assert(a + b =~= a);
    } else {
        lemma_occurrences_concat(a, b.drop_last(), c);
        assert((a + b).drop_last() =~= a + b.drop_last());
    }
}

proof fn lemma_occurrences_push(s: Seq<char>, x: char, c: char)
    ensures
        occurrences(s.push(x), c) == occurrences(s, c) + if x == c {
            1nat
        } else {
            0nat
        },
{
    assert(s.push(x).drop_last() =~= s);
}

proof fn lemma_decimal_letter_free(n: nat)
    ensures
        occurrences(decimal(n), 'L') == 0,
    decreases n,
{
    if n < 10 {
        lemma_occurrences_push(Seq::empty(), digit_char(n), 'L');
        assert(seq![digit_char(n)] =~= Seq::<char>::empty().push(digit_char(n)));
    } else {
        lemma_decimal_letter_free(n / 10);
        lemma_occurrences_push(decimal(n / 10), digit_char(n % 10), 'L');
    }
}

proof fn lemma_padded_letter_free(f: nat, w: nat)
    ensures
        occurrences(padded(f, w), 'L') == 0,
    decreases w,
{
    if w > 0 {
        lemma_padded_letter_free(f / 10, (w - 1) as nat);
        lemma_occurrences_push(padded(f / 10, (w - 1) as nat), digit_char(f % 10), 'L');
    }
}

proof fn lemma_fraction_letter_free(f: nat, w: nat)
    ensures
        occurrences(fraction_digits(f, w), 'L') == 0,
    decreases w,
{
    if w > 0 && f % 10 == 0 {
        lemma_fraction_letter_free(f / 10, (w - 1) as nat);
    } else {
        lemma_padded_letter_free(f, w);
    }
}

proof fn lemma_ratio_letter_free(num: nat, den: nat)
    ensures
        occurrences(ratio_text(num, den), 'L') == 0,
{
    let r = (2 * num * 1000000 + den) / (2 * den);
    lemma_decimal_letter_free((r / 1000000) as nat);
    if r % 1000000 != 0 {
        let whole = decimal((r / 1000000) as nat);
        lemma_fraction_letter_free((r % 1000000) as nat, 6);
        lemma_occurrences_push(whole, '.', 'L');
        assert(whole + seq!['.'] =~= whole.push('.'));
        lemma_occurrences_concat(
            whole + seq!['.'],
            fraction_digits((r % 1000000) as nat, 6),
            'L',
        );
    }
}

proof fn lemma_point_letter_free(scaling: Scaling, data: Seq<u32>, width: nat, height: nat, i: int)
    ensures
        occurrences(point_text(scaling, data, width, height, i), 'L') == 0,
{
    reveal_strlit(",");
    let x = crate::geometry::x_of(scaling, data.len(), width, i as nat);
    let y = y_of(scaling, data, height, i);
    lemma_ratio_letter_free(x.0, x.1);
    lemma_ratio_letter_free(y.0, y.1);
    lemma_occurrences_push(ratio_text(x.0, x.1), ',', 'L');
    assert(ratio_text(x.0, x.1) + ","@ =~= ratio_text(x.0, x.1).push(','));
    lemma_occurrences_concat(ratio_text(x.0, x.1) + ","@, ratio_text(y.0, y.1), 'L');
}

proof fn lemma_line_commands_count(scaling: Scaling, data: Seq<u32>, width: nat, height: nat, k: nat)
    ensures
        occurrences(line_commands(scaling, data, width, height, k), 'L') == k,
    decreases k,
{
    if k > 0 {
        reveal_strlit(" L");
        let prev = line_commands(scaling, data, width, height, (k - 1) as nat);
        lemma_line_commands_count(scaling, data, width, height, (k - 1) as nat);
        lemma_point_letter_free(scaling, data, width, height, k - 1);
        lemma_occurrences_push(prev, ' ', 'L');
        lemma_occurrences_push(prev.push(' '), 'L', 'L');
        assert(prev + " L"@ =~= prev.push(' ').push('L'));
        lemma_occurrences_concat(
            prev + " L"@,
            point_text(scaling, data, width, height, k - 1),
            'L',
        );
    }
}

/// The outline has exactly one line command per sample: the letter `L`
/// occurs in it once for each sample and nowhere else.
pub proof fn law_one_line_command_per_sample(
    scaling: Scaling,
    data: Seq<u32>,
    width: nat,
    height: nat,
)
    ensures
        occurrences(stroke_path(scaling, data, width, height), 'L') == data.len(),
{
    reveal_strlit("M");
    lemma_point_letter_free(scaling, data, width, height, 0);
    lemma_line_commands_count(scaling, data, width, height, data.len());
    lemma_occurrences_push(Seq::empty(), 'M', 'L');
    assert("M"@ =~= Seq::<char>::empty().push('M'));
    lemma_occurrences_concat("M"@, point_text(scaling, data, width, height, 0), 'L');
    lemma_occurrences_concat(
        "M"@ + point_text(scaling, data, width, height, 0),
        line_commands(scaling, data, width, height, data.len()),
        'L',
    );
}

/// A whole number is printed as its decimal numeral, with no fraction.
pub proof fn lemma_whole_ratio(n: nat)
    ensures
        ratio_text(n, 1) == decimal(n),
{
    let m = n * 1000000;
    assert((2 * n * 1000000 + 1) / 2 == m) by {
        vstd::arithmetic::div_mod::lemma_fundamental_div_mod_converse(
            (2 * n * 1000000 + 1) as int,
            2,
            m as int,
            1,
        );
    }
    vstd::arithmetic::div_mod::lemma_fundamental_div_mod_converse(m as int, 1000000, n as int, 0);
}

/// Under index units, sample `i` is printed as the whole numbers `i` and
/// the distance of the sample below the largest sample.
pub proof fn law_index_unit_points_are_whole(data: Seq<u32>, width: nat, height: nat, i: int)
    requires
        0 <= i < data.len(),
    ensures
        point_text(Scaling::IndexUnit, data, width, height, i) == decimal(i as nat) + ","@
            + decimal((max_of(data) - data[i]) as nat),
{
    lemma_whole_ratio(i as nat);
    lemma_whole_ratio((max_of(data) - data[i]) as nat);
}

/// A larger sample gets a strictly smaller y coordinate, so it is drawn
/// higher. All y coordinates of a chart share one positive denominator.
pub proof fn law_higher_sample_plots_higher(
    scaling: Scaling,
    data: Seq<u32>,
    height: nat,
    i: int,
    j: int,
)
    requires
        drawable(data, scaling),
        scaling is PixelBox ==> height > 0,
        0 <= i < data.len(),
        0 <= j < data.len(),
        data[i] > data[j],
    ensures
        y_of(scaling, data, height, i).1 == y_of(scaling, data, height, j).1,
        y_of(scaling, data, height, i).1 > 0,
        y_of(scaling, data, height, i).0 < y_of(scaling, data, height, j).0,
{
    lemma_max_bounds(data);
    let top = max_of(data);
    if scaling is PixelBox {
        let a = top - data[i];
        let b = top - data[j];
        assert(a * height < b * height) by (nonlinear_arith)
            requires
                0 <= a < b,
                height > 0,
        ;
    }
}

/// Every point lies on or above the baseline: the baseline is the bottom
/// edge of the chart.
pub proof fn law_points_above_baseline(scaling: Scaling, data: Seq<u32>, height: nat, i: int)
    requires
        drawable(data, scaling),
        0 <= i < data.len(),
    ensures
        y_of(scaling, data, height, i).0 <= baseline(scaling, data, height) * y_of(
            scaling,
            data,
            height,
            i,
        ).1,
{
    lemma_max_bounds(data);
    lemma_min_bounds(data, max_of(data));
    if scaling is PixelBox {
        let a = max_of(data) - data[i];
        let d = max_of(data) - min_of(data);
        assert(a * height <= height * d) by (nonlinear_arith)
            requires
                0 <= a <= d,
        ;
    }
}

/// The filled area is the outline followed by a line down to the baseline
/// at the end of the chart, a line back along the baseline to x = 0, and a
/// close command.
pub proof fn law_fill_closes_to_baseline(scaling: Scaling, data: Seq<u32>, width: nat, height: nat)
    ensures
        fill_path(scaling, data, width, height) == stroke_path(scaling, data, width, height)
            + " L"@ + decimal(end_x(scaling, data.len(), width)) + ","@ + decimal(
            baseline(scaling, data, height),
        ) + " L0,"@ + decimal(baseline(scaling, data, height)) + " z"@,
{
    let s = stroke_path(scaling, data, width, height);
    let e = decimal(end_x(scaling, data.len(), width));
    let b = decimal(baseline(scaling, data, height));
    assert(fill_path(scaling, data, width, height) =~= s + " L"@ + e + ","@ + b + " L0,"@ + b
        + " z"@);
}

/// The colors stand in the document exactly as given: the fill color as the
/// value of the area's `fill` attribute, the line color as the value of the
/// outline's `stroke` attribute.
pub proof fn law_colors_pass_through(
    scaling: Scaling,
    data: Seq<u32>,
    title: Seq<char>,
    description: Seq<char>,
    width: nat,
    height: nat,
    line_color: Seq<char>,
    fill_color: Seq<char>,
)
    ensures
        exists|a: Seq<char>, b: Seq<char>|
            document(scaling, data, title, description, width, height, line_color, fill_color)
                == a + "\" fill=\""@ + fill_color + "\" stroke=\"transparent\"/>\n"@ + b,
        exists|a: Seq<char>, b: Seq<char>|
            document(scaling, data, title, description, width, height, line_color, fill_color)
                == a + "\" fill=\"transparent\" stroke=\""@ + line_color + "\" stroke-width=\"4\""@
                + b,
{
    let doc = document(scaling, data, title, description, width, height, line_color, fill_color);
    let head = crate::document::svg_open(scaling, data, width, height) + crate::document::labels(
        title,
        description,
    );
    let stroke_el = crate::document::stroke_element(scaling, data, width, height, line_color);
    let fill_el = crate::document::fill_element(scaling, data, width, height, fill_color);
    let a1 = head + "<path d=\""@ + fill_path(scaling, data, width, height);
    let b1 = stroke_el + "</svg>"@;
    assert(doc =~= a1 + "\" fill=\""@ + fill_color + "\" stroke=\"transparent\"/>\n"@ + b1);
    let a2 = head + fill_el + "<path d=\""@ + stroke_path(scaling, data, width, height);
    let b2 = crate::document::stroke_effect(scaling) + "/>\n"@ + "</svg>"@;
    assert(doc =~= a2 + "\" fill=\"transparent\" stroke=\""@ + line_color
        + "\" stroke-width=\"4\""@ + b2);
}

/// Two results agree: the same text, or the same error with the same
/// offending color text.
pub open spec fn same_result(a: Result<String, ChartError>, b: Result<String, ChartError>) -> bool {
    match (a, b) {
        (Ok(x), Ok(y)) => x@ == y@,
        (Err(ChartError::InvalidColor(r1, v1)), Err(ChartError::InvalidColor(r2, v2))) => r1 == r2
            && v1@ == v2@,
        (Err(e1), Err(e2)) => e1 == e2,
        _ => false,
    }
}

/// Two charts made from the same arguments agree exactly.
pub proof fn law_deterministic(
    r1: Result<String, ChartError>,
    r2: Result<String, ChartError>,
    data: Seq<u32>,
    title: Seq<char>,
    description: Seq<char>,
    width: nat,
    height: nat,
    line_color: Seq<char>,
    fill_color: Seq<char>,
    scaling: Scaling,
)
    requires
        chart_result(
            r1,
            css_color_ok(line_color),
            css_color_ok(fill_color),
            data,
            title,
            description,
            width,
            height,
            line_color,
            fill_color,
            scaling,
        ),
        chart_result(
            r2,
            css_color_ok(line_color),
            css_color_ok(fill_color),
            data,
            title,
            description,
            width,
            height,
            line_color,
            fill_color,
            scaling,
        ),
    ensures
        same_result(r1, r2),
{
}

/// A color that is not a CSS color makes the request fail, whatever the
/// other arguments are.
pub proof fn law_rejected_color_fails(
    r: Result<String, ChartError>,
    data: Seq<u32>,
    title: Seq<char>,
    description: Seq<char>,
    width: nat,
    height: nat,
    line_color: Seq<char>,
    fill_color: Seq<char>,
    scaling: Scaling,
)
    requires
        chart_result(
            r,
            css_color_ok(line_color),
            css_color_ok(fill_color),
            data,
            title,
            description,
            width,
            height,
            line_color,
            fill_color,
            scaling,
        ),
        !css_color_ok(line_color) || !css_color_ok(fill_color),
    ensures
        r matches Err(ChartError::InvalidColor(_, _)),
{
}

} // verus!
