use vstd::prelude::*;

use crate::geometry::{
    baseline, drawable, end_x, extremes, max_of, min_of, point, x_of, y_of, Scaling,
};
use crate::text::{decimal, escaped, push_decimal, push_escaped, push_ratio, ratio_text};

verus! {

/// The text of a rational coordinate.
pub open spec fn coord_text(c: (nat, nat)) -> Seq<char> {
    ratio_text(c.0, c.1)
}

/// `x,y` for sample `i`.
pub open spec fn point_text(
    scaling: Scaling,
    data: Seq<u32>,
    width: nat,
    height: nat,
    i: int,
) -> Seq<char> {
    coord_text(x_of(scaling, data.len(), width, i as nat)) + ","@ + coord_text(
        y_of(scaling, data, height, i),
    )
}

/// One absolute line command ` Lx,y` for each of the first `k` samples.
pub open spec fn line_commands(
    scaling: Scaling,
    data: Seq<u32>,
    width: nat,
    height: nat,
    k: nat,
) -> Seq<char>
    decreases k,
{
    if k == 0 {
        Seq::empty()
    } else {
        line_commands(scaling, data, width, height, (k - 1) as nat) + " L"@ + point_text(
            scaling,
            data,
            width,
            height,
            k - 1,
        )
    }
}

/// The outline: a move to the first point, then a line to every point.
pub open spec fn stroke_path(scaling: Scaling, data: Seq<u32>, width: nat, height: nat) -> Seq<
    char,
> {
    "M"@ + point_text(scaling, data, width, height, 0) + line_commands(
        scaling,
        data,
        width,
        height,
        data.len(),
    )
}

/// The closing segments of the filled area: down to the baseline at the
/// end, back to the baseline at x = 0, and close.
pub open spec fn fill_tail(scaling: Scaling, data: Seq<u32>, width: nat, height: nat) -> Seq<
    char,
> {
    let base = decimal(baseline(scaling, data, height));
    " L"@ + decimal(end_x(scaling, data.len(), width)) + ","@ + base + " L0,"@ + base + " z"@
}

/// The filled area: the outline followed by its closing segments.
pub open spec fn fill_path(scaling: Scaling, data: Seq<u32>, width: nat, height: nat) -> Seq<
    char,
> {
    stroke_path(scaling, data, width, height) + fill_tail(scaling, data, width, height)
}

/// The `viewBox` value.
pub open spec fn view_box(scaling: Scaling, data: Seq<u32>, width: nat, height: nat) -> Seq<
    char,
> {
    match scaling {
        Scaling::IndexUnit => "0 0 "@ + decimal((data.len() - 1) as nat) + " "@ + decimal(
            max_of(data),
        ),
        Scaling::PixelBox => "0 0 "@ + decimal(width) + " "@ + decimal(height),
    }
}

/// The opening tag of the document.
pub open spec fn svg_open(scaling: Scaling, data: Seq<u32>, width: nat, height: nat) -> Seq<
    char,
> {
    "<svg height=\""@ + decimal(height) + "px\" preserveAspectRatio=\"none\" role=\"img\" viewBox=\""@
        + view_box(scaling, data, width, height) + "\" width=\""@ + decimal(width)
        + "px\" xmlns=\"http://www.w3.org/2000/svg\">\n"@
}

/// The title and description elements.
pub open spec fn labels(title: Seq<char>, description: Seq<char>) -> Seq<char> {
    "<title>\n"@ + escaped(title) + "\n</title>\n<desc>\n"@ + escaped(description)
        + "\n</desc>\n"@
}

/// The filled-area element.
pub open spec fn fill_element(
    scaling: Scaling,
    data: Seq<u32>,
    width: nat,
    height: nat,
    fill_color: Seq<char>,
) -> Seq<char> {
    "<path d=\""@ + fill_path(scaling, data, width, height) + "\" fill=\""@ + fill_color
        + "\" stroke=\"transparent\"/>\n"@
}

/// The attribute that keeps the stroke width constant under index-unit scaling.
pub open spec fn stroke_effect(scaling: Scaling) -> Seq<char> {
    match scaling {
        Scaling::IndexUnit => " vector-effect=\"non-scaling-stroke\""@,
        Scaling::PixelBox => Seq::empty(),
    }
}

/// The outline element.
pub open spec fn stroke_element(
    scaling: Scaling,
    data: Seq<u32>,
    width: nat,
    height: nat,
    line_color: Seq<char>,
) -> Seq<char> {
    "<path d=\""@ + stroke_path(scaling, data, width, height)
        + "\" fill=\"transparent\" stroke=\""@ + line_color + "\" stroke-width=\"4\""@
        + stroke_effect(scaling) + "/>\n"@
}

/// The whole document: the area is drawn first, the outline on top of it.
pub open spec fn document(
    scaling: Scaling,
    data: Seq<u32>,
    title: Seq<char>,
    description: Seq<char>,
    width: nat,
    height: nat,
    line_color: Seq<char>,
    fill_color: Seq<char>,
) -> Seq<char> {
    svg_open(scaling, data, width, height) + labels(title, description) + fill_element(
        scaling,
        data,
        width,
        height,
        fill_color,
    ) + stroke_element(scaling, data, width, height, line_color) + "</svg>"@
}

fn push_point(
    s: &mut String,
    data: &Vec<u32>,
    i: usize,
    scaling: Scaling,
    width: u32,
    height: u32,
    top: u32,
    bottom: u32,
)
    requires
        i < data.len(),
        drawable(data@, scaling),
        top == max_of(data@),
        bottom == min_of(data@),
    ensures
        final(s)@ == old(s)@ + point_text(scaling, data@, width as nat, height as nat, i as int),
{
    let p = point(data, i, scaling, width, height, top, bottom);
    push_ratio(s, p.0, p.1);
    s.append(",");
    push_ratio(s, p.2, p.3);
    assert(final(s)@ =~= old(s)@ + point_text(scaling, data@, width as nat, height as nat, i as int));
}

fn push_stroke_path(
    s: &mut String,
    data: &Vec<u32>,
    scaling: Scaling,
    width: u32,
    height: u32,
    top: u32,
    bottom: u32,
)
    requires
        drawable(data@, scaling),
        top == max_of(data@),
        bottom == min_of(data@),
    ensures
        final(s)@ == old(s)@ + stroke_path(scaling, data@, width as nat, height as nat),
{
    let ghost w = width as nat;
    let ghost h = height as nat;
    s.append("M");
    push_point(s, data, 0, scaling, width, height, top, bottom);
    let ghost head = s@;
    let mut i: usize = 0;
    while i < data.len()
        invariant
            i <= data.len(),
            drawable(data@, scaling),
            top == max_of(data@),
            bottom == min_of(data@),
            w == width as nat,
            h == height as nat,
            s@ == head + line_commands(scaling, data@, w, h, i as nat),
        decreases data.len() - i,
    {
        let ghost prev = s@;
        s.append(" L");
        push_point(s, data, i, scaling, width, height, top, bottom);
        assert(line_commands(scaling, data@, w, h, (i + 1) as nat) == line_commands(
            scaling,
            data@,
            w,
            h,
            i as nat,
        ) + " L"@ + point_text(scaling, data@, w, h, i as int));
        assert(s@ == prev + " L"@ + point_text(scaling, data@, w, h, i as int));
        assert(s@ =~= head + line_commands(scaling, data@, w, h, (i + 1) as nat));
        i = i + 1;
    }
    assert(final(s)@ =~= old(s)@ + stroke_path(scaling, data@, w, h));
}

fn push_fill_tail(s: &mut String, data: &Vec<u32>, scaling: Scaling, width: u32, height: u32, top: u32)
    requires
        top == max_of(data@),
    ensures
        final(s)@ == old(s)@ + fill_tail(scaling, data@, width as nat, height as nat),
{
    let (end, base): (u128, u128) = match scaling {
        Scaling::IndexUnit => (data.len() as u128, top as u128),
        Scaling::PixelBox => (width as u128, height as u128),
    };
    s.append(" L");
    push_decimal(s, end);
    s.append(",");
    push_decimal(s, base);
    s.append(" L0,");
    push_decimal(s, base);
    s.append(" z");
    assert(final(s)@ =~= old(s)@ + fill_tail(scaling, data@, width as nat, height as nat));
}

fn push_open(s: &mut String, data: &Vec<u32>, scaling: Scaling, width: u32, height: u32, top: u32)
    requires
        data@.len() > 0,
        top == max_of(data@),
    ensures
        final(s)@ == old(s)@ + svg_open(scaling, data@, width as nat, height as nat),
{
    s.append("<svg height=\"");
    push_decimal(s, height as u128);
    s.append("px\" preserveAspectRatio=\"none\" role=\"img\" viewBox=\"");
    let ghost before_box = s@;
    s.append("0 0 ");
    match scaling {
        Scaling::IndexUnit => {
            push_decimal(s, (data.len() - 1) as u128);
            s.append(" ");
            push_decimal(s, top as u128);
        },
        Scaling::PixelBox => {
            push_decimal(s, width as u128);
            s.append(" ");
            push_decimal(s, height as u128);
        },
    }
    assert(s@ =~= before_box + view_box(scaling, data@, width as nat, height as nat));
    s.append("\" width=\"");
    push_decimal(s, width as u128);
    s.append("px\" xmlns=\"http://www.w3.org/2000/svg\">\n");
    assert(final(s)@ =~= old(s)@ + svg_open(scaling, data@, width as nat, height as nat));
}

fn push_labels(s: &mut String, title: &str, description: &str)
    ensures
        final(s)@ == old(s)@ + labels(title@, description@),
{
    s.append("<title>\n");
    push_escaped(s, title);
    s.append("\n</title>\n<desc>\n");
    push_escaped(s, description);
    s.append("\n</desc>\n");
    assert(final(s)@ =~= old(s)@ + labels(title@, description@));
}

fn push_fill_element(
    s: &mut String,
    data: &Vec<u32>,
    scaling: Scaling,
    width: u32,
    height: u32,
    fill_color: &str,
    top: u32,
    bottom: u32,
)
    requires
        drawable(data@, scaling),
        top == max_of(data@),
        bottom == min_of(data@),
    ensures
        final(s)@ == old(s)@ + fill_element(
            scaling,
            data@,
            width as nat,
            height as nat,
            fill_color@,
        ),
{
    s.append("<path d=\"");
    push_stroke_path(s, data, scaling, width, height, top, bottom);
    push_fill_tail(s, data, scaling, width, height, top);
    s.append("\" fill=\"");
    s.append(fill_color);
    s.append("\" stroke=\"transparent\"/>\n");
    assert(final(s)@ =~= old(s)@ + fill_element(
        scaling,
        data@,
        width as nat,
        height as nat,
        fill_color@,
    ));
}

fn push_stroke_element(
    s: &mut String,
    data: &Vec<u32>,
    scaling: Scaling,
    width: u32,
    height: u32,
    line_color: &str,
    top: u32,
    bottom: u32,
)
    requires
        drawable(data@, scaling),
        top == max_of(data@),
        bottom == min_of(data@),
    ensures
        final(s)@ == old(s)@ + stroke_element(
            scaling,
            data@,
            width as nat,
            height as nat,
            line_color@,
        ),
{
    s.append("<path d=\"");
    push_stroke_path(s, data, scaling, width, height, top, bottom);
    s.append("\" fill=\"transparent\" stroke=\"");
    s.append(line_color);
    s.append("\" stroke-width=\"4\"");
    let ghost before_effect = s@;
    match scaling {
        Scaling::IndexUnit => {
            s.append(" vector-effect=\"non-scaling-stroke\"");
        },
        Scaling::PixelBox => {},
    }
    assert(s@ =~= before_effect + stroke_effect(scaling));
    s.append("/>\n");
    assert(final(s)@ =~= old(s)@ + stroke_element(
        scaling,
        data@,
        width as nat,
        height as nat,
        line_color@,
    ));
}

/// The document for a drawable series and accepted colors.
pub fn render(
    data: &Vec<u32>,
    title: &str,
    description: &str,
    width: u32,
    height: u32,
    line_color: &str,
    fill_color: &str,
    scaling: Scaling,
) -> (r: String)
    requires
        drawable(data@, scaling),
    ensures
        r@ == document(
            scaling,
            data@,
            title@,
            description@,
            width as nat,
            height as nat,
            line_color@,
            fill_color@,
        ),
{
    let ghost w = width as nat;
    let ghost h = height as nat;
    let (top, bottom) = extremes(data);
    let mut s = String::new();
    push_open(&mut s, data, scaling, width, height, top);
    push_labels(&mut s, title, description);
    push_fill_element(&mut s, data, scaling, width, height, fill_color, top, bottom);
    push_stroke_element(&mut s, data, scaling, width, height, line_color, top, bottom);
    let ghost body = s@;
    s.append("</svg>");
    assert(s@ =~= document(scaling, data@, title@, description@, w, h, line_color@, fill_color@));
    s
}

} // verus!
