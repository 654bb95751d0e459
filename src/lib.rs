//! Sparkline charts rendered as SVG documents.
//!
//! A series of samples becomes two paths, an outline and a filled area,
//! inside an SVG document with a title and a description.
use vstd::prelude::*;

pub mod color;
pub mod document;
pub mod geometry;
pub mod laws;
pub mod text;

use crate::color::{css_color_ok, is_css_color};
use crate::document::{document, render};
use crate::geometry::{drawable, extremes, max_of, min_of};

pub use crate::geometry::Scaling;

verus! {

/// Which of the two colors a request was refused for.
#[derive(Clone, Copy, Debug, PartialEq, Eq, Structural)]
pub enum ColorRole {
    /// The outline color.
    Line,
    /// The filled-area color.
    Fill,
}

/// Why no chart was produced.
#[derive(Clone, Debug, PartialEq, Eq)]
pub enum ChartError {
    /// The color given for the role is not a CSS color; the text is kept.
    InvalidColor(ColorRole, String),
    /// The series has no samples.
    EmptySeries,
    /// The series has a single sample, which cannot be stretched to a box.
    TooFewSamples,
    /// All samples are equal, so the values cannot be stretched to a box.
    FlatSeries,
}

/// The error for a series that cannot be drawn under the scaling, if any.
pub open spec fn shape_error(data: Seq<u32>, scaling: Scaling) -> Option<ChartError> {
    if data.len() == 0 {
        Some(ChartError::EmptySeries)
    } else if scaling is PixelBox && data.len() < 2 {
        Some(ChartError::TooFewSamples)
    } else if scaling is PixelBox && max_of(data) == min_of(data) {
        Some(ChartError::FlatSeries)
    } else {
        None
    }
}

/// `r` is the refusal of the color `value` in the given role.
pub open spec fn refuses_color(r: Result<String, ChartError>, role: ColorRole, value: Seq<char>) -> bool {
    match r {
        Err(ChartError::InvalidColor(got, text)) => got == role && text@ == value,
        _ => false,
    }
}

/// What a request gives, once it is known whether each color is accepted:
/// the line color is checked first, then the fill color, then the series;
/// a request that passes all three gives the document.
pub open spec fn chart_result(
    r: Result<String, ChartError>,
    line_ok: bool,
    fill_ok: bool,
    data: Seq<u32>,
    title: Seq<char>,
    description: Seq<char>,
    width: nat,
    height: nat,
    line_color: Seq<char>,
    fill_color: Seq<char>,
    scaling: Scaling,
) -> bool {
    if !line_ok {
        refuses_color(r, ColorRole::Line, line_color)
    } else if !fill_ok {
        refuses_color(r, ColorRole::Fill, fill_color)
    } else {
        match shape_error(data, scaling) {
            Some(e) => r == Err::<String, ChartError>(e),
            None => r is Ok && r->Ok_0@ == document(
                scaling,
                data,
                title,
                description,
                width,
                height,
                line_color,
                fill_color,
            ),
        }
    }
}

/// The sparkline component.
pub struct Component;

impl Component {
    /// Renders the series as an SVG document, after checking both colors.
    pub fn generate(
        data: Vec<u32>,
        title: String,
        description: String,
        width: u32,
        height: u32,
        line_color: String,
        fill_color: String,
        scaling: Scaling,
    ) -> (r: Result<String, ChartError>)
        ensures
            chart_result(
                r,
                css_color_ok(line_color@),
                css_color_ok(fill_color@),
                data@,
                title@,
                description@,
                width as nat,
                height as nat,
                line_color@,
                fill_color@,
                scaling,
            ),
    {
        let line_ok = is_css_color(line_color.as_str());
        let fill_ok = is_css_color(fill_color.as_str());
        Component::generate_checked(
            line_ok,
            fill_ok,
            &data,
            title.as_str(),
            description.as_str(),
            width,
            height,
            line_color.as_str(),
            fill_color.as_str(),
            scaling,
        )
    }

    /// Renders the series as an SVG document, given whether each color was
    /// accepted as a CSS color.
    pub fn generate_checked(
        line_ok: bool,
        fill_ok: bool,
        data: &Vec<u32>,
        title: &str,
        description: &str,
        width: u32,
        height: u32,
        line_color: &str,
        fill_color: &str,
        scaling: Scaling,
    ) -> (r: Result<String, ChartError>)
        ensures
            chart_result(
                r,
                line_ok,
                fill_ok,
                data@,
                title@,
                description@,
                width as nat,
                height as nat,
                line_color@,
                fill_color@,
                scaling,
            ),
    {
        if !line_ok {
            return Err(ChartError::InvalidColor(ColorRole::Line, line_color.to_string()));
        }
        if !fill_ok {
            return Err(ChartError::InvalidColor(ColorRole::Fill, fill_color.to_string()));
        }
        if data.len() == 0 {
            return Err(ChartError::EmptySeries);
        }
        match scaling {
            Scaling::PixelBox => {
                if data.len() < 2 {
                    return Err(ChartError::TooFewSamples);
                }
                let (top, bottom) = extremes(data);
                if top == bottom {
                    return Err(ChartError::FlatSeries);
                }
            },
            Scaling::IndexUnit => {},
        }
        assert(drawable(data@, scaling));
        Ok(render(data, title, description, width, height, line_color, fill_color, scaling))
    }
}

} // verus!
