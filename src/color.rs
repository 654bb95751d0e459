use vstd::prelude::*;

verus! {

/// Whether a text is accepted as a CSS color (named colors, hex forms and the
/// `rgb()`, `hsl()`, `hwb()` function forms, among others).
pub uninterp spec fn css_color_ok(s: Seq<char>) -> bool;

/// Relies on `csscolorparser::parse`: it returns `Ok` exactly for the texts
/// it accepts as CSS colors, and its verdict depends on the text alone.
#[verifier::external_body]
pub(crate) fn is_css_color(s: &str) -> (r: bool)
    ensures
        r == css_color_ok(s@),
{
    csscolorparser::parse(s).is_ok()
}

} // verus!
