//! An SVG style: an optional color filter.

use vstd::prelude::*;
use iced::Color;

verus! {

/// What an SVG looks like: `None` keeps the image's own colors.
#[derive(Debug, Clone, Copy, PartialEq)]
pub struct SvgAppearance {
    pub color: Option<Color>,
}

/// An SVG style built by chained setters.
#[derive(Debug, Clone, Copy, PartialEq)]
pub struct CustomSvgStyle {
    pub appearance: SvgAppearance,
}

impl CustomSvgStyle {
    /// No color filter.
    pub fn new() -> (r: Self)
        ensures
            r.appearance.color is None,
    {
        CustomSvgStyle { appearance: SvgAppearance { color: None } }
    }

    pub fn color(self, color: Option<Color>) -> (r: Self)
        ensures
            r.appearance.color == color,
    {
        let mut s = self;
        s.appearance.color = color;
        s
    }
}

} // verus!
