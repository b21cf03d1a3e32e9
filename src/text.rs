//! A text style: the color to draw text in.

use vstd::prelude::*;
use iced::Color;
use crate::toolkit::{black, black_color, transparent, transparent_color};

verus! {

/// What text looks like: `None` leaves the color to the surroundings.
#[derive(Debug, Clone, Copy, PartialEq)]
pub struct TextAppearance {
    pub color: Option<Color>,
}

#[verifier::external_type_specification]
#[verifier::external_body]
pub struct ExTextTheme(iced::theme::Text);

/// The iced text style that draws text in `color`.
pub uninterp spec fn colored_text(color: Color) -> iced::theme::Text;

/// Relies on the variant `iced::theme::Text::Color`: text drawn in `color`.
#[verifier::external_body]
fn text_in(color: Color) -> (r: iced::theme::Text)
    ensures
        r == colored_text(color),
{
    iced::theme::Text::Color(color)
}

/// A text style built by chained setters.
#[derive(Debug, Clone, Copy, PartialEq)]
pub struct CustomTextStyle {
    pub appearance: TextAppearance,
}

impl CustomTextStyle {
    /// Black text.
    pub fn new() -> (r: Self)
        ensures
            r.appearance.color == Some(black_color()),
    {
        CustomTextStyle { appearance: TextAppearance { color: Some(black()) } }
    }

    pub fn color(self, color: Color) -> (r: Self)
        ensures
            r.appearance.color == Some(color),
    {
        let mut s = self;
        s.appearance.color = Some(color);
        s
    }

    /// The color text is drawn in, as a value.
    pub open spec fn shown(self) -> Color {
        match self.appearance.color {
            Some(c) => c,
            None => transparent_color(),
        }
    }

    /// The color text is drawn in: the chosen one, or transparent when
    /// none is chosen.
    pub fn shown_color(&self) -> (r: Color)
        ensures
            r == self.shown(),
    {
        match self.appearance.color {
            Some(c) => c,
            None => transparent(),
        }
    }

    /// The iced text style for this style's color.
    pub fn as_custom(&self) -> (r: iced::theme::Text)
        ensures
            r == colored_text(self.shown()),
    {
        text_in(self.shown_color())
    }
}

} // verus!
