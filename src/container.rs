//! A container style: one appearance record, set field by field.

use vstd::prelude::*;
use iced::{Background, BorderRadius, Color, Pixels, Theme};
use crate::toolkit::{
    no_width, solid, solid_background, square, square_corners, transparent, transparent_color, zero_width,
};

verus! {

/// What a container looks like.
#[derive(Debug, Clone, Copy, PartialEq)]
pub struct ContainerAppearance {
    pub text_color: Option<Color>,
    pub background: Option<Background>,
    pub border_radius: BorderRadius,
    pub border_width: Pixels,
    pub border_color: Color,
}

/// What the theme's container style sheet gives for the `Transparent` style.
pub uninterp spec fn theme_container_transparent(theme: Theme) -> ContainerAppearance;

/// What the theme's container style sheet gives for the `Box` style.
pub uninterp spec fn theme_container_box(theme: Theme) -> ContainerAppearance;

/// Relies on `Theme::appearance` of iced's container style sheet, for the
/// `Transparent` style; each field is moved over as it is, the width as an
/// amount of pixels.
#[verifier::external_body]
fn theme_transparent(theme: &Theme) -> (r: ContainerAppearance)
    ensures
        r == theme_container_transparent(*theme),
{
    let a = iced::widget::container::StyleSheet::appearance(theme, &iced::theme::Container::Transparent);
    ContainerAppearance {
        text_color: a.text_color,
        background: a.background,
        border_radius: a.border_radius,
        border_width: Pixels(a.border_width),
        border_color: a.border_color,
    }
}

/// Relies on `Theme::appearance` of iced's container style sheet, for the
/// `Box` style; each field is moved over as it is, the width as an amount of
/// pixels.
#[verifier::external_body]
fn theme_box(theme: &Theme) -> (r: ContainerAppearance)
    ensures
        r == theme_container_box(*theme),
{
    let a = iced::widget::container::StyleSheet::appearance(theme, &iced::theme::Container::Box);
    ContainerAppearance {
        text_color: a.text_color,
        background: a.background,
        border_radius: a.border_radius,
        border_width: Pixels(a.border_width),
        border_color: a.border_color,
    }
}

/// A container style built by chained setters.
#[derive(Debug, Clone, Copy, PartialEq)]
pub struct CustomContainerStyle {
    pub appearance: ContainerAppearance,
}

impl CustomContainerStyle {
    /// No text color, no background, square corners and no border.
    pub fn new() -> (r: Self)
        ensures
            r.appearance == (ContainerAppearance {
                text_color: None,
                background: None,
                border_radius: square(),
                border_width: zero_width(),
                border_color: transparent_color(),
            }),
    {
        CustomContainerStyle {
            appearance: ContainerAppearance {
                text_color: None,
                background: None,
                border_radius: square_corners(),
                border_width: no_width(),
                border_color: transparent(),
            },
        }
    }

    /// The theme's look for a transparent container.
    pub fn transparent(theme: &Theme) -> (r: Self)
        ensures
            r.appearance == theme_container_transparent(*theme),
    {
        CustomContainerStyle { appearance: theme_transparent(theme) }
    }

    /// The theme's look for a boxed container.
    pub fn boxx(theme: &Theme) -> (r: Self)
        ensures
            r.appearance == theme_container_box(*theme),
    {
        CustomContainerStyle { appearance: theme_box(theme) }
    }

    pub fn background(self, background: Option<Background>) -> (r: Self)
        ensures
            r == (Self { appearance: ContainerAppearance { background: background, ..self.appearance } }),
    {
        let mut s = self;
        s.appearance.background = background;
        s
    }

    /// Fills the background with one color.
    pub fn background_color(self, color: Color) -> (r: Self)
        ensures
            r == (Self {
                appearance: ContainerAppearance {
                    background: Some(solid_background(color)),
                    ..self.appearance
                },
            }),
    {
        self.background(Some(solid(color)))
    }

    pub fn border_radius(self, radius: BorderRadius) -> (r: Self)
        ensures
            r == (Self { appearance: ContainerAppearance { border_radius: radius, ..self.appearance } }),
    {
        let mut s = self;
        s.appearance.border_radius = radius;
        s
    }

    pub fn border_width(self, width: Pixels) -> (r: Self)
        ensures
            r == (Self { appearance: ContainerAppearance { border_width: width, ..self.appearance } }),
    {
        let mut s = self;
        s.appearance.border_width = width;
        s
    }

    pub fn border_color(self, color: Color) -> (r: Self)
        ensures
            r == (Self { appearance: ContainerAppearance { border_color: color, ..self.appearance } }),
    {
        let mut s = self;
        s.appearance.border_color = color;
        s
    }

    pub fn text_color(self, color: Option<Color>) -> (r: Self)
        ensures
            r == (Self { appearance: ContainerAppearance { text_color: color, ..self.appearance } }),
    {
        let mut s = self;
        s.appearance.text_color = color;
        s
    }
}

} // verus!
