//! The iced values that the styles carry, and the calls made into iced that
//! more than one style needs.
//!
//! Colors, backgrounds, radii and widths are carried through unchanged: the
//! styles never look inside them, so they stay opaque here.

use vstd::prelude::*;

verus! {

#[verifier::external_type_specification]
#[verifier::external_body]
pub struct ExColor(iced::Color);

#[verifier::external_type_specification]
#[verifier::external_body]
pub struct ExBorderRadius(iced::BorderRadius);

#[verifier::external_type_specification]
#[verifier::external_body]
pub struct ExPixels(iced::Pixels);

#[verifier::external_type_specification]
#[verifier::external_body]
pub struct ExBackground(iced::Background);

#[verifier::external_type_specification]
#[verifier::external_body]
pub struct ExTheme(iced::Theme);

/// The background that fills an area with one color.
pub uninterp spec fn solid_background(color: iced::Color) -> iced::Background;

/// Relies on the variant `iced::Background::Color`: a solid fill of `color`.
#[verifier::external_body]
pub(crate) fn solid(color: iced::Color) -> (r: iced::Background)
    ensures
        r == solid_background(color),
{
    iced::Background::Color(color)
}

/// An amount of `n` pixels.
pub uninterp spec fn pixels_of(n: u16) -> iced::Pixels;

/// Relies on `iced::Pixels::from(u16)`: the amount `n`, as pixels.
#[verifier::external_body]
pub(crate) fn pixels(n: u16) -> (r: iced::Pixels)
    ensures
        r == pixels_of(n),
{
    iced::Pixels::from(n)
}

/// The color with 8-bit channels `r`, `g`, `b` and the opacity held by `alpha`.
pub uninterp spec fn color_rgba8(r: u8, g: u8, b: u8, alpha: iced::Pixels) -> iced::Color;

/// Relies on `iced::Color::from_rgba8`: each channel over 255, the opacity
/// taken as the amount that `alpha` holds.
#[verifier::external_body]
pub(crate) fn rgba8(r: u8, g: u8, b: u8, alpha: iced::Pixels) -> (c: iced::Color)
    ensures
        c == color_rgba8(r, g, b, alpha),
{
    iced::Color::from_rgba8(r, g, b, alpha.0)
}

/// Corners that are all rounded by the same `width`.
pub uninterp spec fn uniform_radius(width: iced::Pixels) -> iced::BorderRadius;

/// Relies on `iced::BorderRadius::from(f32)`: all four corners rounded by the
/// amount that `width` holds.
#[verifier::external_body]
pub(crate) fn radius(width: iced::Pixels) -> (r: iced::BorderRadius)
    ensures
        r == uniform_radius(width),
{
    iced::BorderRadius::from(width.0)
}

/// No width at all.
pub open spec fn zero_width() -> iced::Pixels {
    pixels_of(0)
}

/// Square corners.
pub open spec fn square() -> iced::BorderRadius {
    uniform_radius(zero_width())
}

/// Opaque black (`iced::Color::BLACK`).
pub open spec fn black_color() -> iced::Color {
    color_rgba8(0, 0, 0, pixels_of(1))
}

/// Opaque white (`iced::Color::WHITE`).
pub open spec fn white_color() -> iced::Color {
    color_rgba8(255, 255, 255, pixels_of(1))
}

/// Fully transparent black (`iced::Color::TRANSPARENT`, which is also
/// `iced::Color::default()`).
pub open spec fn transparent_color() -> iced::Color {
    color_rgba8(0, 0, 0, zero_width())
}

pub(crate) fn no_width() -> (r: iced::Pixels)
    ensures
        r == zero_width(),
{
    pixels(0)
}

pub(crate) fn square_corners() -> (r: iced::BorderRadius)
    ensures
        r == square(),
{
    radius(no_width())
}

pub(crate) fn black() -> (r: iced::Color)
    ensures
        r == black_color(),
{
    rgba8(0, 0, 0, pixels(1))
}

pub(crate) fn white() -> (r: iced::Color)
    ensures
        r == white_color(),
{
    rgba8(255, 255, 255, pixels(1))
}

pub(crate) fn transparent() -> (r: iced::Color)
    ensures
        r == transparent_color(),
{
    rgba8(0, 0, 0, no_width())
}

} // verus!
