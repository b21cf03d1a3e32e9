//! A text input style: one appearance record per interaction state, the
//! colors of the text itself, and the state that the setters currently
//! write to.

use vstd::prelude::*;
use iced::{Background, BorderRadius, Color, Pixels, Theme};
use crate::toolkit::{
    black, black_color, no_width, solid, solid_background, square, square_corners, transparent,
    transparent_color, white, white_color, zero_width,
};

verus! {

/// What the box of a text input looks like.
#[derive(Debug, Clone, Copy, PartialEq)]
pub struct TextInputAppearance {
    pub background: Background,
    pub border_radius: BorderRadius,
    pub border_width: Pixels,
    pub border_color: Color,
    pub icon_color: Color,
}

/// The interaction state whose record the setters write to.
#[derive(Default, Copy, Clone, Debug, PartialEq, Eq, Structural)]
pub enum TextInputState {
    #[default]
    Active,
    Hovered,
    Disabled,
    Focused,
}

/// What the theme's text input style sheet gives from `active` for the
/// default style.
pub uninterp spec fn theme_text_input_active(theme: Theme) -> TextInputAppearance;

/// What the theme's text input style sheet gives from `hovered` for the
/// default style.
pub uninterp spec fn theme_text_input_hovered(theme: Theme) -> TextInputAppearance;

/// What the theme's text input style sheet gives from `disabled` for the
/// default style.
pub uninterp spec fn theme_text_input_disabled(theme: Theme) -> TextInputAppearance;

/// What the theme's text input style sheet gives from `focused` for the
/// default style.
pub uninterp spec fn theme_text_input_focused(theme: Theme) -> TextInputAppearance;

/// What the theme's text input style sheet gives from `placeholder_color` for the
/// default style.
pub uninterp spec fn theme_placeholder_color(theme: Theme) -> Color;

/// What the theme's text input style sheet gives from `value_color` for the
/// default style.
pub uninterp spec fn theme_value_color(theme: Theme) -> Color;

/// What the theme's text input style sheet gives from `disabled_color` for the
/// default style.
pub uninterp spec fn theme_disabled_color(theme: Theme) -> Color;

/// What the theme's text input style sheet gives from `selection_color` for the
/// default style.
pub uninterp spec fn theme_selection_color(theme: Theme) -> Color;

/// Relies on `Theme::active` of iced's text input style sheet, for the default
/// style; each field is moved over as it is, the width as an amount of pixels.
#[verifier::external_body]
fn theme_active(theme: &Theme) -> (r: TextInputAppearance)
    ensures
        r == theme_text_input_active(*theme),
{
    let a = iced::widget::text_input::StyleSheet::active(theme, &iced::theme::TextInput::Default);
    TextInputAppearance {
        background: a.background,
        border_radius: a.border_radius,
        border_width: Pixels(a.border_width),
        border_color: a.border_color,
        icon_color: a.icon_color,
    }
}

/// Relies on `Theme::hovered` of iced's text input style sheet, for the default
/// style; each field is moved over as it is, the width as an amount of pixels.
#[verifier::external_body]
fn theme_hovered(theme: &Theme) -> (r: TextInputAppearance)
    ensures
        r == theme_text_input_hovered(*theme),
{
    let a = iced::widget::text_input::StyleSheet::hovered(theme, &iced::theme::TextInput::Default);
    TextInputAppearance {
        background: a.background,
        border_radius: a.border_radius,
        border_width: Pixels(a.border_width),
        border_color: a.border_color,
        icon_color: a.icon_color,
    }
}

/// Relies on `Theme::disabled` of iced's text input style sheet, for the default
/// style; each field is moved over as it is, the width as an amount of pixels.
#[verifier::external_body]
fn theme_disabled(theme: &Theme) -> (r: TextInputAppearance)
    ensures
        r == theme_text_input_disabled(*theme),
{
    let a = iced::widget::text_input::StyleSheet::disabled(theme, &iced::theme::TextInput::Default);
    TextInputAppearance {
        background: a.background,
        border_radius: a.border_radius,
        border_width: Pixels(a.border_width),
        border_color: a.border_color,
        icon_color: a.icon_color,
    }
}

/// Relies on `Theme::focused` of iced's text input style sheet, for the default
/// style; each field is moved over as it is, the width as an amount of pixels.
#[verifier::external_body]
fn theme_focused(theme: &Theme) -> (r: TextInputAppearance)
    ensures
        r == theme_text_input_focused(*theme),
{
    let a = iced::widget::text_input::StyleSheet::focused(theme, &iced::theme::TextInput::Default);
    TextInputAppearance {
        background: a.background,
        border_radius: a.border_radius,
        border_width: Pixels(a.border_width),
        border_color: a.border_color,
        icon_color: a.icon_color,
    }
}

/// Relies on `Theme::placeholder_color` of iced's text input style sheet, for the
/// default style.
#[verifier::external_body]
fn read_placeholder_color(theme: &Theme) -> (r: Color)
    ensures
        r == theme_placeholder_color(*theme),
{
    iced::widget::text_input::StyleSheet::placeholder_color(theme, &iced::theme::TextInput::Default)
}

/// Relies on `Theme::value_color` of iced's text input style sheet, for the
/// default style.
#[verifier::external_body]
fn read_value_color(theme: &Theme) -> (r: Color)
    ensures
        r == theme_value_color(*theme),
{
    iced::widget::text_input::StyleSheet::value_color(theme, &iced::theme::TextInput::Default)
}

/// Relies on `Theme::disabled_color` of iced's text input style sheet, for the
/// default style.
#[verifier::external_body]
fn read_disabled_color(theme: &Theme) -> (r: Color)
    ensures
        r == theme_disabled_color(*theme),
{
    iced::widget::text_input::StyleSheet::disabled_color(theme, &iced::theme::TextInput::Default)
}

/// Relies on `Theme::selection_color` of iced's text input style sheet, for the
/// default style.
#[verifier::external_body]
fn read_selection_color(theme: &Theme) -> (r: Color)
    ensures
        r == theme_selection_color(*theme),
{
    iced::widget::text_input::StyleSheet::selection_color(theme, &iced::theme::TextInput::Default)
}

/// A text input style built by chained setters.
#[derive(Debug, Clone, Copy, PartialEq)]
pub struct CustomTextInputStyle {
    pub active: TextInputAppearance,
    pub focused: TextInputAppearance,
    pub hovered: TextInputAppearance,
    pub disabled: TextInputAppearance,
    pub placeholder_color: Color,
    pub value_color: Color,
    pub disabled_color: Color,
    pub selection_color: Color,
    pub current_state: TextInputState,
}

/// A solid black box with square corners, no border width, and a white
/// border and icon.
pub open spec fn plain_text_input() -> TextInputAppearance {
    TextInputAppearance {
        background: solid_background(black_color()),
        border_radius: square(),
        border_width: zero_width(),
        border_color: white_color(),
        icon_color: white_color(),
    }
}

impl CustomTextInputStyle {
    /// The record kept for `state`.
    pub open spec fn look(self, state: TextInputState) -> TextInputAppearance {
        match state {
            TextInputState::Active => self.active,
            TextInputState::Hovered => self.hovered,
            TextInputState::Disabled => self.disabled,
            TextInputState::Focused => self.focused,
        }
    }

    /// This style with the record kept for `state` replaced by `a`.
    pub open spec fn with_look(self, state: TextInputState, a: TextInputAppearance) -> Self {
        match state {
            TextInputState::Active => Self { active: a, ..self },
            TextInputState::Hovered => Self { hovered: a, ..self },
            TextInputState::Disabled => Self { disabled: a, ..self },
            TextInputState::Focused => Self { focused: a, ..self },
        }
    }

    /// The selected state's record.
    pub open spec fn current(self) -> TextInputAppearance {
        self.look(self.current_state)
    }

    /// This style with the selected state's record replaced by `a`.
    pub open spec fn with_current(self, a: TextInputAppearance) -> Self {
        self.with_look(self.current_state, a)
    }

    /// Every state has the same record, `a`.
    pub open spec fn all_looks(self, a: TextInputAppearance) -> bool {
        forall|s: TextInputState| #[trigger] self.look(s) == a
    }

    fn current_look(&self) -> (r: TextInputAppearance)
        ensures
            r == self.current(),
    {
        match self.current_state {
            TextInputState::Active => self.active,
            TextInputState::Hovered => self.hovered,
            TextInputState::Disabled => self.disabled,
            TextInputState::Focused => self.focused,
        }
    }

    fn replace_current(self, a: TextInputAppearance) -> (r: Self)
        ensures
            r == self.with_current(a),
    {
        let mut s = self;
        match s.current_state {
            TextInputState::Active => s.active = a,
            TextInputState::Hovered => s.hovered = a,
            TextInputState::Disabled => s.disabled = a,
            TextInputState::Focused => s.focused = a,
        }
        s
    }

    /// Every state gets the same record: a black background, square
    /// corners, no border width, a white border and icon; the text colors
    /// are transparent and the active state is selected.
    pub fn new() -> (r: Self)
        ensures
            r.current_state == TextInputState::Active,
            r.all_looks(plain_text_input()),
            r.placeholder_color == transparent_color(),
            r.value_color == transparent_color(),
            r.disabled_color == transparent_color(),
            r.selection_color == transparent_color(),
    {
        let white = white();
        let a = TextInputAppearance {
            background: solid(black()),
            border_radius: square_corners(),
            border_width: no_width(),
            border_color: white,
            icon_color: white,
        };
        let none = transparent();
        CustomTextInputStyle {
            active: a,
            focused: a,
            hovered: a,
            disabled: a,
            placeholder_color: none,
            value_color: none,
            disabled_color: none,
            selection_color: none,
            current_state: TextInputState::Active,
        }
    }

    /// The theme's default text input records and colors, the active state
    /// selected.
    pub fn default(theme: &Theme) -> (r: Self)
        ensures
            r == (Self {
                active: theme_text_input_active(*theme),
                focused: theme_text_input_focused(*theme),
                hovered: theme_text_input_hovered(*theme),
                disabled: theme_text_input_disabled(*theme),
                placeholder_color: theme_placeholder_color(*theme),
                value_color: theme_value_color(*theme),
                disabled_color: theme_disabled_color(*theme),
                selection_color: theme_selection_color(*theme),
                current_state: TextInputState::Active,
            }),
    {
        CustomTextInputStyle {
            active: theme_active(theme),
            hovered: theme_hovered(theme),
            disabled: theme_disabled(theme),
            placeholder_color: read_placeholder_color(theme),
            value_color: read_value_color(theme),
            disabled_color: read_disabled_color(theme),
            focused: theme_focused(theme),
            selection_color: read_selection_color(theme),
            current_state: TextInputState::Active,
        }
    }

    /// Selects the `Active` state for the setters that follow.
    pub fn active(self) -> (r: Self)
        ensures
            r == (Self { current_state: TextInputState::Active, ..self }),
    {
        let mut s = self;
        s.current_state = TextInputState::Active;
        s
    }

    /// Selects the `Hovered` state for the setters that follow.
    pub fn hovered(self) -> (r: Self)
        ensures
            r == (Self { current_state: TextInputState::Hovered, ..self }),
    {
        let mut s = self;
        s.current_state = TextInputState::Hovered;
        s
    }

    /// Selects the `Disabled` state for the setters that follow.
    pub fn disabled(self) -> (r: Self)
        ensures
            r == (Self { current_state: TextInputState::Disabled, ..self }),
    {
        let mut s = self;
        s.current_state = TextInputState::Disabled;
        s
    }

    /// Selects the `Focused` state for the setters that follow.
    pub fn focused(self) -> (r: Self)
        ensures
            r == (Self { current_state: TextInputState::Focused, ..self }),
    {
        let mut s = self;
        s.current_state = TextInputState::Focused;
        s
    }

    /// Sets the background of the selected state's record.
    pub fn background(self, background: Background) -> (r: Self)
        ensures
            r == self.with_current((TextInputAppearance { background: background, ..self.current() })),
    {
        let mut a = self.current_look();
        a.background = background;
        self.replace_current(a)
    }

    /// Fills the selected state's background with one color.
    pub fn background_color(self, color: Color) -> (r: Self)
        ensures
            r == self.with_current((TextInputAppearance { background: solid_background(color), ..self.current() })),
    {
        self.background(solid(color))
    }

    /// Sets the border radius of the selected state's record.
    pub fn border_radius(self, radius: BorderRadius) -> (r: Self)
        ensures
            r == self.with_current((TextInputAppearance { border_radius: radius, ..self.current() })),
    {
        let mut a = self.current_look();
        a.border_radius = radius;
        self.replace_current(a)
    }

    /// Sets the border width of the selected state's record.
    pub fn border_width(self, width: Pixels) -> (r: Self)
        ensures
            r == self.with_current((TextInputAppearance { border_width: width, ..self.current() })),
    {
        let mut a = self.current_look();
        a.border_width = width;
        self.replace_current(a)
    }

    /// Sets the border color of the selected state's record.
    pub fn border_color(self, color: Color) -> (r: Self)
        ensures
            r == self.with_current((TextInputAppearance { border_color: color, ..self.current() })),
    {
        let mut a = self.current_look();
        a.border_color = color;
        self.replace_current(a)
    }

    /// Sets the icon color of the selected state's record.
    pub fn icon_color(self, color: Color) -> (r: Self)
        ensures
            r == self.with_current((TextInputAppearance { icon_color: color, ..self.current() })),
    {
        let mut a = self.current_look();
        a.icon_color = color;
        self.replace_current(a)
    }

    /// Sets the placeholder color, which is the same in every state.
    pub fn placeholder_color(self, color: Color) -> (r: Self)
        ensures
            r == (Self { placeholder_color: color, ..self }),
    {
        let mut s = self;
        s.placeholder_color = color;
        s
    }

    /// Sets the value color, which is the same in every state.
    pub fn value_color(self, color: Color) -> (r: Self)
        ensures
            r == (Self { value_color: color, ..self }),
    {
        let mut s = self;
        s.value_color = color;
        s
    }

    /// Sets the disabled color, which is the same in every state.
    pub fn disabled_color(self, color: Color) -> (r: Self)
        ensures
            r == (Self { disabled_color: color, ..self }),
    {
        let mut s = self;
        s.disabled_color = color;
        s
    }

    /// Sets the selection color, which is the same in every state.
    pub fn selection_color(self, color: Color) -> (r: Self)
        ensures
            r == (Self { selection_color: color, ..self }),
    {
        let mut s = self;
        s.selection_color = color;
        s
    }

}

/// Replacing the record of one state leaves the selected state, the text
/// colors and the records of all other states as they were, and the
/// replaced record reads back as given.
pub proof fn lemma_with_look_touches_one_state(
    style: CustomTextInputStyle,
    state: TextInputState,
    a: TextInputAppearance,
)
    ensures
        style.with_look(state, a).look(state) == a,
        style.with_look(state, a).current_state == style.current_state,
        style.with_look(state, a).placeholder_color == style.placeholder_color,
        style.with_look(state, a).value_color == style.value_color,
        style.with_look(state, a).disabled_color == style.disabled_color,
        style.with_look(state, a).selection_color == style.selection_color,
        forall|other: TextInputState|
            other != state ==> #[trigger] style.with_look(state, a).look(other) == style.look(other),
{
}

} // verus!
