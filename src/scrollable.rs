//! A scrollable style: one scrollbar record per interaction state, and the
//! state that the setters currently write to.

use vstd::prelude::*;
use iced::{Background, BorderRadius, Color, Pixels, Theme};
use crate::toolkit::{
    no_width, solid, solid_background, square, square_corners, transparent, transparent_color, zero_width,
};

verus! {

/// What the scroller (the draggable thumb) looks like.
#[derive(Debug, Clone, Copy, PartialEq)]
pub struct ScrollerAppearance {
    pub color: Color,
    pub border_radius: BorderRadius,
    pub border_width: Pixels,
    pub border_color: Color,
}

/// What a scrollbar and its scroller look like.
#[derive(Debug, Clone, Copy, PartialEq)]
pub struct ScrollbarAppearance {
    pub background: Option<Background>,
    pub border_radius: BorderRadius,
    pub border_width: Pixels,
    pub border_color: Color,
    pub scroller: ScrollerAppearance,
}

/// The interaction state whose record the setters write to.
#[derive(Default, Copy, Clone, Debug, PartialEq, Eq, Structural)]
pub enum ScrollableState {
    #[default]
    Active,
    Hovered,
    HoveredOverScrollbar,
    Dragging,
    ActiveHorizontal,
    HoveredHorizontal,
    HoveredHorizontalOverScrollbar,
    DraggingHorizontal,
}

/// What the theme's scrollable style sheet gives from `active` for the
/// default style.
pub uninterp spec fn theme_scrollbar_active(theme: Theme) -> ScrollbarAppearance;

/// What the theme's scrollable style sheet gives from `hovered` for the
/// default style, with the pointer over the scrollbar or not.
pub uninterp spec fn theme_scrollbar_hovered(theme: Theme, over_scrollbar: bool) -> ScrollbarAppearance;

/// What the theme's scrollable style sheet gives from `dragging` for the
/// default style.
pub uninterp spec fn theme_scrollbar_dragging(theme: Theme) -> ScrollbarAppearance;

/// What the theme's scrollable style sheet gives from `active_horizontal` for the
/// default style.
pub uninterp spec fn theme_scrollbar_active_horizontal(theme: Theme) -> ScrollbarAppearance;

/// What the theme's scrollable style sheet gives from `hovered_horizontal` for the
/// default style, with the pointer over the scrollbar or not.
pub uninterp spec fn theme_scrollbar_hovered_horizontal(theme: Theme, over_scrollbar: bool) -> ScrollbarAppearance;

/// What the theme's scrollable style sheet gives from `dragging_horizontal` for the
/// default style.
pub uninterp spec fn theme_scrollbar_dragging_horizontal(theme: Theme) -> ScrollbarAppearance;

/// Relies on `Theme::active` of iced's scrollable style sheet, for the default
/// style; each field is moved over as it is, the widths as amounts of pixels.
#[verifier::external_body]
fn theme_active(theme: &Theme) -> (r: ScrollbarAppearance)
    ensures
        r == theme_scrollbar_active(*theme),
{
    let b = iced::widget::scrollable::StyleSheet::active(theme, &iced::theme::Scrollable::Default);
    let s = b.scroller;
    let scroller = ScrollerAppearance {
        color: s.color, border_radius: s.border_radius, border_width: Pixels(s.border_width), border_color: s.border_color,
    };
    ScrollbarAppearance {
        background: b.background, border_radius: b.border_radius, border_width: Pixels(b.border_width), border_color: b.border_color, scroller,
    }
}

/// Relies on `Theme::hovered` of iced's scrollable style sheet, for the default
/// style; each field is moved over as it is, the widths as amounts of pixels.
#[verifier::external_body]
fn theme_hovered(theme: &Theme, over_scrollbar: bool) -> (r: ScrollbarAppearance)
    ensures
        r == theme_scrollbar_hovered(*theme, over_scrollbar),
{
    let b = iced::widget::scrollable::StyleSheet::hovered(theme, &iced::theme::Scrollable::Default, over_scrollbar);
    let s = b.scroller;
    let scroller = ScrollerAppearance {
        color: s.color, border_radius: s.border_radius, border_width: Pixels(s.border_width), border_color: s.border_color,
    };
    ScrollbarAppearance {
        background: b.background, border_radius: b.border_radius, border_width: Pixels(b.border_width), border_color: b.border_color, scroller,
    }
}

/// Relies on `Theme::dragging` of iced's scrollable style sheet, for the default
/// style; each field is moved over as it is, the widths as amounts of pixels.
#[verifier::external_body]
fn theme_dragging(theme: &Theme) -> (r: ScrollbarAppearance)
    ensures
        r == theme_scrollbar_dragging(*theme),
{
    let b = iced::widget::scrollable::StyleSheet::dragging(theme, &iced::theme::Scrollable::Default);
    let s = b.scroller;
    let scroller = ScrollerAppearance {
        color: s.color, border_radius: s.border_radius, border_width: Pixels(s.border_width), border_color: s.border_color,
    };
    ScrollbarAppearance {
        background: b.background, border_radius: b.border_radius, border_width: Pixels(b.border_width), border_color: b.border_color, scroller,
    }
}

/// Relies on `Theme::active_horizontal` of iced's scrollable style sheet, for the default
/// style; each field is moved over as it is, the widths as amounts of pixels.
#[verifier::external_body]
fn theme_active_horizontal(theme: &Theme) -> (r: ScrollbarAppearance)
    ensures
        r == theme_scrollbar_active_horizontal(*theme),
{
    let b = iced::widget::scrollable::StyleSheet::active_horizontal(theme, &iced::theme::Scrollable::Default);
    let s = b.scroller;
    let scroller = ScrollerAppearance {
        color: s.color, border_radius: s.border_radius, border_width: Pixels(s.border_width), border_color: s.border_color,
    };
    ScrollbarAppearance {
        background: b.background, border_radius: b.border_radius, border_width: Pixels(b.border_width), border_color: b.border_color, scroller,
    }
}

/// Relies on `Theme::hovered_horizontal` of iced's scrollable style sheet, for the default
/// style; each field is moved over as it is, the widths as amounts of pixels.
#[verifier::external_body]
fn theme_hovered_horizontal(theme: &Theme, over_scrollbar: bool) -> (r: ScrollbarAppearance)
    ensures
        r == theme_scrollbar_hovered_horizontal(*theme, over_scrollbar),
{
    let b = iced::widget::scrollable::StyleSheet::hovered_horizontal(theme, &iced::theme::Scrollable::Default, over_scrollbar);
    let s = b.scroller;
    let scroller = ScrollerAppearance {
        color: s.color, border_radius: s.border_radius, border_width: Pixels(s.border_width), border_color: s.border_color,
    };
    ScrollbarAppearance {
        background: b.background, border_radius: b.border_radius, border_width: Pixels(b.border_width), border_color: b.border_color, scroller,
    }
}

/// Relies on `Theme::dragging_horizontal` of iced's scrollable style sheet, for the default
/// style; each field is moved over as it is, the widths as amounts of pixels.
#[verifier::external_body]
fn theme_dragging_horizontal(theme: &Theme) -> (r: ScrollbarAppearance)
    ensures
        r == theme_scrollbar_dragging_horizontal(*theme),
{
    let b = iced::widget::scrollable::StyleSheet::dragging_horizontal(theme, &iced::theme::Scrollable::Default);
    let s = b.scroller;
    let scroller = ScrollerAppearance {
        color: s.color, border_radius: s.border_radius, border_width: Pixels(s.border_width), border_color: s.border_color,
    };
    ScrollbarAppearance {
        background: b.background, border_radius: b.border_radius, border_width: Pixels(b.border_width), border_color: b.border_color, scroller,
    }
}

/// A scrollable style built by chained setters.
#[derive(Debug, Clone, Copy, PartialEq)]
pub struct CustomScrollableStyle {
    pub active: ScrollbarAppearance,
    pub hovered: ScrollbarAppearance,
    pub hovered_over_scrollbar: ScrollbarAppearance,
    pub dragging: ScrollbarAppearance,
    pub active_horizontal: ScrollbarAppearance,
    pub hovered_horizontal: ScrollbarAppearance,
    pub hovered_horizontal_over_scrollbar: ScrollbarAppearance,
    pub dragging_horizontal: ScrollbarAppearance,
    pub current_state: ScrollableState,
}

/// No background, square corners, no border and a transparent scroller
/// without a border.
pub open spec fn plain_scrollbar() -> ScrollbarAppearance {
    ScrollbarAppearance {
        background: None,
        border_radius: square(),
        border_width: zero_width(),
        border_color: transparent_color(),
        scroller: ScrollerAppearance {
            color: transparent_color(),
            border_radius: square(),
            border_width: zero_width(),
            border_color: transparent_color(),
        },
    }
}

impl CustomScrollableStyle {
    /// The record kept for `state`.
    pub open spec fn bar(self, state: ScrollableState) -> ScrollbarAppearance {
        match state {
            ScrollableState::Active => self.active,
            ScrollableState::Hovered => self.hovered,
            ScrollableState::HoveredOverScrollbar => self.hovered_over_scrollbar,
            ScrollableState::Dragging => self.dragging,
            ScrollableState::ActiveHorizontal => self.active_horizontal,
            ScrollableState::HoveredHorizontal => self.hovered_horizontal,
            ScrollableState::HoveredHorizontalOverScrollbar => self.hovered_horizontal_over_scrollbar,
            ScrollableState::DraggingHorizontal => self.dragging_horizontal,
        }
    }

    /// This style with the record kept for `state` replaced by `b`.
    pub open spec fn with_bar(self, state: ScrollableState, b: ScrollbarAppearance) -> Self {
        match state {
            ScrollableState::Active => Self { active: b, ..self },
            ScrollableState::Hovered => Self { hovered: b, ..self },
            ScrollableState::HoveredOverScrollbar => Self { hovered_over_scrollbar: b, ..self },
            ScrollableState::Dragging => Self { dragging: b, ..self },
            ScrollableState::ActiveHorizontal => Self { active_horizontal: b, ..self },
            ScrollableState::HoveredHorizontal => Self { hovered_horizontal: b, ..self },
            ScrollableState::HoveredHorizontalOverScrollbar => Self { hovered_horizontal_over_scrollbar: b, ..self },
            ScrollableState::DraggingHorizontal => Self { dragging_horizontal: b, ..self },
        }
    }

    /// This style with the selected state's record replaced by `b`.
    pub open spec fn with_current(self, b: ScrollbarAppearance) -> Self {
        self.with_bar(self.current_state, b)
    }

    /// The selected state's record.
    pub open spec fn current(self) -> ScrollbarAppearance {
        self.bar(self.current_state)
    }

    /// Every state has the same record, `b`.
    pub open spec fn all_bars(self, b: ScrollbarAppearance) -> bool {
        forall|s: ScrollableState| #[trigger] self.bar(s) == b
    }

    fn current_bar(&self) -> (r: ScrollbarAppearance)
        ensures
            r == self.current(),
    {
        match self.current_state {
            ScrollableState::Active => self.active,
            ScrollableState::Hovered => self.hovered,
            ScrollableState::HoveredOverScrollbar => self.hovered_over_scrollbar,
            ScrollableState::Dragging => self.dragging,
            ScrollableState::ActiveHorizontal => self.active_horizontal,
            ScrollableState::HoveredHorizontal => self.hovered_horizontal,
            ScrollableState::HoveredHorizontalOverScrollbar => self.hovered_horizontal_over_scrollbar,
            ScrollableState::DraggingHorizontal => self.dragging_horizontal,
        }
    }

    fn replace_current(self, b: ScrollbarAppearance) -> (r: Self)
        ensures
            r == self.with_current(b),
    {
        let mut s = self;
        match s.current_state {
            ScrollableState::Active => s.active = b,
            ScrollableState::Hovered => s.hovered = b,
            ScrollableState::HoveredOverScrollbar => s.hovered_over_scrollbar = b,
            ScrollableState::Dragging => s.dragging = b,
            ScrollableState::ActiveHorizontal => s.active_horizontal = b,
            ScrollableState::HoveredHorizontal => s.hovered_horizontal = b,
            ScrollableState::HoveredHorizontalOverScrollbar => s.hovered_horizontal_over_scrollbar = b,
            ScrollableState::DraggingHorizontal => s.dragging_horizontal = b,
        }
        s
    }

    /// Every state gets the same plain record: no background, square
    /// corners, no border, a transparent scroller; the active state is
    /// selected.
    pub fn new() -> (r: Self)
        ensures
            r.current_state == ScrollableState::Active,
            r.all_bars(plain_scrollbar()),
    {
        let b = ScrollbarAppearance {
            background: None,
            border_radius: square_corners(),
            border_width: no_width(),
            border_color: transparent(),
            scroller: ScrollerAppearance {
                color: transparent(),
                border_radius: square_corners(),
                border_width: no_width(),
                border_color: transparent(),
            },
        };
        CustomScrollableStyle {
            active: b,
            hovered: b,
            hovered_over_scrollbar: b,
            dragging: b,
            active_horizontal: b,
            hovered_horizontal: b,
            hovered_horizontal_over_scrollbar: b,
            dragging_horizontal: b,
            current_state: ScrollableState::Active,
        }
    }

    /// The theme's default scrollbar records, the active state selected.
    pub fn default(theme: &Theme) -> (r: Self)
        ensures
            r == (Self {
                active: theme_scrollbar_active(*theme),
                hovered: theme_scrollbar_hovered(*theme, false),
                hovered_over_scrollbar: theme_scrollbar_hovered(*theme, true),
                dragging: theme_scrollbar_dragging(*theme),
                active_horizontal: theme_scrollbar_active_horizontal(*theme),
                hovered_horizontal: theme_scrollbar_hovered_horizontal(*theme, false),
                hovered_horizontal_over_scrollbar: theme_scrollbar_hovered_horizontal(*theme, true),
                dragging_horizontal: theme_scrollbar_dragging_horizontal(*theme),
                current_state: ScrollableState::Active,
            }),
    {
        CustomScrollableStyle {
            active: theme_active(theme),
            hovered: theme_hovered(theme, false),
            hovered_over_scrollbar: theme_hovered(theme, true),
            dragging: theme_dragging(theme),
            active_horizontal: theme_active_horizontal(theme),
            hovered_horizontal: theme_hovered_horizontal(theme, false),
            hovered_horizontal_over_scrollbar: theme_hovered_horizontal(theme, true),
            dragging_horizontal: theme_dragging_horizontal(theme),
            current_state: ScrollableState::Active,
        }
    }

    /// Selects the `Active` state for the setters that follow.
    pub fn active(self) -> (r: Self)
        ensures
            r == (Self { current_state: ScrollableState::Active, ..self }),
    {
        let mut s = self;
        s.current_state = ScrollableState::Active;
        s
    }

    /// Selects the `Hovered` state for the setters that follow.
    pub fn hovered(self) -> (r: Self)
        ensures
            r == (Self { current_state: ScrollableState::Hovered, ..self }),
    {
        let mut s = self;
        s.current_state = ScrollableState::Hovered;
        s
    }

    /// Selects the `HoveredOverScrollbar` state for the setters that follow.
    pub fn hovered_over_scrollbar(self) -> (r: Self)
        ensures
            r == (Self { current_state: ScrollableState::HoveredOverScrollbar, ..self }),
    {
        let mut s = self;
        s.current_state = ScrollableState::HoveredOverScrollbar;
        s
    }

    /// Selects the `Dragging` state for the setters that follow.
    pub fn dragging(self) -> (r: Self)
        ensures
            r == (Self { current_state: ScrollableState::Dragging, ..self }),
    {
        let mut s = self;
        s.current_state = ScrollableState::Dragging;
        s
    }

    /// Selects the `ActiveHorizontal` state for the setters that follow.
    pub fn active_horizontal(self) -> (r: Self)
        ensures
            r == (Self { current_state: ScrollableState::ActiveHorizontal, ..self }),
    {
        let mut s = self;
        s.current_state = ScrollableState::ActiveHorizontal;
        s
    }

    /// Selects the `HoveredHorizontal` state for the setters that follow.
    pub fn hovered_horizontal(self) -> (r: Self)
        ensures
            r == (Self { current_state: ScrollableState::HoveredHorizontal, ..self }),
    {
        let mut s = self;
        s.current_state = ScrollableState::HoveredHorizontal;
        s
    }

    /// Selects the `HoveredHorizontalOverScrollbar` state for the setters that follow.
    pub fn hovered_horizontal_over_scrollbar(self) -> (r: Self)
        ensures
            r == (Self { current_state: ScrollableState::HoveredHorizontalOverScrollbar, ..self }),
    {
        let mut s = self;
        s.current_state = ScrollableState::HoveredHorizontalOverScrollbar;
        s
    }

    /// Selects the `DraggingHorizontal` state for the setters that follow.
    pub fn dragging_horizontal(self) -> (r: Self)
        ensures
            r == (Self { current_state: ScrollableState::DraggingHorizontal, ..self }),
    {
        let mut s = self;
        s.current_state = ScrollableState::DraggingHorizontal;
        s
    }

    /// Sets the background of the selected state's scrollbar.
    pub fn background(self, background: Option<Background>) -> (r: Self)
        ensures
            r == self.with_current((ScrollbarAppearance { background: background, ..self.current() })),
    {
        let mut b = self.current_bar();
        b.background = background;
        self.replace_current(b)
    }

    /// Sets the border radius of the selected state's scrollbar.
    pub fn border_radius(self, radius: BorderRadius) -> (r: Self)
        ensures
            r == self.with_current((ScrollbarAppearance { border_radius: radius, ..self.current() })),
    {
        let mut b = self.current_bar();
        b.border_radius = radius;
        self.replace_current(b)
    }

    /// Sets the border width of the selected state's scrollbar.
    pub fn border_width(self, width: Pixels) -> (r: Self)
        ensures
            r == self.with_current((ScrollbarAppearance { border_width: width, ..self.current() })),
    {
        let mut b = self.current_bar();
        b.border_width = width;
        self.replace_current(b)
    }

    /// Sets the border color of the selected state's scrollbar.
    pub fn border_color(self, color: Color) -> (r: Self)
        ensures
            r == self.with_current((ScrollbarAppearance { border_color: color, ..self.current() })),
    {
        let mut b = self.current_bar();
        b.border_color = color;
        self.replace_current(b)
    }

    /// Fills the selected state's scrollbar background with one color.
    pub fn background_color(self, color: Color) -> (r: Self)
        ensures
            r == self.with_current((ScrollbarAppearance { background: Some(solid_background(color)), ..self.current() })),
    {
        self.background(Some(solid(color)))
    }

    /// Sets the color of the selected state's scroller.
    pub fn scroller_color(self, color: Color) -> (r: Self)
        ensures
            r == self.with_current((ScrollbarAppearance {
                scroller: ScrollerAppearance { color: color, ..self.current().scroller },
                ..self.current()
            })),
    {
        let mut b = self.current_bar();
        b.scroller.color = color;
        self.replace_current(b)
    }

    /// Sets the border radius of the selected state's scroller.
    pub fn scroller_border_radius(self, radius: BorderRadius) -> (r: Self)
        ensures
            r == self.with_current((ScrollbarAppearance {
                scroller: ScrollerAppearance { border_radius: radius, ..self.current().scroller },
                ..self.current()
            })),
    {
        let mut b = self.current_bar();
        b.scroller.border_radius = radius;
        self.replace_current(b)
    }

    /// Sets the border width of the selected state's scroller.
    pub fn scroller_border_width(self, width: Pixels) -> (r: Self)
        ensures
            r == self.with_current((ScrollbarAppearance {
                scroller: ScrollerAppearance { border_width: width, ..self.current().scroller },
                ..self.current()
            })),
    {
        let mut b = self.current_bar();
        b.scroller.border_width = width;
        self.replace_current(b)
    }

    /// Sets the border color of the selected state's scroller.
    pub fn scroller_border_color(self, color: Color) -> (r: Self)
        ensures
            r == self.with_current((ScrollbarAppearance {
                scroller: ScrollerAppearance { border_color: color, ..self.current().scroller },
                ..self.current()
            })),
    {
        let mut b = self.current_bar();
        b.scroller.border_color = color;
        self.replace_current(b)
    }

}

/// Replacing the record of one state leaves the selected state and the
/// records of all other states as they were, and the replaced record reads
/// back as given.
pub proof fn lemma_with_bar_touches_one_state(
    style: CustomScrollableStyle,
    state: ScrollableState,
    b: ScrollbarAppearance,
)
    ensures
        style.with_bar(state, b).bar(state) == b,
        style.with_bar(state, b).current_state == style.current_state,
        forall|other: ScrollableState|
            other != state ==> #[trigger] style.with_bar(state, b).bar(other) == style.bar(other),
{
}

} // verus!
