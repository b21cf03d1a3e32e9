use custom_styles::container::CustomContainerStyle;
use custom_styles::scrollable::{CustomScrollableStyle, ScrollableState};
use custom_styles::svg::CustomSvgStyle;
use custom_styles::text::CustomTextStyle;
use custom_styles::text_input::{CustomTextInputStyle, TextInputState};
use iced::{Background, BorderRadius, Color, Pixels, Theme};

fn red() -> Color {
    Color::from_rgb(1.0, 0.0, 0.0)
}

fn blue() -> Color {
    Color::from_rgb(0.0, 0.0, 1.0)
}

#[test]
fn container_new_is_plain() {
    let s = CustomContainerStyle::new();
    assert_eq!(s.appearance.text_color, None);
    assert_eq!(s.appearance.background, None);
    assert_eq!(s.appearance.border_radius, BorderRadius::from(0.0));
    assert_eq!(s.appearance.border_width, Pixels(0.0));
    assert_eq!(s.appearance.border_color, Color::TRANSPARENT);
}

#[test]
fn container_setters_chain() {
    let s = CustomContainerStyle::new()
        .background_color(red())
        .border_radius(BorderRadius::from(4.0))
        .border_width(Pixels(2.0))
        .border_color(blue())
        .text_color(Some(Color::WHITE));
    assert_eq!(s.appearance.background, Some(Background::Color(red())));
    assert_eq!(s.appearance.border_radius, BorderRadius::from(4.0));
    assert_eq!(s.appearance.border_width, Pixels(2.0));
    assert_eq!(s.appearance.border_color, blue());
    assert_eq!(s.appearance.text_color, Some(Color::WHITE));
    let cleared = s.background(None);
    assert_eq!(cleared.appearance.background, None);
    assert_eq!(cleared.appearance.border_color, blue());
}

#[test]
fn container_transparent_theme_is_plain() {
    let s = CustomContainerStyle::transparent(&Theme::Light);
    assert_eq!(s, CustomContainerStyle::new());
}

#[test]
fn container_box_theme_has_background() {
    let s = CustomContainerStyle::boxx(&Theme::Dark);
    assert!(s.appearance.background.is_some());
    assert_eq!(s.appearance.border_radius, BorderRadius::from(2.0));
}

#[test]
fn scrollable_new_is_uniform() {
    let s = CustomScrollableStyle::new();
    assert_eq!(s.current_state, ScrollableState::Active);
    assert_eq!(s.active.background, None);
    assert_eq!(s.active.border_width, Pixels(0.0));
    assert_eq!(s.active.scroller.color, Color::TRANSPARENT);
    for b in [
        s.hovered,
        s.hovered_over_scrollbar,
        s.dragging,
        s.active_horizontal,
        s.hovered_horizontal,
        s.hovered_horizontal_over_scrollbar,
        s.dragging_horizontal,
    ] {
        assert_eq!(b, s.active);
    }
}

#[test]
fn scrollable_state_selectors() {
    let s = CustomScrollableStyle::new();
    assert_eq!(s.hovered().current_state, ScrollableState::Hovered);
    assert_eq!(s.hovered_over_scrollbar().current_state, ScrollableState::HoveredOverScrollbar);
    assert_eq!(s.dragging().current_state, ScrollableState::Dragging);
    assert_eq!(s.active_horizontal().current_state, ScrollableState::ActiveHorizontal);
    assert_eq!(s.hovered_horizontal().current_state, ScrollableState::HoveredHorizontal);
    assert_eq!(
        s.hovered_horizontal_over_scrollbar().current_state,
        ScrollableState::HoveredHorizontalOverScrollbar
    );
    assert_eq!(s.dragging_horizontal().current_state, ScrollableState::DraggingHorizontal);
    assert_eq!(s.dragging().active().current_state, ScrollableState::Active);
    assert_eq!(ScrollableState::default(), ScrollableState::Active);
}

#[test]
fn scrollable_setters_write_only_the_selected_state() {
    let plain = CustomScrollableStyle::new();
    let s = plain
        .dragging_horizontal()
        .background_color(red())
        .border_radius(BorderRadius::from(3.0))
        .border_width(Pixels(1.5))
        .border_color(blue())
        .scroller_color(blue())
        .scroller_border_radius(BorderRadius::from(5.0))
        .scroller_border_width(Pixels(0.5))
        .scroller_border_color(red());
    let b = s.dragging_horizontal;
    assert_eq!(b.background, Some(Background::Color(red())));
    assert_eq!(b.border_radius, BorderRadius::from(3.0));
    assert_eq!(b.border_width, Pixels(1.5));
    assert_eq!(b.border_color, blue());
    assert_eq!(b.scroller.color, blue());
    assert_eq!(b.scroller.border_radius, BorderRadius::from(5.0));
    assert_eq!(b.scroller.border_width, Pixels(0.5));
    assert_eq!(b.scroller.border_color, red());
    assert_eq!(s.dragging, plain.dragging);
    assert_eq!(s.active, plain.active);
    assert_eq!(s.hovered_horizontal_over_scrollbar, plain.hovered_horizontal_over_scrollbar);
    assert_eq!(s.current_state, ScrollableState::DraggingHorizontal);
}

#[test]
fn scrollable_background_in_hovered_over_scrollbar() {
    let s = CustomScrollableStyle::new()
        .hovered_over_scrollbar()
        .background(Some(Background::Color(red())));
    assert_eq!(s.hovered_over_scrollbar.background, Some(Background::Color(red())));
    assert_eq!(s.hovered.background, None);
}

#[test]
fn scrollable_default_follows_theme() {
    let s = CustomScrollableStyle::default(&Theme::Light);
    assert_eq!(s.current_state, ScrollableState::Active);
    assert!(s.active.background.is_some());
    assert_eq!(s.dragging, s.hovered_over_scrollbar);
    assert_eq!(s.hovered, s.active);
    assert_eq!(s.dragging_horizontal, s.hovered_horizontal_over_scrollbar);
}

#[test]
fn text_input_new_is_uniform() {
    let s = CustomTextInputStyle::new();
    assert_eq!(s.current_state, TextInputState::Active);
    assert_eq!(s.active.background, Background::Color(Color::BLACK));
    assert_eq!(s.active.border_radius, BorderRadius::from(0.0));
    assert_eq!(s.active.border_width, Pixels(0.0));
    assert_eq!(s.active.border_color, Color::WHITE);
    assert_eq!(s.active.icon_color, Color::WHITE);
    assert_eq!(s.focused, s.active);
    assert_eq!(s.hovered, s.active);
    assert_eq!(s.disabled, s.active);
    assert_eq!(s.placeholder_color, Color::default());
    assert_eq!(s.selection_color, Color::default());
}

#[test]
fn text_input_setters_write_only_the_selected_state() {
    let plain = CustomTextInputStyle::new();
    let s = plain
        .focused()
        .background(Background::Color(red()))
        .border_radius(BorderRadius::from(6.0))
        .border_width(Pixels(1.0))
        .border_color(blue())
        .icon_color(red());
    assert_eq!(s.focused.background, Background::Color(red()));
    assert_eq!(s.focused.border_radius, BorderRadius::from(6.0));
    assert_eq!(s.focused.border_width, Pixels(1.0));
    assert_eq!(s.focused.border_color, blue());
    assert_eq!(s.focused.icon_color, red());
    assert_eq!(s.active, plain.active);
    assert_eq!(s.hovered, plain.hovered);
    assert_eq!(s.disabled, plain.disabled);
    let d = s.disabled().background_color(blue());
    assert_eq!(d.disabled.background, Background::Color(blue()));
    assert_eq!(d.current_state, TextInputState::Disabled);
    assert_eq!(s.hovered().current_state, TextInputState::Hovered);
    assert_eq!(s.active().current_state, TextInputState::Active);
}

#[test]
fn text_input_text_colors() {
    let s = CustomTextInputStyle::new()
        .hovered()
        .placeholder_color(red())
        .value_color(blue())
        .disabled_color(Color::WHITE)
        .selection_color(Color::BLACK);
    assert_eq!(s.placeholder_color, red());
    assert_eq!(s.value_color, blue());
    assert_eq!(s.disabled_color, Color::WHITE);
    assert_eq!(s.selection_color, Color::BLACK);
    assert_eq!(s.hovered, CustomTextInputStyle::new().hovered);
}

#[test]
fn text_input_default_follows_theme() {
    let s = CustomTextInputStyle::default(&Theme::Dark);
    assert_eq!(s.current_state, TextInputState::Active);
    assert_eq!(s.active.border_width, Pixels(1.0));
    assert_eq!(s.active.border_radius, BorderRadius::from(2.0));
}

#[test]
fn svg_color() {
    let s = CustomSvgStyle::new();
    assert_eq!(s.appearance.color, None);
    assert_eq!(s.color(Some(red())).appearance.color, Some(red()));
    assert_eq!(s.color(Some(red())).color(None).appearance.color, None);
}

#[test]
fn text_color_and_custom() {
    let s = CustomTextStyle::new();
    assert_eq!(s.appearance.color, Some(Color::BLACK));
    let t = s.color(red());
    assert_eq!(t.appearance.color, Some(red()));
    assert_eq!(t.shown_color(), red());
    assert!(matches!(t.as_custom(), iced::theme::Text::Color(c) if c == red()));
    let none = CustomTextStyle { appearance: custom_styles::text::TextAppearance { color: None } };
    assert_eq!(none.shown_color(), Color::TRANSPARENT);
    assert!(matches!(none.as_custom(), iced::theme::Text::Color(c) if c == Color::TRANSPARENT));
}

#[test]
fn theme_lookups_match_the_theme() {
    let theme = Theme::Dark;
    let s = CustomScrollableStyle::default(&theme);
    let d = iced::theme::Scrollable::Default;
    let over = iced::widget::scrollable::StyleSheet::hovered(&theme, &d, true);
    assert_eq!(s.hovered_over_scrollbar.border_width, Pixels(over.border_width));
    assert_eq!(s.hovered_over_scrollbar.scroller.color, over.scroller.color);
    assert_eq!(s.hovered_over_scrollbar.background, over.background);
    let t = CustomTextInputStyle::default(&theme);
    let d = iced::theme::TextInput::Default;
    assert_eq!(t.placeholder_color, iced::widget::text_input::StyleSheet::placeholder_color(&theme, &d));
    assert_eq!(t.selection_color, iced::widget::text_input::StyleSheet::selection_color(&theme, &d));
    assert_eq!(t.focused.border_color, iced::widget::text_input::StyleSheet::focused(&theme, &d).border_color);
    assert_eq!(t.disabled.background, iced::widget::text_input::StyleSheet::disabled(&theme, &d).background);
}

#[test]
fn constants_match_toolkit_values() {
    assert_eq!(Color::from_rgba8(0, 0, 0, 1.0), Color::BLACK);
    assert_eq!(Color::from_rgba8(255, 255, 255, 1.0), Color::WHITE);
    assert_eq!(Color::from_rgba8(0, 0, 0, 0.0), Color::TRANSPARENT);
    assert_eq!(Color::default(), Color::TRANSPARENT);
    assert_eq!(BorderRadius::from(0.0), BorderRadius::default());
    let s = CustomScrollableStyle::new().dragging_horizontal().border_width(Pixels(2.0));
    assert_eq!(s.dragging_horizontal.border_width, Pixels(2.0));
    assert_eq!(s.dragging.border_width, Pixels(0.0));
    let t = CustomTextInputStyle::new().focused().background(Background::Color(Color::WHITE));
    assert_eq!(t.focused.background, Background::Color(Color::WHITE));
    assert_eq!(t.active.background, Background::Color(Color::BLACK));
    assert!(matches!(CustomTextStyle::new().as_custom(), iced::theme::Text::Color(c) if c == Color::BLACK));
}
