use iced_gauges::canvas::Color;
use iced_gauges::pin::PinOrder;
use iced_gauges::style::{dark_default, light_default, Appearance, Style, Theme};

#[test]
fn default_style_follows_the_theme() {
    assert_eq!(Style::Default.for_theme(&Theme::Light), light_default());
    assert_eq!(Style::Default.for_theme(&Theme::Dark), dark_default());
    assert_eq!(Style::Default.for_theme(&Theme::Custom), dark_default());
    assert_eq!(Style::default(), Style::Default);
}

#[test]
fn custom_style_is_the_same_under_every_theme() {
    let look = Appearance { pin_diameter_ratio: 1_000, pin_style: PinOrder::Under, ..light_default() };
    let style = Style::Custom(look);
    for theme in [Theme::Light, Theme::Dark, Theme::Custom] {
        assert_eq!(style.for_theme(&theme), look);
    }
}

#[test]
fn themed_style_picks_light_only_under_the_light_theme() {
    let light = Appearance { border_width_ratio: 10_000, ..light_default() };
    let dark = Appearance { border_width_ratio: 20_000, ..dark_default() };
    let style = Style::Themed { light, dark };
    assert_eq!(style.for_theme(&Theme::Light), light);
    assert_eq!(style.for_theme(&Theme::Dark), dark);
    assert_eq!(style.for_theme(&Theme::Custom), dark);
}

#[test]
fn resolving_again_gives_the_same_fields() {
    let look = Appearance { tick_labels: false, ..dark_default() };
    let style = Style::Themed { light: look, dark: light_default() };
    let copy = style;
    for theme in [Theme::Light, Theme::Dark, Theme::Custom] {
        assert_eq!(style.for_theme(&theme), copy.for_theme(&theme));
        assert_eq!(Style::Custom(style.for_theme(&theme)).for_theme(&theme), style.for_theme(&theme));
    }
}

#[test]
fn built_in_looks() {
    let light = light_default();
    assert_eq!(Appearance::default(), light);
    assert_eq!(light.background_color, Color { r: 18, g: 146, b: 216, a: 255 });
    assert_eq!(light.border_width_ratio, 50_000);
    assert_eq!(light.tick_border_width_ratio, 1_000);
    assert_eq!(light.tick_border_inset_ratio, 800);
    assert_eq!(light.border_color, Color::black());
    assert_eq!(light.tick_text_color, Color::black());
    assert_eq!(light.major_tick_color, Color::black());
    assert_eq!(light.minor_tick_color, Color::white());
    assert_eq!(light.major_tick_width_ratio, 1_000);
    assert_eq!(light.minor_tick_width_ratio, 800);
    assert_eq!(light.pin_color, Color::white());
    assert_eq!(light.pin_border_color, Color::black());
    assert_eq!(light.pin_diameter_ratio, 500);
    assert_eq!(light.pin_border_width_ratio, 0);
    assert!(light.tick_labels);
    assert_eq!(light.pin_style, PinOrder::Over);

    let orange = Color::from_rgb8(246, 88, 7);
    let dark = dark_default();
    assert_eq!(
        dark,
        Appearance {
            background_color: Color::from_rgb8(48, 71, 94),
            border_color: orange,
            minor_tick_color: orange,
            ..light
        }
    );
}
