//! Colours and proportions of a gauge, and their choice by theme.
//!
//! Ratios are whole numbers of thousandths: `800` stands for 0.8.

use vstd::prelude::*;
use crate::canvas::Color;
use crate::pin::PinOrder;

verus! {

/// How a gauge looks.
#[derive(Clone, Copy, Debug, PartialEq, Eq, Structural)]
pub struct Appearance {
    pub background_color: Color,
    /// The frame radius is this many times the border's thickness.
    pub border_width_ratio: u32,
    /// Thickness of the arc along the ticks, as a ratio of a hundredth of
    /// the tick radius.
    pub tick_border_width_ratio: u32,
    pub border_color: Color,
    pub tick_text_color: Color,
    pub major_tick_color: Color,
    pub minor_tick_color: Color,
    /// Thickness of a major tick, as a ratio of a hundredth of the tick radius.
    pub major_tick_width_ratio: u32,
    /// Thickness of a minor tick, as a ratio of a hundredth of the tick radius.
    pub minor_tick_width_ratio: u32,
    /// Whether major ticks carry their number.
    pub tick_labels: bool,
    /// Distance of the ticks' outer ends from the centre, as a ratio of the
    /// frame radius.
    pub tick_border_inset_ratio: u32,
    pub pin_color: Color,
    pub pin_border_color: Color,
    /// Four times the pin's radius, as a ratio of the frame radius.
    pub pin_diameter_ratio: u32,
    /// Four times the thickness of the pin's border, as a ratio of the frame
    /// radius.
    pub pin_border_width_ratio: u32,
    /// Whether the pin is painted over or under the needle.
    pub pin_style: PinOrder,
}

/// The look of a gauge on a light background.
pub open spec fn spec_light_default() -> Appearance {
    Appearance {
        background_color: Color { r: 18, g: 146, b: 216, a: 255 },
        border_width_ratio: 50_000,
        tick_border_width_ratio: 1_000,
        border_color: Color { r: 0, g: 0, b: 0, a: 255 },
        tick_text_color: Color { r: 0, g: 0, b: 0, a: 255 },
        major_tick_color: Color { r: 0, g: 0, b: 0, a: 255 },
        minor_tick_color: Color { r: 255, g: 255, b: 255, a: 255 },
        major_tick_width_ratio: 1_000,
        minor_tick_width_ratio: 800,
        tick_labels: true,
        tick_border_inset_ratio: 800,
        pin_color: Color { r: 255, g: 255, b: 255, a: 255 },
        pin_border_color: Color { r: 0, g: 0, b: 0, a: 255 },
        pin_diameter_ratio: 500,
        pin_border_width_ratio: 0,
        pin_style: PinOrder::Over,
    }
}

/// The look of a gauge on a light background.
#[verifier::when_used_as_spec(spec_light_default)]
pub fn light_default() -> (a: Appearance)
    ensures
        a == spec_light_default(),
{
    Appearance {
        background_color: Color { r: 18, g: 146, b: 216, a: 255 },
        border_width_ratio: 50_000,
        tick_border_width_ratio: 1_000,
        border_color: Color { r: 0, g: 0, b: 0, a: 255 },
        tick_text_color: Color { r: 0, g: 0, b: 0, a: 255 },
        major_tick_color: Color { r: 0, g: 0, b: 0, a: 255 },
        minor_tick_color: Color { r: 255, g: 255, b: 255, a: 255 },
        major_tick_width_ratio: 1_000,
        minor_tick_width_ratio: 800,
        tick_labels: true,
        tick_border_inset_ratio: 800,
        pin_color: Color { r: 255, g: 255, b: 255, a: 255 },
        pin_border_color: Color { r: 0, g: 0, b: 0, a: 255 },
        pin_diameter_ratio: 500,
        pin_border_width_ratio: 0,
        pin_style: PinOrder::Over,
    }
}

/// The look of a gauge on a dark background.
pub open spec fn spec_dark_default() -> Appearance {
    Appearance {
        background_color: Color { r: 48, g: 71, b: 94, a: 255 },
        border_width_ratio: 50_000,
        tick_border_width_ratio: 1_000,
        border_color: Color { r: 246, g: 88, b: 7, a: 255 },
        tick_text_color: Color { r: 0, g: 0, b: 0, a: 255 },
        major_tick_color: Color { r: 0, g: 0, b: 0, a: 255 },
        minor_tick_color: Color { r: 246, g: 88, b: 7, a: 255 },
        major_tick_width_ratio: 1_000,
        minor_tick_width_ratio: 800,
        tick_labels: true,
        tick_border_inset_ratio: 800,
        pin_color: Color { r: 255, g: 255, b: 255, a: 255 },
        pin_border_color: Color { r: 0, g: 0, b: 0, a: 255 },
        pin_diameter_ratio: 500,
        pin_border_width_ratio: 0,
        pin_style: PinOrder::Over,
    }
}

/// The look of a gauge on a dark background.
#[verifier::when_used_as_spec(spec_dark_default)]
pub fn dark_default() -> (a: Appearance)
    ensures
        a == spec_dark_default(),
{
    Appearance {
        background_color: Color { r: 48, g: 71, b: 94, a: 255 },
        border_width_ratio: 50_000,
        tick_border_width_ratio: 1_000,
        border_color: Color { r: 246, g: 88, b: 7, a: 255 },
        tick_text_color: Color { r: 0, g: 0, b: 0, a: 255 },
        major_tick_color: Color { r: 0, g: 0, b: 0, a: 255 },
        minor_tick_color: Color { r: 246, g: 88, b: 7, a: 255 },
        major_tick_width_ratio: 1_000,
        minor_tick_width_ratio: 800,
        tick_labels: true,
        tick_border_inset_ratio: 800,
        pin_color: Color { r: 255, g: 255, b: 255, a: 255 },
        pin_border_color: Color { r: 0, g: 0, b: 0, a: 255 },
        pin_diameter_ratio: 500,
        pin_border_width_ratio: 0,
        pin_style: PinOrder::Over,
    }
}

impl Default for Appearance {
    fn default() -> (a: Appearance)
        ensures
            a == light_default(),
    {
        light_default()
    }
}

/// The theme that the surroundings of a gauge are drawn in.
#[derive(Clone, Copy, Debug, PartialEq, Eq, Structural)]
pub enum Theme {
    Light,
    Dark,
    Custom,
}

/// Where a gauge takes its look from.
#[derive(Clone, Copy, Debug, PartialEq, Eq, Structural)]
pub enum Style {
    /// The built-in look of the theme.
    Default,
    /// One look under every theme.
    Custom(Appearance),
    /// One look under the light theme, another under every other.
    Themed { light: Appearance, dark: Appearance },
}

impl Default for Style {
    fn default() -> (s: Style)
        ensures
            s == Style::Default,
    {
        Style::Default
    }
}

impl Style {
    /// The look this style gives under `theme`.
    pub open spec fn resolved(self, theme: Theme) -> Appearance {
        match self {
            Style::Default => if theme == Theme::Light {
                light_default()
            } else {
                dark_default()
            },
            Style::Custom(a) => a,
            Style::Themed { light, dark } => if theme == Theme::Light {
                light
            } else {
                dark
            },
        }
    }

    /// The look this style gives under `theme`.
    pub fn for_theme(&self, theme: &Theme) -> (a: Appearance)
        ensures
            a == self.resolved(*theme),
    {
        match self {
            Style::Default => match theme {
                Theme::Light => light_default(),
                _ => dark_default(),
            },
            Style::Custom(a) => *a,
            Style::Themed { light, dark } => match theme {
                Theme::Light => *light,
                _ => *dark,
            },
        }
    }

    /// A look that a style has given stays what it is: kept as a custom
    /// style, it is the look under every theme, field for field; and a themed
    /// style made of the two looks that a style gives resolves as that style
    /// does.
    pub proof fn lemma_resolved_look_is_kept(self, theme: Theme, later: Theme)
        ensures
            Style::Custom(self.resolved(theme)).resolved(later) == self.resolved(theme),
            (Style::Themed {
                light: self.resolved(Theme::Light),
                dark: self.resolved(Theme::Dark),
            }).resolved(later) == self.resolved(later),
    {
    }
}

} // verus!
