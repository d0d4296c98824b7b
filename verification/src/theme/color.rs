//! Colors: an RGBA color value, its serializable RGB form, the editable
//! theme configuration and the resolved palette the widgets paint with.

use vstd::prelude::*;

verus! {

/// An RGBA color with 8 bits per channel, as the renderer takes it.
#[derive(Debug, Clone, Copy, PartialEq, Eq, Structural)]
pub struct Color32 {
    pub r: u8,
    pub g: u8,
    pub b: u8,
    pub a: u8,
}

impl Color32 {
    /// An opaque color.
    pub fn from_rgb(r: u8, g: u8, b: u8) -> (c: Color32)
        ensures
            c == (Color32 { r, g, b, a: 255 }),
    {
        Color32 { r, g, b, a: 255 }
    }
}

/// An opaque color as stored in configuration files.
#[derive(Debug, Clone, Copy, PartialEq, Eq, Structural)]
pub struct SerializableColor {
    pub r: u8,
    pub g: u8,
    pub b: u8,
}

/// The stored form of a color: its red, green and blue channels.
pub open spec fn stored(c: Color32) -> SerializableColor {
    SerializableColor { r: c.r, g: c.g, b: c.b }
}

/// The color a stored one stands for, fully opaque.
pub open spec fn opaque(c: SerializableColor) -> Color32 {
    Color32 { r: c.r, g: c.g, b: c.b, a: 255 }
}

impl SerializableColor {
    pub fn new(r: u8, g: u8, b: u8) -> (c: Self)
        ensures
            c == (SerializableColor { r, g, b }),
    {
        SerializableColor { r, g, b }
    }

    /// The same color, fully opaque.
    pub fn to_color32(&self) -> (c: Color32)
        ensures
            c == opaque(*self),
    {
        Color32::from_rgb(self.r, self.g, self.b)
    }
}

impl From<SerializableColor> for Color32 {
    fn from(c: SerializableColor) -> (color: Color32) {
        c.to_color32()
    }
}

impl vstd::std_specs::convert::FromSpecImpl<SerializableColor> for Color32 {
    open spec fn obeys_from_spec() -> bool {
        true
    }

    open spec fn from_spec(c: SerializableColor) -> Color32 {
        opaque(c)
    }
}

impl From<Color32> for SerializableColor {
    /// Drops the alpha channel.
    fn from(c: Color32) -> (color: SerializableColor) {
        SerializableColor { r: c.r, g: c.g, b: c.b }
    }
}

impl vstd::std_specs::convert::FromSpecImpl<Color32> for SerializableColor {
    open spec fn obeys_from_spec() -> bool {
        true
    }

    open spec fn from_spec(c: Color32) -> SerializableColor {
        stored(c)
    }
}

/// The editable colors of a theme.
#[derive(Debug, Clone, Copy, PartialEq, Eq, Structural)]
pub struct ThemeConfig {
    pub background: SerializableColor,
    pub surface: SerializableColor,
    pub surface_hover: SerializableColor,
    pub surface_secondary: SerializableColor,
    pub text: SerializableColor,
    pub text_secondary: SerializableColor,
    pub text_muted: SerializableColor,
    pub primary: SerializableColor,
    pub primary_hover: SerializableColor,
    /// Foreground color for content sitting on top of `primary` (gold) fills.
    pub on_primary: SerializableColor,
    pub secondary: SerializableColor,
    pub success: SerializableColor,
    pub danger: SerializableColor,
    pub warning: SerializableColor,
    pub victory: SerializableColor,
    pub defeat: SerializableColor,
    pub sidebar_bg: SerializableColor,
    pub sidebar_item_hover: SerializableColor,
    pub sidebar_item_active: SerializableColor,
    pub border: SerializableColor,
    pub border_light: SerializableColor,
    pub gradient_start: SerializableColor,
    pub gradient_end: SerializableColor,
    pub accent: SerializableColor,
    pub accent_muted: SerializableColor,
}

/// The resolved colors the widgets paint with.
#[derive(Debug, Clone, Copy, PartialEq, Eq, Structural)]
pub struct ColorPalette {
    pub background: Color32,
    pub surface: Color32,
    pub surface_hover: Color32,
    pub surface_secondary: Color32,
    pub text: Color32,
    pub text_secondary: Color32,
    pub text_muted: Color32,
    pub primary: Color32,
    pub primary_hover: Color32,
    pub on_primary: Color32,
    pub secondary: Color32,
    pub success: Color32,
    pub danger: Color32,
    pub warning: Color32,
    pub victory: Color32,
    pub defeat: Color32,
    pub sidebar_bg: Color32,
    pub sidebar_item_hover: Color32,
    pub sidebar_item_active: Color32,
    pub border: Color32,
    pub border_light: Color32,
    pub gradient_start: Color32,
    pub gradient_end: Color32,
    pub accent: Color32,
    pub accent_muted: Color32,
}

/// The palette a configuration resolves to: every color made opaque.
pub open spec fn palette_of(c: ThemeConfig) -> ColorPalette {
    ColorPalette {
        background: opaque(c.background),
        surface: opaque(c.surface),
        surface_hover: opaque(c.surface_hover),
        surface_secondary: opaque(c.surface_secondary),
        text: opaque(c.text),
        text_secondary: opaque(c.text_secondary),
        text_muted: opaque(c.text_muted),
        primary: opaque(c.primary),
        primary_hover: opaque(c.primary_hover),
        on_primary: opaque(c.on_primary),
        secondary: opaque(c.secondary),
        success: opaque(c.success),
        danger: opaque(c.danger),
        warning: opaque(c.warning),
        victory: opaque(c.victory),
        defeat: opaque(c.defeat),
        sidebar_bg: opaque(c.sidebar_bg),
        sidebar_item_hover: opaque(c.sidebar_item_hover),
        sidebar_item_active: opaque(c.sidebar_item_active),
        border: opaque(c.border),
        border_light: opaque(c.border_light),
        gradient_start: opaque(c.gradient_start),
        gradient_end: opaque(c.gradient_end),
        accent: opaque(c.accent),
        accent_muted: opaque(c.accent_muted),
    }
}

/// The graphite-and-gold dark theme.
pub open spec fn dark_config() -> ThemeConfig {
    ThemeConfig {
        background: SerializableColor { r: 23, g: 24, b: 27 },
        surface: SerializableColor { r: 31, g: 33, b: 38 },
        surface_hover: SerializableColor { r: 42, g: 44, b: 50 },
        surface_secondary: SerializableColor { r: 37, g: 39, b: 44 },
        text: SerializableColor { r: 236, g: 237, b: 238 },
        text_secondary: SerializableColor { r: 166, g: 169, b: 176 },
        text_muted: SerializableColor { r: 113, g: 117, b: 124 },
        primary: SerializableColor { r: 224, g: 168, b: 62 },
        primary_hover: SerializableColor { r: 201, g: 146, b: 47 },
        on_primary: SerializableColor { r: 24, g: 25, b: 28 },
        secondary: SerializableColor { r: 110, g: 140, b: 168 },
        success: SerializableColor { r: 66, g: 178, b: 124 },
        danger: SerializableColor { r: 221, g: 90, b: 82 },
        warning: SerializableColor { r: 224, g: 138, b: 60 },
        victory: SerializableColor { r: 66, g: 178, b: 124 },
        defeat: SerializableColor { r: 221, g: 90, b: 82 },
        sidebar_bg: SerializableColor { r: 19, g: 20, b: 23 },
        sidebar_item_hover: SerializableColor { r: 31, g: 33, b: 38 },
        sidebar_item_active: SerializableColor { r: 43, g: 45, b: 51 },
        border: SerializableColor { r: 45, g: 47, b: 53 },
        border_light: SerializableColor { r: 35, g: 37, b: 42 },
        gradient_start: SerializableColor { r: 224, g: 168, b: 62 },
        gradient_end: SerializableColor { r: 201, g: 146, b: 47 },
        accent: SerializableColor { r: 224, g: 168, b: 62 },
        accent_muted: SerializableColor { r: 138, g: 110, b: 46 },
    }
}

/// The warm-paper-and-bronze light theme.
pub open spec fn light_config() -> ThemeConfig {
    ThemeConfig {
        background: SerializableColor { r: 246, g: 246, b: 244 },
        surface: SerializableColor { r: 255, g: 255, b: 255 },
        surface_hover: SerializableColor { r: 237, g: 237, b: 233 },
        surface_secondary: SerializableColor { r: 240, g: 240, b: 237 },
        text: SerializableColor { r: 27, g: 28, b: 31 },
        text_secondary: SerializableColor { r: 86, g: 89, b: 97 },
        text_muted: SerializableColor { r: 138, g: 141, b: 148 },
        primary: SerializableColor { r: 176, g: 122, b: 28 },
        primary_hover: SerializableColor { r: 150, g: 102, b: 18 },
        on_primary: SerializableColor { r: 255, g: 255, b: 255 },
        secondary: SerializableColor { r: 90, g: 120, b: 150 },
        success: SerializableColor { r: 46, g: 158, b: 104 },
        danger: SerializableColor { r: 209, g: 70, b: 64 },
        warning: SerializableColor { r: 201, g: 120, b: 30 },
        victory: SerializableColor { r: 46, g: 158, b: 104 },
        defeat: SerializableColor { r: 209, g: 70, b: 64 },
        sidebar_bg: SerializableColor { r: 240, g: 240, b: 236 },
        sidebar_item_hover: SerializableColor { r: 231, g: 231, b: 226 },
        sidebar_item_active: SerializableColor { r: 220, g: 218, b: 209 },
        border: SerializableColor { r: 226, g: 226, b: 221 },
        border_light: SerializableColor { r: 236, g: 236, b: 232 },
        gradient_start: SerializableColor { r: 176, g: 122, b: 28 },
        gradient_end: SerializableColor { r: 150, g: 102, b: 18 },
        accent: SerializableColor { r: 176, g: 122, b: 28 },
        accent_muted: SerializableColor { r: 190, g: 168, b: 120 },
    }
}

/// The resolved colors of the dark theme.
pub open spec fn dark_palette() -> ColorPalette {
    ColorPalette {
        background: Color32 { r: 23, g: 24, b: 27, a: 255 },
        surface: Color32 { r: 31, g: 33, b: 38, a: 255 },
        surface_hover: Color32 { r: 42, g: 44, b: 50, a: 255 },
        surface_secondary: Color32 { r: 37, g: 39, b: 44, a: 255 },
        text: Color32 { r: 236, g: 237, b: 238, a: 255 },
        text_secondary: Color32 { r: 166, g: 169, b: 176, a: 255 },
        text_muted: Color32 { r: 113, g: 117, b: 124, a: 255 },
        primary: Color32 { r: 224, g: 168, b: 62, a: 255 },
        primary_hover: Color32 { r: 201, g: 146, b: 47, a: 255 },
        on_primary: Color32 { r: 24, g: 25, b: 28, a: 255 },
        secondary: Color32 { r: 110, g: 140, b: 168, a: 255 },
        success: Color32 { r: 66, g: 178, b: 124, a: 255 },
        danger: Color32 { r: 221, g: 90, b: 82, a: 255 },
        warning: Color32 { r: 224, g: 138, b: 60, a: 255 },
        victory: Color32 { r: 66, g: 178, b: 124, a: 255 },
        defeat: Color32 { r: 221, g: 90, b: 82, a: 255 },
        sidebar_bg: Color32 { r: 19, g: 20, b: 23, a: 255 },
        sidebar_item_hover: Color32 { r: 31, g: 33, b: 38, a: 255 },
        sidebar_item_active: Color32 { r: 43, g: 45, b: 51, a: 255 },
        border: Color32 { r: 45, g: 47, b: 53, a: 255 },
        border_light: Color32 { r: 35, g: 37, b: 42, a: 255 },
        gradient_start: Color32 { r: 224, g: 168, b: 62, a: 255 },
        gradient_end: Color32 { r: 201, g: 146, b: 47, a: 255 },
        accent: Color32 { r: 224, g: 168, b: 62, a: 255 },
        accent_muted: Color32 { r: 138, g: 110, b: 46, a: 255 },
    }
}

/// The resolved colors of the light theme.
pub open spec fn light_palette() -> ColorPalette {
    ColorPalette {
        background: Color32 { r: 246, g: 246, b: 244, a: 255 },
        surface: Color32 { r: 255, g: 255, b: 255, a: 255 },
        surface_hover: Color32 { r: 237, g: 237, b: 233, a: 255 },
        surface_secondary: Color32 { r: 240, g: 240, b: 237, a: 255 },
        text: Color32 { r: 27, g: 28, b: 31, a: 255 },
        text_secondary: Color32 { r: 86, g: 89, b: 97, a: 255 },
        text_muted: Color32 { r: 138, g: 141, b: 148, a: 255 },
        primary: Color32 { r: 176, g: 122, b: 28, a: 255 },
        primary_hover: Color32 { r: 150, g: 102, b: 18, a: 255 },
        on_primary: Color32 { r: 255, g: 255, b: 255, a: 255 },
        secondary: Color32 { r: 90, g: 120, b: 150, a: 255 },
        success: Color32 { r: 46, g: 158, b: 104, a: 255 },
        danger: Color32 { r: 209, g: 70, b: 64, a: 255 },
        warning: Color32 { r: 201, g: 120, b: 30, a: 255 },
        victory: Color32 { r: 46, g: 158, b: 104, a: 255 },
        defeat: Color32 { r: 209, g: 70, b: 64, a: 255 },
        sidebar_bg: Color32 { r: 240, g: 240, b: 236, a: 255 },
        sidebar_item_hover: Color32 { r: 231, g: 231, b: 226, a: 255 },
        sidebar_item_active: Color32 { r: 220, g: 218, b: 209, a: 255 },
        border: Color32 { r: 226, g: 226, b: 221, a: 255 },
        border_light: Color32 { r: 236, g: 236, b: 232, a: 255 },
        gradient_start: Color32 { r: 176, g: 122, b: 28, a: 255 },
        gradient_end: Color32 { r: 150, g: 102, b: 18, a: 255 },
        accent: Color32 { r: 176, g: 122, b: 28, a: 255 },
        accent_muted: Color32 { r: 190, g: 168, b: 120, a: 255 },
    }
}

impl ThemeConfig {
    pub fn dark() -> (config: Self)
        ensures
            config == dark_config(),
    {
        ThemeConfig {
            // Warm graphite, layered from deepest (sidebar) to lightest (surface); gold accent.
            background: SerializableColor::new(23, 24, 27), // #17181b
            surface: SerializableColor::new(31, 33, 38), // #1f2126
            surface_hover: SerializableColor::new(42, 44, 50), // #2a2c32
            surface_secondary: SerializableColor::new(37, 39, 44), // #25272c
            text: SerializableColor::new(236, 237, 238), // #ecedee
            text_secondary: SerializableColor::new(166, 169, 176), // #a6a9b0
            text_muted: SerializableColor::new(113, 117, 124), // #71757c
            primary: SerializableColor::new(224, 168, 62), // #e0a83e
            primary_hover: SerializableColor::new(201, 146, 47), // #c9922f
            on_primary: SerializableColor::new(24, 25, 28), // #18191c
            secondary: SerializableColor::new(110, 140, 168), // #6e8ca8
            success: SerializableColor::new(66, 178, 124), // #42b27c
            danger: SerializableColor::new(221, 90, 82), // #dd5a52
            warning: SerializableColor::new(224, 138, 60), // #e08a3c
            victory: SerializableColor::new(66, 178, 124), // #42b27c
            defeat: SerializableColor::new(221, 90, 82), // #dd5a52
            sidebar_bg: SerializableColor::new(19, 20, 23), // #131417
            sidebar_item_hover: SerializableColor::new(31, 33, 38), // #1f2126
            sidebar_item_active: SerializableColor::new(43, 45, 51), // #2b2d33
            border: SerializableColor::new(45, 47, 53), // #2d2f35
            border_light: SerializableColor::new(35, 37, 42), // #23252a
            gradient_start: SerializableColor::new(224, 168, 62), // #e0a83e
            gradient_end: SerializableColor::new(201, 146, 47), // #c9922f
            accent: SerializableColor::new(224, 168, 62), // #e0a83e
            accent_muted: SerializableColor::new(138, 110, 46), // #8a6e2e
        }
    }

    pub fn light() -> (config: Self)
        ensures
            config == light_config(),
    {
        ThemeConfig {
            // Warm paper with a darker bronze accent (gold lacks contrast on white).
            background: SerializableColor::new(246, 246, 244), // #f6f6f4
            surface: SerializableColor::new(255, 255, 255), // #ffffff
            surface_hover: SerializableColor::new(237, 237, 233), // #edede9
            surface_secondary: SerializableColor::new(240, 240, 237), // #f0f0ed
            text: SerializableColor::new(27, 28, 31), // #1b1c1f
            text_secondary: SerializableColor::new(86, 89, 97), // #565961
            text_muted: SerializableColor::new(138, 141, 148), // #8a8d94
            primary: SerializableColor::new(176, 122, 28), // #b07a1c
            primary_hover: SerializableColor::new(150, 102, 18), // #966612
            on_primary: SerializableColor::new(255, 255, 255), // #ffffff
            secondary: SerializableColor::new(90, 120, 150), // #5a7896
            success: SerializableColor::new(46, 158, 104), // #2e9e68
            danger: SerializableColor::new(209, 70, 64), // #d14640
            warning: SerializableColor::new(201, 120, 30), // #c9781e
            victory: SerializableColor::new(46, 158, 104), // #2e9e68
            defeat: SerializableColor::new(209, 70, 64), // #d14640
            sidebar_bg: SerializableColor::new(240, 240, 236), // #f0f0ec
            sidebar_item_hover: SerializableColor::new(231, 231, 226), // #e7e7e2
            sidebar_item_active: SerializableColor::new(220, 218, 209), // #dcdad1
            border: SerializableColor::new(226, 226, 221), // #e2e2dd
            border_light: SerializableColor::new(236, 236, 232), // #ecece8
            gradient_start: SerializableColor::new(176, 122, 28), // #b07a1c
            gradient_end: SerializableColor::new(150, 102, 18), // #966612
            accent: SerializableColor::new(176, 122, 28), // #b07a1c
            accent_muted: SerializableColor::new(190, 168, 120), // #bea878
        }
    }

    /// Resolves every color, fully opaque.
    pub fn to_palette(&self) -> (palette: ColorPalette)
        ensures
            palette == palette_of(*self),
    {
        ColorPalette {
            background: self.background.to_color32(),
            surface: self.surface.to_color32(),
            surface_hover: self.surface_hover.to_color32(),
            surface_secondary: self.surface_secondary.to_color32(),
            text: self.text.to_color32(),
            text_secondary: self.text_secondary.to_color32(),
            text_muted: self.text_muted.to_color32(),
            primary: self.primary.to_color32(),
            primary_hover: self.primary_hover.to_color32(),
            on_primary: self.on_primary.to_color32(),
            secondary: self.secondary.to_color32(),
            success: self.success.to_color32(),
            danger: self.danger.to_color32(),
            warning: self.warning.to_color32(),
            victory: self.victory.to_color32(),
            defeat: self.defeat.to_color32(),
            sidebar_bg: self.sidebar_bg.to_color32(),
            sidebar_item_hover: self.sidebar_item_hover.to_color32(),
            sidebar_item_active: self.sidebar_item_active.to_color32(),
            border: self.border.to_color32(),
            border_light: self.border_light.to_color32(),
            gradient_start: self.gradient_start.to_color32(),
            gradient_end: self.gradient_end.to_color32(),
            accent: self.accent.to_color32(),
            accent_muted: self.accent_muted.to_color32(),
        }
    }
}

impl Default for ThemeConfig {
    fn default() -> (config: Self)
        ensures
            config == dark_config(),
    {
        Self::dark()
    }
}

impl ColorPalette {
    pub fn dark() -> (palette: Self)
        ensures
            palette == dark_palette(),
    {
        ColorPalette {
            background: Color32::from_rgb(23, 24, 27), // #17181b
            surface: Color32::from_rgb(31, 33, 38), // #1f2126
            surface_hover: Color32::from_rgb(42, 44, 50), // #2a2c32
            surface_secondary: Color32::from_rgb(37, 39, 44), // #25272c
            text: Color32::from_rgb(236, 237, 238), // #ecedee
            text_secondary: Color32::from_rgb(166, 169, 176), // #a6a9b0
            text_muted: Color32::from_rgb(113, 117, 124), // #71757c
            primary: Color32::from_rgb(224, 168, 62), // #e0a83e
            primary_hover: Color32::from_rgb(201, 146, 47), // #c9922f
            on_primary: Color32::from_rgb(24, 25, 28), // #18191c
            secondary: Color32::from_rgb(110, 140, 168), // #6e8ca8
            success: Color32::from_rgb(66, 178, 124), // #42b27c
            danger: Color32::from_rgb(221, 90, 82), // #dd5a52
            warning: Color32::from_rgb(224, 138, 60), // #e08a3c
            victory: Color32::from_rgb(66, 178, 124), // #42b27c
            defeat: Color32::from_rgb(221, 90, 82), // #dd5a52
            sidebar_bg: Color32::from_rgb(19, 20, 23), // #131417
            sidebar_item_hover: Color32::from_rgb(31, 33, 38), // #1f2126
            sidebar_item_active: Color32::from_rgb(43, 45, 51), // #2b2d33
            border: Color32::from_rgb(45, 47, 53), // #2d2f35
            border_light: Color32::from_rgb(35, 37, 42), // #23252a
            gradient_start: Color32::from_rgb(224, 168, 62), // #e0a83e
            gradient_end: Color32::from_rgb(201, 146, 47), // #c9922f
            accent: Color32::from_rgb(224, 168, 62), // #e0a83e
            accent_muted: Color32::from_rgb(138, 110, 46), // #8a6e2e
        }
    }

    pub fn light() -> (palette: Self)
        ensures
            palette == light_palette(),
    {
        ColorPalette {
            background: Color32::from_rgb(246, 246, 244), // #f6f6f4
            surface: Color32::from_rgb(255, 255, 255), // #ffffff
            surface_hover: Color32::from_rgb(237, 237, 233), // #edede9
            surface_secondary: Color32::from_rgb(240, 240, 237), // #f0f0ed
            text: Color32::from_rgb(27, 28, 31), // #1b1c1f
            text_secondary: Color32::from_rgb(86, 89, 97), // #565961
            text_muted: Color32::from_rgb(138, 141, 148), // #8a8d94
            primary: Color32::from_rgb(176, 122, 28), // #b07a1c
            primary_hover: Color32::from_rgb(150, 102, 18), // #966612
            on_primary: Color32::from_rgb(255, 255, 255), // #ffffff
            secondary: Color32::from_rgb(90, 120, 150), // #5a7896
            success: Color32::from_rgb(46, 158, 104), // #2e9e68
            danger: Color32::from_rgb(209, 70, 64), // #d14640
            warning: Color32::from_rgb(201, 120, 30), // #c9781e
            victory: Color32::from_rgb(46, 158, 104), // #2e9e68
            defeat: Color32::from_rgb(209, 70, 64), // #d14640
            sidebar_bg: Color32::from_rgb(240, 240, 236), // #f0f0ec
            sidebar_item_hover: Color32::from_rgb(231, 231, 226), // #e7e7e2
            sidebar_item_active: Color32::from_rgb(220, 218, 209), // #dcdad1
            border: Color32::from_rgb(226, 226, 221), // #e2e2dd
            border_light: Color32::from_rgb(236, 236, 232), // #ecece8
            gradient_start: Color32::from_rgb(176, 122, 28), // #b07a1c
            gradient_end: Color32::from_rgb(150, 102, 18), // #966612
            accent: Color32::from_rgb(176, 122, 28), // #b07a1c
            accent_muted: Color32::from_rgb(190, 168, 120), // #bea878
        }
    }

    pub fn from_config(config: &ThemeConfig) -> (palette: Self)
        ensures
            palette == palette_of(*config),
    {
        config.to_palette()
    }
}

impl Default for ColorPalette {
    fn default() -> (palette: Self)
        ensures
            palette == dark_palette(),
    {
        Self::dark()
    }
}

/// Storing a color and reading it back gives the same color.
pub proof fn lemma_stored_color_round_trip(c: SerializableColor)
    ensures
        stored(opaque(c)) == c,
{
}

/// An opaque color survives being stored and read back; only the alpha
/// channel of a translucent one is lost.
pub proof fn lemma_opaque_color_round_trip(c: Color32)
    ensures
        opaque(stored(c))
            == (Color32 { a: 255, ..c }),
        c.a == 255 ==> opaque(stored(c)) == c,
{
}

/// The built-in dark and light configurations resolve to the built-in dark
/// and light palettes.
pub proof fn lemma_built_in_configs_match_palettes()
    ensures
        palette_of(dark_config()) == dark_palette(),
        palette_of(light_config()) == light_palette(),
{
}

} // verus!
