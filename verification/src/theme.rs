//! The light/dark/custom theme and the palette it resolves to.

pub mod color;
pub mod radius;

use vstd::prelude::*;
use crate::theme::color::{
    dark_palette, light_palette, palette_of, ColorPalette, ThemeConfig,
};

verus! {

#[derive(Debug, Clone, Copy, PartialEq, Eq, Structural, Default)]
pub enum ThemeMode {
    Light,
    #[default]
    Dark,
    Custom,
}

/// The theme the user picked in the settings.
#[derive(Debug, Clone, Copy, PartialEq, Eq, Structural)]
pub enum ThemePreference {
    Light,
    Dark,
    /// Follow the system; the dark theme is used.
    System,
}

pub open spec fn toggled(mode: ThemeMode) -> ThemeMode {
    match mode {
        ThemeMode::Light => ThemeMode::Dark,
        ThemeMode::Dark => ThemeMode::Light,
        ThemeMode::Custom => ThemeMode::Light,
    }
}

/// The built-in palette for a mode: light for `Light`, dark otherwise.
pub open spec fn mode_palette(mode: ThemeMode) -> ColorPalette {
    match mode {
        ThemeMode::Light => light_palette(),
        _ => dark_palette(),
    }
}

/// Toggling twice returns a light or dark mode to itself; a custom mode
/// ends up dark (custom goes to light, then light to dark).
pub proof fn lemma_toggle_twice(mode: ThemeMode)
    ensures
        mode != ThemeMode::Custom ==> toggled(toggled(mode)) == mode,
        mode == ThemeMode::Custom ==> toggled(toggled(mode)) == ThemeMode::Dark,
        toggled(mode) != ThemeMode::Custom,
        toggled(mode) != mode,
{
}

/// Toggling never leaves the built-in modes, and the built-in palette of a
/// toggled mode is the other built-in palette.
pub proof fn lemma_toggle_swaps_palette(mode: ThemeMode)
    ensures
        mode == ThemeMode::Light ==> mode_palette(toggled(mode)) == dark_palette(),
        mode != ThemeMode::Light ==> mode_palette(toggled(mode)) == light_palette(),
{
}

impl ThemeMode {
    /// Light and dark swap; a custom theme switches to light.
    pub fn toggle(&self) -> (next: Self)
        ensures
            next == toggled(*self),
    {
        match self {
            ThemeMode::Light => ThemeMode::Dark,
            ThemeMode::Dark => ThemeMode::Light,
            ThemeMode::Custom => ThemeMode::Light,
        }
    }

    pub fn is_light(&self) -> (light: bool)
        ensures
            light == (*self == ThemeMode::Light),
    {
        matches!(self, ThemeMode::Light)
    }

    /// The mode a theme preference selects; `System` uses the dark theme.
    pub fn from_preference(pref: ThemePreference) -> (mode: Self)
        ensures
            mode == match pref {
                ThemePreference::Light => ThemeMode::Light,
                _ => ThemeMode::Dark,
            },
    {
        match pref {
            ThemePreference::Light => ThemeMode::Light,
            ThemePreference::Dark => ThemeMode::Dark,
            ThemePreference::System => ThemeMode::Dark,
        }
    }
}

fn built_in_palette(mode: ThemeMode) -> (palette: ColorPalette)
    ensures
        palette == mode_palette(mode),
{
    match mode {
        ThemeMode::Light => ColorPalette::light(),
        ThemeMode::Dark | ThemeMode::Custom => ColorPalette::dark(),
    }
}

/// The active theme: its mode, an optional custom configuration, and the
/// palette in force.
#[derive(Debug, Clone, Copy)]
pub struct CourierTheme {
    pub mode: ThemeMode,
    custom_config: Option<ThemeConfig>,
    palette: ColorPalette,
}

impl CourierTheme {
    pub closed spec fn mode_view(&self) -> ThemeMode {
        self.mode
    }

    pub closed spec fn custom_view(&self) -> Option<ThemeConfig> {
        self.custom_config
    }

    pub closed spec fn palette_view(&self) -> ColorPalette {
        self.palette
    }

    /// A built-in theme; `Custom` without a configuration uses the dark palette.
    pub fn new(mode: ThemeMode) -> (theme: Self)
        ensures
            theme.mode_view() == mode,
            theme.custom_view() is None,
            theme.palette_view() == mode_palette(mode),
    {
        CourierTheme { mode, custom_config: None, palette: built_in_palette(mode) }
    }

    pub fn dark() -> (theme: Self)
        ensures
            theme.mode_view() == ThemeMode::Dark,
            theme.custom_view() is None,
            theme.palette_view() == dark_palette(),
    {
        Self::new(ThemeMode::Dark)
    }

    pub fn light() -> (theme: Self)
        ensures
            theme.mode_view() == ThemeMode::Light,
            theme.custom_view() is None,
            theme.palette_view() == light_palette(),
    {
        Self::new(ThemeMode::Light)
    }

    pub fn custom(config: ThemeConfig) -> (theme: Self)
        ensures
            theme.mode_view() == ThemeMode::Custom,
            theme.custom_view() == Some(config),
            theme.palette_view() == palette_of(config),
    {
        CourierTheme { mode: ThemeMode::Custom, custom_config: Some(config), palette: config.to_palette() }
    }

    /// A custom configuration shown in light or dark mode.
    pub fn from_config(config: ThemeConfig, is_light: bool) -> (theme: Self)
        ensures
            theme.mode_view() == if is_light { ThemeMode::Light } else { ThemeMode::Dark },
            theme.custom_view() == Some(config),
            theme.palette_view() == palette_of(config),
    {
        CourierTheme {
            mode: if is_light { ThemeMode::Light } else { ThemeMode::Dark },
            custom_config: Some(config),
            palette: config.to_palette(),
        }
    }

    /// Switches the mode; a custom configuration, when present, keeps its
    /// palette, otherwise the mode's built-in palette applies.
    pub fn set_mode(&mut self, mode: ThemeMode)
        ensures
            final(self).mode_view() == mode,
            final(self).custom_view() == old(self).custom_view(),
            final(self).palette_view() == match old(self).custom_view() {
                Some(config) => palette_of(config),
                None => mode_palette(mode),
            },
    {
        self.mode = mode;
        self.palette = match &self.custom_config {
            Some(config) => config.to_palette(),
            None => built_in_palette(mode),
        };
    }

    /// Installs a custom configuration and switches to the custom mode.
    pub fn apply_config(&mut self, config: ThemeConfig)
        ensures
            final(self).mode_view() == ThemeMode::Custom,
            final(self).custom_view() == Some(config),
            final(self).palette_view() == palette_of(config),
    {
        self.palette = config.to_palette();
        self.custom_config = Some(config);
        self.mode = ThemeMode::Custom;
    }

    pub fn palette(&self) -> (palette: &ColorPalette)
        ensures
            *palette == self.palette_view(),
    {
        &self.palette
    }

    pub fn custom_config(&self) -> (config: Option<&ThemeConfig>)
        ensures
            match config {
                Some(c) => self.custom_view() == Some(*c),
                None => self.custom_view() is None,
            },
    {
        self.custom_config.as_ref()
    }

    /// Flips light and dark (custom goes to light); without a custom
    /// configuration the palette follows the new mode, with one it stays.
    pub fn toggle(&mut self)
        ensures
            final(self).mode_view() == toggled(old(self).mode_view()),
            final(self).custom_view() == old(self).custom_view(),
            final(self).palette_view() == match old(self).custom_view() {
                Some(_) => old(self).palette_view(),
                None => mode_palette(toggled(old(self).mode_view())),
            },
    {
        let new_mode = self.mode.toggle();
        if self.custom_config.is_none() {
            self.palette = built_in_palette(new_mode);
        }
        self.mode = new_mode;
    }
}

/// The alpha of the window shadow and of the popup shadow: lighter shadows
/// on a light theme.
pub fn shadow_alphas(light: bool) -> (alphas: (u8, u8))
    ensures
        alphas == if light {
            (30u8, 20u8)
        } else {
            (80u8, 60u8)
        },
{
    if light {
        (30, 20)
    } else {
        (80, 60)
    }
}

impl Default for CourierTheme {
    fn default() -> (theme: Self)
        ensures
            theme.mode_view() == ThemeMode::Dark,
            theme.custom_view() is None,
            theme.palette_view() == dark_palette(),
    {
        Self::dark()
    }
}

} // verus!
