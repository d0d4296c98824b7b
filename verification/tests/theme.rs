use ui::theme::color::{Color32, ColorPalette, SerializableColor, ThemeConfig};
use ui::theme::{shadow_alphas, CourierTheme, ThemeMode, ThemePreference};

#[test]
fn stored_colors_are_opaque() {
    let c = SerializableColor::new(1, 2, 3);
    assert_eq!(c.to_color32(), Color32 { r: 1, g: 2, b: 3, a: 255 });
    assert_eq!(Color32::from(c), Color32::from_rgb(1, 2, 3));
    assert_eq!(SerializableColor::from(Color32 { r: 9, g: 8, b: 7, a: 10 }), SerializableColor::new(9, 8, 7));
}

#[test]
fn color_round_trip() {
    let c = SerializableColor::new(200, 100, 50);
    assert_eq!(SerializableColor::from(Color32::from(c)), c);
    let opaque = Color32::from_rgb(4, 5, 6);
    assert_eq!(Color32::from(SerializableColor::from(opaque)), opaque);
}

#[test]
fn built_in_configs_give_built_in_palettes() {
    assert_eq!(ThemeConfig::dark().to_palette(), ColorPalette::dark());
    assert_eq!(ThemeConfig::light().to_palette(), ColorPalette::light());
    assert_eq!(ThemeConfig::default(), ThemeConfig::dark());
    assert_eq!(ColorPalette::default(), ColorPalette::dark());
    assert_eq!(ColorPalette::from_config(&ThemeConfig::light()), ColorPalette::light());
    assert_eq!(ColorPalette::dark().background, Color32::from_rgb(23, 24, 27));
    assert_eq!(ColorPalette::dark().primary, Color32::from_rgb(224, 168, 62));
    assert_ne!(ColorPalette::dark(), ColorPalette::light());
}

#[test]
fn mode_toggle() {
    assert_eq!(ThemeMode::Light.toggle(), ThemeMode::Dark);
    assert_eq!(ThemeMode::Dark.toggle(), ThemeMode::Light);
    assert_eq!(ThemeMode::Custom.toggle(), ThemeMode::Light);
    assert_eq!(ThemeMode::Light.toggle().toggle(), ThemeMode::Light);
    assert_eq!(ThemeMode::Custom.toggle().toggle(), ThemeMode::Dark);
    assert!(ThemeMode::Light.is_light());
    assert!(!ThemeMode::Custom.is_light());
    assert_eq!(ThemeMode::default(), ThemeMode::Dark);
}

#[test]
fn preference_to_mode() {
    assert_eq!(ThemeMode::from_preference(ThemePreference::Light), ThemeMode::Light);
    assert_eq!(ThemeMode::from_preference(ThemePreference::Dark), ThemeMode::Dark);
    assert_eq!(ThemeMode::from_preference(ThemePreference::System), ThemeMode::Dark);
}

#[test]
fn theme_palettes_follow_mode() {
    let mut theme = CourierTheme::default();
    assert_eq!(theme.mode, ThemeMode::Dark);
    assert_eq!(*theme.palette(), ColorPalette::dark());
    assert!(theme.custom_config().is_none());
    theme.toggle();
    assert_eq!(theme.mode, ThemeMode::Light);
    assert_eq!(*theme.palette(), ColorPalette::light());
    theme.toggle();
    assert_eq!(*theme.palette(), ColorPalette::dark());
    theme.set_mode(ThemeMode::Light);
    assert_eq!(*theme.palette(), ColorPalette::light());
    assert_eq!(*CourierTheme::new(ThemeMode::Custom).palette(), ColorPalette::dark());
    assert_eq!(*CourierTheme::light().palette(), ColorPalette::light());
}

#[test]
fn custom_config_keeps_its_palette() {
    let mut config = ThemeConfig::dark();
    config.primary = SerializableColor::new(1, 1, 1);
    let mut theme = CourierTheme::custom(config);
    assert_eq!(theme.mode, ThemeMode::Custom);
    assert_eq!(theme.palette().primary, Color32::from_rgb(1, 1, 1));
    theme.toggle();
    assert_eq!(theme.mode, ThemeMode::Light);
    assert_eq!(theme.palette().primary, Color32::from_rgb(1, 1, 1));
    theme.set_mode(ThemeMode::Dark);
    assert_eq!(theme.palette().primary, Color32::from_rgb(1, 1, 1));
    assert_eq!(theme.custom_config(), Some(&config));

    let mut plain = CourierTheme::dark();
    plain.apply_config(config);
    assert_eq!(plain.mode, ThemeMode::Custom);
    assert_eq!(*plain.palette(), config.to_palette());

    let lit = CourierTheme::from_config(config, true);
    assert_eq!(lit.mode, ThemeMode::Light);
    assert_eq!(*lit.palette(), config.to_palette());
}

#[test]
fn lighter_shadows_on_light_theme() {
    assert_eq!(shadow_alphas(true), (30, 20));
    assert_eq!(shadow_alphas(false), (80, 60));
}
