use ui::screens::setting::{SettingScreen, SettingsAction, SettingsSection};
use ui::screens::setup::{explicit_locale, language_options, SetupScreen};
use ui::theme::ThemePreference;

fn screen() -> SettingScreen {
    SettingScreen::new(
        "/data/app".to_string(),
        "/data/store".to_string(),
        Some("76561198000000000".to_string()),
        None,
        Some("key".to_string()),
        None,
        Some("od".to_string()),
    )
}

#[test]
fn new_fills_fields_and_blanks_unset_ones() {
    let s = screen();
    assert_eq!(s.app_path, "/data/app");
    assert_eq!(s.storage_path, "/data/store");
    assert_eq!(s.dota2_steam_id, "76561198000000000");
    assert_eq!(s.proxy, "");
    assert_eq!(s.steam_web_api_key, "key");
    assert_eq!(s.stratz_api_token, "");
    assert_eq!(s.opendota_api_key, "od");
    assert_eq!(s.search_query, "");
    assert!(!s.is_reset_confirming());
    assert!(!s.is_syncing());
}

#[test]
fn empty_query_shows_every_section() {
    assert!(SettingScreen::section_visible("", &[]));
    assert!(SettingScreen::section_visible("", &["Network".to_string()]));
}

#[test]
fn query_matches_lowercased_labels() {
    let labels = vec!["Network".to_string(), "HTTP Proxy".to_string()];
    assert!(SettingScreen::section_visible("proxy", &labels));
    assert!(SettingScreen::section_visible("netw", &labels));
    assert!(!SettingScreen::section_visible("theme", &labels));
    assert!(!SettingScreen::section_visible("x", &[]));
}

#[test]
fn section_keys_in_page_order() {
    let all = SettingsSection::all();
    assert_eq!(all.len(), 13);
    assert_eq!(all[0], SettingsSection::Storage);
    assert_eq!(all[12], SettingsSection::About);
    assert_eq!(SettingsSection::Storage.keys(), &["settings-storage", "settings-app-path", "settings-storage-path"]);
    assert_eq!(SettingsSection::GameData.keys(), &["settings-game-data"]);
    assert_eq!(SettingsSection::Appearance.keys().len(), 11);
    assert_eq!(SettingsSection::About.keys(), &["settings-about", "settings-version"]);
}

#[test]
fn language_codes() {
    assert_eq!(SettingScreen::language_code_to_static("zh-CN"), "zh-CN");
    assert_eq!(SettingScreen::language_code_to_static("en"), "en");
    assert_eq!(SettingScreen::language_code_to_static("fr"), "auto");
    assert_eq!(SettingScreen::language_code_to_static("auto"), "auto");
    assert_eq!(SettingScreen::language_code_to_static(""), "auto");
}

#[test]
fn optional_blanks_to_none() {
    assert_eq!(SettingScreen::optional(""), None);
    assert_eq!(SettingScreen::optional("socks5://x"), Some("socks5://x".to_string()));
    let s = screen();
    assert_eq!(s.secrets(), (Some("key".to_string()), None, Some("od".to_string())));
}

#[test]
fn path_edits_are_detected() {
    let mut s = screen();
    assert!(!s.app_path_changed("/data/app"));
    assert!(s.app_path_changed("/other"));
    assert!(!s.storage_path_changed("/data/store"));
    s.storage_path = "/new/store".to_string();
    assert!(s.storage_path_changed("/data/store"));
}

#[test]
fn saving_moves_storage_only_when_edited() {
    let mut s = screen();
    assert_eq!(s.save_actions("/data/store"), vec![SettingsAction::ProxyChanged(None)]);
    s.storage_path = "/new/store".to_string();
    s.proxy = "http://proxy:8080".to_string();
    assert_eq!(
        s.save_actions("/data/store"),
        vec![
            SettingsAction::StoragePathChanged("/new/store".to_string()),
            SettingsAction::ProxyChanged(Some("http://proxy:8080".to_string())),
        ]
    );
}

#[test]
fn theme_change_only_when_different() {
    assert_eq!(SettingScreen::theme_change(ThemePreference::Dark, ThemePreference::Dark), None);
    assert_eq!(
        SettingScreen::theme_change(ThemePreference::Dark, ThemePreference::Light),
        Some(SettingsAction::ThemeChanged(ThemePreference::Light))
    );
}

#[test]
fn sync_only_when_idle() {
    let mut s = screen();
    assert_eq!(s.sync_request(), Some(SettingsAction::SyncStaticData));
    s.set_syncing(true);
    assert!(s.is_syncing());
    assert_eq!(s.sync_request(), None);
    s.set_syncing(false);
    assert_eq!(s.sync_request(), Some(SettingsAction::SyncStaticData));
}

#[test]
fn reset_needs_confirmation() {
    let mut s = screen();
    assert_eq!(s.confirm_reset(), None);
    s.request_reset();
    assert!(s.is_reset_confirming());
    s.cancel_reset();
    assert!(!s.is_reset_confirming());
    assert_eq!(s.confirm_reset(), None);
    s.request_reset();
    assert_eq!(s.confirm_reset(), Some(SettingsAction::Reset));
    assert!(!s.is_reset_confirming());
}

#[test]
fn setup_collects_choices() {
    let mut setup = SetupScreen::new("/home/me/.courier".to_string());
    assert_eq!(setup.language(), "auto");
    assert!(!setup.completed);
    let r = setup.result();
    assert_eq!(r.language, "auto");
    assert_eq!(r.app_path, "/home/me/.courier");
    assert!(!r.open_settings);
    assert!(setup.select_language("en"));
    assert!(!setup.select_language("en"));
    setup.set_app_path("/tmp/c".to_string());
    assert_eq!(setup.app_path(), "/tmp/c");
    setup.finish();
    assert!(setup.completed);
    assert!(!setup.result().open_settings);
    setup.open_settings();
    let r = setup.result();
    assert!(r.open_settings);
    assert_eq!(r.language, "en");
    assert_eq!(r.app_path, "/tmp/c");
}

#[test]
fn auto_language_leaves_locale_to_system() {
    assert_eq!(explicit_locale("auto"), None);
    assert_eq!(explicit_locale("zh-CN"), Some("zh-CN".to_string()));
}

#[test]
fn setup_language_stays_an_offered_one() {
    let mut setup = SetupScreen::new("/x".to_string());
    assert!(!setup.select_language("fr"));
    assert_eq!(setup.language(), "auto");
    assert!(setup.select_language("zh-CN"));
    assert_eq!(setup.language(), "zh-CN");
    assert_eq!(language_options(), ["auto", "en", "zh-CN"]);
    assert!(!setup.is_completed());
    setup.finish();
    assert!(setup.is_completed());
}
