//! The Settings screen: the editable text fields, which sections a search
//! shows, the language codes it knows, and what saving or resetting asks of
//! the application.

use vstd::prelude::*;
use crate::text::{contains_str, is_substring, lowercase, str_eq, to_lowercase};
use crate::theme::ThemePreference;

verus! {

/// Signals the screen wants to send back to the application.
#[derive(Debug, Clone, PartialEq, Eq)]
pub enum SettingsAction {
    ThemeChanged(ThemePreference),
    /// Move the storage to the directory at this path.
    StoragePathChanged(String),
    ProxyChanged(Option<String>),
    SyncStaticData,
    Reset,
}

/// A section of the settings page.
#[derive(Debug, Clone, Copy, PartialEq, Eq, Structural)]
pub enum SettingsSection {
    Storage,
    General,
    Appearance,
    Tracking,
    Games,
    Friends,
    Matches,
    GameData,
    Network,
    Secrets,
    Notifications,
    Updates,
    About,
}

/// The message keys (the section's title, then the labels it holds) that a
/// search is matched against.
pub open spec fn section_keys(section: SettingsSection) -> Seq<Seq<char>> {
    match section {
        SettingsSection::Storage => seq![
            "settings-storage"@,
            "settings-app-path"@,
            "settings-storage-path"@,
        ],
        SettingsSection::General => seq![
            "settings-general"@,
            "settings-language"@,
            "settings-theme"@,
        ],
        SettingsSection::Appearance => seq![
            "settings-appearance"@,
            "settings-appearance-sidebar-width"@,
            "settings-appearance-sidebar-collapsed-width"@,
            "settings-appearance-sidebar-item-height"@,
            "settings-appearance-sidebar-icon-size"@,
            "settings-appearance-animation-sidebar"@,
            "settings-appearance-animation-toast"@,
            "settings-appearance-animation-hover"@,
            "settings-appearance-toast-max-width"@,
            "settings-appearance-toast-duration"@,
            "settings-appearance-exit-overlay-opacity"@,
        ],
        SettingsSection::Tracking => seq![
            "settings-tracking"@,
            "settings-poll-interval"@,
            "settings-background-tracking"@,
        ],
        SettingsSection::Games => seq![
            "settings-games"@,
            "settings-dota2"@,
            "settings-dota2-enabled"@,
            "settings-dota2-steam-id"@,
        ],
        SettingsSection::Friends => seq![
            "settings-friends"@,
            "settings-friends-load-avatars"@,
            "settings-friends-recent-games-limit"@,
        ],
        SettingsSection::Matches => seq![
            "settings-matches"@,
            "settings-matches-max-history"@,
            "settings-matches-load-icons"@,
        ],
        SettingsSection::GameData => seq!["settings-game-data"@],
        SettingsSection::Network => seq!["settings-network"@, "settings-network-proxy"@],
        SettingsSection::Secrets => seq![
            "settings-secrets"@,
            "settings-secrets-steam-web-api-key"@,
            "settings-secrets-stratz-api-token"@,
            "settings-secrets-opendota-api-key"@,
        ],
        SettingsSection::Notifications => seq![
            "settings-notifications"@,
            "settings-desktop-notifications-enabled"@,
            "settings-desktop-notifications-sound"@,
            "settings-notify-new-match"@,
        ],
        SettingsSection::Updates => seq![
            "settings-updates"@,
            "settings-check-updates"@,
            "settings-update-channel"@,
        ],
        SettingsSection::About => seq!["settings-about"@, "settings-version"@],
    }
}

/// The views of a list of string slices.
pub open spec fn str_views(keys: Seq<&str>) -> Seq<Seq<char>> {
    keys.map_values(|k: &str| k@)
}

impl SettingsSection {
    /// The sections, in the order the page shows them.
    pub fn all() -> (sections: [SettingsSection; 13])
        ensures
            sections@ == seq![
                SettingsSection::Storage,
                SettingsSection::General,
                SettingsSection::Appearance,
                SettingsSection::Tracking,
                SettingsSection::Games,
                SettingsSection::Friends,
                SettingsSection::Matches,
                SettingsSection::GameData,
                SettingsSection::Network,
                SettingsSection::Secrets,
                SettingsSection::Notifications,
                SettingsSection::Updates,
                SettingsSection::About,
            ],
    {
        [
            SettingsSection::Storage,
            SettingsSection::General,
            SettingsSection::Appearance,
            SettingsSection::Tracking,
            SettingsSection::Games,
            SettingsSection::Friends,
            SettingsSection::Matches,
            SettingsSection::GameData,
            SettingsSection::Network,
            SettingsSection::Secrets,
            SettingsSection::Notifications,
            SettingsSection::Updates,
            SettingsSection::About,
        ]
    }

    /// The message keys a search is matched against.
    pub fn keys(self) -> (keys: &'static [&'static str])
        ensures
            str_views(keys@) == section_keys(self),
    {
        let keys: &'static [&'static str] = match self {
            SettingsSection::Storage => &["settings-storage", "settings-app-path", "settings-storage-path"],
            SettingsSection::General => &["settings-general", "settings-language", "settings-theme"],
            SettingsSection::Appearance => &[
                "settings-appearance",
                "settings-appearance-sidebar-width",
                "settings-appearance-sidebar-collapsed-width",
                "settings-appearance-sidebar-item-height",
                "settings-appearance-sidebar-icon-size",
                "settings-appearance-animation-sidebar",
                "settings-appearance-animation-toast",
                "settings-appearance-animation-hover",
                "settings-appearance-toast-max-width",
                "settings-appearance-toast-duration",
                "settings-appearance-exit-overlay-opacity",
            ],
            SettingsSection::Tracking => &[
                "settings-tracking",
                "settings-poll-interval",
                "settings-background-tracking",
            ],
            SettingsSection::Games => &[
                "settings-games",
                "settings-dota2",
                "settings-dota2-enabled",
                "settings-dota2-steam-id",
            ],
            SettingsSection::Friends => &[
                "settings-friends",
                "settings-friends-load-avatars",
                "settings-friends-recent-games-limit",
            ],
            SettingsSection::Matches => &[
                "settings-matches",
                "settings-matches-max-history",
                "settings-matches-load-icons",
            ],
            SettingsSection::GameData => &["settings-game-data"],
            SettingsSection::Network => &["settings-network", "settings-network-proxy"],
            SettingsSection::Secrets => &[
                "settings-secrets",
                "settings-secrets-steam-web-api-key",
                "settings-secrets-stratz-api-token",
                "settings-secrets-opendota-api-key",
            ],
            SettingsSection::Notifications => &[
                "settings-notifications",
                "settings-desktop-notifications-enabled",
                "settings-desktop-notifications-sound",
                "settings-notify-new-match",
            ],
            SettingsSection::Updates => &[
                "settings-updates",
                "settings-check-updates",
                "settings-update-channel",
            ],
            SettingsSection::About => &["settings-about", "settings-version"],
        };
        assert(str_views(keys@) =~= section_keys(self));
        keys
    }
}

/// A search matches a section by the title it shows and by the label of
/// every field in it: each section's search keys hold the message key of its
/// title and of each label the section displays (the Network section is found
/// by its proxy field's label, the Storage section by its two path labels, and
/// so on).
pub proof fn lemma_section_keys_cover_labels(section: SettingsSection)
    ensures
        section == SettingsSection::Storage ==> {
            &&& section_keys(section).contains("settings-storage"@)
            &&& section_keys(section).contains("settings-app-path"@)
            &&& section_keys(section).contains("settings-storage-path"@)
        },
        section == SettingsSection::General ==> {
            &&& section_keys(section).contains("settings-general"@)
            &&& section_keys(section).contains("settings-language"@)
            &&& section_keys(section).contains("settings-theme"@)
        },
        section == SettingsSection::Appearance ==> {
            &&& section_keys(section).contains("settings-appearance"@)
            &&& section_keys(section).contains("settings-appearance-sidebar-width"@)
            &&& section_keys(section).contains("settings-appearance-sidebar-collapsed-width"@)
            &&& section_keys(section).contains("settings-appearance-sidebar-item-height"@)
            &&& section_keys(section).contains("settings-appearance-sidebar-icon-size"@)
            &&& section_keys(section).contains("settings-appearance-animation-sidebar"@)
            &&& section_keys(section).contains("settings-appearance-animation-toast"@)
            &&& section_keys(section).contains("settings-appearance-animation-hover"@)
            &&& section_keys(section).contains("settings-appearance-toast-max-width"@)
            &&& section_keys(section).contains("settings-appearance-toast-duration"@)
            &&& section_keys(section).contains("settings-appearance-exit-overlay-opacity"@)
        },
        section == SettingsSection::Tracking ==> {
            &&& section_keys(section).contains("settings-tracking"@)
            &&& section_keys(section).contains("settings-poll-interval"@)
            &&& section_keys(section).contains("settings-background-tracking"@)
        },
        section == SettingsSection::Games ==> {
            &&& section_keys(section).contains("settings-games"@)
            &&& section_keys(section).contains("settings-dota2"@)
            &&& section_keys(section).contains("settings-dota2-enabled"@)
            &&& section_keys(section).contains("settings-dota2-steam-id"@)
        },
        section == SettingsSection::Friends ==> {
            &&& section_keys(section).contains("settings-friends"@)
            &&& section_keys(section).contains("settings-friends-load-avatars"@)
            &&& section_keys(section).contains("settings-friends-recent-games-limit"@)
        },
        section == SettingsSection::Matches ==> {
            &&& section_keys(section).contains("settings-matches"@)
            &&& section_keys(section).contains("settings-matches-max-history"@)
            &&& section_keys(section).contains("settings-matches-load-icons"@)
        },
        section == SettingsSection::GameData ==> {
            &&& section_keys(section).contains("settings-game-data"@)
        },
        section == SettingsSection::Network ==> {
            &&& section_keys(section).contains("settings-network"@)
            &&& section_keys(section).contains("settings-network-proxy"@)
        },
        section == SettingsSection::Secrets ==> {
            &&& section_keys(section).contains("settings-secrets"@)
            &&& section_keys(section).contains("settings-secrets-steam-web-api-key"@)
            &&& section_keys(section).contains("settings-secrets-stratz-api-token"@)
            &&& section_keys(section).contains("settings-secrets-opendota-api-key"@)
        },
        section == SettingsSection::Notifications ==> {
            &&& section_keys(section).contains("settings-notifications"@)
            &&& section_keys(section).contains("settings-desktop-notifications-enabled"@)
            &&& section_keys(section).contains("settings-desktop-notifications-sound"@)
            &&& section_keys(section).contains("settings-notify-new-match"@)
        },
        section == SettingsSection::Updates ==> {
            &&& section_keys(section).contains("settings-updates"@)
            &&& section_keys(section).contains("settings-check-updates"@)
            &&& section_keys(section).contains("settings-update-channel"@)
        },
        section == SettingsSection::About ==> {
            &&& section_keys(section).contains("settings-about"@)
            &&& section_keys(section).contains("settings-version"@)
        },
{
    if section == SettingsSection::Storage {
        assert(section_keys(section)[0] == "settings-storage"@);
        assert(section_keys(section)[1] == "settings-app-path"@);
        assert(section_keys(section)[2] == "settings-storage-path"@);
    }
    if section == SettingsSection::General {
        assert(section_keys(section)[0] == "settings-general"@);
        assert(section_keys(section)[1] == "settings-language"@);
        assert(section_keys(section)[2] == "settings-theme"@);
    }
    if section == SettingsSection::Appearance {
        assert(section_keys(section)[0] == "settings-appearance"@);
        assert(section_keys(section)[1] == "settings-appearance-sidebar-width"@);
        assert(section_keys(section)[2] == "settings-appearance-sidebar-collapsed-width"@);
        assert(section_keys(section)[3] == "settings-appearance-sidebar-item-height"@);
        assert(section_keys(section)[4] == "settings-appearance-sidebar-icon-size"@);
        assert(section_keys(section)[5] == "settings-appearance-animation-sidebar"@);
        assert(section_keys(section)[6] == "settings-appearance-animation-toast"@);
        assert(section_keys(section)[7] == "settings-appearance-animation-hover"@);
        assert(section_keys(section)[8] == "settings-appearance-toast-max-width"@);
        assert(section_keys(section)[9] == "settings-appearance-toast-duration"@);
        assert(section_keys(section)[10] == "settings-appearance-exit-overlay-opacity"@);
    }
    if section == SettingsSection::Tracking {
        assert(section_keys(section)[0] == "settings-tracking"@);
        assert(section_keys(section)[1] == "settings-poll-interval"@);
        assert(section_keys(section)[2] == "settings-background-tracking"@);
    }
    if section == SettingsSection::Games {
        assert(section_keys(section)[0] == "settings-games"@);
        assert(section_keys(section)[1] == "settings-dota2"@);
        assert(section_keys(section)[2] == "settings-dota2-enabled"@);
        assert(section_keys(section)[3] == "settings-dota2-steam-id"@);
    }
    if section == SettingsSection::Friends {
        assert(section_keys(section)[0] == "settings-friends"@);
        assert(section_keys(section)[1] == "settings-friends-load-avatars"@);
        assert(section_keys(section)[2] == "settings-friends-recent-games-limit"@);
    }
    if section == SettingsSection::Matches {
        assert(section_keys(section)[0] == "settings-matches"@);
        assert(section_keys(section)[1] == "settings-matches-max-history"@);
        assert(section_keys(section)[2] == "settings-matches-load-icons"@);
    }
    if section == SettingsSection::GameData {
        assert(section_keys(section)[0] == "settings-game-data"@);
    }
    if section == SettingsSection::Network {
        assert(section_keys(section)[0] == "settings-network"@);
        assert(section_keys(section)[1] == "settings-network-proxy"@);
    }
    if section == SettingsSection::Secrets {
        assert(section_keys(section)[0] == "settings-secrets"@);
        assert(section_keys(section)[1] == "settings-secrets-steam-web-api-key"@);
        assert(section_keys(section)[2] == "settings-secrets-stratz-api-token"@);
        assert(section_keys(section)[3] == "settings-secrets-opendota-api-key"@);
    }
    if section == SettingsSection::Notifications {
        assert(section_keys(section)[0] == "settings-notifications"@);
        assert(section_keys(section)[1] == "settings-desktop-notifications-enabled"@);
        assert(section_keys(section)[2] == "settings-desktop-notifications-sound"@);
        assert(section_keys(section)[3] == "settings-notify-new-match"@);
    }
    if section == SettingsSection::Updates {
        assert(section_keys(section)[0] == "settings-updates"@);
        assert(section_keys(section)[1] == "settings-check-updates"@);
        assert(section_keys(section)[2] == "settings-update-channel"@);
    }
    if section == SettingsSection::About {
        assert(section_keys(section)[0] == "settings-about"@);
        assert(section_keys(section)[1] == "settings-version"@);
    }
}

/// A search shows a section when the (lowercased) query is empty or occurs
/// in the lowercase form of one of the section's labels.
pub open spec fn section_shown(query: Seq<char>, labels: Seq<String>) -> bool {
    query.len() == 0 || exists|i: int|
        0 <= i < labels.len() && is_substring(query, lowercase(#[trigger] labels[i]@))
}

/// An empty search shows every section.
pub proof fn lemma_empty_query_shows_all(labels: Seq<String>)
    ensures
        section_shown(Seq::empty(), labels),
{
}

/// The value of an optional text field: `None` when it is empty.
pub open spec fn optional_of(value: Seq<char>) -> Option<Seq<char>> {
    if value.len() == 0 {
        None
    } else {
        Some(value)
    }
}

/// The views of an optional string.
pub open spec fn opt_view(value: Option<String>) -> Option<Seq<char>> {
    match value {
        Some(s) => Some(s@),
        None => None,
    }
}

/// The text of an optional setting, empty when unset.
fn or_empty(value: Option<String>) -> (text: String)
    ensures
        value is Some ==> text@ == value->0@,
        value is None ==> text@.len() == 0,
{
    match value {
        Some(v) => v,
        None => String::new(),
    }
}

pub struct SettingScreen {
    pub search_query: String,
    pub app_path: String,
    pub storage_path: String,
    reset_confirming: bool,
    syncing: bool,
    pub dota2_steam_id: String,
    pub proxy: String,
    pub steam_web_api_key: String,
    pub stratz_api_token: String,
    pub opendota_api_key: String,
}

impl SettingScreen {
    pub closed spec fn search_query_view(&self) -> Seq<char> {
        self.search_query@
    }

    pub closed spec fn app_path_view(&self) -> Seq<char> {
        self.app_path@
    }

    pub closed spec fn storage_path_view(&self) -> Seq<char> {
        self.storage_path@
    }

    pub closed spec fn dota2_steam_id_view(&self) -> Seq<char> {
        self.dota2_steam_id@
    }

    pub closed spec fn proxy_view(&self) -> Seq<char> {
        self.proxy@
    }

    pub closed spec fn steam_web_api_key_view(&self) -> Seq<char> {
        self.steam_web_api_key@
    }

    pub closed spec fn stratz_api_token_view(&self) -> Seq<char> {
        self.stratz_api_token@
    }

    pub closed spec fn opendota_api_key_view(&self) -> Seq<char> {
        self.opendota_api_key@
    }

    pub closed spec fn reset_confirming_view(&self) -> bool {
        self.reset_confirming
    }

    pub closed spec fn syncing_view(&self) -> bool {
        self.syncing
    }

    /// `self` and `other` differ at most in whether a sync runs.
    pub open spec fn same_but_syncing(&self, other: &Self) -> bool {
        &&& self.search_query_view() == other.search_query_view()
        &&& self.app_path_view() == other.app_path_view()
        &&& self.storage_path_view() == other.storage_path_view()
        &&& self.dota2_steam_id_view() == other.dota2_steam_id_view()
        &&& self.proxy_view() == other.proxy_view()
        &&& self.steam_web_api_key_view() == other.steam_web_api_key_view()
        &&& self.stratz_api_token_view() == other.stratz_api_token_view()
        &&& self.opendota_api_key_view() == other.opendota_api_key_view()
        &&& self.reset_confirming_view() == other.reset_confirming_view()
    }

    /// A screen showing the current directories and settings; unset settings
    /// show as empty fields. No reset is pending and no sync is running.
    pub fn new(
        app_path: String,
        storage_path: String,
        dota2_steam_id: Option<String>,
        proxy: Option<String>,
        steam_web_api_key: Option<String>,
        stratz_api_token: Option<String>,
        opendota_api_key: Option<String>,
    ) -> (screen: Self)
        ensures
            screen.search_query_view().len() == 0,
            screen.app_path_view() == app_path@,
            screen.storage_path_view() == storage_path@,
            dota2_steam_id is Some ==> screen.dota2_steam_id_view() == dota2_steam_id->0@,
            dota2_steam_id is None ==> screen.dota2_steam_id_view().len() == 0,
            proxy is Some ==> screen.proxy_view() == proxy->0@,
            proxy is None ==> screen.proxy_view().len() == 0,
            steam_web_api_key is Some ==> screen.steam_web_api_key_view() == steam_web_api_key->0@,
            steam_web_api_key is None ==> screen.steam_web_api_key_view().len() == 0,
            stratz_api_token is Some ==> screen.stratz_api_token_view() == stratz_api_token->0@,
            stratz_api_token is None ==> screen.stratz_api_token_view().len() == 0,
            opendota_api_key is Some ==> screen.opendota_api_key_view() == opendota_api_key->0@,
            opendota_api_key is None ==> screen.opendota_api_key_view().len() == 0,
            !screen.reset_confirming_view(),
            !screen.syncing_view(),
    {
        SettingScreen {
            search_query: String::new(),
            app_path,
            storage_path,
            reset_confirming: false,
            syncing: false,
            dota2_steam_id: or_empty(dota2_steam_id),
            proxy: or_empty(proxy),
            steam_web_api_key: or_empty(steam_web_api_key),
            stratz_api_token: or_empty(stratz_api_token),
            opendota_api_key: or_empty(opendota_api_key),
        }
    }

    /// Whether a search for `query` (already lowercased) shows the section
    /// whose labels, in the current language, are `labels`.
    pub fn section_visible(query: &str, labels: &[String]) -> (visible: bool)
        ensures
            visible == section_shown(query@, labels@),
    {
        if query.is_empty() {
            return true;
        }
        let mut i: usize = 0;
        while i < labels.len()
            invariant
                query@.len() > 0,
                i <= labels@.len(),
                forall|k: int|
                    0 <= k < i ==> !is_substring(query@, lowercase(#[trigger] labels@[k]@)),
            decreases labels@.len() - i,
        {
            let folded = to_lowercase(labels[i].as_str());
            if contains_str(folded.as_str(), query) {
                return true;
            }
            i = i + 1;
        }
        false
    }

    /// The language codes the selector knows; anything else reads as `auto`.
    pub fn language_code_to_static(code: &str) -> (known: &'static str)
        ensures
            known@ == (if code@ == "zh-CN"@ {
                "zh-CN"@
            } else if code@ == "en"@ {
                "en"@
            } else {
                "auto"@
            }),
    {
        if str_eq(code, "zh-CN") {
            "zh-CN"
        } else if str_eq(code, "en") {
            "en"
        } else {
            "auto"
        }
    }

    /// The value of an optional text field: `None` when it is empty.
    pub fn optional(value: &str) -> (result: Option<String>)
        ensures
            opt_view(result) == optional_of(value@),
    {
        if value.is_empty() {
            None
        } else {
            Some(String::from_str(value))
        }
    }

    /// The edited app directory differs from the one in use.
    pub fn app_path_changed(&self, current: &str) -> (changed: bool)
        ensures
            changed == (self.app_path_view() != current@),
    {
        !str_eq(self.app_path.as_str(), current)
    }

    /// The edited storage directory differs from the one in use.
    pub fn storage_path_changed(&self, current: &str) -> (changed: bool)
        ensures
            changed == (self.storage_path_view() != current@),
    {
        !str_eq(self.storage_path.as_str(), current)
    }

    /// What saving asks of the application: moving the storage when its
    /// directory was edited away from `current_storage`, then applying the
    /// proxy (unset when its field is empty).
    pub fn save_actions(&self, current_storage: &str) -> (actions: Vec<SettingsAction>)
        ensures
            self.storage_path_view() != current_storage@ ==> actions@.len() == 2 && match actions@[0] {
                SettingsAction::StoragePathChanged(p) => p@ == self.storage_path_view(),
                _ => false,
            },
            self.storage_path_view() == current_storage@ ==> actions@.len() == 1,
            match actions@.last() {
                SettingsAction::ProxyChanged(p) => opt_view(p) == optional_of(self.proxy_view()),
                _ => false,
            },
    {
        let mut actions: Vec<SettingsAction> = Vec::new();
        if self.storage_path_changed(current_storage) {
            actions.push(SettingsAction::StoragePathChanged(self.storage_path.clone()));
        }
        actions.push(SettingsAction::ProxyChanged(Self::optional(self.proxy.as_str())));
        actions
    }

    /// The values of the three secret fields, each unset when empty.
    pub fn secrets(&self) -> (secrets: (Option<String>, Option<String>, Option<String>))
        ensures
            opt_view(secrets.0) == optional_of(self.steam_web_api_key_view()),
            opt_view(secrets.1) == optional_of(self.stratz_api_token_view()),
            opt_view(secrets.2) == optional_of(self.opendota_api_key_view()),
    {
        (
            Self::optional(self.steam_web_api_key.as_str()),
            Self::optional(self.stratz_api_token.as_str()),
            Self::optional(self.opendota_api_key.as_str()),
        )
    }

    /// The theme choice moved from `before` to `after`: the application is
    /// told when it changed.
    pub fn theme_change(before: ThemePreference, after: ThemePreference) -> (action: Option<
        SettingsAction,
    >)
        ensures
            before == after ==> action is None,
            before != after ==> action == Some(SettingsAction::ThemeChanged(after)),
    {
        if before == after {
            None
        } else {
            Some(SettingsAction::ThemeChanged(after))
        }
    }

    pub fn set_syncing(&mut self, syncing: bool)
        ensures
            final(self).syncing_view() == syncing,
            final(self).search_query_view() == old(self).search_query_view(),
            final(self).app_path_view() == old(self).app_path_view(),
            final(self).storage_path_view() == old(self).storage_path_view(),
            final(self).dota2_steam_id_view() == old(self).dota2_steam_id_view(),
            final(self).proxy_view() == old(self).proxy_view(),
            final(self).steam_web_api_key_view() == old(self).steam_web_api_key_view(),
            final(self).stratz_api_token_view() == old(self).stratz_api_token_view(),
            final(self).opendota_api_key_view() == old(self).opendota_api_key_view(),
            final(self).reset_confirming_view() == old(self).reset_confirming_view(),
    {
        self.syncing = syncing;
    }

    pub fn is_syncing(&self) -> (syncing: bool)
        ensures
            syncing == self.syncing_view(),
    {
        self.syncing
    }

    /// The action of the sync button, which only works while no sync runs.
    pub fn sync_request(&self) -> (action: Option<SettingsAction>)
        ensures
            self.syncing_view() ==> action is None,
            !self.syncing_view() ==> action == Some(SettingsAction::SyncStaticData),
    {
        if self.syncing {
            None
        } else {
            Some(SettingsAction::SyncStaticData)
        }
    }

    pub fn is_reset_confirming(&self) -> (confirming: bool)
        ensures
            confirming == self.reset_confirming_view(),
    {
        self.reset_confirming
    }

    /// The reset button: asks for a confirmation first.
    pub fn request_reset(&mut self)
        ensures
            final(self).reset_confirming_view(),
            final(self).search_query_view() == old(self).search_query_view(),
            final(self).app_path_view() == old(self).app_path_view(),
            final(self).storage_path_view() == old(self).storage_path_view(),
            final(self).dota2_steam_id_view() == old(self).dota2_steam_id_view(),
            final(self).proxy_view() == old(self).proxy_view(),
            final(self).steam_web_api_key_view() == old(self).steam_web_api_key_view(),
            final(self).stratz_api_token_view() == old(self).stratz_api_token_view(),
            final(self).opendota_api_key_view() == old(self).opendota_api_key_view(),
            final(self).syncing_view() == old(self).syncing_view(),
    {
        self.reset_confirming = true;
    }

    /// The confirm button: a pending reset goes ahead.
    pub fn confirm_reset(&mut self) -> (action: Option<SettingsAction>)
        ensures
            !final(self).reset_confirming_view(),
            old(self).reset_confirming_view() ==> action == Some(SettingsAction::Reset),
            !old(self).reset_confirming_view() ==> action is None,
            final(self).search_query_view() == old(self).search_query_view(),
            final(self).app_path_view() == old(self).app_path_view(),
            final(self).storage_path_view() == old(self).storage_path_view(),
            final(self).dota2_steam_id_view() == old(self).dota2_steam_id_view(),
            final(self).proxy_view() == old(self).proxy_view(),
            final(self).steam_web_api_key_view() == old(self).steam_web_api_key_view(),
            final(self).stratz_api_token_view() == old(self).stratz_api_token_view(),
            final(self).opendota_api_key_view() == old(self).opendota_api_key_view(),
            final(self).syncing_view() == old(self).syncing_view(),
    {
        if self.reset_confirming {
            self.reset_confirming = false;
            Some(SettingsAction::Reset)
        } else {
            None
        }
    }

    /// The cancel button: the pending reset is dropped.
    pub fn cancel_reset(&mut self)
        ensures
            !final(self).reset_confirming_view(),
            final(self).search_query_view() == old(self).search_query_view(),
            final(self).app_path_view() == old(self).app_path_view(),
            final(self).storage_path_view() == old(self).storage_path_view(),
            final(self).dota2_steam_id_view() == old(self).dota2_steam_id_view(),
            final(self).proxy_view() == old(self).proxy_view(),
            final(self).steam_web_api_key_view() == old(self).steam_web_api_key_view(),
            final(self).stratz_api_token_view() == old(self).stratz_api_token_view(),
            final(self).opendota_api_key_view() == old(self).opendota_api_key_view(),
            final(self).syncing_view() == old(self).syncing_view(),
    {
        self.reset_confirming = false;
    }
}

} // verus!
