//! The first-run setup screen: the language and the app data directory.

use vstd::prelude::*;
use crate::text::str_eq;

verus! {

/// What the user chose during setup.
pub struct SetupResult {
    pub language: String,
    pub app_path: String,
    /// Whether to go on to the settings page instead of the app.
    pub open_settings: bool,
}

/// A language the selectors offer: `auto` (the system's) or one of the
/// translations.
pub open spec fn is_language_option(code: Seq<char>) -> bool {
    code == "auto"@ || code == "en"@ || code == "zh-CN"@
}

/// The languages the selectors offer, in their order.
pub fn language_options() -> (options: [&'static str; 3])
    ensures
        options@.len() == 3,
        options@[0]@ == "auto"@,
        options@[1]@ == "en"@,
        options@[2]@ == "zh-CN"@,
{
    ["auto", "en", "zh-CN"]
}

/// The locale a language choice names: `None` for `auto`, which leaves the
/// choice to the system.
pub fn explicit_locale(language: &str) -> (locale: Option<String>)
    ensures
        language@ == "auto"@ ==> locale is None,
        language@ != "auto"@ ==> locale is Some && locale->0@ == language@,
{
    if str_eq(language, "auto") {
        None
    } else {
        Some(String::from_str(language))
    }
}

/// What every step of the setup keeps: once completed it stays completed,
/// and an offered language stays an offered one.
pub open spec fn keeps_setup_law(before: SetupScreen, after: SetupScreen) -> bool {
    &&& before.completed_view() ==> after.completed_view()
    &&& is_language_option(before.language_view()) ==> is_language_option(after.language_view())
}

/// The setup law holds over any run of steps: steps that each keep it keep
/// it together.
pub proof fn lemma_setup_law_chains(first: SetupScreen, second: SetupScreen, third: SetupScreen)
    requires
        keeps_setup_law(first, second),
        keeps_setup_law(second, third),
    ensures
        keeps_setup_law(first, third),
{
}

pub struct SetupScreen {
    language: &'static str,
    app_path: String,
    open_settings: bool,
    pub completed: bool,
}

impl SetupScreen {
    pub closed spec fn language_view(&self) -> Seq<char> {
        self.language@
    }

    pub closed spec fn app_path_view(&self) -> Seq<char> {
        self.app_path@
    }

    pub closed spec fn open_settings_view(&self) -> bool {
        self.open_settings
    }

    pub closed spec fn completed_view(&self) -> bool {
        self.completed
    }

    /// A fresh setup: the language follows the system and the app data
    /// goes to `default_app_path`.
    pub fn new(default_app_path: String) -> (screen: Self)
        ensures
            screen.language_view() == "auto"@,
            is_language_option(screen.language_view()),
            screen.app_path_view() == default_app_path@,
            !screen.open_settings_view(),
            !screen.completed_view(),
    {
        SetupScreen { language: "auto", app_path: default_app_path, open_settings: false, completed: false }
    }

    /// The choices so far.
    pub fn result(&self) -> (result: SetupResult)
        ensures
            result.language@ == self.language_view(),
            result.app_path@ == self.app_path_view(),
            result.open_settings == self.open_settings_view(),
    {
        SetupResult {
            language: String::from_str(self.language),
            app_path: self.app_path.clone(),
            open_settings: self.open_settings,
        }
    }

    /// Setup is done.
    pub fn is_completed(&self) -> (done: bool)
        ensures
            done == self.completed_view(),
    {
        self.completed
    }

    pub fn language(&self) -> (language: &'static str)
        ensures
            language@ == self.language_view(),
    {
        self.language
    }

    /// Picks one of the offered languages; tells whether the choice changed.
    /// A code the selector does not offer changes nothing, so the language
    /// stays one of the offered ones.
    pub fn select_language(&mut self, code: &'static str) -> (changed: bool)
        ensures
            is_language_option(code@) ==> changed == (old(self).language_view() != code@)
                && final(self).language_view() == code@,
            !is_language_option(code@) ==> !changed && final(self).language_view()
                == old(self).language_view(),
            is_language_option(old(self).language_view()) ==> is_language_option(
                final(self).language_view(),
            ),
            final(self).app_path_view() == old(self).app_path_view(),
            final(self).open_settings_view() == old(self).open_settings_view(),
            final(self).completed_view() == old(self).completed_view(),
            keeps_setup_law(*old(self), *final(self)),
    {
        if !(str_eq(code, "auto") || str_eq(code, "en") || str_eq(code, "zh-CN")) {
            return false;
        }
        let changed = !str_eq(self.language, code);
        self.language = code;
        changed
    }

    pub fn app_path(&self) -> (path: &str)
        ensures
            path@ == self.app_path_view(),
    {
        self.app_path.as_str()
    }

    /// Replaces the app data directory (typed or picked in a dialog).
    pub fn set_app_path(&mut self, path: String)
        ensures
            final(self).app_path_view() == path@,
            final(self).language_view() == old(self).language_view(),
            final(self).open_settings_view() == old(self).open_settings_view(),
            final(self).completed_view() == old(self).completed_view(),
            keeps_setup_law(*old(self), *final(self)),
    {
        self.app_path = path;
    }

    /// The "open settings" button: setup is done and the settings page
    /// comes next.
    pub fn open_settings(&mut self)
        ensures
            final(self).open_settings_view(),
            final(self).completed_view(),
            final(self).language_view() == old(self).language_view(),
            final(self).app_path_view() == old(self).app_path_view(),
            keeps_setup_law(*old(self), *final(self)),
    {
        self.open_settings = true;
        self.completed = true;
    }

    /// The "continue" button: setup is done.
    pub fn finish(&mut self)
        ensures
            final(self).completed_view(),
            final(self).open_settings_view() == old(self).open_settings_view(),
            final(self).language_view() == old(self).language_view(),
            final(self).app_path_view() == old(self).app_path_view(),
            keeps_setup_law(*old(self), *final(self)),
    {
        self.completed = true;
    }
}

} // verus!
