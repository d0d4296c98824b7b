//! The application shell: routes, the window title, and the main window's
//! state with what it does when a screen, the menu or a background task asks
//! for something.

use vstd::prelude::*;
use crate::async_bridge::TaskResult;
use crate::components::exit_modal::ExitModal;
use crate::components::menu_bar::MenuAction;
use crate::components::toast::ToastManager;
use crate::model::Friend;
use crate::screens::dashboard::DashboardScreen;
use crate::screens::friend::{FriendAction, FriendScreen};
use crate::screens::hero::HeroScreen;
use crate::screens::item::ItemScreen;
use crate::screens::matches::{selected_is, MatchAction, MatchScreen};
use crate::screens::setting::{opt_view, SettingScreen, SettingsAction};
use crate::screens::setup::SetupScreen;
use crate::text::str_eq;

verus! {

/// A top-level destination of the main window.
#[derive(Debug, Clone, Copy, PartialEq, Eq, Structural, Default)]
pub enum Route {
    #[default]
    Dashboard,
    Friends,
    Matches,
    Heroes,
    Items,
    Settings,
}

pub open spec fn route_title_key(route: Route) -> Seq<char> {
    match route {
        Route::Dashboard => "nav-dashboard"@,
        Route::Friends => "nav-friends"@,
        Route::Matches => "nav-matches"@,
        Route::Heroes => "nav-heroes"@,
        Route::Items => "nav-items"@,
        Route::Settings => "nav-settings"@,
    }
}

/// Each route's title (the window title and its sidebar label) is translated
/// from a key of its own that names it: `nav-heroes` is the key of the Heroes
/// page and of no other, and likewise for every route, so no two routes share
/// a title key.
pub proof fn lemma_route_title_keys_name_routes(route: Route, other: Route)
    ensures
        route != other ==> route_title_key(route) != route_title_key(other),
        (route_title_key(route) == "nav-dashboard"@) <==> (route == Route::Dashboard),
        (route_title_key(route) == "nav-friends"@) <==> (route == Route::Friends),
        (route_title_key(route) == "nav-matches"@) <==> (route == Route::Matches),
        (route_title_key(route) == "nav-heroes"@) <==> (route == Route::Heroes),
        (route_title_key(route) == "nav-items"@) <==> (route == Route::Items),
        (route_title_key(route) == "nav-settings"@) <==> (route == Route::Settings),
{
    reveal_strlit("nav-dashboard");
    reveal_strlit("nav-friends");
    reveal_strlit("nav-matches");
    reveal_strlit("nav-heroes");
    reveal_strlit("nav-items");
    reveal_strlit("nav-settings");
    assert("nav-friends"@[4] != "nav-matches"@[4]);
    assert("nav-friends"@[4] != "nav-settings"@[4]);
    assert("nav-matches"@[4] != "nav-settings"@[4]);
    assert("nav-heroes"@[4] != "nav-dashboard"@[4]);
}

impl Route {
    /// Every route, in sidebar order.
    pub fn all() -> (routes: &'static [Route])
        ensures
            routes@ == seq![Route::Dashboard, Route::Friends, Route::Matches, Route::Heroes, Route::Items, Route::Settings],
    {
        &[Route::Dashboard, Route::Friends, Route::Matches, Route::Heroes, Route::Items, Route::Settings]
    }

    /// The routes listed at the top of the sidebar; settings sit apart at the bottom.
    pub fn main_routes() -> (routes: &'static [Route])
        ensures
            routes@ == seq![Route::Dashboard, Route::Friends, Route::Matches, Route::Heroes, Route::Items],
    {
        &[Route::Dashboard, Route::Friends, Route::Matches, Route::Heroes, Route::Items]
    }

    /// The message key under which the route's title is translated.
    pub fn title_key(&self) -> (key: &'static str)
        ensures
            key@ == route_title_key(*self),
    {
        proof {
            reveal_strlit("nav-dashboard");
            reveal_strlit("nav-friends");
            reveal_strlit("nav-matches");
            reveal_strlit("nav-heroes");
            reveal_strlit("nav-items");
            reveal_strlit("nav-settings");
        }
        match self {
            Route::Dashboard => "nav-dashboard",
            Route::Friends => "nav-friends",
            Route::Matches => "nav-matches",
            Route::Heroes => "nav-heroes",
            Route::Items => "nav-items",
            Route::Settings => "nav-settings",
        }
    }
}

/// The window title: the setup title while setting up (no route), else the
/// app name and the current route's (translated) title.
pub fn window_title(route_title: Option<&str>) -> (title: String)
    ensures
        route_title is None ==> title@ == "Courier - Setup"@,
        route_title is Some ==> title@ == "Courier - "@ + route_title->0@,
{
    match route_title {
        None => String::from_str("Courier - Setup"),
        Some(t) => {
            let mut title = String::from_str("Courier - ");
            title.append(t);
            title
        },
    }
}

/// Where the main window opens after setup.
pub fn landing_route(open_settings: bool) -> (route: Route)
    ensures
        route == if open_settings {
            Route::Settings
        } else {
            Route::Dashboard
        },
{
    if open_settings {
        Route::Settings
    } else {
        Route::Dashboard
    }
}

/// The HTTP client is rebuilt only when the proxy setting differs from the
/// one the current client was built with.
pub fn proxy_needs_reload(current: &Option<String>, proxy: &Option<String>) -> (reload: bool)
    ensures
        reload == (opt_view(*current) != opt_view(*proxy)),
{
    match (current, proxy) {
        (Some(a), Some(b)) => !str_eq(a.as_str(), b.as_str()),
        (None, None) => false,
        _ => true,
    }
}

/// Background work the main window asks for.
pub enum Task {
    /// Sync the friend list from Steam.
    SyncFriends,
    /// Refresh the online state and current game of these friends.
    RefreshStatuses(Vec<Friend>),
    /// Load the hero and item names and icon slugs.
    LoadMatchNames,
    /// Load a player's stored matches.
    LoadMatches(String),
    /// Fetch a player's recent matches.
    FetchMatches(String),
    /// Load or fetch the detail of one match.
    FetchMatchDetail(i64),
    /// Sync the static hero and item data.
    SyncStaticData,
}

/// A toast a background result calls for.
pub enum TaskNotice {
    /// Static data is synced: a success toast with the counts.
    DataSynced { heroes: i64, items: i64 },
    /// A task failed: an error toast with its message.
    Failed(String),
}

/// A toast a menu entry calls for.
#[derive(Debug, Clone, Copy, PartialEq, Eq, Structural)]
pub enum MenuNotice {
    Feedback,
    About,
    Updates,
}

/// A copy of each friend, field for field.
fn copy_friends(friends: &[Friend]) -> (copy: Vec<Friend>)
    ensures
        copy@.len() == friends@.len(),
        forall|i: int|
            0 <= i < friends@.len() ==> {
                &&& (#[trigger] copy@[i]).steam_id == friends@[i].steam_id
                &&& copy@[i].persona_name == friends@[i].persona_name
                &&& copy@[i].persona_state == friends@[i].persona_state
                &&& copy@[i].game_extra_info == friends@[i].game_extra_info
                &&& copy@[i].recent_games@ == friends@[i].recent_games@
            },
{
    let mut copy: Vec<Friend> = Vec::new();
    let mut i: usize = 0;
    while i < friends.len()
        invariant
            i <= friends@.len(),
            copy@.len() == i,
            forall|k: int|
                0 <= k < i ==> {
                    &&& (#[trigger] copy@[k]).steam_id == friends@[k].steam_id
                    &&& copy@[k].persona_name == friends@[k].persona_name
                    &&& copy@[k].persona_state == friends@[k].persona_state
                    &&& copy@[k].game_extra_info == friends@[k].game_extra_info
                    &&& copy@[k].recent_games@ == friends@[k].recent_games@
                },
        decreases friends@.len() - i,
    {
        copy.push(friends[i].clone());
        i = i + 1;
    }
    copy
}

/// The main window: the current route, the sidebar, each screen, the toasts
/// and the exit confirmation.
pub struct MainState {
    pub route: Route,
    pub sidebar_collapsed: bool,
    pub home: DashboardScreen,
    pub friends: FriendScreen,
    pub matches: MatchScreen,
    pub heroes: HeroScreen,
    pub items: ItemScreen,
    pub settings: SettingScreen,
    pub toasts: ToastManager,
    pub exit_modal: ExitModal,
}

impl MainState {
    /// Every screen fresh, on the dashboard, with the sidebar open; the
    /// settings screen shows `settings`.
    pub fn new(settings: SettingScreen) -> (main: Self)
        ensures
            main.route == Route::Dashboard,
            !main.sidebar_collapsed,
            main.friends.wf(),
            main.friends.friends_view().len() == 0,
            !main.friends.loading_view(),
            main.matches.matches_view().len() == 0,
            main.matches.selected_view() is None,
            !main.matches.loading_view(),
            main.settings == settings,
            main.toasts.wf(),
            main.toasts.toasts_view().len() == 0,
            !main.exit_modal.visible,
    {
        MainState {
            route: Route::Dashboard,
            sidebar_collapsed: false,
            home: DashboardScreen::new(),
            friends: FriendScreen::new(),
            matches: MatchScreen::new(),
            heroes: HeroScreen::new(),
            items: ItemScreen::new(),
            settings,
            toasts: ToastManager::new(),
            exit_modal: ExitModal::new(),
        }
    }

    /// Applies a finished background task to the screens, and tells which
    /// toast it calls for. A failure clears every busy indicator.
    pub fn handle_task_result(&mut self, result: TaskResult) -> (notice: Option<TaskNotice>)
        ensures
            final(self).route == old(self).route,
            final(self).friends.wf() == old(self).friends.wf(),
            final(self).toasts == old(self).toasts,
            final(self).exit_modal == old(self).exit_modal,
            !(result is FriendsLoaded || result is TaskFailed) ==> final(self).friends == old(self).friends,
            !(result is MatchSummariesLoaded || result is MatchDetailLoaded || result is MatchNamesLoaded
                || result is TaskFailed) ==> final(self).matches == old(self).matches,
            !(result is StaticDataSynced || result is TaskFailed) ==> final(self).settings == old(self).settings,
            match result {
                TaskResult::FriendsLoaded(friends) => notice is None
                    && final(self).friends.friends_view() == friends@
                    && !final(self).friends.loading_view()
                    && final(self).friends.query_view() == old(self).friends.query_view()
                    && final(self).friends.sort_view() == old(self).friends.sort_view()
                    && final(self).friends.collapsed_view() == old(self).friends.collapsed_view()
                    && final(self).friends.expanded_view() == old(self).friends.expanded_view(),
                TaskResult::StaticDataSynced { heroes, items } => !final(self).settings.syncing_view()
                    && final(self).settings.same_but_syncing(&old(self).settings)
                    && match notice {
                        Some(TaskNotice::DataSynced { heroes: h, items: i }) => h == heroes && i == items,
                        _ => false,
                    },
                TaskResult::MatchSummariesLoaded { steam_id, matches } => notice is None
                    && !final(self).matches.loading_view()
                    && (selected_is(old(self).matches.selected_view(), steam_id@) ==> final(self)
                        .matches.matches_view() == matches@)
                    && (!selected_is(old(self).matches.selected_view(), steam_id@) ==> final(self)
                        .matches.matches_view() == old(self).matches.matches_view())
                    && final(self).matches.selected_view() == old(self).matches.selected_view()
                    && final(self).matches.players_view() == old(self).matches.players_view()
                    && final(self).matches.detail_view() == old(self).matches.detail_view()
                    && final(self).matches.filter_view() == old(self).matches.filter_view()
                    && final(self).matches.names_requested_view() == old(self).matches.names_requested_view(),
                TaskResult::MatchDetailLoaded(detail) => notice is None
                    && final(self).matches.detail_view() == Some(*detail)
                    && !final(self).matches.loading_view()
                    && final(self).matches.selected_view() == old(self).matches.selected_view()
                    && final(self).matches.players_view() == old(self).matches.players_view()
                    && final(self).matches.matches_view() == old(self).matches.matches_view()
                    && final(self).matches.filter_view() == old(self).matches.filter_view()
                    && final(self).matches.names_requested_view() == old(self).matches.names_requested_view(),
                TaskResult::MatchNamesLoaded { heroes, items, hero_slugs, item_slugs } => notice is None
                    && final(self).matches.hero_names_view() == heroes@
                    && final(self).matches.item_names_view() == items@
                    && final(self).matches.hero_slugs_view() == hero_slugs@
                    && final(self).matches.item_slugs_view() == item_slugs@
                    && final(self).matches.selected_view() == old(self).matches.selected_view()
                    && final(self).matches.players_view() == old(self).matches.players_view()
                    && final(self).matches.matches_view() == old(self).matches.matches_view()
                    && final(self).matches.detail_view() == old(self).matches.detail_view()
                    && final(self).matches.loading_view() == old(self).matches.loading_view()
                    && final(self).matches.names_requested_view() == old(self).matches.names_requested_view(),
                TaskResult::TaskFailed(error) => !final(self).friends.loading_view()
                    && !final(self).matches.loading_view()
                    && !final(self).settings.syncing_view()
                    && final(self).friends.same_but_loading(&old(self).friends)
                    && final(self).matches.same_but_loading(&old(self).matches)
                    && final(self).settings.same_but_syncing(&old(self).settings)
                    && match notice {
                        Some(TaskNotice::Failed(e)) => e == error,
                        _ => false,
                    },
                _ => notice is None && final(self).friends.friends_view() == old(self).friends.friends_view()
                    && final(self).friends.loading_view() == old(self).friends.loading_view()
                    && final(self).matches.matches_view() == old(self).matches.matches_view()
                    && final(self).matches.loading_view() == old(self).matches.loading_view()
                    && final(self).settings.syncing_view() == old(self).settings.syncing_view(),
            },
    {
        match result {
            TaskResult::FriendsLoaded(friends) => {
                self.friends.set_friends(friends);
                None
            },
            TaskResult::StaticDataSynced { heroes, items } => {
                self.settings.set_syncing(false);
                Some(TaskNotice::DataSynced { heroes, items })
            },
            TaskResult::MatchSummariesLoaded { steam_id, matches } => {
                self.matches.set_matches(steam_id, matches);
                None
            },
            TaskResult::MatchDetailLoaded(detail) => {
                self.matches.set_detail(*detail);
                None
            },
            TaskResult::MatchNamesLoaded { heroes, items, hero_slugs, item_slugs } => {
                self.matches.set_names(heroes, items, hero_slugs, item_slugs);
                None
            },
            TaskResult::TaskFailed(error) => {
                self.friends.set_loading(false);
                self.matches.set_loading(false);
                self.settings.set_syncing(false);
                Some(TaskNotice::Failed(error))
            },
            _ => None,
        }
    }

    /// Applies a menu entry: navigation changes the route, exit asks for a
    /// confirmation, and the rest call for an informational toast.
    pub fn handle_menu_action(&mut self, action: MenuAction) -> (notice: Option<MenuNotice>)
        ensures
            match action {
                MenuAction::Navigate(route) => notice is None && final(self).route == route
                    && final(self).exit_modal == old(self).exit_modal,
                MenuAction::OpenFeedback => notice == Some(MenuNotice::Feedback)
                    && final(self).route == old(self).route
                    && final(self).exit_modal == old(self).exit_modal,
                MenuAction::ShowAbout => notice == Some(MenuNotice::About)
                    && final(self).route == old(self).route
                    && final(self).exit_modal == old(self).exit_modal,
                MenuAction::CheckUpdates => notice == Some(MenuNotice::Updates)
                    && final(self).route == old(self).route
                    && final(self).exit_modal == old(self).exit_modal,
                MenuAction::Exit => notice is None && final(self).exit_modal.visible
                    && final(self).route == old(self).route,
            },
            final(self).friends == old(self).friends,
            final(self).matches == old(self).matches,
            final(self).settings == old(self).settings,
            final(self).toasts == old(self).toasts,
    {
        match action {
            MenuAction::Navigate(route) => {
                self.route = route;
                None
            },
            MenuAction::OpenFeedback => Some(MenuNotice::Feedback),
            MenuAction::ShowAbout => Some(MenuNotice::About),
            MenuAction::CheckUpdates => Some(MenuNotice::Updates),
            MenuAction::Exit => {
                self.exit_modal.show();
                None
            },
        }
    }

    /// Applies an action of the Friends screen: the list is busy and the
    /// matching task is asked for (a status refresh carries the friends known
    /// now).
    pub fn on_friend_action(&mut self, action: FriendAction) -> (task: Task)
        ensures
            final(self).friends.loading_view(),
            final(self).friends.friends_view() == old(self).friends.friends_view(),
            final(self).friends.wf() == old(self).friends.wf(),
            final(self).route == old(self).route,
            final(self).matches == old(self).matches,
            final(self).settings == old(self).settings,
            match action {
                FriendAction::SyncFriends => task is SyncFriends,
                FriendAction::RefreshStatuses => match task {
                    Task::RefreshStatuses(friends) => friends@.len() == old(self).friends.friends_view().len()
                        && forall|i: int|
                        0 <= i < friends@.len() ==> (#[trigger] friends@[i]).steam_id
                            == old(self).friends.friends_view()[i].steam_id,
                    _ => false,
                },
            },
    {
        match action {
            FriendAction::SyncFriends => {
                self.friends.set_loading(true);
                Task::SyncFriends
            },
            FriendAction::RefreshStatuses => {
                let friends = copy_friends(self.friends.friends());
                self.friends.set_loading(true);
                Task::RefreshStatuses(friends)
            },
        }
    }

    /// Before the Matches screen is drawn: the player picker lists the
    /// friends (copied again when their number changed), and the hero and
    /// item names are asked for once, while none are known.
    pub fn prepare_matches(&mut self) -> (task: Option<Task>)
        ensures
            old(self).matches.players_view().len() != old(self).friends.friends_view().len() ==> final(self).matches.players_view().len() == old(self).friends.friends_view().len() && forall|i: int|
                0 <= i < old(self).friends.friends_view().len() ==> (#[trigger] final(self).matches.players_view()[i]).0@ == old(self).friends.friends_view()[i].steam_id@
                    && final(self).matches.players_view()[i].1@
                    == old(self).friends.friends_view()[i].persona_name@,
            old(self).matches.players_view().len() == old(self).friends.friends_view().len() ==> final(self).matches.players_view() == old(self).matches.players_view(),
            old(self).matches.wants_names() ==> task is Some && task->0 is LoadMatchNames
                && final(self).matches.names_requested_view(),
            !old(self).matches.wants_names() ==> task is None,
            !final(self).matches.wants_names(),
            final(self).matches.matches_view() == old(self).matches.matches_view(),
            final(self).matches.selected_view() == old(self).matches.selected_view(),
            final(self).matches.loading_view() == old(self).matches.loading_view(),
            final(self).route == old(self).route,
            final(self).friends == old(self).friends,
            final(self).settings == old(self).settings,
    {
        self.matches.set_friend_players(self.friends.friends());
        if self.matches.needs_names() {
            self.matches.mark_names_requested();
            Some(Task::LoadMatchNames)
        } else {
            None
        }
    }

    /// Applies an action of the Matches screen: loads and fetches mark the
    /// screen busy and ask for their task; closing the detail returns to
    /// the list.
    pub fn on_match_action(&mut self, action: MatchAction) -> (task: Option<Task>)
        ensures
            final(self).route == old(self).route,
            final(self).friends == old(self).friends,
            final(self).settings == old(self).settings,
            final(self).matches.matches_view() == old(self).matches.matches_view(),
            final(self).matches.selected_view() == old(self).matches.selected_view(),
            match action {
                MatchAction::SelectPlayer(id) => final(self).matches.loading_view() && match task {
                    Some(Task::LoadMatches(t)) => t == id,
                    _ => false,
                },
                MatchAction::FetchMatches(id) => final(self).matches.loading_view() && match task {
                    Some(Task::FetchMatches(t)) => t == id,
                    _ => false,
                },
                MatchAction::OpenMatch(m) => final(self).matches.loading_view() && match task {
                    Some(Task::FetchMatchDetail(t)) => t == m,
                    _ => false,
                },
                MatchAction::CloseDetail => task is None && final(self).matches.detail_view() is None
                    && final(self).matches.loading_view() == old(self).matches.loading_view(),
            },
    {
        match action {
            MatchAction::SelectPlayer(id) => {
                self.matches.set_loading(true);
                Some(Task::LoadMatches(id))
            },
            MatchAction::FetchMatches(id) => {
                self.matches.set_loading(true);
                Some(Task::FetchMatches(id))
            },
            MatchAction::OpenMatch(m) => {
                self.matches.set_loading(true);
                Some(Task::FetchMatchDetail(m))
            },
            MatchAction::CloseDetail => {
                self.matches.close_detail();
                None
            },
        }
    }

    /// Applies the part of a settings action that stays inside the window:
    /// a static data sync marks the settings busy and asks for its task.
    /// The other actions reach beyond the window and ask for no task here.
    pub fn on_settings_action(&mut self, action: &SettingsAction) -> (task: Option<Task>)
        ensures
            *action == SettingsAction::SyncStaticData ==> final(self).settings.syncing_view()
                && task is Some && task->0 is SyncStaticData,
            *action != SettingsAction::SyncStaticData ==> task is None && final(self).settings
                == old(self).settings,
            final(self).route == old(self).route,
            final(self).friends == old(self).friends,
            final(self).matches == old(self).matches,
    {
        match action {
            SettingsAction::SyncStaticData => {
                self.settings.set_syncing(true);
                Some(Task::SyncStaticData)
            },
            _ => None,
        }
    }
}

/// What the window shows: the first-run setup, then the main window.
pub enum AppState {
    Setup(Box<SetupScreen>),
    Main(Box<MainState>),
}

impl AppState {
    /// Leaves a completed setup for the main window, opened on the route
    /// setup asked for and showing `settings` on its settings screen. Every
    /// other state is kept as it is, so the main window never goes back to
    /// setup.
    pub fn advance(&mut self, settings: SettingScreen)
        ensures
            match *old(self) {
                AppState::Main(_) => *final(self) == *old(self),
                AppState::Setup(s) => if s.completed_view() {
                    match *final(self) {
                        AppState::Main(m) => m.route == (if s.open_settings_view() {
                            Route::Settings
                        } else {
                            Route::Dashboard
                        }) && m.settings == settings && !m.sidebar_collapsed && !m.exit_modal.visible
                            && m.friends.wf() && m.toasts.wf(),
                        AppState::Setup(_) => false,
                    }
                } else {
                    *final(self) == *old(self)
                },
            },
    {
        let open_settings: Option<bool> = match &*self {
            AppState::Setup(s) => if s.is_completed() {
                Some(s.result().open_settings)
            } else {
                None
            },
            AppState::Main(_) => None,
        };
        if let Some(open) = open_settings {
            let mut main = MainState::new(settings);
            main.route = landing_route(open);
            *self = AppState::Main(Box::new(main));
        }
    }
}

} // verus!
