use std::collections::HashMap;
use ui::app::{landing_route, proxy_needs_reload, window_title, AppState, MainState, MenuNotice, Route, Task, TaskNotice};
use ui::async_bridge::TaskResult;
use ui::components::exit_modal::{ExitAction, ExitModal};
use ui::components::menu_bar::MenuAction;
use ui::components::sidebar::get_route_icon;
use ui::components::watch_list::opens_profile;
use ui::error::Error;
use ui::icons::nav;
use ui::model::{Friend, PersonaState};
use ui::screens::friend::FriendAction;
use ui::screens::matches::MatchAction;
use ui::screens::setting::{SettingScreen, SettingsAction};
use ui::screens::setup::SetupScreen;

fn settings() -> SettingScreen {
    SettingScreen::new("/a".to_string(), "/s".to_string(), None, None, None, None, None)
}

fn friend(steam_id: &str) -> Friend {
    Friend {
        steam_id: steam_id.to_string(),
        persona_name: format!("p{steam_id}"),
        persona_state: PersonaState::Offline,
        avatar: String::new(),
        profile_url: String::new(),
        game_extra_info: None,
        recent_games: Vec::new(),
    }
}

#[test]
fn routes_in_sidebar_order() {
    assert_eq!(
        Route::all(),
        &[Route::Dashboard, Route::Friends, Route::Matches, Route::Heroes, Route::Items, Route::Settings]
    );
    assert_eq!(Route::main_routes(), &[Route::Dashboard, Route::Friends, Route::Matches, Route::Heroes, Route::Items]);
    assert_eq!(Route::default(), Route::Dashboard);
    assert_eq!(Route::Matches.title_key(), "nav-matches");
    assert_eq!(Route::Settings.title_key(), "nav-settings");
    assert_eq!(get_route_icon(Route::Heroes), nav::HEROES);
    assert_eq!(get_route_icon(Route::Settings), nav::SETTINGS);
}

#[test]
fn title_follows_state() {
    assert_eq!(window_title(None), "Courier - Setup");
    assert_eq!(window_title(Some("Matches")), "Courier - Matches");
    assert_eq!(landing_route(true), Route::Settings);
    assert_eq!(landing_route(false), Route::Dashboard);
}

#[test]
fn exit_needs_confirmation() {
    let mut modal = ExitModal::new();
    assert!(!modal.visible);
    assert!(modal.intercept_close());
    assert!(modal.visible);
    assert!(!modal.intercept_close());
    assert!(!modal.resolve(ExitAction::Cancel));
    assert!(!modal.visible);
    modal.show();
    assert!(modal.resolve(ExitAction::Confirm));
    modal.close();
    assert!(!modal.visible);
}

#[test]
fn menu_actions() {
    let mut main = MainState::new(settings());
    assert_eq!(main.route, Route::Dashboard);
    assert_eq!(main.handle_menu_action(MenuAction::Navigate(Route::Heroes)), None);
    assert_eq!(main.route, Route::Heroes);
    assert_eq!(main.handle_menu_action(MenuAction::OpenFeedback), Some(MenuNotice::Feedback));
    assert_eq!(main.handle_menu_action(MenuAction::ShowAbout), Some(MenuNotice::About));
    assert_eq!(main.handle_menu_action(MenuAction::CheckUpdates), Some(MenuNotice::Updates));
    assert!(!main.exit_modal.visible);
    assert_eq!(main.handle_menu_action(MenuAction::Exit), None);
    assert!(main.exit_modal.visible);
    assert_eq!(main.route, Route::Heroes);
}

#[test]
fn task_results_reach_their_screens() {
    let mut main = MainState::new(settings());
    main.friends.set_loading(true);
    assert!(main.handle_task_result(TaskResult::FriendsLoaded(vec![friend("1"), friend("2")])).is_none());
    assert_eq!(main.friends.friends().len(), 2);
    assert!(!main.friends.is_loading());

    main.settings.set_syncing(true);
    match main.handle_task_result(TaskResult::StaticDataSynced { heroes: 124, items: 300 }) {
        Some(TaskNotice::DataSynced { heroes, items }) => assert_eq!((heroes, items), (124, 300)),
        _ => panic!("expected a sync notice"),
    }
    assert!(!main.settings.is_syncing());

    let mut names = HashMap::new();
    names.insert(1, "Anti-Mage".to_string());
    assert!(main
        .handle_task_result(TaskResult::MatchNamesLoaded {
            heroes: names,
            items: HashMap::new(),
            hero_slugs: HashMap::new(),
            item_slugs: HashMap::new(),
        })
        .is_none());
    assert_eq!(main.matches.hero_name(1), "Anti-Mage");

    assert!(main.handle_task_result(TaskResult::TelegramTestSent).is_none());
}

#[test]
fn failure_clears_busy_indicators() {
    let mut main = MainState::new(settings());
    main.friends.set_loading(true);
    main.matches.set_loading(true);
    main.settings.set_syncing(true);
    match main.handle_task_result(TaskResult::TaskFailed("boom".to_string())) {
        Some(TaskNotice::Failed(e)) => assert_eq!(e, "boom"),
        _ => panic!("expected a failure notice"),
    }
    assert!(!main.friends.is_loading());
    assert!(!main.matches.is_loading());
    assert!(!main.settings.is_syncing());
}

#[test]
fn screen_actions_ask_for_tasks() {
    let mut main = MainState::new(settings());
    main.handle_task_result(TaskResult::FriendsLoaded(vec![friend("9")]));
    assert!(matches!(main.on_friend_action(FriendAction::SyncFriends), Task::SyncFriends));
    assert!(main.friends.is_loading());
    match main.on_friend_action(FriendAction::RefreshStatuses) {
        Task::RefreshStatuses(friends) => {
            assert_eq!(friends.len(), 1);
            assert_eq!(friends[0].steam_id, "9");
        }
        _ => panic!("expected a refresh"),
    }

    assert!(matches!(main.prepare_matches(), Some(Task::LoadMatchNames)));
    assert!(main.prepare_matches().is_none());

    match main.on_match_action(MatchAction::SelectPlayer("9".to_string())) {
        Some(Task::LoadMatches(id)) => assert_eq!(id, "9"),
        _ => panic!("expected a load"),
    }
    assert!(main.matches.is_loading());
    match main.on_match_action(MatchAction::OpenMatch(77)) {
        Some(Task::FetchMatchDetail(id)) => assert_eq!(id, 77),
        _ => panic!("expected a detail fetch"),
    }
    match main.on_match_action(MatchAction::FetchMatches("9".to_string())) {
        Some(Task::FetchMatches(id)) => assert_eq!(id, "9"),
        _ => panic!("expected a fetch"),
    }
    assert!(main.on_match_action(MatchAction::CloseDetail).is_none());
    assert!(main.matches.detail().is_none());

    assert!(matches!(main.on_settings_action(&SettingsAction::SyncStaticData), Some(Task::SyncStaticData)));
    assert!(main.settings.is_syncing());
    assert!(main.on_settings_action(&SettingsAction::Reset).is_none());
}

#[test]
fn proxy_reload_only_on_change() {
    assert!(!proxy_needs_reload(&None, &None));
    assert!(!proxy_needs_reload(&Some("http://p".to_string()), &Some("http://p".to_string())));
    assert!(proxy_needs_reload(&None, &Some("http://p".to_string())));
    assert!(proxy_needs_reload(&Some("http://p".to_string()), &None));
    assert!(proxy_needs_reload(&Some("http://p".to_string()), &Some("http://q".to_string())));
}

#[test]
fn error_texts() {
    assert_eq!(Error::Asset { message: "font".to_string() }.describe(), "Asset error: font");
    assert_eq!(Error::Theme { message: "x".to_string() }.describe(), "Theme error: x");
    assert_eq!(Error::Navigation { message: String::new() }.describe(), "Navigation error: ");
    assert_eq!(Error::Screen { message: "s".to_string() }.describe(), "Screen error: s");
}

#[test]
fn setup_leads_to_main_and_main_stays() {
    let mut state = AppState::Setup(Box::new(SetupScreen::new("/d".to_string())));
    state.advance(settings());
    assert!(matches!(state, AppState::Setup(_)));
    if let AppState::Setup(setup) = &mut state {
        setup.open_settings();
    }
    state.advance(settings());
    match &state {
        AppState::Main(main) => assert_eq!(main.route, Route::Settings),
        AppState::Setup(_) => panic!("expected the main window"),
    }
    state.advance(settings());
    assert!(matches!(state, AppState::Main(_)));

    let mut plain = AppState::Setup(Box::new(SetupScreen::new("/d".to_string())));
    if let AppState::Setup(setup) = &mut plain {
        setup.finish();
    }
    plain.advance(settings());
    match &plain {
        AppState::Main(main) => assert_eq!(main.route, Route::Dashboard),
        AppState::Setup(_) => panic!("expected the main window"),
    }
}

#[test]
fn matches_picker_lists_the_friends() {
    let mut main = MainState::new(settings());
    main.handle_task_result(TaskResult::FriendsLoaded(vec![friend("4"), friend("5")]));
    main.prepare_matches();
    assert_eq!(main.matches.players(), &[("4".to_string(), "p4".to_string()), ("5".to_string(), "p5".to_string())]);
}

#[test]
fn failure_keeps_screen_data() {
    let mut main = MainState::new(settings());
    main.handle_task_result(TaskResult::FriendsLoaded(vec![friend("4")]));
    main.handle_task_result(TaskResult::TaskFailed("x".to_string()));
    assert_eq!(main.friends.friends().len(), 1);
}

#[test]
fn profile_opens_on_a_plain_row_click() {
    assert!(opens_profile(true, false, true));
    assert!(!opens_profile(true, true, true));
    assert!(!opens_profile(true, false, false));
    assert!(!opens_profile(false, false, true));
}
