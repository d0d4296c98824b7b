use ui::components::watch_list::{build_list_view, GroupKey, ListEntry, ListView, SortMode};
use ui::model::{Follow, Friend, PersonaState};
use ui::screens::follows::{FollowAction, FollowScreen, FollowSort, RowClicks};
use ui::screens::friend::{FriendScreen, FriendSort};

fn entry(name: &str, id: &str, online: bool, game: Option<&str>) -> ListEntry {
    ListEntry { name: name.to_string(), steam_id: id.to_string(), online, game: game.map(|g| g.to_string()) }
}

fn friend(name: &str, id: &str, state: PersonaState, game: Option<&str>) -> Friend {
    Friend {
        steam_id: id.to_string(),
        persona_name: name.to_string(),
        persona_state: state,
        avatar: String::new(),
        profile_url: String::new(),
        game_extra_info: game.map(|g| g.to_string()),
        recent_games: Vec::new(),
    }
}

fn follow(name: &str, id: &str, tracking: bool) -> Follow {
    Follow {
        steam_id: id.to_string(),
        persona_name: name.to_string(),
        persona_state: PersonaState::Online,
        avatar: String::new(),
        profile_url: String::new(),
        game_extra_info: None,
        recent_games: Vec::new(),
        tracking,
    }
}

fn group_summary(view: &ListView) -> Vec<(String, Vec<usize>)> {
    match view {
        ListView::Groups(gs) => gs.iter().map(|g| (g.key.key_string(), g.indices.clone())).collect(),
        _ => panic!("expected groups"),
    }
}

#[test]
fn empty_and_no_results() {
    assert!(matches!(build_list_view(&vec![], "", SortMode::Name), ListView::Empty));
    let es = vec![entry("Axe", "1", true, None)];
    assert!(matches!(build_list_view(&es, "zzz", SortMode::Name), ListView::NoResults));
}

#[test]
fn name_sort_is_case_insensitive_and_stable() {
    let es = vec![entry("bob", "1", true, None), entry("Alice", "2", false, None), entry("BOB", "3", true, None)];
    match build_list_view(&es, "", SortMode::Name) {
        ListView::Rows(rows) => assert_eq!(rows, vec![1, 0, 2]),
        _ => panic!("expected rows"),
    }
}

#[test]
fn search_matches_name_or_steam_id() {
    let es = vec![entry("Alice", "765", true, None), entry("Bob", "123", true, None)];
    match build_list_view(&es, "ALI", SortMode::Name) {
        ListView::Rows(rows) => assert_eq!(rows, vec![0]),
        _ => panic!("expected rows"),
    }
    match build_list_view(&es, "23", SortMode::Name) {
        ListView::Rows(rows) => assert_eq!(rows, vec![1]),
        _ => panic!("expected rows"),
    }
}

#[test]
fn status_groups_online_first() {
    let es = vec![entry("a", "1", false, None), entry("b", "2", true, None), entry("c", "3", false, None)];
    let view = build_list_view(&es, "", SortMode::Status);
    assert_eq!(group_summary(&view), vec![("online".to_string(), vec![1]), ("offline".to_string(), vec![0, 2])]);
    let only_off = vec![entry("a", "1", false, None)];
    assert_eq!(group_summary(&build_list_view(&only_off, "", SortMode::Status)), vec![("offline".to_string(), vec![0])]);
}

#[test]
fn game_groups_by_name_then_not_in_game() {
    let es = vec![
        entry("a", "1", true, Some("Dota 2")),
        entry("b", "2", true, None),
        entry("c", "3", true, Some("CS2")),
        entry("d", "4", true, Some("Dota 2")),
    ];
    let view = build_list_view(&es, "", SortMode::Game);
    assert_eq!(
        group_summary(&view),
        vec![
            ("game:CS2".to_string(), vec![2]),
            ("game:Dota 2".to_string(), vec![0, 3]),
            ("not-in-game".to_string(), vec![1]),
        ]
    );
}

#[test]
fn group_keys() {
    assert_eq!(GroupKey::Online.key_string(), "online");
    assert_eq!(GroupKey::Offline.key_string(), "offline");
    assert_eq!(GroupKey::NotInGame.key_string(), "not-in-game");
    assert_eq!(GroupKey::Game("Dota 2".to_string()).key_string(), "game:Dota 2");
}

#[test]
fn friend_screen_lists_and_folds() {
    let mut screen = FriendScreen::new();
    assert!(screen.is_collapsed("offline"));
    assert!(screen.is_collapsed("not-in-game"));
    assert!(!screen.is_collapsed("online"));
    assert_eq!(FriendSort::all(), [FriendSort::Status, FriendSort::Game, FriendSort::Name]);
    assert_eq!(FriendSort::Game.label_key(), "friends-sort-game");
    assert!(matches!(screen.list_view(), ListView::Empty));
    screen.set_loading(true);
    screen.set_friends(vec![
        friend("Zed", "1", PersonaState::Offline, None),
        friend("amy", "2", PersonaState::Away, Some("Dota 2")),
    ]);
    assert!(!screen.is_loading());
    assert_eq!(group_summary(&screen.list_view()), vec![("online".to_string(), vec![1]), ("offline".to_string(), vec![0])]);
    screen.sort = FriendSort::Name;
    match screen.list_view() {
        ListView::Rows(rows) => assert_eq!(rows, vec![1, 0]),
        _ => panic!("expected rows"),
    }
    screen.toggle_collapsed("offline".to_string());
    assert!(!screen.is_collapsed("offline"));
    screen.toggle_collapsed("offline".to_string());
    assert!(screen.is_collapsed("offline"));
    screen.toggle_expanded("2".to_string());
    assert!(screen.is_expanded("2"));
    screen.toggle_expanded("2".to_string());
    assert!(!screen.is_expanded("2"));
}

#[test]
fn follows_add_input_is_trimmed() {
    let mut screen = FollowScreen::new();
    screen.add_input = "   ".to_string();
    assert!(screen.submit_add_input().is_none());
    assert_eq!(screen.add_input, "   ");
    screen.add_input = "  76561198000000001 ".to_string();
    match screen.submit_add_input() {
        Some(FollowAction::AddPlayer(id)) => assert_eq!(id, "76561198000000001"),
        _ => panic!("expected an add"),
    }
    assert_eq!(screen.add_input, "");
    assert_eq!(FollowSort::Name.label_key(), "follows-sort-name");
}

#[test]
fn follow_rows_tracking_wins_and_last_wins() {
    let mut screen = FollowScreen::new();
    screen.set_follows(vec![follow("a", "1", false), follow("b", "2", true), follow("c", "3", false)]);
    let none = RowClicks { index: 0, recent_toggled: false, remove_clicked: false, track_clicked: false };
    assert!(screen.row_action(&vec![none]).is_none());
    let remove0 = RowClicks { index: 0, remove_clicked: true, ..none };
    let remove2 = RowClicks { index: 2, remove_clicked: true, ..none };
    match screen.row_action(&vec![remove0, remove2]) {
        Some(FollowAction::RemovePlayer(id)) => assert_eq!(id, "3"),
        _ => panic!("expected a removal"),
    }
    let track1 = RowClicks { index: 1, track_clicked: true, ..none };
    match screen.row_action(&vec![remove0, track1, remove2]) {
        Some(FollowAction::SetTracked(id, on)) => {
            assert_eq!(id, "2");
            assert!(!on);
        }
        _ => panic!("expected a tracking change"),
    }
}

#[test]
fn follow_picker_offers_unfollowed_friends() {
    let mut screen = FollowScreen::new();
    screen.set_follows(vec![follow("b", "2", false)]);
    screen.set_friends(&[
        friend("Anna", "1", PersonaState::Online, None),
        friend("Ben", "2", PersonaState::Online, None),
        friend("Cara", "3", PersonaState::Offline, None),
    ]);
    screen.open_picker();
    assert!(screen.is_picker_open());
    assert_eq!(screen.picker_candidates(), vec![0, 2]);
    screen.picker_query = "CAR".to_string();
    assert_eq!(screen.picker_candidates(), vec![2]);
    screen.picker_query = String::new();
    let all = screen.picker_candidates();
    screen.select_all(&all);
    assert_eq!(screen.selected_count(), 2);
    assert!(screen.is_selected("1") && screen.is_selected("3"));
    screen.set_selected("1".to_string(), false);
    assert!(!screen.is_selected("1"));
    match screen.confirm_picker() {
        Some(FollowAction::AddSelectedFriends(ids)) => assert_eq!(ids, vec!["3".to_string()]),
        _ => panic!("expected an add"),
    }
    assert!(!screen.is_picker_open());
    assert_eq!(screen.selected_count(), 0);
    assert!(screen.confirm_picker().is_none());
    screen.open_picker();
    screen.select_all(&vec![0, 2]);
    screen.select_none(&vec![0]);
    assert!(!screen.is_selected("1"));
    assert!(screen.is_selected("3"));
    screen.close_picker();
    assert!(!screen.is_picker_open());
}
