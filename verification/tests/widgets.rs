use ui::components::widgets::{format_playtime, persona_state_key, top_recent_games};
use ui::model::{PersonaState, RecentGame};

fn game(name: &str, two_weeks: i64) -> RecentGame {
    RecentGame { name: name.to_string(), playtime_2weeks: two_weeks, playtime_forever: 1000 }
}

#[test]
fn playtime_labels() {
    assert_eq!(format_playtime(0), "0m");
    assert_eq!(format_playtime(-20), "0m");
    assert_eq!(format_playtime(45), "45m");
    assert_eq!(format_playtime(60), "1h");
    assert_eq!(format_playtime(125), "2h 5m");
    assert_eq!(format_playtime(6000), "100h");
}

#[test]
fn persona_state_keys() {
    assert_eq!(persona_state_key(PersonaState::Offline), "friends-status-offline");
    assert_eq!(persona_state_key(PersonaState::LookingToPlay), "friends-status-looking-to-play");
    assert!(PersonaState::Snooze.is_online());
    assert!(!PersonaState::Offline.is_online());
}

#[test]
fn most_played_first_ties_in_order() {
    let games = vec![game("a", 10), game("b", 30), game("c", 10), game("d", 50)];
    assert_eq!(top_recent_games(&games, 3), vec![3, 1, 0]);
    assert_eq!(top_recent_games(&games, 10), vec![3, 1, 0, 2]);
    assert_eq!(top_recent_games(&games, 0), vec![3]);
    assert_eq!(top_recent_games(&vec![], 3), Vec::<usize>::new());
}
