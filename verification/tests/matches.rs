use std::collections::HashMap;
use ui::model::{Follow, MatchDetail, MatchPlayer, MatchSummary, PersonaState};
use ui::screens::matches::{item_slug_url, MatchAction, MatchFilter, MatchListState, MatchScreen, ICON_CDN};

fn summary(match_id: i64, hero_id: i32, won: bool) -> MatchSummary {
    MatchSummary {
        match_id,
        hero_id,
        won,
        kills: 1,
        deaths: 2,
        assists: 3,
        duration: 1800,
        start_time: 1_700_000_000,
        gold_per_min: 500,
        xp_per_min: 600,
        player_slot: 0,
    }
}

fn follow(steam_id: &str, name: &str) -> Follow {
    Follow {
        steam_id: steam_id.to_string(),
        persona_name: name.to_string(),
        persona_state: PersonaState::Online,
        avatar: String::new(),
        profile_url: String::new(),
        game_extra_info: None,
        recent_games: Vec::new(),
        tracking: false,
    }
}

fn player(hero_id: i32, radiant: bool) -> MatchPlayer {
    MatchPlayer {
        hero_id,
        personaname: None,
        radiant,
        items: vec![0; 6],
        item_neutral: 0,
        item_neutral2: 0,
        aghanims_scepter: false,
        aghanims_shard: false,
        net_worth: 0,
        xp_per_min: 0,
        gold_per_min: 0,
        level: 1,
        kills: 0,
        deaths: 0,
        assists: 0,
    }
}

fn screen_with_players() -> MatchScreen {
    let mut screen = MatchScreen::new();
    screen.set_players(&[follow("1", "Alice"), follow("2", "Bob")]);
    screen
}

#[test]
fn new_screen_is_idle() {
    let screen = MatchScreen::new();
    assert_eq!(screen.filter(), MatchFilter::All);
    assert!(screen.selected().is_none());
    assert!(!screen.is_loading());
    assert!(screen.needs_names());
    assert_eq!(screen.list_state(), MatchListState::NoPlayers);
    assert_eq!(MatchFilter::default(), MatchFilter::All);
}

#[test]
fn players_are_copied_only_when_their_number_changes() {
    let mut screen = screen_with_players();
    assert_eq!(screen.players().len(), 2);
    assert_eq!(screen.players()[1], ("2".to_string(), "Bob".to_string()));
    // Same number of follows: the picker keeps what it has.
    screen.set_players(&[follow("3", "Carol"), follow("4", "Dave")]);
    assert_eq!(screen.players()[0], ("1".to_string(), "Alice".to_string()));
    screen.set_players(&[follow("3", "Carol")]);
    assert_eq!(screen.players(), &[("3".to_string(), "Carol".to_string())]);
}

#[test]
fn picking_a_player_asks_for_their_matches_once() {
    let mut screen = screen_with_players();
    assert_eq!(screen.list_state(), MatchListState::NoSelection);
    match screen.pick_player("2") {
        Some(MatchAction::SelectPlayer(id)) => assert_eq!(id, "2"),
        _ => panic!("expected a selection"),
    }
    assert_eq!(screen.selected(), Some(&"2".to_string()));
    assert_eq!(screen.selected_name(), Some("Bob".to_string()));
    assert!(screen.pick_player("2").is_none());
}

#[test]
fn matches_of_another_player_are_dropped() {
    let mut screen = screen_with_players();
    screen.pick_player("1");
    screen.set_loading(true);
    assert_eq!(screen.list_state(), MatchListState::Loading);
    screen.set_matches("2".to_string(), vec![summary(10, 1, true)]);
    assert!(!screen.is_loading());
    assert_eq!(screen.list_state(), MatchListState::Empty);
    screen.set_matches("1".to_string(), vec![summary(10, 1, true), summary(11, 2, false)]);
    assert_eq!(screen.list_state(), MatchListState::Matches);
    assert_eq!(screen.visible_matches().len(), 2);
}

#[test]
fn filter_keeps_wins_or_losses_in_order() {
    let mut screen = screen_with_players();
    screen.pick_player("1");
    let all = vec![summary(1, 1, true), summary(2, 2, false), summary(3, 3, true)];
    screen.set_matches("1".to_string(), all);
    screen.set_filter(MatchFilter::Wins);
    let ids: Vec<i64> = screen.visible_matches().iter().map(|m| m.match_id).collect();
    assert_eq!(ids, vec![1, 3]);
    screen.set_filter(MatchFilter::Losses);
    let ids: Vec<i64> = screen.visible_matches().iter().map(|m| m.match_id).collect();
    assert_eq!(ids, vec![2]);
}

#[test]
fn fetch_needs_a_player_and_no_load_running() {
    let mut screen = screen_with_players();
    assert!(!screen.can_fetch());
    assert!(screen.fetch_request().is_none());
    screen.pick_player("1");
    assert!(screen.can_fetch());
    match screen.fetch_request() {
        Some(MatchAction::FetchMatches(id)) => assert_eq!(id, "1"),
        _ => panic!("expected a fetch"),
    }
    screen.set_loading(true);
    assert!(screen.fetch_request().is_none());
}

#[test]
fn hero_names_fall_back_to_the_id() {
    let mut screen = MatchScreen::new();
    assert_eq!(screen.hero_name(14), "#14");
    assert_eq!(screen.hero_name(-3), "#-3");
    let mut heroes = HashMap::new();
    heroes.insert(14, "Pudge".to_string());
    let mut items = HashMap::new();
    items.insert(1, "Blink Dagger".to_string());
    screen.set_names(heroes, items, HashMap::new(), HashMap::new());
    assert_eq!(screen.hero_name(14), "Pudge");
    assert_eq!(screen.item_name(1), "Blink Dagger");
    assert_eq!(screen.item_name(2), "");
    assert!(!screen.needs_names());
}

#[test]
fn names_are_asked_for_once() {
    let mut screen = MatchScreen::new();
    assert!(screen.needs_names());
    screen.mark_names_requested();
    assert!(!screen.needs_names());
}

#[test]
fn icon_urls_use_the_cdn_and_drop_the_hero_prefix() {
    let mut screen = MatchScreen::new();
    assert_eq!(screen.hero_icon_url(1), None);
    let mut hero_slugs = HashMap::new();
    hero_slugs.insert(1, "npc_dota_hero_antimage".to_string());
    hero_slugs.insert(2, "axe".to_string());
    let mut item_slugs = HashMap::new();
    item_slugs.insert(1, "blink".to_string());
    screen.set_names(HashMap::new(), HashMap::new(), hero_slugs, item_slugs);
    assert_eq!(
        screen.hero_icon_url(1).unwrap(),
        "https://cdn.cloudflare.steamstatic.com/apps/dota2/images/dota_react/heroes/icons/antimage.png"
    );
    assert_eq!(screen.hero_icon_url(2).unwrap(), format!("{ICON_CDN}/heroes/icons/axe.png"));
    assert_eq!(screen.item_icon_url(1).unwrap(), format!("{ICON_CDN}/items/blink.png"));
    assert_eq!(screen.item_icon_url(7), None);
    assert_eq!(item_slug_url("ultimate_scepter"), format!("{ICON_CDN}/items/ultimate_scepter.png"));
}

#[test]
fn detail_opens_and_closes() {
    let mut screen = MatchScreen::new();
    screen.set_loading(true);
    screen.set_detail(MatchDetail {
        match_id: 99,
        radiant_win: true,
        duration: 2400,
        radiant_score: 30,
        dire_score: 20,
        game_mode: 22,
        players: vec![player(1, true), player(2, false), player(3, true)],
    });
    assert!(!screen.is_loading());
    let detail = screen.detail().unwrap();
    assert_eq!(detail.match_id, 99);
    assert_eq!(detail.team(true), vec![0, 2]);
    assert_eq!(detail.team(false), vec![1]);
    screen.close_detail();
    assert!(screen.detail().is_none());
}

#[test]
fn unlisted_players_cannot_be_picked() {
    let mut screen = screen_with_players();
    assert!(screen.pick_player("99").is_none());
    assert!(screen.selected().is_none());
    screen.pick_player("1");
    assert!(screen.pick_player("99").is_none());
    assert_eq!(screen.selected(), Some(&"1".to_string()));
}

#[test]
fn loading_and_results_leave_the_names_request_alone() {
    let mut screen = screen_with_players();
    screen.mark_names_requested();
    screen.pick_player("1");
    screen.set_loading(true);
    screen.set_matches("1".to_string(), vec![summary(1, 1, true)]);
    screen.set_filter(MatchFilter::Wins);
    screen.close_detail();
    assert!(!screen.needs_names());
}
