use egui_phosphor::regular;
use ui::icons::{action, game, nav, status};

#[test]
fn menu() {
    let menu = action::MENU;
    println!("{menu}");
}

#[test]
fn nav_icons_are_the_phosphor_glyphs() {
    assert_eq!(nav::DASHBOARD, regular::HOUSE);
    assert_eq!(nav::FRIENDS, regular::USERS);
    assert_eq!(nav::FOLLOWS, regular::STAR);
    assert_eq!(nav::MATCHES, regular::SWORD);
    assert_eq!(nav::HEROES, regular::SHIELD_STAR);
    assert_eq!(nav::ITEMS, regular::CUBE);
    assert_eq!(nav::SETTINGS, regular::GEAR);
}

#[test]
fn action_icons_are_the_phosphor_glyphs() {
    assert_eq!(action::COLLAPSE, regular::CARET_LEFT);
    assert_eq!(action::EXPAND, regular::CARET_RIGHT);
    assert_eq!(action::CARET_DOWN, regular::CARET_DOWN);
    assert_eq!(action::CLOSE, regular::X);
    assert_eq!(action::SEARCH, regular::MAGNIFYING_GLASS);
    assert_eq!(action::ADD, regular::PLUS);
    assert_eq!(action::REMOVE, regular::MINUS);
    assert_eq!(action::REFRESH, regular::ARROW_COUNTER_CLOCKWISE);
    assert_eq!(action::SYNC, regular::ARROWS_CLOCKWISE);
    assert_eq!(action::MENU, regular::LIST);
    assert_eq!(action::MORE, regular::DOTS_THREE);
    assert_eq!(action::CHECK, regular::CHECK);
    assert_eq!(action::WARNING, regular::WARNING);
    assert_eq!(action::INFO, regular::INFO);
    assert_eq!(action::EDIT, regular::PENCIL_SIMPLE);
    assert_eq!(action::DELETE, regular::TRASH);
    assert_eq!(action::TRACK, regular::BELL);
    assert_eq!(action::TRACKING, regular::BELL_RINGING);
    assert_eq!(action::ARROW_LEFT, regular::ARROW_LEFT);
    assert_eq!(action::PANEL_LEFT, regular::SIDEBAR_SIMPLE);
}

#[test]
fn status_and_game_icons_are_the_phosphor_glyphs() {
    assert_eq!(status::VICTORY, regular::TROPHY);
    assert_eq!(status::DEFEAT, regular::X);
    assert_eq!(status::ONLINE, regular::CIRCLE);
    assert_eq!(status::OFFLINE, regular::CIRCLE_DASHED);
    assert_eq!(status::IN_GAME, regular::GAME_CONTROLLER);
    assert_eq!(game::STRENGTH, regular::DIAMOND);
    assert_eq!(game::AGILITY, regular::SPADE);
    assert_eq!(game::INTELLIGENCE, regular::CLUB);
    assert_eq!(game::UNIVERSAL, regular::STAR);
    assert_eq!(game::GOLD, regular::COINS);
}
