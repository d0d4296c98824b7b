use ui::screens::dashboard::DashboardScreen;
use ui::screens::hero::{HeroFilter, HeroScreen};
use ui::screens::item::ItemScreen;

#[test]
fn hero_gallery() {
    let screen = HeroScreen::new();
    assert_eq!(screen.filter, HeroFilter::All);
    assert_eq!(screen.search_query, "");
    assert_eq!(HeroFilter::default(), HeroFilter::All);
    let heroes = HeroScreen::heroes();
    assert_eq!(heroes.len(), 10);
    assert_eq!(heroes[0], ("Anti-Mage", "Agility"));
    assert_eq!(heroes[9], ("Shadow Fiend", "Agility"));
    assert_eq!(HeroFilter::all()[4], HeroFilter::Universal);
    assert_eq!(HeroFilter::Intelligence.label_key(), "heroes-filter-intelligence");
    assert_eq!(HeroScreen::default().filter, HeroFilter::All);
}

#[test]
fn item_gallery() {
    let screen = ItemScreen::new();
    assert_eq!(screen.search_query, "");
    let items = ItemScreen::items();
    assert_eq!(items.len(), 12);
    assert_eq!(items[0], ("Tango", Some(90)));
    assert_eq!(items[10], ("Divine Rapier", Some(5950)));
    assert_eq!(ItemScreen::default().search_query, "");
}

#[test]
fn dashboard_holds_nothing() {
    let _screen = DashboardScreen::new();
    let _other = DashboardScreen::default();
}
