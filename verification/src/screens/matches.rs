//! The Matches screen: a followed player's recent matches, filtered by
//! outcome, and the full record of one match.

use std::collections::HashMap;
use vstd::prelude::*;
use crate::model::{Follow, Friend, MatchDetail, MatchSummary};
use crate::text::{is_prefix, signed_decimal, signed_decimal_string, str_eq, strip_prefix};

verus! {

broadcast use vstd::std_specs::hash::group_hash_axioms;

/// Steam CDN base for the hero and item artwork.
pub const ICON_CDN: &'static str = "https://cdn.cloudflare.steamstatic.com/apps/dota2/images/dota_react";

/// The prefix of a hero's internal name that its icon's file name drops.
pub const HERO_NAME_PREFIX: &'static str = "npc_dota_hero_";

/// Which matches the list shows.
#[derive(Debug, Clone, Copy, PartialEq, Eq, Structural, Default)]
pub enum MatchFilter {
    #[default]
    All,
    Wins,
    Losses,
}

/// The filter lets the match through.
pub open spec fn passes_filter(filter: MatchFilter, m: MatchSummary) -> bool {
    match filter {
        MatchFilter::All => true,
        MatchFilter::Wins => m.won,
        MatchFilter::Losses => !m.won,
    }
}

/// Signals the screen wants to send back to the application.
pub enum MatchAction {
    /// Load the selected player's stored matches (no network).
    SelectPlayer(String),
    /// Fetch the selected player's recent matches from OpenDota.
    FetchMatches(String),
    /// Open one match's full detail (loaded from the DB or fetched).
    OpenMatch(i64),
    /// Leave the detail view, back to the summary list.
    CloseDetail,
}

/// What the match list shows in place of rows, or that it shows rows.
#[derive(Debug, Clone, Copy, PartialEq, Eq, Structural)]
pub enum MatchListState {
    /// Nobody is followed, so there is nobody to pick.
    NoPlayers,
    /// No player is picked yet.
    NoSelection,
    /// The picked player's matches are on their way.
    Loading,
    /// The picked player has no matches.
    Empty,
    /// The rows of the picked player's matches.
    Matches,
}

/// The current selection is the player `id`.
pub open spec fn selected_is(selected: Option<String>, id: Seq<char>) -> bool {
    match selected {
        Some(s) => s@ == id,
        None => false,
    }
}

/// Some entry of the player picker has the Steam id `id`.
pub open spec fn is_listed(players: Seq<(String, String)>, id: Seq<char>) -> bool {
    exists|k: int| 0 <= k < players.len() && (#[trigger] players[k]).0@ == id
}

/// A hero's display name: its known name, else `#` and its id.
pub open spec fn hero_name_of(names: Map<i32, String>, hero_id: i32) -> Seq<char> {
    if names.contains_key(hero_id) {
        names[hero_id]@
    } else {
        seq!['#'] + signed_decimal(hero_id as int)
    }
}

/// The file name of a hero's icon: its internal name without the hero prefix.
pub open spec fn hero_icon_slug(internal: Seq<char>) -> Seq<char> {
    if is_prefix(HERO_NAME_PREFIX@, internal) {
        internal.skip(HERO_NAME_PREFIX@.len() as int)
    } else {
        internal
    }
}

/// The URL of the square icon of the hero whose internal name is `internal`.
pub open spec fn hero_icon_url_of(internal: Seq<char>) -> Seq<char> {
    ICON_CDN@ + "/heroes/icons/"@ + hero_icon_slug(internal) + ".png"@
}

/// The URL of the artwork of the item whose short name is `slug`.
pub open spec fn item_icon_url_of(slug: Seq<char>) -> Seq<char> {
    ICON_CDN@ + "/items/"@ + slug + ".png"@
}

/// `ICON_CDN`, then the pieces, in order.
fn cdn_url(middle: &str, slug: &str, suffix: &str) -> (url: String)
    ensures
        url@ == ICON_CDN@ + middle@ + slug@ + suffix@,
{
    let mut url = String::from_str(ICON_CDN);
    url.append(middle);
    url.append(slug);
    url.append(suffix);
    url
}

/// The URL of the artwork of the item whose short name is `slug`.
pub fn item_slug_url(slug: &str) -> (url: String)
    ensures
        url@ == item_icon_url_of(slug@),
{
    cdn_url("/items/", slug, ".png")
}

pub struct MatchScreen {
    filter: MatchFilter,
    /// `(steam_id, persona_name)` for the player picker.
    players: Vec<(String, String)>,
    selected: Option<String>,
    matches: Vec<MatchSummary>,
    detail: Option<MatchDetail>,
    loading: bool,
    hero_names: HashMap<i32, String>,
    item_names: HashMap<i32, String>,
    /// `hero_id -> internal_name` and `item_id -> short_name`, for icon URLs.
    hero_slugs: HashMap<i32, String>,
    item_slugs: HashMap<i32, String>,
    names_requested: bool,
}

impl MatchScreen {
    pub closed spec fn filter_view(&self) -> MatchFilter {
        self.filter
    }

    pub closed spec fn players_view(&self) -> Seq<(String, String)> {
        self.players@
    }

    pub closed spec fn selected_view(&self) -> Option<String> {
        self.selected
    }

    pub closed spec fn matches_view(&self) -> Seq<MatchSummary> {
        self.matches@
    }

    pub closed spec fn detail_view(&self) -> Option<MatchDetail> {
        self.detail
    }

    pub closed spec fn loading_view(&self) -> bool {
        self.loading
    }

    pub closed spec fn hero_names_view(&self) -> Map<i32, String> {
        self.hero_names@
    }

    pub closed spec fn item_names_view(&self) -> Map<i32, String> {
        self.item_names@
    }

    pub closed spec fn hero_slugs_view(&self) -> Map<i32, String> {
        self.hero_slugs@
    }

    pub closed spec fn item_slugs_view(&self) -> Map<i32, String> {
        self.item_slugs@
    }

    pub closed spec fn names_requested_view(&self) -> bool {
        self.names_requested
    }

    /// `self` and `other` differ at most in whether something is loading.
    pub open spec fn same_but_loading(&self, other: &Self) -> bool {
        &&& self.filter_view() == other.filter_view()
        &&& self.players_view() == other.players_view()
        &&& self.selected_view() == other.selected_view()
        &&& self.matches_view() == other.matches_view()
        &&& self.detail_view() == other.detail_view()
        &&& self.hero_names_view() == other.hero_names_view()
        &&& self.item_names_view() == other.item_names_view()
        &&& self.hero_slugs_view() == other.hero_slugs_view()
        &&& self.item_slugs_view() == other.item_slugs_view()
        &&& self.names_requested_view() == other.names_requested_view()
    }

    /// An idle screen with nobody picked, showing every outcome.
    pub fn new() -> (screen: Self)
        ensures
            screen.filter_view() == MatchFilter::All,
            screen.players_view().len() == 0,
            screen.selected_view() is None,
            screen.matches_view().len() == 0,
            screen.detail_view() is None,
            !screen.loading_view(),
            screen.hero_names_view().len() == 0,
            screen.item_names_view().len() == 0,
            screen.hero_slugs_view().len() == 0,
            screen.item_slugs_view().len() == 0,
            !screen.names_requested_view(),
    {
        let screen = MatchScreen {
            filter: MatchFilter::All,
            players: Vec::new(),
            selected: None,
            matches: Vec::new(),
            detail: None,
            loading: false,
            hero_names: HashMap::new(),
            item_names: HashMap::new(),
            hero_slugs: HashMap::new(),
            item_slugs: HashMap::new(),
            names_requested: false,
        };
        proof {
            assert(screen.hero_names@ =~= Map::empty());
            assert(screen.item_names@ =~= Map::empty());
            assert(screen.hero_slugs@ =~= Map::empty());
            assert(screen.item_slugs@ =~= Map::empty());
        }
        screen
    }

    /// Refreshes the player picker from the follow list: copies each follow's
    /// Steam id and persona name when their number differs from the picker's,
    /// and otherwise keeps the picker (cheap enough to call every frame).
    pub fn set_players(&mut self, follows: &[Follow])
        ensures
            old(self).players_view().len() != follows@.len() ==> final(self).players_view().len()
                == follows@.len() && forall|i: int|
                0 <= i < follows@.len() ==> (#[trigger] final(self).players_view()[i]).0@
                    == follows@[i].steam_id@ && final(self).players_view()[i].1@
                    == follows@[i].persona_name@,
            old(self).players_view().len() == follows@.len() ==> final(self).players_view()
                == old(self).players_view(),
            final(self).filter_view() == old(self).filter_view(),
            final(self).selected_view() == old(self).selected_view(),
            final(self).matches_view() == old(self).matches_view(),
            final(self).detail_view() == old(self).detail_view(),
            final(self).loading_view() == old(self).loading_view(),
            final(self).hero_names_view() == old(self).hero_names_view(),
            final(self).item_names_view() == old(self).item_names_view(),
            final(self).hero_slugs_view() == old(self).hero_slugs_view(),
            final(self).item_slugs_view() == old(self).item_slugs_view(),
            final(self).names_requested_view() == old(self).names_requested_view(),
    {
        if self.players.len() != follows.len() {
            let mut players: Vec<(String, String)> = Vec::new();
            let mut i: usize = 0;
            while i < follows.len()
                invariant
                    i <= follows@.len(),
                    players@.len() == i,
                    forall|k: int|
                        0 <= k < i ==> (#[trigger] players@[k]).0@ == follows@[k].steam_id@
                            && players@[k].1@ == follows@[k].persona_name@,
                decreases follows@.len() - i,
            {
                players.push((follows[i].steam_id.clone(), follows[i].persona_name.clone()));
                i = i + 1;
            }
            self.players = players;
        }
    }

    /// Refreshes the player picker from the friend list: copies each friend's
    /// Steam id and persona name when their number differs from the picker's,
    /// and otherwise keeps the picker (cheap enough to call every frame).
    pub fn set_friend_players(&mut self, friends: &[Friend])
        ensures
            old(self).players_view().len() != friends@.len() ==> final(self).players_view().len()
                == friends@.len() && forall|i: int|
                0 <= i < friends@.len() ==> (#[trigger] final(self).players_view()[i]).0@
                    == friends@[i].steam_id@ && final(self).players_view()[i].1@
                    == friends@[i].persona_name@,
            old(self).players_view().len() == friends@.len() ==> final(self).players_view()
                == old(self).players_view(),
            final(self).filter_view() == old(self).filter_view(),
            final(self).selected_view() == old(self).selected_view(),
            final(self).matches_view() == old(self).matches_view(),
            final(self).detail_view() == old(self).detail_view(),
            final(self).loading_view() == old(self).loading_view(),
            final(self).hero_names_view() == old(self).hero_names_view(),
            final(self).item_names_view() == old(self).item_names_view(),
            final(self).hero_slugs_view() == old(self).hero_slugs_view(),
            final(self).item_slugs_view() == old(self).item_slugs_view(),
            final(self).names_requested_view() == old(self).names_requested_view(),
    {
        if self.players.len() != friends.len() {
            let mut players: Vec<(String, String)> = Vec::new();
            let mut i: usize = 0;
            while i < friends.len()
                invariant
                    i <= friends@.len(),
                    players@.len() == i,
                    forall|k: int|
                        0 <= k < i ==> (#[trigger] players@[k]).0@ == friends@[k].steam_id@
                            && players@[k].1@ == friends@[k].persona_name@,
                decreases friends@.len() - i,
            {
                players.push((friends[i].steam_id.clone(), friends[i].persona_name.clone()));
                i = i + 1;
            }
            self.players = players;
        }
    }

    /// Applies loaded or fetched matches; loading is over. Matches of a
    /// player other than the one picked now are dropped.
    pub fn set_matches(&mut self, steam_id: String, matches: Vec<MatchSummary>)
        ensures
            !final(self).loading_view(),
            selected_is(old(self).selected_view(), steam_id@) ==> final(self).matches_view()
                == matches@,
            !selected_is(old(self).selected_view(), steam_id@) ==> final(self).matches_view()
                == old(self).matches_view(),
            final(self).filter_view() == old(self).filter_view(),
            final(self).players_view() == old(self).players_view(),
            final(self).selected_view() == old(self).selected_view(),
            final(self).detail_view() == old(self).detail_view(),
            final(self).hero_names_view() == old(self).hero_names_view(),
            final(self).item_names_view() == old(self).item_names_view(),
            final(self).hero_slugs_view() == old(self).hero_slugs_view(),
            final(self).item_slugs_view() == old(self).item_slugs_view(),
            final(self).names_requested_view() == old(self).names_requested_view(),
    {
        self.loading = false;
        let same = match &self.selected {
            Some(s) => str_eq(s.as_str(), steam_id.as_str()),
            None => false,
        };
        if same {
            self.matches = matches;
        }
    }

    /// Opens the detail of one match; loading is over.
    pub fn set_detail(&mut self, detail: MatchDetail)
        ensures
            final(self).detail_view() == Some(detail),
            !final(self).loading_view(),
            final(self).filter_view() == old(self).filter_view(),
            final(self).players_view() == old(self).players_view(),
            final(self).selected_view() == old(self).selected_view(),
            final(self).matches_view() == old(self).matches_view(),
            final(self).hero_names_view() == old(self).hero_names_view(),
            final(self).item_names_view() == old(self).item_names_view(),
            final(self).hero_slugs_view() == old(self).hero_slugs_view(),
            final(self).item_slugs_view() == old(self).item_slugs_view(),
            final(self).names_requested_view() == old(self).names_requested_view(),
    {
        self.detail = Some(detail);
        self.loading = false;
    }

    /// Replaces the hero and item names and icon slugs.
    pub fn set_names(
        &mut self,
        heroes: HashMap<i32, String>,
        items: HashMap<i32, String>,
        hero_slugs: HashMap<i32, String>,
        item_slugs: HashMap<i32, String>,
    )
        ensures
            final(self).hero_names_view() == heroes@,
            final(self).item_names_view() == items@,
            final(self).hero_slugs_view() == hero_slugs@,
            final(self).item_slugs_view() == item_slugs@,
            final(self).filter_view() == old(self).filter_view(),
            final(self).players_view() == old(self).players_view(),
            final(self).selected_view() == old(self).selected_view(),
            final(self).matches_view() == old(self).matches_view(),
            final(self).detail_view() == old(self).detail_view(),
            final(self).loading_view() == old(self).loading_view(),
            final(self).names_requested_view() == old(self).names_requested_view(),
    {
        self.hero_names = heroes;
        self.item_names = items;
        self.hero_slugs = hero_slugs;
        self.item_slugs = item_slugs;
    }

    pub fn set_loading(&mut self, loading: bool)
        ensures
            final(self).loading_view() == loading,
            final(self).filter_view() == old(self).filter_view(),
            final(self).players_view() == old(self).players_view(),
            final(self).selected_view() == old(self).selected_view(),
            final(self).matches_view() == old(self).matches_view(),
            final(self).detail_view() == old(self).detail_view(),
            final(self).hero_names_view() == old(self).hero_names_view(),
            final(self).item_names_view() == old(self).item_names_view(),
            final(self).hero_slugs_view() == old(self).hero_slugs_view(),
            final(self).item_slugs_view() == old(self).item_slugs_view(),
            final(self).names_requested_view() == old(self).names_requested_view(),
    {
        self.loading = loading;
    }

    pub fn is_loading(&self) -> (loading: bool)
        ensures
            loading == self.loading_view(),
    {
        self.loading
    }

    /// The hero names are still to be asked for: none are known and none
    /// were asked for yet.
    pub open spec fn wants_names(&self) -> bool {
        self.hero_names_view().len() == 0 && !self.names_requested_view()
    }

    /// The hero names are still to be asked for: none are known and none
    /// were asked for yet.
    pub fn needs_names(&self) -> (needed: bool)
        ensures
            needed == self.wants_names(),
    {
        self.hero_names.len() == 0 && !self.names_requested
    }

    pub fn mark_names_requested(&mut self)
        ensures
            final(self).names_requested_view(),
            final(self).filter_view() == old(self).filter_view(),
            final(self).players_view() == old(self).players_view(),
            final(self).selected_view() == old(self).selected_view(),
            final(self).matches_view() == old(self).matches_view(),
            final(self).detail_view() == old(self).detail_view(),
            final(self).loading_view() == old(self).loading_view(),
            final(self).hero_names_view() == old(self).hero_names_view(),
            final(self).item_names_view() == old(self).item_names_view(),
            final(self).hero_slugs_view() == old(self).hero_slugs_view(),
            final(self).item_slugs_view() == old(self).item_slugs_view(),
    {
        self.names_requested = true;
    }

    /// Back from the detail to the list.
    pub fn close_detail(&mut self)
        ensures
            final(self).detail_view() is None,
            final(self).filter_view() == old(self).filter_view(),
            final(self).players_view() == old(self).players_view(),
            final(self).selected_view() == old(self).selected_view(),
            final(self).matches_view() == old(self).matches_view(),
            final(self).loading_view() == old(self).loading_view(),
            final(self).hero_names_view() == old(self).hero_names_view(),
            final(self).item_names_view() == old(self).item_names_view(),
            final(self).hero_slugs_view() == old(self).hero_slugs_view(),
            final(self).item_slugs_view() == old(self).item_slugs_view(),
            final(self).names_requested_view() == old(self).names_requested_view(),
    {
        self.detail = None;
    }

    pub fn detail(&self) -> (detail: Option<&MatchDetail>)
        ensures
            match detail {
                Some(d) => self.detail_view() == Some(*d),
                None => self.detail_view() is None,
            },
    {
        match &self.detail {
            Some(d) => Some(d),
            None => None,
        }
    }

    pub fn filter(&self) -> (filter: MatchFilter)
        ensures
            filter == self.filter_view(),
    {
        self.filter
    }

    pub fn set_filter(&mut self, filter: MatchFilter)
        ensures
            final(self).filter_view() == filter,
            final(self).players_view() == old(self).players_view(),
            final(self).selected_view() == old(self).selected_view(),
            final(self).matches_view() == old(self).matches_view(),
            final(self).detail_view() == old(self).detail_view(),
            final(self).loading_view() == old(self).loading_view(),
            final(self).hero_names_view() == old(self).hero_names_view(),
            final(self).item_names_view() == old(self).item_names_view(),
            final(self).hero_slugs_view() == old(self).hero_slugs_view(),
            final(self).item_slugs_view() == old(self).item_slugs_view(),
            final(self).names_requested_view() == old(self).names_requested_view(),
    {
        self.filter = filter;
    }

    pub fn players(&self) -> (players: &[(String, String)])
        ensures
            players@ == self.players_view(),
    {
        self.players.as_slice()
    }

    pub fn selected(&self) -> (selected: Option<&String>)
        ensures
            match selected {
                Some(s) => self.selected_view() == Some(*s),
                None => self.selected_view() is None,
            },
    {
        match &self.selected {
            Some(s) => Some(s),
            None => None,
        }
    }

    /// The display name of a hero: its known name, else `#` and its id.
    pub fn hero_name(&self, hero_id: i32) -> (name: String)
        ensures
            name@ == hero_name_of(self.hero_names_view(), hero_id),
    {
        match self.hero_names.get(&hero_id) {
            Some(n) => n.clone(),
            None => {
                let mut s = String::from_str("#");
                let digits = signed_decimal_string(hero_id as i64);
                s.append(digits.as_str());
                proof {
                    reveal_strlit("#");
                    assert(s@ =~= seq!['#'] + signed_decimal(hero_id as int));
                }
                s
            },
        }
    }

    /// The display name of an item, empty when unknown.
    pub fn item_name(&self, item_id: i32) -> (name: String)
        ensures
            self.item_names_view().contains_key(item_id) ==> name@
                == self.item_names_view()[item_id]@,
            !self.item_names_view().contains_key(item_id) ==> name@.len() == 0,
    {
        match self.item_names.get(&item_id) {
            Some(n) => n.clone(),
            None => String::new(),
        }
    }

    /// The square minimap icon URL of a hero, when its internal name is known.
    pub fn hero_icon_url(&self, hero_id: i32) -> (url: Option<String>)
        ensures
            match url {
                Some(u) => self.hero_slugs_view().contains_key(hero_id) && u@ == hero_icon_url_of(
                    self.hero_slugs_view()[hero_id]@,
                ),
                None => !self.hero_slugs_view().contains_key(hero_id),
            },
    {
        match self.hero_slugs.get(&hero_id) {
            Some(internal) => {
                let url = match strip_prefix(internal.as_str(), HERO_NAME_PREFIX) {
                    Some(slug) => cdn_url("/heroes/icons/", slug.as_str(), ".png"),
                    None => cdn_url("/heroes/icons/", internal.as_str(), ".png"),
                };
                Some(url)
            },
            None => None,
        }
    }

    /// The artwork URL of an item, when its short name is known.
    pub fn item_icon_url(&self, item_id: i32) -> (url: Option<String>)
        ensures
            match url {
                Some(u) => self.item_slugs_view().contains_key(item_id) && u@ == item_icon_url_of(
                    self.item_slugs_view()[item_id]@,
                ),
                None => !self.item_slugs_view().contains_key(item_id),
            },
    {
        match self.item_slugs.get(&item_id) {
            Some(slug) => Some(item_slug_url(slug.as_str())),
            None => None,
        }
    }

    /// The persona name of the picked player: that of the first picker entry
    /// with the picked Steam id.
    pub fn selected_name(&self) -> (name: Option<String>)
        ensures
            match name {
                Some(n) => exists|k: int|
                    0 <= k < self.players_view().len() && selected_is(
                        self.selected_view(),
                        (#[trigger] self.players_view()[k]).0@,
                    ) && self.players_view()[k].1@ == n@ && forall|l: int|
                        0 <= l < k ==> !selected_is(
                            self.selected_view(),
                            (#[trigger] self.players_view()[l]).0@,
                        ),
                None => forall|k: int|
                    0 <= k < self.players_view().len() ==> !selected_is(
                        self.selected_view(),
                        (#[trigger] self.players_view()[k]).0@,
                    ),
            },
    {
        match &self.selected {
            None => None,
            Some(id) => {
                let mut i: usize = 0;
                while i < self.players.len()
                    invariant
                        self.selected == Some(*id),
                        i <= self.players@.len(),
                        forall|l: int|
                            0 <= l < i ==> !selected_is(
                                self.selected,
                                (#[trigger] self.players@[l]).0@,
                            ),
                    decreases self.players@.len() - i,
                {
                    if str_eq(self.players[i].0.as_str(), id.as_str()) {
                        let n = self.players[i].1.clone();
                        assert(selected_is(self.selected_view(), self.players_view()[i as int].0@));
                        assert(self.players_view()[i as int].1@ == n@);
                        return Some(n);
                    }
                    i = i + 1;
                }
                None
            },
        }
    }

    /// The user picked `steam_id` in the player picker, which lists the
    /// players of [`Self::players`]: picking a listed player other than the
    /// current selection makes them the selection and asks for their stored
    /// matches; picking the current selection, or an id the picker does not
    /// list, does nothing.
    pub fn pick_player(&mut self, steam_id: &str) -> (action: Option<MatchAction>)
        ensures
            !is_listed(old(self).players_view(), steam_id@) || selected_is(old(self).selected_view(), steam_id@)
                ==> action is None && final(self).selected_view() == old(self).selected_view(),
            is_listed(old(self).players_view(), steam_id@) && !selected_is(old(self).selected_view(), steam_id@)
                ==> selected_is(final(self).selected_view(), steam_id@) && match action {
                Some(MatchAction::SelectPlayer(id)) => id@ == steam_id@,
                _ => false,
            },
            final(self).filter_view() == old(self).filter_view(),
            final(self).players_view() == old(self).players_view(),
            final(self).matches_view() == old(self).matches_view(),
            final(self).detail_view() == old(self).detail_view(),
            final(self).loading_view() == old(self).loading_view(),
            final(self).hero_names_view() == old(self).hero_names_view(),
            final(self).item_names_view() == old(self).item_names_view(),
            final(self).hero_slugs_view() == old(self).hero_slugs_view(),
            final(self).item_slugs_view() == old(self).item_slugs_view(),
            final(self).names_requested_view() == old(self).names_requested_view(),
    {
        let same = match &self.selected {
            Some(s) => str_eq(s.as_str(), steam_id),
            None => false,
        };
        if same {
            return None;
        }
        let mut listed = false;
        let mut i: usize = 0;
        while i < self.players.len()
            invariant
                i <= self.players@.len(),
                listed == exists|k: int| 0 <= k < i && (#[trigger] self.players@[k]).0@ == steam_id@,
            decreases self.players@.len() - i,
        {
            if str_eq(self.players[i].0.as_str(), steam_id) {
                listed = true;
            }
            i = i + 1;
        }
        if listed {
            self.selected = Some(String::from_str(steam_id));
            Some(MatchAction::SelectPlayer(String::from_str(steam_id)))
        } else {
            None
        }
    }

    /// A fetch can be asked for: someone is picked and nothing is loading.
    pub fn can_fetch(&self) -> (can: bool)
        ensures
            can == (self.selected_view() is Some && !self.loading_view()),
    {
        self.selected.is_some() && !self.loading
    }

    /// The action of the fetch button: fetch the picked player's matches,
    /// when a fetch can be asked for.
    pub fn fetch_request(&self) -> (action: Option<MatchAction>)
        ensures
            match action {
                Some(MatchAction::FetchMatches(id)) => !self.loading_view() && selected_is(
                    self.selected_view(),
                    id@,
                ),
                Some(_) => false,
                None => self.selected_view() is None || self.loading_view(),
            },
    {
        if self.loading {
            return None;
        }
        match &self.selected {
            Some(id) => Some(MatchAction::FetchMatches(id.clone())),
            None => None,
        }
    }

    /// What the list shows: a prompt when nobody is followed or picked, a
    /// notice while the picked player's matches load or when there are
    /// none, and otherwise the rows.
    pub fn list_state(&self) -> (state: MatchListState)
        ensures
            state == (if self.players_view().len() == 0 {
                MatchListState::NoPlayers
            } else if self.selected_view() is None {
                MatchListState::NoSelection
            } else if self.matches_view().len() == 0 {
                if self.loading_view() {
                    MatchListState::Loading
                } else {
                    MatchListState::Empty
                }
            } else {
                MatchListState::Matches
            }),
    {
        if self.players.len() == 0 {
            MatchListState::NoPlayers
        } else if self.selected.is_none() {
            MatchListState::NoSelection
        } else if self.matches.len() == 0 {
            if self.loading {
                MatchListState::Loading
            } else {
                MatchListState::Empty
            }
        } else {
            MatchListState::Matches
        }
    }

    /// The matches the filter lets through, in their order.
    pub fn visible_matches(&self) -> (visible: Vec<MatchSummary>)
        ensures
            visible@ == self.matches_view().filter(|m: MatchSummary| passes_filter(self.filter_view(), m)),
    {
        let ghost pred = |m: MatchSummary| passes_filter(self.filter, m);
        let mut visible: Vec<MatchSummary> = Vec::new();
        let mut i: usize = 0;
        while i < self.matches.len()
            invariant
                i <= self.matches@.len(),
                pred == (|m: MatchSummary| passes_filter(self.filter, m)),
                visible@ == self.matches@.subrange(0, i as int).filter(pred),
            decreases self.matches@.len() - i,
        {
            let m = self.matches[i];
            let keep = match self.filter {
                MatchFilter::All => true,
                MatchFilter::Wins => m.won,
                MatchFilter::Losses => !m.won,
            };
            proof {
                let next = self.matches@.subrange(0, i + 1);
                assert(next.drop_last() =~= self.matches@.subrange(0, i as int));
                reveal(Seq::filter);
            }
            if keep {
                visible.push(m);
            }
            i = i + 1;
        }
        assert(self.matches@.subrange(0, i as int) =~= self.matches@);
        visible
    }
}

impl Default for MatchScreen {
    fn default() -> (screen: Self)
        ensures
            screen.filter_view() == MatchFilter::All,
            screen.players_view().len() == 0,
            screen.selected_view() is None,
            screen.matches_view().len() == 0,
            screen.detail_view() is None,
            !screen.loading_view(),
            !screen.names_requested_view(),
    {
        Self::new()
    }
}

} // verus!
