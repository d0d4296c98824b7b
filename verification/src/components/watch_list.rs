//! The searchable, sortable player list shared by the Friends and Follows
//! screens: which entries a search shows, and how they are ordered or grouped.

use vstd::prelude::*;
use crate::order::{
    collect_flags, key_views, no_duplicates, ordered_by_name, sort_by_names, strictly_increasing,
};
use crate::text::{
    chars_lt, chars_of, contains_chars, is_substring, lemma_lex_lt_asymmetric,
    lemma_lex_lt_irreflexive, lemma_lex_lt_total, lemma_lex_lt_transitive, lex_lt, lowercase,
    str_eq, to_lowercase,
};

verus! {

broadcast use vstd::seq_lib::group_seq_properties;

/// What the list reads of one player.
pub struct ListEntry {
    pub name: String,
    pub steam_id: String,
    pub online: bool,
    /// The game the player is in right now, if any.
    pub game: Option<String>,
}

/// How the list is grouped and ordered.
#[derive(Debug, Clone, Copy, PartialEq, Eq, Structural)]
pub enum SortMode {
    /// Online players first, then offline.
    Status,
    /// Grouped by the game each player is currently playing.
    Game,
    /// A flat, alphabetical list.
    Name,
}

/// A click on a row opens the player's Steam profile when it landed on none
/// of the row's controls and the player has a profile URL.
pub fn opens_profile(row_clicked: bool, control_clicked: bool, has_profile_url: bool) -> (opens: bool)
    ensures
        opens == (row_clicked && !control_clicked && has_profile_url),
{
    row_clicked && !control_clicked && has_profile_url
}

/// The section a group of rows belongs to.
pub enum GroupKey {
    Online,
    Offline,
    Game(String),
    NotInGame,
}

impl GroupKey {
    /// The key under which a folded section is remembered.
    pub fn key_string(&self) -> (key: String)
        ensures
            key@ == group_key_view(*self),
    {
        proof {
            reveal_strlit("online");
            reveal_strlit("offline");
            reveal_strlit("game:");
            reveal_strlit("not-in-game");
        }
        match self {
            GroupKey::Online => String::from_str("online"),
            GroupKey::Offline => String::from_str("offline"),
            GroupKey::Game(game) => {
                let mut key = String::from_str("game:");
                key.append(game.as_str());
                key
            },
            GroupKey::NotInGame => String::from_str("not-in-game"),
        }
    }
}

pub open spec fn group_key_view(key: GroupKey) -> Seq<char> {
    match key {
        GroupKey::Online => "online"@,
        GroupKey::Offline => "offline"@,
        GroupKey::Game(g) => "game:"@ + g@,
        GroupKey::NotInGame => "not-in-game"@,
    }
}

/// A run of rows under one section header; `indices` point into the entries.
pub struct ListGroup {
    pub key: GroupKey,
    pub indices: Vec<usize>,
}

/// What the list area shows.
pub enum ListView {
    /// There are no entries at all.
    Empty,
    /// There are entries, but the search matches none.
    NoResults,
    /// A flat run of rows.
    Rows(Vec<usize>),
    /// Rows under section headers.
    Groups(Vec<ListGroup>),
}

pub open spec fn game_of(e: ListEntry) -> Option<Seq<char>> {
    match e.game {
        Some(g) => Some(g@),
        None => None,
    }
}

/// An entry is shown when the (already lowercased) query is empty, or occurs
/// in the entry's lowercased name or in its Steam id.
pub open spec fn entry_shown(e: ListEntry, q: Seq<char>) -> bool {
    q.len() == 0 || is_substring(q, lowercase(e.name@)) || is_substring(q, e.steam_id@)
}

/// An empty search shows every entry.
pub proof fn lemma_empty_search_shows_all(es: Seq<ListEntry>, x: usize)
    requires
        x < es.len(),
    ensures
        shown_at(es, Seq::empty(), x),
{
}

pub open spec fn shown_at(es: Seq<ListEntry>, q: Seq<char>, x: usize) -> bool {
    x < es.len() && entry_shown(es[x as int], q)
}

pub open spec fn online_shown(es: Seq<ListEntry>, q: Seq<char>, x: usize) -> bool {
    shown_at(es, q, x) && es[x as int].online
}

pub open spec fn offline_shown(es: Seq<ListEntry>, q: Seq<char>, x: usize) -> bool {
    shown_at(es, q, x) && !es[x as int].online
}

pub open spec fn game_shown(es: Seq<ListEntry>, q: Seq<char>, x: usize, g: Seq<char>) -> bool {
    shown_at(es, q, x) && game_of(es[x as int]) == Some(g)
}

pub open spec fn gameless_shown(es: Seq<ListEntry>, q: Seq<char>, x: usize) -> bool {
    shown_at(es, q, x) && es[x as int].game is None
}

/// `s` lists, in increasing order, exactly the positions satisfying `p`.
pub open spec fn lists_exactly(s: Seq<usize>, p: spec_fn(usize) -> bool) -> bool {
    strictly_increasing(s) && forall|x: usize| #[trigger] s.contains(x) <==> p(x)
}

pub open spec fn lowered_names(es: Seq<ListEntry>) -> Seq<Seq<char>> {
    Seq::new(es.len(), |i: int| lowercase(es[i].name@))
}

pub open spec fn group_game(g: ListGroup) -> Seq<char> {
    match g.key {
        GroupKey::Game(s) => s@,
        _ => Seq::empty(),
    }
}

/// Name order: every shown entry once, by lowercased name, ties in list order.
pub open spec fn rows_ok(es: Seq<ListEntry>, q: Seq<char>, rows: Seq<usize>) -> bool {
    &&& no_duplicates(rows)
    &&& forall|x: usize| #[trigger] rows.contains(x) <==> shown_at(es, q, x)
    &&& ordered_by_name(lowered_names(es), rows)
}

/// Status order: an "online" group, then an "offline" group, each present
/// only when it has rows, each in list order.
pub open spec fn status_groups_ok(es: Seq<ListEntry>, q: Seq<char>, gs: Seq<ListGroup>) -> bool {
    let has_on = exists|x: usize| #[trigger] online_shown(es, q, x);
    let has_off = exists|x: usize| #[trigger] offline_shown(es, q, x);
    &&& gs.len() == (if has_on { 1int } else { 0int }) + (if has_off { 1int } else { 0int })
    &&& has_on ==> gs[0].key is Online && lists_exactly(gs[0].indices@, |x: usize| online_shown(es, q, x))
    &&& has_off ==> gs[gs.len() - 1].key is Offline && lists_exactly(
        gs[gs.len() - 1].indices@,
        |x: usize| offline_shown(es, q, x),
    )
}

/// Game order: one group per game being played, by game name, then a
/// "not in game" group when some shown player plays nothing; each group lists
/// its rows in list order.
pub open spec fn game_groups_ok(es: Seq<ListEntry>, q: Seq<char>, gs: Seq<ListGroup>) -> bool {
    let has_none = exists|x: usize| #[trigger] gameless_shown(es, q, x);
    let m = if has_none { gs.len() - 1 } else { gs.len() as int };
    &&& has_none ==> gs.len() >= 1 && gs[m].key is NotInGame && lists_exactly(
        gs[m].indices@,
        |x: usize| gameless_shown(es, q, x),
    )
    &&& forall|k: int|
        0 <= k < m ==> {
            &&& (#[trigger] gs[k]).key is Game
            &&& gs[k].indices@.len() > 0
            &&& lists_exactly(gs[k].indices@, |x: usize| game_shown(es, q, x, group_game(gs[k])))
        }
    &&& forall|k1: int, k2: int|
        0 <= k1 < k2 < m ==> lex_lt(group_game(#[trigger] gs[k1]), group_game(#[trigger] gs[k2]))
    &&& forall|x: usize|
        #[trigger] shown_at(es, q, x) && es[x as int].game is Some ==> exists|k: int|
            0 <= k < m && group_game(#[trigger] gs[k]) == game_of(es[x as int])->0
}

/// What the list shows for `es` under the lowercased query `q`.
pub open spec fn list_view_ok(es: Seq<ListEntry>, q: Seq<char>, sort: SortMode, v: ListView) -> bool {
    if es.len() == 0 {
        v is Empty
    } else if !(exists|x: usize| #[trigger] shown_at(es, q, x)) {
        v is NoResults
    } else {
        match sort {
            SortMode::Name => v matches ListView::Rows(rows) && rows_ok(es, q, rows@),
            SortMode::Status => v matches ListView::Groups(gs) && status_groups_ok(es, q, gs@),
            SortMode::Game => v matches ListView::Groups(gs) && game_groups_ok(es, q, gs@),
        }
    }
}

/// Whether the lowercased query `q` shows `entry`; `name` holds the entry's
/// lowercased name.
pub fn shown_by(entry: &ListEntry, name: &Vec<char>, q: &Vec<char>) -> (shown: bool)
    requires
        name@ == lowercase(entry.name@),
    ensures
        shown == entry_shown(*entry, q@),
{
    if q.len() == 0 {
        return true;
    }
    if contains_chars(name, q) {
        return true;
    }
    let id = chars_of(entry.steam_id.as_str());
    contains_chars(&id, q)
}

/// Lowercased names of the entries and, per entry, whether the lowercased
/// query `q` shows it.
fn shown_flags(entries: &Vec<ListEntry>, q: &Vec<char>) -> (res: (Vec<Vec<char>>, Vec<bool>))
    ensures
        res.0@.len() == entries@.len(),
        res.1@.len() == entries@.len(),
        key_views(res.0@) == lowered_names(entries@),
        forall|k: int| 0 <= k < entries@.len() ==> #[trigger] res.1@[k] == entry_shown(entries@[k], q@),
{
    let mut lowered: Vec<Vec<char>> = Vec::new();
    let mut shown: Vec<bool> = Vec::new();
    let mut i: usize = 0;
    while i < entries.len()
        invariant
            i <= entries@.len(),
            lowered@.len() == i,
            shown@.len() == i,
            forall|k: int| 0 <= k < i ==> #[trigger] lowered@[k]@ == lowercase(entries@[k].name@),
            forall|k: int| 0 <= k < i ==> #[trigger] shown@[k] == entry_shown(entries@[k], q@),
        decreases entries@.len() - i,
    {
        let folded = to_lowercase(entries[i].name.as_str());
        let name = chars_of(folded.as_str());
        let hit = shown_by(&entries[i], &name, q);
        lowered.push(name);
        shown.push(hit);
        i = i + 1;
    }
    assert(key_views(lowered@) =~= lowered_names(entries@));
    (lowered, shown)
}

/// Per entry: shown, and online (or offline, per `online`).
fn status_flags(entries: &Vec<ListEntry>, shown: &Vec<bool>, online: bool) -> (flags: Vec<bool>)
    requires
        shown@.len() == entries@.len(),
    ensures
        flags@.len() == entries@.len(),
        forall|k: int| 0 <= k < entries@.len() ==> #[trigger] flags@[k] == (shown@[k] && entries@[k].online == online),
{
    let mut flags: Vec<bool> = Vec::new();
    let mut i: usize = 0;
    while i < entries.len()
        invariant
            i <= entries@.len(),
            shown@.len() == entries@.len(),
            flags@.len() == i,
            forall|k: int| 0 <= k < i ==> #[trigger] flags@[k] == (shown@[k] && entries@[k].online == online),
        decreases entries@.len() - i,
    {
        flags.push(shown[i] && entries[i].online == online);
        i = i + 1;
    }
    flags
}

/// Per entry: shown and playing `game` (or, with `None`, playing nothing).
fn game_flags(entries: &Vec<ListEntry>, shown: &Vec<bool>, game: &Option<String>) -> (flags: Vec<bool>)
    requires
        shown@.len() == entries@.len(),
    ensures
        flags@.len() == entries@.len(),
        forall|k: int| 0 <= k < entries@.len() ==> #[trigger] flags@[k] == (shown@[k] && game_of(entries@[k]) == match game {
            Some(g) => Some(g@),
            None => None::<Seq<char>>,
        }),
{
    let mut flags: Vec<bool> = Vec::new();
    let mut i: usize = 0;
    while i < entries.len()
        invariant
            i <= entries@.len(),
            shown@.len() == entries@.len(),
            flags@.len() == i,
            forall|k: int| 0 <= k < i ==> #[trigger] flags@[k] == (shown@[k] && game_of(entries@[k]) == match game {
                Some(g) => Some(g@),
                None => None::<Seq<char>>,
            }),
        decreases entries@.len() - i,
    {
        let same = match (&entries[i].game, game) {
            (Some(a), Some(b)) => str_eq(a.as_str(), b.as_str()),
            (None, None) => true,
            _ => false,
        };
        flags.push(shown[i] && same);
        i = i + 1;
    }
    flags
}

/// In status order every shown entry sits in exactly one group: the online
/// group when it is online, the offline group otherwise.
pub proof fn lemma_status_groups_partition(es: Seq<ListEntry>, q: Seq<char>, gs: Seq<ListGroup>, x: usize)
    requires
        status_groups_ok(es, q, gs),
        shown_at(es, q, x),
    ensures
        exists|k: int| 0 <= k < gs.len() && (#[trigger] gs[k]).indices@.contains(x),
        forall|k1: int, k2: int|
            0 <= k1 < k2 < gs.len() ==> !((#[trigger] gs[k1]).indices@.contains(x) && (#[trigger] gs[k2]).indices@.contains(x)),
{
    if es[x as int].online {
        assert(online_shown(es, q, x));
        assert(gs[0].indices@.contains(x));
        if gs.len() == 2 {
            assert(offline_shown(es, q, x) == false);
        }
    } else {
        assert(offline_shown(es, q, x));
        assert(gs[gs.len() - 1].indices@.contains(x));
        if gs.len() == 2 {
            assert(online_shown(es, q, x) == false);
        }
    }
}

/// In game order every shown entry sits in exactly one group: the group of
/// the game it plays, or the "not in game" group when it plays none.
pub proof fn lemma_game_groups_partition(es: Seq<ListEntry>, q: Seq<char>, gs: Seq<ListGroup>, x: usize)
    requires
        game_groups_ok(es, q, gs),
        shown_at(es, q, x),
    ensures
        exists|k: int| 0 <= k < gs.len() && (#[trigger] gs[k]).indices@.contains(x),
        forall|k1: int, k2: int|
            0 <= k1 < k2 < gs.len() ==> !((#[trigger] gs[k1]).indices@.contains(x) && (#[trigger] gs[k2]).indices@.contains(x)),
{
    let has_none = exists|y: usize| #[trigger] gameless_shown(es, q, y);
    let m = if has_none { gs.len() - 1 } else { gs.len() as int };
    if es[x as int].game is Some {
        let k = choose|k: int| 0 <= k < m && group_game(#[trigger] gs[k]) == game_of(es[x as int])->0;
        assert(game_shown(es, q, x, group_game(gs[k])));
        assert(gs[k].indices@.contains(x));
        assert forall|k1: int, k2: int|
            0 <= k1 < k2 < gs.len() implies !((#[trigger] gs[k1]).indices@.contains(x) && (#[trigger] gs[k2]).indices@.contains(x)) by {
            if gs[k1].indices@.contains(x) && gs[k2].indices@.contains(x) {
                if has_none && k2 == m {
                    assert(gameless_shown(es, q, x));
                } else {
                    assert(game_shown(es, q, x, group_game(gs[k1])));
                    assert(game_shown(es, q, x, group_game(gs[k2])));
                    assert(lex_lt(group_game(gs[k1]), group_game(gs[k2])));
                    lemma_lex_lt_irreflexive(group_game(gs[k1]));
                }
            }
        }
    } else {
        assert(gameless_shown(es, q, x));
        assert(gs[m].indices@.contains(x));
        assert forall|k1: int, k2: int|
            0 <= k1 < k2 < gs.len() implies !((#[trigger] gs[k1]).indices@.contains(x) && (#[trigger] gs[k2]).indices@.contains(x)) by {
            if gs[k1].indices@.contains(x) {
                assert(game_shown(es, q, x, group_game(gs[k1])));
            }
        }
    }
}

proof fn lemma_insert_keeps_strict_order(gs: Seq<Seq<char>>, p: int, g: Seq<char>)
    requires
        0 <= p <= gs.len(),
        forall|a: int, b: int| 0 <= a < b < gs.len() ==> lex_lt(#[trigger] gs[a], #[trigger] gs[b]),
        forall|q: int| 0 <= q < gs.len() ==> #[trigger] gs[q] != g,
        forall|q: int| 0 <= q < p ==> !lex_lt(g, #[trigger] gs[q]),
        p == gs.len() || lex_lt(g, gs[p]),
    ensures
        forall|a: int, b: int|
            0 <= a < b < gs.insert(p, g).len() ==> lex_lt(#[trigger] gs.insert(p, g)[a], #[trigger] gs.insert(p, g)[b]),
{
    gs.insert_ensures(p, g);
    let t = gs.insert(p, g);
    assert forall|a: int, b: int| 0 <= a < b < t.len() implies lex_lt(#[trigger] t[a], #[trigger] t[b]) by {
        if b < p {
        } else if a > p {
            assert(t[a] == gs[a - 1]);
            assert(t[b] == gs[b - 1]);
        } else if a < p && b == p {
            lemma_lex_lt_total(g, gs[a]);
        } else if a < p && b > p {
            assert(t[b] == gs[b - 1]);
        } else {
            assert(t[b] == gs[b - 1]);
            if b - 1 > p {
                lemma_lex_lt_transitive(g, gs[p], gs[b - 1]);
            }
        }
    }
}

pub open spec fn string_views(v: Seq<String>) -> Seq<Seq<char>> {
    Seq::new(v.len(), |i: int| v[i]@)
}

pub open spec fn lex_sorted(s: Seq<Seq<char>>) -> bool {
    forall|a: int, b: int| 0 <= a < b < s.len() ==> lex_lt(#[trigger] s[a], #[trigger] s[b])
}

/// Adds `game` to the strictly ordered `games` unless it is already there.
fn insert_game(games: &mut Vec<String>, game: &String)
    requires
        lex_sorted(string_views(old(games)@)),
    ensures
        lex_sorted(string_views(final(games)@)),
        forall|g: Seq<char>| #[trigger] string_views(final(games)@).contains(g) <==> (
            string_views(old(games)@).contains(g) || g == game@),
{
    let ghost old_views = string_views(games@);
    let mut k: usize = 0;
    while k < games.len()
        invariant
            k <= games@.len(),
            games@ == old(games)@,
            old_views == string_views(games@),
            lex_sorted(old_views),
            forall|q: int| 0 <= q < k ==> #[trigger] games@[q]@ != game@,
        decreases games@.len() - k,
    {
        if str_eq(games[k].as_str(), game.as_str()) {
            proof {
                assert(old_views[k as int] == game@);
                assert forall|g: Seq<char>| #[trigger] old_views.contains(g) <==> (old_views.contains(g) || g == game@) by {}
            }
            return;
        }
        k = k + 1;
    }
    let gc = chars_of(game.as_str());
    let mut p: usize = 0;
    while p < games.len() && !chars_lt(&gc, &chars_of(games[p].as_str()))
        invariant
            p <= games@.len(),
            games@ == old(games)@,
            old_views == string_views(games@),
            lex_sorted(old_views),
            gc@ == game@,
            forall|q: int| 0 <= q < p ==> !lex_lt(game@, #[trigger] old_views[q]),
        decreases games@.len() - p,
    {
        p = p + 1;
    }
    proof {
        assert forall|q: int| 0 <= q < old_views.len() implies #[trigger] old_views[q] != game@ by {
            assert(old_views[q] == games@[q]@);
        }
        lemma_insert_keeps_strict_order(old_views, p as int, game@);
        old_views.insert_ensures(p as int, game@);
    }
    let ghost old_games = games@;
    let copy = game.clone();
    games.insert(p, copy);
    proof {
        old_games.insert_ensures(p as int, copy);
        let new_views = old_views.insert(p as int, game@);
        assert(string_views(games@) =~= new_views) by {
            assert forall|q: int| 0 <= q < games@.len() implies #[trigger] string_views(games@)[q] == new_views[q] by {
                if q > p {
                    assert(games@[q] == old_games[q - 1]);
                }
            }
        }
        assert forall|g: Seq<char>| #[trigger] new_views.contains(g) <==> (old_views.contains(g) || g == game@) by {
            if new_views.contains(g) {
                let a = choose|a: int| 0 <= a < new_views.len() && new_views[a] == g;
                if a < p {
                    assert(old_views[a] == g);
                } else if a > p {
                    assert(old_views[a - 1] == g);
                }
            }
            if g == game@ {
                assert(new_views[p as int] == g);
            } else if old_views.contains(g) {
                let a = choose|a: int| 0 <= a < old_views.len() && old_views[a] == g;
                if a < p {
                    assert(new_views[a] == g);
                } else {
                    assert(new_views[a + 1] == g);
                }
            }
        }
    }
}

/// The distinct games being played by shown entries, in code-point order.
fn distinct_games(entries: &Vec<ListEntry>, shown: &Vec<bool>) -> (games: Vec<String>)
    requires
        shown@.len() == entries@.len(),
    ensures
        lex_sorted(string_views(games@)),
        forall|g: Seq<char>| #[trigger] string_views(games@).contains(g) ==> exists|x: int|
            0 <= x < entries@.len() && #[trigger] shown@[x] && game_of(entries@[x]) == Some(g),
        forall|x: int|
            0 <= x < entries@.len() && #[trigger] shown@[x] && entries@[x].game is Some
                ==> string_views(games@).contains(game_of(entries@[x])->0),
{
    let mut games: Vec<String> = Vec::new();
    let mut i: usize = 0;
    assert(string_views(games@) =~= Seq::<Seq<char>>::empty());
    while i < entries.len()
        invariant
            i <= entries@.len(),
            shown@.len() == entries@.len(),
            lex_sorted(string_views(games@)),
            forall|g: Seq<char>| #[trigger] string_views(games@).contains(g) ==> exists|x: int|
                0 <= x < i && #[trigger] shown@[x] && game_of(entries@[x]) == Some(g),
            forall|x: int|
                0 <= x < i && #[trigger] shown@[x] && entries@[x].game is Some
                    ==> string_views(games@).contains(game_of(entries@[x])->0),
        decreases entries@.len() - i,
    {
        if shown[i] {
            if let Some(game) = &entries[i].game {
                let ghost before = string_views(games@);
                insert_game(&mut games, game);
                proof {
                    assert forall|g: Seq<char>| #[trigger] string_views(games@).contains(g) implies exists|x: int|
                        0 <= x < i + 1 && #[trigger] shown@[x] && game_of(entries@[x]) == Some(g) by {
                        if g == game@ {
                            assert(shown@[i as int] && game_of(entries@[i as int]) == Some(g));
                        } else {
                            assert(before.contains(g));
                        }
                    }
                    assert forall|x: int|
                        0 <= x < i + 1 && #[trigger] shown@[x] && entries@[x].game is Some
                            implies string_views(games@).contains(game_of(entries@[x])->0) by {
                        if x < i {
                            assert(before.contains(game_of(entries@[x])->0));
                        }
                    }
                }
            }
        }
        i = i + 1;
    }
    games
}

/// Builds the list for `entries` under `search_query`, sorted by `sort`.
pub fn build_list_view(entries: &Vec<ListEntry>, search_query: &str, sort: SortMode) -> (view: ListView)
    ensures
        list_view_ok(entries@, lowercase(search_query@), sort, view),
{
    if entries.len() == 0 {
        return ListView::Empty;
    }
    let folded = to_lowercase(search_query);
    let q = chars_of(folded.as_str());
    let ghost es = entries@;
    let ghost qv = q@;
    let (lowered, shown) = shown_flags(entries, &q);
    let matched = collect_flags(&shown);
    proof {
        assert forall|x: usize| #[trigger] matched@.contains(x) <==> shown_at(es, qv, x) by {}
    }
    if matched.len() == 0 {
        proof {
            assert forall|x: usize| !#[trigger] shown_at(es, qv, x) by {
                if shown_at(es, qv, x) {
                    assert(matched@.contains(x));
                }
            }
        }
        return ListView::NoResults;
    }
    proof {
        assert(matched@.contains(matched@[0]));
        assert(shown_at(es, qv, matched@[0]));
        assert forall|j: int| 0 <= j < matched@.len() implies #[trigger] matched@[j] < lowered@.len() by {
            assert(matched@.contains(matched@[j]));
        }
    }
    match sort {
        SortMode::Name => {
            let rows = sort_by_names(&lowered, &matched);
            ListView::Rows(rows)
        },
        SortMode::Status => {
            let on = collect_flags(&status_flags(entries, &shown, true));
            let off = collect_flags(&status_flags(entries, &shown, false));
            let ghost has_on = exists|x: usize| #[trigger] online_shown(es, qv, x);
            let ghost has_off = exists|x: usize| #[trigger] offline_shown(es, qv, x);
            proof {
                assert forall|x: usize| #[trigger] on@.contains(x) <==> online_shown(es, qv, x) by {}
                assert forall|x: usize| #[trigger] off@.contains(x) <==> offline_shown(es, qv, x) by {}
                if has_on {
                    let x = choose|x: usize| #[trigger] online_shown(es, qv, x);
                    assert(on@.contains(x));
                } else if on@.len() > 0 {
                    assert(on@.contains(on@[0]));
                }
                if has_off {
                    let x = choose|x: usize| #[trigger] offline_shown(es, qv, x);
                    assert(off@.contains(x));
                } else if off@.len() > 0 {
                    assert(off@.contains(off@[0]));
                }
            }
            let mut groups: Vec<ListGroup> = Vec::new();
            if on.len() > 0 {
                groups.push(ListGroup { key: GroupKey::Online, indices: on });
            }
            if off.len() > 0 {
                groups.push(ListGroup { key: GroupKey::Offline, indices: off });
            }
            ListView::Groups(groups)
        },
        SortMode::Game => {
            let games = distinct_games(entries, &shown);
            let mut groups: Vec<ListGroup> = Vec::new();
            let mut k: usize = 0;
            while k < games.len()
                invariant
                    es == entries@,
                    qv == q@,
                    shown@.len() == es.len(),
                    forall|j: int| 0 <= j < es.len() ==> #[trigger] shown@[j] == entry_shown(es[j], qv),
                    k <= games@.len(),
                    groups@.len() == k,
                    lex_sorted(string_views(games@)),
                    forall|g: Seq<char>| #[trigger] string_views(games@).contains(g) ==> exists|x: int|
                        0 <= x < es.len() && #[trigger] shown@[x] && game_of(es[x]) == Some(g),
                    forall|c: int| 0 <= c < k ==> {
                        &&& (#[trigger] groups@[c]).key is Game
                        &&& group_game(groups@[c]) == games@[c]@
                        &&& groups@[c].indices@.len() > 0
                        &&& lists_exactly(groups@[c].indices@, |x: usize| game_shown(es, qv, x, group_game(groups@[c])))
                    },
                decreases games@.len() - k,
            {
                let game = Some(games[k].clone());
                let flags = game_flags(entries, &shown, &game);
                let idxs = collect_flags(&flags);
                proof {
                    assert(string_views(games@)[k as int] == games@[k as int]@);
                    assert(string_views(games@).contains(games@[k as int]@));
                    let x = choose|x: int|
                        0 <= x < es.len() && #[trigger] shown@[x] && game_of(es[x]) == Some(games@[k as int]@);
                    assert(flags@[x]);
                    assert(idxs@.contains(x as usize));
                }
                let ghost before = groups@;
                groups.push(ListGroup { key: GroupKey::Game(games[k].clone()), indices: idxs });
                proof {
                    assert forall|c: int| 0 <= c < k + 1 implies {
                        &&& (#[trigger] groups@[c]).key is Game
                        &&& group_game(groups@[c]) == games@[c]@
                        &&& groups@[c].indices@.len() > 0
                        &&& lists_exactly(groups@[c].indices@, |x: usize| game_shown(es, qv, x, group_game(groups@[c])))
                    } by {
                        if c < k {
                            assert(groups@[c] == before[c]);
                        } else {
                            assert forall|x: usize| #[trigger] idxs@.contains(x) <==> game_shown(es, qv, x, games@[k as int]@) by {}
                        }
                    }
                }
                k = k + 1;
            }
            let none = collect_flags(&game_flags(entries, &shown, &None));
            let ghost m = groups@.len() as int;
            let ghost has_none = exists|x: usize| #[trigger] gameless_shown(es, qv, x);
            proof {
                assert forall|x: usize| #[trigger] none@.contains(x) <==> gameless_shown(es, qv, x) by {}
                if has_none {
                    let x = choose|x: usize| #[trigger] gameless_shown(es, qv, x);
                    assert(none@.contains(x));
                } else if none@.len() > 0 {
                    assert(none@.contains(none@[0]));
                }
            }
            let ghost named = groups@;
            if none.len() > 0 {
                groups.push(ListGroup { key: GroupKey::NotInGame, indices: none });
            }
            proof {
                assert forall|c: int| 0 <= c < m implies #[trigger] groups@[c] == named[c] by {}
                assert forall|k1: int, k2: int|
                    0 <= k1 < k2 < m implies lex_lt(group_game(#[trigger] groups@[k1]), group_game(#[trigger] groups@[k2])) by {
                    assert(groups@[k1] == named[k1]);
                    assert(groups@[k2] == named[k2]);
                    assert(string_views(games@)[k1] == games@[k1]@);
                    assert(string_views(games@)[k2] == games@[k2]@);
                }
                assert forall|x: usize|
                    #[trigger] shown_at(es, qv, x) && es[x as int].game is Some implies exists|c: int|
                        0 <= c < m && group_game(#[trigger] groups@[c]) == game_of(es[x as int])->0 by {
                    assert(shown@[x as int]);
                    let g = game_of(es[x as int])->0;
                    assert(string_views(games@).contains(g));
                    let c = choose|c: int| 0 <= c < games@.len() && #[trigger] string_views(games@)[c] == g;
                    assert(groups@[c] == named[c]);
                }
            }
            ListView::Groups(groups)
        },
    }
}

} // verus!
