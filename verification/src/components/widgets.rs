//! Text and ordering used by the shared widgets: playtime labels, persona
//! state labels and the recently-played-games panel.

use vstd::prelude::*;
use crate::model::{PersonaState, RecentGame};
use crate::order::{desc_before, no_duplicates, ordered_desc, sort_positions_desc};
use crate::text::{decimal, decimal_string};

verus! {

/// A Steam playtime given in minutes as a compact `Xh Ym` / `Xh` / `Ym`
/// label; zero and negative playtimes read `0m`.
pub open spec fn playtime_label(minutes: int) -> Seq<char> {
    if minutes <= 0 {
        "0m"@
    } else {
        let hours = minutes / 60;
        let mins = minutes % 60;
        if hours == 0 {
            decimal(mins as nat) + "m"@
        } else if mins == 0 {
            decimal(hours as nat) + "h"@
        } else {
            decimal(hours as nat) + "h "@ + decimal(mins as nat) + "m"@
        }
    }
}

/// Format a Steam playtime (minutes) as a compact `Xh Ym` / `Xh` / `Ym` string.
pub fn format_playtime(minutes: i64) -> (label: String)
    ensures
        label@ == playtime_label(minutes as int),
{
    proof {
        reveal_strlit("0m");
        reveal_strlit("m");
        reveal_strlit("h");
        reveal_strlit("h ");
    }
    if minutes <= 0 {
        return String::from_str("0m");
    }
    let hours = minutes / 60;
    let mins = minutes % 60;
    if hours == 0 {
        let mut label = decimal_string(mins as u64);
        label.append("m");
        label
    } else if mins == 0 {
        let mut label = decimal_string(hours as u64);
        label.append("h");
        label
    } else {
        let mut label = decimal_string(hours as u64);
        label.append("h ");
        let m = decimal_string(mins as u64);
        label.append(m.as_str());
        label.append("m");
        label
    }
}

/// The message key naming a persona state.
pub open spec fn persona_state_key_view(state: PersonaState) -> Seq<char> {
    match state {
        PersonaState::Offline => "friends-status-offline"@,
        PersonaState::Online => "friends-status-online"@,
        PersonaState::Busy => "friends-status-busy"@,
        PersonaState::Away => "friends-status-away"@,
        PersonaState::Snooze => "friends-status-snooze"@,
        PersonaState::LookingToTrade => "friends-status-looking-to-trade"@,
        PersonaState::LookingToPlay => "friends-status-looking-to-play"@,
    }
}

/// The message key under which a persona state's label is translated.
pub fn persona_state_key(state: PersonaState) -> (key: &'static str)
    ensures
        key@ == persona_state_key_view(state),
{
    proof {
        reveal_strlit("friends-status-offline");
        reveal_strlit("friends-status-online");
        reveal_strlit("friends-status-busy");
        reveal_strlit("friends-status-away");
        reveal_strlit("friends-status-snooze");
        reveal_strlit("friends-status-looking-to-trade");
        reveal_strlit("friends-status-looking-to-play");
    }
    match state {
        PersonaState::Offline => "friends-status-offline",
        PersonaState::Online => "friends-status-online",
        PersonaState::Busy => "friends-status-busy",
        PersonaState::Away => "friends-status-away",
        PersonaState::Snooze => "friends-status-snooze",
        PersonaState::LookingToTrade => "friends-status-looking-to-trade",
        PersonaState::LookingToPlay => "friends-status-looking-to-play",
    }
}

pub open spec fn two_week_playtimes(games: Seq<RecentGame>) -> Seq<i64> {
    Seq::new(games.len(), |i: int| games[i].playtime_2weeks)
}

/// The games the recently-played panel lists: the top `max(limit, 1)` by
/// two-week playtime, most played first, ties in list order.
/// Returns positions into `games`.
pub fn top_recent_games(games: &Vec<RecentGame>, limit: usize) -> (top: Vec<usize>)
    ensures
        top@.len() == if games@.len() < (if limit < 1 { 1 } else { limit as int }) {
            games@.len() as int
        } else {
            if limit < 1 { 1 } else { limit as int }
        },
        no_duplicates(top@),
        forall|a: int| 0 <= a < top@.len() ==> #[trigger] top@[a] < games@.len(),
        ordered_desc(two_week_playtimes(games@), top@),
        forall|x: usize, a: int|
            #![trigger top@.contains(x), top@[a]]
            x < games@.len() && !top@.contains(x) && 0 <= a < top@.len() ==> desc_before(
                two_week_playtimes(games@),
                top@[a],
                x,
            ),
{
    let mut keys: Vec<i64> = Vec::new();
    let mut i: usize = 0;
    while i < games.len()
        invariant
            i <= games@.len(),
            keys@ == two_week_playtimes(games@).subrange(0, i as int),
        decreases games@.len() - i,
    {
        keys.push(games[i].playtime_2weeks);
        proof {
            assert(keys@ =~= two_week_playtimes(games@).subrange(0, i + 1));
        }
        i = i + 1;
    }
    proof {
        assert(keys@ =~= two_week_playtimes(games@));
    }
    let mut sorted = sort_positions_desc(&keys);
    let take = if limit < 1 { 1 } else { limit };
    let ghost all = sorted@;
    if sorted.len() > take {
        sorted.truncate(take);
    }
    proof {
        assert(sorted@ == all.subrange(0, sorted@.len() as int));
        assert forall|a: int| 0 <= a < sorted@.len() implies #[trigger] sorted@[a] < games@.len() by {
            assert(all.contains(all[a]));
        }
        assert forall|x: usize, a: int|
            #![trigger sorted@.contains(x), sorted@[a]]
            x < games@.len() && !sorted@.contains(x) && 0 <= a < sorted@.len() implies desc_before(
                two_week_playtimes(games@),
                sorted@[a],
                x,
            ) by {
            assert(all.contains(x));
            let b = choose|b: int| 0 <= b < all.len() && all[b] == x;
            if b < sorted@.len() {
                assert(sorted@[b] == x);
            }
            assert(a < b);
        }
    }
    sorted
}

} // verus!
