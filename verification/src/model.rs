//! The player, friend and match records the screens display, holding as plain
//! values what the screens read of them.

use vstd::prelude::*;

verus! {

/// A Steam persona state.
#[derive(Debug, Clone, Copy, PartialEq, Eq, Structural)]
pub enum PersonaState {
    Offline,
    Online,
    Busy,
    Away,
    Snooze,
    LookingToTrade,
    LookingToPlay,
}

impl PersonaState {
    /// Every state but `Offline` counts as online.
    pub fn is_online(&self) -> (online: bool)
        ensures
            online == (*self != PersonaState::Offline),
    {
        !matches!(self, PersonaState::Offline)
    }
}

/// A game a player launched recently, with playtimes in minutes.
#[derive(Debug)]
pub struct RecentGame {
    pub name: String,
    pub playtime_2weeks: i64,
    pub playtime_forever: i64,
}

impl Clone for RecentGame {
    fn clone(&self) -> (copy: Self)
        ensures
            copy == *self,
    {
        RecentGame {
            name: self.name.clone(),
            playtime_2weeks: self.playtime_2weeks,
            playtime_forever: self.playtime_forever,
        }
    }
}

/// A copy of `game`, field for field.
fn clone_games(games: &Vec<RecentGame>) -> (copy: Vec<RecentGame>)
    ensures
        copy@ == games@,
{
    let mut copy: Vec<RecentGame> = Vec::new();
    let mut i: usize = 0;
    while i < games.len()
        invariant
            i <= games@.len(),
            copy@ == games@.subrange(0, i as int),
        decreases games@.len() - i,
    {
        copy.push(games[i].clone());
        assert(copy@ =~= games@.subrange(0, i + 1));
        i = i + 1;
    }
    assert(copy@ =~= games@);
    copy
}

/// A copy of an optional string.
pub fn clone_opt_string(s: &Option<String>) -> (copy: Option<String>)
    ensures
        copy == *s,
{
    match s {
        Some(v) => Some(v.clone()),
        None => None,
    }
}

/// An entry of the Steam friend list.
#[derive(Debug)]
pub struct Friend {
    pub steam_id: String,
    pub persona_name: String,
    pub persona_state: PersonaState,
    pub avatar: String,
    pub profile_url: String,
    /// The game the friend is playing right now, if any.
    pub game_extra_info: Option<String>,
    pub recent_games: Vec<RecentGame>,
}

impl Clone for Friend {
    fn clone(&self) -> (copy: Self)
        ensures
            copy.steam_id == self.steam_id,
            copy.persona_name == self.persona_name,
            copy.persona_state == self.persona_state,
            copy.avatar == self.avatar,
            copy.profile_url == self.profile_url,
            copy.game_extra_info == self.game_extra_info,
            copy.recent_games@ == self.recent_games@,
    {
        Friend {
            steam_id: self.steam_id.clone(),
            persona_name: self.persona_name.clone(),
            persona_state: self.persona_state,
            avatar: self.avatar.clone(),
            profile_url: self.profile_url.clone(),
            game_extra_info: clone_opt_string(&self.game_extra_info),
            recent_games: clone_games(&self.recent_games),
        }
    }
}

/// A player on the follow list.
#[derive(Debug)]
pub struct Follow {
    pub steam_id: String,
    pub persona_name: String,
    pub persona_state: PersonaState,
    pub avatar: String,
    pub profile_url: String,
    pub game_extra_info: Option<String>,
    pub recent_games: Vec<RecentGame>,
    /// Whether background tracking watches this player for new matches.
    pub tracking: bool,
}

impl Clone for Follow {
    fn clone(&self) -> (copy: Self)
        ensures
            copy.steam_id == self.steam_id,
            copy.persona_name == self.persona_name,
            copy.persona_state == self.persona_state,
            copy.avatar == self.avatar,
            copy.profile_url == self.profile_url,
            copy.game_extra_info == self.game_extra_info,
            copy.recent_games@ == self.recent_games@,
            copy.tracking == self.tracking,
    {
        Follow {
            steam_id: self.steam_id.clone(),
            persona_name: self.persona_name.clone(),
            persona_state: self.persona_state,
            avatar: self.avatar.clone(),
            profile_url: self.profile_url.clone(),
            game_extra_info: clone_opt_string(&self.game_extra_info),
            recent_games: clone_games(&self.recent_games),
            tracking: self.tracking,
        }
    }
}

/// One of a player's recent matches.
#[derive(Debug, Clone, Copy, PartialEq, Eq, Structural)]
pub struct MatchSummary {
    pub match_id: i64,
    pub hero_id: i32,
    /// Whether the player's side won.
    pub won: bool,
    pub kills: i32,
    pub deaths: i32,
    pub assists: i32,
    /// Length of the match in seconds.
    pub duration: i64,
    /// Start of the match as a Unix timestamp.
    pub start_time: i64,
    pub gold_per_min: i32,
    pub xp_per_min: i32,
    pub player_slot: i32,
}

/// One player's line in a match's detail.
#[derive(Debug)]
pub struct MatchPlayer {
    pub hero_id: i32,
    pub personaname: Option<String>,
    /// Whether the player fought for the Radiant side.
    pub radiant: bool,
    /// The six inventory slots; 0 marks an empty slot.
    pub items: Vec<i32>,
    pub item_neutral: i32,
    pub item_neutral2: i32,
    pub aghanims_scepter: bool,
    pub aghanims_shard: bool,
    pub net_worth: i32,
    pub xp_per_min: i32,
    pub gold_per_min: i32,
    pub level: i32,
    pub kills: i32,
    pub deaths: i32,
    pub assists: i32,
}

/// The full record of one match.
#[derive(Debug)]
pub struct MatchDetail {
    pub match_id: i64,
    pub radiant_win: bool,
    /// Length of the match in seconds.
    pub duration: i64,
    pub radiant_score: i32,
    pub dire_score: i32,
    pub game_mode: i32,
    pub players: Vec<MatchPlayer>,
}

impl MatchDetail {
    /// Positions in `players` of one side's players, in order.
    pub fn team(&self, radiant: bool) -> (team: Vec<usize>)
        ensures
            forall|a: int, b: int| 0 <= a < b < team@.len() ==> #[trigger] team@[a] < #[trigger] team@[b],
            forall|x: usize| #[trigger] team@.contains(x) <==> (x < self.players@.len()
                && self.players@[x as int].radiant == radiant),
    {
        let mut flags: Vec<bool> = Vec::new();
        let mut i: usize = 0;
        while i < self.players.len()
            invariant
                i <= self.players@.len(),
                flags@.len() == i,
                forall|k: int| 0 <= k < i ==> #[trigger] flags@[k] == (self.players@[k].radiant == radiant),
            decreases self.players@.len() - i,
        {
            flags.push(self.players[i].radiant == radiant);
            i = i + 1;
        }
        crate::order::collect_flags(&flags)
    }
}

} // verus!
