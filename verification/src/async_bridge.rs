//! What background tasks hand back to the UI thread.

use std::collections::HashMap;
use vstd::prelude::*;
use crate::model::{Follow, Friend, MatchDetail, MatchSummary};

verus! {

/// Results flowing from background tasks back to the UI thread. Each variant
/// is one completed operation; every failure, whatever its source, arrives
/// as [`TaskResult::TaskFailed`].
pub enum TaskResult {
    /// The friend list, loaded from the DB on startup or refreshed from Steam.
    FriendsLoaded(Vec<Friend>),
    /// The follow list, loaded from the DB or updated by an add/remove/refresh.
    FollowsLoaded(Vec<Follow>),
    /// Static reference data (heroes/items) was synced; carries the row counts.
    StaticDataSynced { heroes: i64, items: i64 },
    /// A player's match summaries, loaded from the DB or fetched from OpenDota.
    MatchSummariesLoaded { steam_id: String, matches: Vec<MatchSummary> },
    /// Full detail for one match, loaded from the DB or fetched from OpenDota.
    MatchDetailLoaded(Box<MatchDetail>),
    /// Localized hero/item name maps (plus icon slugs) for rendering matches.
    MatchNamesLoaded {
        heroes: HashMap<i32, String>,
        items: HashMap<i32, String>,
        hero_slugs: HashMap<i32, String>,
        item_slugs: HashMap<i32, String>,
    },
    /// Background tracking found new matches for a watched follow.
    NewMatchesTracked { steam_id: String, count: usize },
    /// A Telegram link handshake began: open `deep_link` and poll `token`.
    TelegramLinkStarted { token: String, secret: String, deep_link: String },
    /// The Telegram link completed; carries the subscriber credential to keep.
    TelegramLinked { subscriber_id: String, secret: String },
    /// A Telegram test push was delivered.
    TelegramTestSent,
    /// The tracking snapshot was uploaded to the hub; carries how many
    /// watched accounts it covered.
    TelegramSynced { accounts: usize },
    /// The Telegram subscriber was unlinked.
    TelegramUnlinked,
    /// Any background task failed; carries the user-facing error message.
    TaskFailed(String),
}

} // verus!
