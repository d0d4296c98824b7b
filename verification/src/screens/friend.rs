//! The Friends screen: the watch list of Steam friends.

use vstd::prelude::*;
use crate::components::watch_list::{build_list_view, list_view_ok, ListEntry, ListView, SortMode};
use crate::model::{clone_opt_string, Friend, PersonaState};
use crate::string_set::StringSet;
use crate::text::lowercase;

verus! {

/// Signals the screen wants to send back to the application.
pub enum FriendAction {
    /// Re-fetch the full friend list to pick up newly added/removed friends.
    SyncFriends,
    /// Refresh only the online state and current game of the known friends.
    RefreshStatuses,
}

/// How the watch list is grouped and ordered.
#[derive(Debug, Clone, Copy, PartialEq, Eq, Structural)]
pub enum FriendSort {
    /// Online friends first, then offline.
    Status,
    /// Grouped by the game each friend is currently playing.
    Game,
    /// A flat, alphabetical list.
    Name,
}

pub open spec fn friend_sort_mode(sort: FriendSort) -> SortMode {
    match sort {
        FriendSort::Status => SortMode::Status,
        FriendSort::Game => SortMode::Game,
        FriendSort::Name => SortMode::Name,
    }
}

impl FriendSort {
    /// The choices, in the order the sort control lists them.
    pub fn all() -> (sorts: [FriendSort; 3])
        ensures
            sorts@ == seq![FriendSort::Status, FriendSort::Game, FriendSort::Name],
    {
        [FriendSort::Status, FriendSort::Game, FriendSort::Name]
    }

    /// The message key of the choice's label.
    pub fn label_key(self) -> (key: &'static str)
        ensures
            key@ == match self {
                FriendSort::Status => "friends-sort-status"@,
                FriendSort::Game => "friends-sort-game"@,
                FriendSort::Name => "friends-sort-name"@,
            },
    {
        proof {
            reveal_strlit("friends-sort-status");
            reveal_strlit("friends-sort-game");
            reveal_strlit("friends-sort-name");
        }
        match self {
            FriendSort::Status => "friends-sort-status",
            FriendSort::Game => "friends-sort-game",
            FriendSort::Name => "friends-sort-name",
        }
    }

    pub fn mode(self) -> (mode: SortMode)
        ensures
            mode == friend_sort_mode(self),
    {
        match self {
            FriendSort::Status => SortMode::Status,
            FriendSort::Game => SortMode::Game,
            FriendSort::Name => SortMode::Name,
        }
    }
}

/// Each choice of the sort control groups the list by what it is named
/// after: the Game choice, and only it, groups by game; the Status choice,
/// and only it, by online state; the Name choice, and only it, lists by name.
pub proof fn lemma_friend_sort_mode_named(sort: FriendSort)
    ensures
        (friend_sort_mode(sort) == SortMode::Status) <==> (sort == FriendSort::Status),
        (friend_sort_mode(sort) == SortMode::Game) <==> (sort == FriendSort::Game),
        (friend_sort_mode(sort) == SortMode::Name) <==> (sort == FriendSort::Name),
{
}

/// What the list reads of a friend.
pub open spec fn friend_entry(f: Friend) -> ListEntry {
    ListEntry {
        name: f.persona_name,
        steam_id: f.steam_id,
        online: f.persona_state != PersonaState::Offline,
        game: f.game_extra_info,
    }
}

pub open spec fn friend_entries(fs: Seq<Friend>) -> Seq<ListEntry> {
    Seq::new(fs.len(), |i: int| friend_entry(fs[i]))
}

/// A friend counts as online in the list in every persona state but
/// `Offline` (away, busy, snoozing and looking to trade or play included),
/// and the list shows the friend's own name, id and game.
pub proof fn lemma_friend_entry_online(f: Friend)
    ensures
        f.persona_state == PersonaState::Offline ==> !friend_entry(f).online,
        f.persona_state != PersonaState::Offline ==> friend_entry(f).online,
        friend_entry(f).name == f.persona_name,
        friend_entry(f).steam_id == f.steam_id,
        friend_entry(f).game == f.game_extra_info,
{
}

fn entries_of(friends: &Vec<Friend>) -> (entries: Vec<ListEntry>)
    ensures
        entries@ == friend_entries(friends@),
{
    let mut entries: Vec<ListEntry> = Vec::new();
    let mut i: usize = 0;
    while i < friends.len()
        invariant
            i <= friends@.len(),
            entries@ == friend_entries(friends@).subrange(0, i as int),
        decreases friends@.len() - i,
    {
        let f = &friends[i];
        entries.push(ListEntry {
            name: f.persona_name.clone(),
            steam_id: f.steam_id.clone(),
            online: f.persona_state.is_online(),
            game: clone_opt_string(&f.game_extra_info),
        });
        proof {
            assert(entries@ =~= friend_entries(friends@).subrange(0, i + 1));
        }
        i = i + 1;
    }
    assert(entries@ =~= friend_entries(friends@));
    entries
}

pub struct FriendScreen {
    pub search_query: String,
    friends: Vec<Friend>,
    loading: bool,
    pub sort: FriendSort,
    /// Section keys the user has folded away.
    collapsed: StringSet,
    /// Steam ids whose recently-played-games panel is expanded.
    expanded: StringSet,
}

impl FriendScreen {
    pub closed spec fn query_view(&self) -> Seq<char> {
        self.search_query@
    }

    pub closed spec fn sort_view(&self) -> FriendSort {
        self.sort
    }

    pub closed spec fn friends_view(&self) -> Seq<Friend> {
        self.friends@
    }

    pub closed spec fn loading_view(&self) -> bool {
        self.loading
    }

    pub closed spec fn collapsed_view(&self) -> Seq<Seq<char>> {
        self.collapsed@
    }

    pub closed spec fn expanded_view(&self) -> Seq<Seq<char>> {
        self.expanded@
    }

    /// `self` and `other` differ at most in whether the list is loading.
    pub open spec fn same_but_loading(&self, other: &Self) -> bool {
        &&& self.friends_view() == other.friends_view()
        &&& self.query_view() == other.query_view()
        &&& self.sort_view() == other.sort_view()
        &&& self.collapsed_view() == other.collapsed_view()
        &&& self.expanded_view() == other.expanded_view()
    }

    pub closed spec fn wf(&self) -> bool {
        self.collapsed.wf() && self.expanded.wf()
    }

    /// An empty, idle screen sorted by status; the large "offline" and
    /// "not-in-game" sections start folded.
    pub fn new() -> (screen: Self)
        ensures
            screen.wf(),
            screen.query_view().len() == 0,
            screen.friends_view().len() == 0,
            !screen.loading_view(),
            screen.sort_view() == FriendSort::Status,
            screen.collapsed_view() == seq!["offline"@, "not-in-game"@],
            screen.expanded_view().len() == 0,
    {
        proof {
            reveal_strlit("offline");
            reveal_strlit("not-in-game");
        }
        let mut collapsed = StringSet::new();
        collapsed.insert(String::from_str("offline"));
        assert("offline"@[1] != "not-in-game"@[1]);
        collapsed.insert(String::from_str("not-in-game"));
        FriendScreen {
            search_query: String::new(),
            friends: Vec::new(),
            loading: false,
            sort: FriendSort::Status,
            collapsed,
            expanded: StringSet::new(),
        }
    }

    /// Replaces the list; loading is over.
    pub fn set_friends(&mut self, friends: Vec<Friend>)
        ensures
            final(self).friends_view() == friends@,
            !final(self).loading_view(),
            final(self).collapsed_view() == old(self).collapsed_view(),
            final(self).expanded_view() == old(self).expanded_view(),
            final(self).wf() == old(self).wf(),
            final(self).query_view() == old(self).query_view(),
            final(self).sort_view() == old(self).sort_view(),
    {
        self.friends = friends;
        self.loading = false;
    }

    pub fn set_loading(&mut self, loading: bool)
        ensures
            final(self).loading_view() == loading,
            final(self).friends_view() == old(self).friends_view(),
            final(self).collapsed_view() == old(self).collapsed_view(),
            final(self).expanded_view() == old(self).expanded_view(),
            final(self).wf() == old(self).wf(),
            final(self).query_view() == old(self).query_view(),
            final(self).sort_view() == old(self).sort_view(),
    {
        self.loading = loading;
    }

    pub fn is_loading(&self) -> (loading: bool)
        ensures
            loading == self.loading_view(),
    {
        self.loading
    }

    pub fn friends(&self) -> (friends: &[Friend])
        ensures
            friends@ == self.friends_view(),
    {
        self.friends.as_slice()
    }

    /// What the list area shows for the current friends, search and sort.
    pub fn list_view(&self) -> (view: ListView)
        ensures
            list_view_ok(
                friend_entries(self.friends_view()),
                lowercase(self.query_view()),
                friend_sort_mode(self.sort_view()),
                view,
            ),
    {
        let entries = entries_of(&self.friends);
        build_list_view(&entries, self.search_query.as_str(), self.sort.mode())
    }

    pub fn is_collapsed(&self, key: &str) -> (folded: bool)
        ensures
            folded == self.collapsed_view().contains(key@),
    {
        self.collapsed.contains(key)
    }

    /// Folds an unfolded section, or unfolds a folded one.
    pub fn toggle_collapsed(&mut self, key: String)
        requires
            old(self).wf(),
        ensures
            final(self).wf(),
            final(self).collapsed_view().contains(key@) == !old(self).collapsed_view().contains(key@),
            forall|k: Seq<char>| k != key@ ==> (#[trigger] final(self).collapsed_view().contains(k)
                <==> old(self).collapsed_view().contains(k)),
            final(self).expanded_view() == old(self).expanded_view(),
            final(self).friends_view() == old(self).friends_view(),
    {
        self.collapsed.toggle(key);
    }

    pub fn is_expanded(&self, steam_id: &str) -> (open: bool)
        ensures
            open == self.expanded_view().contains(steam_id@),
    {
        self.expanded.contains(steam_id)
    }

    /// Opens or closes a friend's recently-played-games panel.
    pub fn toggle_expanded(&mut self, steam_id: String)
        requires
            old(self).wf(),
        ensures
            final(self).wf(),
            final(self).expanded_view().contains(steam_id@) == !old(self).expanded_view().contains(steam_id@),
            forall|k: Seq<char>| k != steam_id@ ==> (#[trigger] final(self).expanded_view().contains(k)
                <==> old(self).expanded_view().contains(k)),
            final(self).collapsed_view() == old(self).collapsed_view(),
            final(self).friends_view() == old(self).friends_view(),
    {
        self.expanded.toggle(steam_id);
    }
}

impl Default for FriendScreen {
    fn default() -> (screen: Self)
        ensures
            screen.wf(),
            screen.friends_view().len() == 0,
            !screen.loading_view(),
            screen.sort_view() == FriendSort::Status,
    {
        Self::new()
    }
}

} // verus!
