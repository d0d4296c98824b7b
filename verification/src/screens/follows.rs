//! The Follows screen: the players whose matches the app watches, plus the
//! picker that adds friends to the list.

use vstd::prelude::*;
use crate::components::watch_list::{
    build_list_view, entry_shown, list_view_ok, shown_by, ListEntry, ListView, SortMode,
};
use crate::model::{clone_opt_string, Follow, Friend, PersonaState};
use crate::order::collect_flags;
use crate::screens::friend::{friend_entry, friend_entries};
use crate::string_set::{distinct, StringSet};
use crate::text::{chars_of, is_trim_of, lowercase, str_eq, to_lowercase, trim};

verus! {

broadcast use vstd::seq_lib::group_seq_properties;

/// Signals the screen wants to send back to the application.
pub enum FollowAction {
    /// Resolve the input (a Steam64 id or profile URL) and add it to the list.
    AddPlayer(String),
    /// Stop following one player.
    RemovePlayer(String),
    /// Copy every current friend into the follow list.
    AddAllFriends,
    /// Remove every current friend from the follow list.
    RemoveAllFriends,
    /// Refresh the online state and current game of the known follows.
    RefreshStatuses,
    /// Follow the chosen subset of the friend list.
    AddSelectedFriends(Vec<String>),
    /// Enroll (or unenroll) one player in background match tracking.
    SetTracked(String, bool),
}

/// How the follow list is grouped and ordered.
#[derive(Debug, Clone, Copy, PartialEq, Eq, Structural)]
pub enum FollowSort {
    /// Online players first, then offline.
    Status,
    /// Grouped by the game each player is currently playing.
    Game,
    /// A flat, alphabetical list.
    Name,
}

pub open spec fn follow_sort_mode(sort: FollowSort) -> SortMode {
    match sort {
        FollowSort::Status => SortMode::Status,
        FollowSort::Game => SortMode::Game,
        FollowSort::Name => SortMode::Name,
    }
}

impl FollowSort {
    /// The choices, in the order the sort control lists them.
    pub fn all() -> (sorts: [FollowSort; 3])
        ensures
            sorts@ == seq![FollowSort::Status, FollowSort::Game, FollowSort::Name],
    {
        [FollowSort::Status, FollowSort::Game, FollowSort::Name]
    }

    /// The message key of the choice's label.
    pub fn label_key(self) -> (key: &'static str)
        ensures
            key@ == match self {
                FollowSort::Status => "follows-sort-status"@,
                FollowSort::Game => "follows-sort-game"@,
                FollowSort::Name => "follows-sort-name"@,
            },
    {
        proof {
            reveal_strlit("follows-sort-status");
            reveal_strlit("follows-sort-game");
            reveal_strlit("follows-sort-name");
        }
        match self {
            FollowSort::Status => "follows-sort-status",
            FollowSort::Game => "follows-sort-game",
            FollowSort::Name => "follows-sort-name",
        }
    }

    pub fn mode(self) -> (mode: SortMode)
        ensures
            mode == follow_sort_mode(self),
    {
        match self {
            FollowSort::Status => SortMode::Status,
            FollowSort::Game => SortMode::Game,
            FollowSort::Name => SortMode::Name,
        }
    }
}

/// Each choice of the sort control groups the list by what it is named
/// after: the Game choice, and only it, groups by game; the Status choice,
/// and only it, by online state; the Name choice, and only it, lists by name.
pub proof fn lemma_follow_sort_mode_named(sort: FollowSort)
    ensures
        (follow_sort_mode(sort) == SortMode::Status) <==> (sort == FollowSort::Status),
        (follow_sort_mode(sort) == SortMode::Game) <==> (sort == FollowSort::Game),
        (follow_sort_mode(sort) == SortMode::Name) <==> (sort == FollowSort::Name),
{
}

/// What the list reads of a followed player.
pub open spec fn follow_entry(f: Follow) -> ListEntry {
    ListEntry {
        name: f.persona_name,
        steam_id: f.steam_id,
        online: f.persona_state != PersonaState::Offline,
        game: f.game_extra_info,
    }
}

pub open spec fn follow_entries(fs: Seq<Follow>) -> Seq<ListEntry> {
    Seq::new(fs.len(), |i: int| follow_entry(fs[i]))
}

/// A followed player counts as online in the list in every persona state
/// but `Offline` (away, busy, snoozing and looking to trade or play
/// included), and the list shows the player's own name, id and game.
pub proof fn lemma_follow_entry_online(f: Follow)
    ensures
        f.persona_state == PersonaState::Offline ==> !follow_entry(f).online,
        f.persona_state != PersonaState::Offline ==> follow_entry(f).online,
        follow_entry(f).name == f.persona_name,
        follow_entry(f).steam_id == f.steam_id,
        follow_entry(f).game == f.game_extra_info,
{
}

fn entries_of(follows: &Vec<Follow>) -> (entries: Vec<ListEntry>)
    ensures
        entries@ == follow_entries(follows@),
{
    let mut entries: Vec<ListEntry> = Vec::new();
    let mut i: usize = 0;
    while i < follows.len()
        invariant
            i <= follows@.len(),
            entries@ == follow_entries(follows@).subrange(0, i as int),
        decreases follows@.len() - i,
    {
        let f = &follows[i];
        entries.push(ListEntry {
            name: f.persona_name.clone(),
            steam_id: f.steam_id.clone(),
            online: f.persona_state.is_online(),
            game: clone_opt_string(&f.game_extra_info),
        });
        proof {
            assert(entries@ =~= follow_entries(follows@).subrange(0, i + 1));
        }
        i = i + 1;
    }
    assert(entries@ =~= follow_entries(follows@));
    entries
}

/// Some follow has this Steam id.
pub open spec fn is_followed(follows: Seq<Follow>, id: Seq<char>) -> bool {
    exists|j: int| 0 <= j < follows.len() && (#[trigger] follows[j]).steam_id@ == id
}

/// A friend the picker offers: not followed yet, and shown by the picker's
/// (lowercased) search.
pub open spec fn is_candidate(friends: Seq<Friend>, follows: Seq<Follow>, q: Seq<char>, x: usize) -> bool {
    &&& x < friends.len()
    &&& !is_followed(follows, friends[x as int].steam_id@)
    &&& entry_shown(friend_entry(friends[x as int]), q)
}

/// What one follow row reported this frame.
#[derive(Debug, Clone, Copy, PartialEq, Eq, Structural)]
pub struct RowClicks {
    /// Position of the row's player in the follow list.
    pub index: usize,
    pub recent_toggled: bool,
    pub remove_clicked: bool,
    pub track_clicked: bool,
}

pub struct FollowScreen {
    pub search_query: String,
    pub add_input: String,
    follows: Vec<Follow>,
    loading: bool,
    pub sort: FollowSort,
    /// Section keys the user has folded away.
    collapsed: StringSet,
    /// Steam ids whose recently-played-games panel is expanded.
    expanded: StringSet,
    /// Mirrors the Friends screen's list, offered as candidates in the picker.
    available_friends: Vec<Friend>,
    picker_open: bool,
    pub picker_query: String,
    /// Steam ids checked in the picker, pending confirmation.
    picker_selected: StringSet,
}

impl FollowScreen {
    pub closed spec fn query_view(&self) -> Seq<char> {
        self.search_query@
    }

    pub closed spec fn add_input_view(&self) -> Seq<char> {
        self.add_input@
    }

    pub closed spec fn sort_view(&self) -> FollowSort {
        self.sort
    }

    pub closed spec fn follows_view(&self) -> Seq<Follow> {
        self.follows@
    }

    pub closed spec fn loading_view(&self) -> bool {
        self.loading
    }

    pub closed spec fn collapsed_view(&self) -> Seq<Seq<char>> {
        self.collapsed@
    }

    pub closed spec fn expanded_view(&self) -> Seq<Seq<char>> {
        self.expanded@
    }

    pub closed spec fn friends_view(&self) -> Seq<Friend> {
        self.available_friends@
    }

    pub closed spec fn picker_open_view(&self) -> bool {
        self.picker_open
    }

    pub closed spec fn picker_query_view(&self) -> Seq<char> {
        self.picker_query@
    }

    pub closed spec fn selected_view(&self) -> Seq<Seq<char>> {
        self.picker_selected@
    }

    pub closed spec fn wf(&self) -> bool {
        self.collapsed.wf() && self.expanded.wf() && self.picker_selected.wf()
    }

    /// On a well-formed screen no friend is selected twice.
    pub proof fn lemma_selection_distinct(&self)
        requires
            self.wf(),
        ensures
            distinct(self.selected_view()),
    {
        self.picker_selected.lemma_wf_distinct();
    }

    /// An empty, idle screen sorted by status with the picker closed; the
    /// large "offline" and "not-in-game" sections start folded.
    pub fn new() -> (screen: Self)
        ensures
            screen.wf(),
            screen.query_view().len() == 0,
            screen.add_input_view().len() == 0,
            screen.follows_view().len() == 0,
            !screen.loading_view(),
            screen.sort_view() == FollowSort::Status,
            screen.collapsed_view() == seq!["offline"@, "not-in-game"@],
            screen.expanded_view().len() == 0,
            screen.friends_view().len() == 0,
            !screen.picker_open_view(),
            screen.picker_query_view().len() == 0,
            screen.selected_view().len() == 0,
    {
        proof {
            reveal_strlit("offline");
            reveal_strlit("not-in-game");
        }
        let mut collapsed = StringSet::new();
        collapsed.insert(String::from_str("offline"));
        assert("offline"@[1] != "not-in-game"@[1]);
        collapsed.insert(String::from_str("not-in-game"));
        FollowScreen {
            search_query: String::new(),
            add_input: String::new(),
            follows: Vec::new(),
            loading: false,
            sort: FollowSort::Status,
            collapsed,
            expanded: StringSet::new(),
            available_friends: Vec::new(),
            picker_open: false,
            picker_query: String::new(),
            picker_selected: StringSet::new(),
        }
    }

    /// Replaces the list; loading is over.
    pub fn set_follows(&mut self, follows: Vec<Follow>)
        requires
            old(self).wf(),
        ensures
            final(self).wf(),
            final(self).follows_view() == follows@,
            !final(self).loading_view(),
            final(self).friends_view() == old(self).friends_view(),
            final(self).selected_view() == old(self).selected_view(),
            final(self).picker_open_view() == old(self).picker_open_view(),
    {
        self.follows = follows;
        self.loading = false;
    }

    /// Refreshes the picker's candidates: copies `friends` when their number
    /// differs from the current copy's, and otherwise keeps the copy (cheap
    /// enough to call every frame).
    pub fn set_friends(&mut self, friends: &[Friend])
        requires
            old(self).wf(),
        ensures
            final(self).wf(),
            old(self).friends_view().len() != friends@.len() ==> final(self).friends_view().len() == friends@.len()
                && forall|i: int| 0 <= i < friends@.len() ==> {
                    &&& (#[trigger] final(self).friends_view()[i]).steam_id == friends@[i].steam_id
                    &&& final(self).friends_view()[i].persona_name == friends@[i].persona_name
                    &&& final(self).friends_view()[i].persona_state == friends@[i].persona_state
                    &&& final(self).friends_view()[i].game_extra_info == friends@[i].game_extra_info
                    &&& final(self).friends_view()[i].avatar == friends@[i].avatar
                    &&& final(self).friends_view()[i].profile_url == friends@[i].profile_url
                    &&& final(self).friends_view()[i].recent_games@ == friends@[i].recent_games@
                },
            old(self).friends_view().len() == friends@.len() ==> final(self).friends_view() == old(self).friends_view(),
            final(self).follows_view() == old(self).follows_view(),
            final(self).selected_view() == old(self).selected_view(),
            final(self).picker_open_view() == old(self).picker_open_view(),
    {
        if self.available_friends.len() != friends.len() {
            let mut copy: Vec<Friend> = Vec::new();
            let mut i: usize = 0;
            while i < friends.len()
                invariant
                    i <= friends@.len(),
                    copy@.len() == i,
                    forall|k: int| 0 <= k < i ==> {
                        &&& (#[trigger] copy@[k]).steam_id == friends@[k].steam_id
                        &&& copy@[k].persona_name == friends@[k].persona_name
                        &&& copy@[k].persona_state == friends@[k].persona_state
                        &&& copy@[k].game_extra_info == friends@[k].game_extra_info
                        &&& copy@[k].avatar == friends@[k].avatar
                        &&& copy@[k].profile_url == friends@[k].profile_url
                        &&& copy@[k].recent_games@ == friends@[k].recent_games@
                    },
                decreases friends@.len() - i,
            {
                copy.push(friends[i].clone());
                i = i + 1;
            }
            self.available_friends = copy;
        }
    }

    pub fn set_loading(&mut self, loading: bool)
        ensures
            final(self).loading_view() == loading,
            final(self).follows_view() == old(self).follows_view(),
            final(self).wf() == old(self).wf(),
    {
        self.loading = loading;
    }

    pub fn is_loading(&self) -> (loading: bool)
        ensures
            loading == self.loading_view(),
    {
        self.loading
    }

    pub fn follows(&self) -> (follows: &[Follow])
        ensures
            follows@ == self.follows_view(),
    {
        self.follows.as_slice()
    }

    /// What the list area shows for the current follows, search and sort.
    pub fn list_view(&self) -> (view: ListView)
        ensures
            list_view_ok(
                follow_entries(self.follows_view()),
                lowercase(self.query_view()),
                follow_sort_mode(self.sort_view()),
                view,
            ),
    {
        let entries = entries_of(&self.follows);
        build_list_view(&entries, self.search_query.as_str(), self.sort.mode())
    }

    pub fn is_collapsed(&self, key: &str) -> (folded: bool)
        ensures
            folded == self.collapsed_view().contains(key@),
    {
        self.collapsed.contains(key)
    }

    /// Folds an unfolded section, or unfolds a folded one.
    pub fn toggle_collapsed(&mut self, key: String)
        requires
            old(self).wf(),
        ensures
            final(self).wf(),
            final(self).collapsed_view().contains(key@) == !old(self).collapsed_view().contains(key@),
            forall|k: Seq<char>| k != key@ ==> (#[trigger] final(self).collapsed_view().contains(k)
                <==> old(self).collapsed_view().contains(k)),
            final(self).expanded_view() == old(self).expanded_view(),
            final(self).follows_view() == old(self).follows_view(),
    {
        self.collapsed.toggle(key);
    }

    pub fn is_expanded(&self, steam_id: &str) -> (open: bool)
        ensures
            open == self.expanded_view().contains(steam_id@),
    {
        self.expanded.contains(steam_id)
    }

    /// Opens or closes a player's recently-played-games panel.
    pub fn toggle_expanded(&mut self, steam_id: String)
        requires
            old(self).wf(),
        ensures
            final(self).wf(),
            final(self).expanded_view().contains(steam_id@) == !old(self).expanded_view().contains(steam_id@),
            forall|k: Seq<char>| k != steam_id@ ==> (#[trigger] final(self).expanded_view().contains(k)
                <==> old(self).expanded_view().contains(k)),
            final(self).collapsed_view() == old(self).collapsed_view(),
            final(self).follows_view() == old(self).follows_view(),
    {
        self.expanded.toggle(steam_id);
    }

    /// The "add" button: with a non-blank input, asks to add the trimmed
    /// input and clears the field; with a blank one, does nothing.
    pub fn submit_add_input(&mut self) -> (action: Option<FollowAction>)
        ensures
            match action {
                Some(FollowAction::AddPlayer(id)) => is_trim_of(id@, old(self).add_input_view())
                    && id@.len() > 0 && final(self).add_input_view().len() == 0,
                Some(_) => false,
                None => (forall|t: Seq<char>| is_trim_of(t, old(self).add_input_view()) ==> t.len() == 0)
                    && final(self).add_input_view() == old(self).add_input_view(),
            },
            final(self).follows_view() == old(self).follows_view(),
            final(self).wf() == old(self).wf(),
    {
        let trimmed = trim(self.add_input.as_str());
        if trimmed.as_str().is_empty() {
            proof {
                assert forall|t: Seq<char>| is_trim_of(t, self.add_input@) implies t.len() == 0 by {
                    lemma_trim_unique(self.add_input@, t, trimmed@);
                }
            }
            None
        } else {
            self.add_input = String::new();
            Some(FollowAction::AddPlayer(trimmed))
        }
    }

    /// The action the follow rows ask for this frame: a tracking toggle wins
    /// over a removal, and among several of a kind the last row wins.
    pub fn row_action(&self, clicks: &Vec<RowClicks>) -> (action: Option<FollowAction>)
        requires
            forall|k: int| 0 <= k < clicks@.len() ==> (#[trigger] clicks@[k]).index < self.follows_view().len(),
        ensures
            match action {
                Some(FollowAction::SetTracked(id, track)) => exists|k: int|
                    0 <= k < clicks@.len() && (#[trigger] clicks@[k]).track_clicked
                        && (forall|l: int| k < l < clicks@.len() ==> !(#[trigger] clicks@[l]).track_clicked)
                        && id@ == self.follows_view()[clicks@[k].index as int].steam_id@
                        && track == !self.follows_view()[clicks@[k].index as int].tracking,
                Some(FollowAction::RemovePlayer(id)) => (forall|l: int|
                    0 <= l < clicks@.len() ==> !(#[trigger] clicks@[l]).track_clicked) && exists|k: int|
                    0 <= k < clicks@.len() && (#[trigger] clicks@[k]).remove_clicked
                        && (forall|l: int| k < l < clicks@.len() ==> !(#[trigger] clicks@[l]).remove_clicked)
                        && id@ == self.follows_view()[clicks@[k].index as int].steam_id@,
                Some(_) => false,
                None => forall|l: int|
                    0 <= l < clicks@.len() ==> !(#[trigger] clicks@[l]).track_clicked && !clicks@[l].remove_clicked,
            },
    {
        let mut last_track: Option<usize> = None;
        let mut last_remove: Option<usize> = None;
        let mut i: usize = 0;
        while i < clicks.len()
            invariant
                i <= clicks@.len(),
                match last_track {
                    Some(k) => k < i && clicks@[k as int].track_clicked && forall|l: int|
                        k < l < i ==> !(#[trigger] clicks@[l]).track_clicked,
                    None => forall|l: int| 0 <= l < i ==> !(#[trigger] clicks@[l]).track_clicked,
                },
                match last_remove {
                    Some(k) => k < i && clicks@[k as int].remove_clicked && forall|l: int|
                        k < l < i ==> !(#[trigger] clicks@[l]).remove_clicked,
                    None => forall|l: int| 0 <= l < i ==> !(#[trigger] clicks@[l]).remove_clicked,
                },
            decreases clicks@.len() - i,
        {
            if clicks[i].track_clicked {
                last_track = Some(i);
            }
            if clicks[i].remove_clicked {
                last_remove = Some(i);
            }
            i = i + 1;
        }
        match last_track {
            Some(k) => {
                let f = &self.follows[clicks[k].index];
                Some(FollowAction::SetTracked(f.steam_id.clone(), !f.tracking))
            },
            None => match last_remove {
                Some(k) => {
                    let f = &self.follows[clicks[k].index];
                    Some(FollowAction::RemovePlayer(f.steam_id.clone()))
                },
                None => None,
            },
        }
    }

    /// Opens the picker with an empty search and nothing selected.
    pub fn open_picker(&mut self)
        requires
            old(self).wf(),
        ensures
            final(self).wf(),
            final(self).picker_open_view(),
            final(self).picker_query_view().len() == 0,
            final(self).selected_view().len() == 0,
            final(self).follows_view() == old(self).follows_view(),
            final(self).friends_view() == old(self).friends_view(),
    {
        self.picker_query = String::new();
        self.picker_selected.clear();
        self.picker_open = true;
    }

    /// Closes the picker, keeping its selection.
    pub fn close_picker(&mut self)
        ensures
            !final(self).picker_open_view(),
            final(self).selected_view() == old(self).selected_view(),
            final(self).wf() == old(self).wf(),
            final(self).follows_view() == old(self).follows_view(),
            final(self).friends_view() == old(self).friends_view(),
    {
        self.picker_open = false;
    }

    /// The friends the picker chooses from.
    pub fn available_friends(&self) -> (friends: &[Friend])
        ensures
            friends@ == self.friends_view(),
    {
        self.available_friends.as_slice()
    }

    pub fn is_picker_open(&self) -> (open: bool)
        ensures
            open == self.picker_open_view(),
    {
        self.picker_open
    }

    /// Friends the picker offers, as positions into its friend list, in order.
    pub fn picker_candidates(&self) -> (candidates: Vec<usize>)
        ensures
            forall|a: int, b: int| 0 <= a < b < candidates@.len() ==> #[trigger] candidates@[a] < #[trigger] candidates@[b],
            forall|x: usize| #[trigger] candidates@.contains(x) <==> is_candidate(
                self.friends_view(),
                self.follows_view(),
                lowercase(self.picker_query_view()),
                x,
            ),
    {
        let folded = to_lowercase(self.picker_query.as_str());
        let q = chars_of(folded.as_str());
        let mut flags: Vec<bool> = Vec::new();
        let mut i: usize = 0;
        while i < self.available_friends.len()
            invariant
                i <= self.available_friends@.len(),
                flags@.len() == i,
                q@ == lowercase(self.picker_query@),
                forall|k: int| 0 <= k < i ==> #[trigger] flags@[k] == is_candidate(
                    self.available_friends@,
                    self.follows@,
                    q@,
                    k as usize,
                ),
            decreases self.available_friends@.len() - i,
        {
            let friend = &self.available_friends[i];
            let mut followed = false;
            let mut j: usize = 0;
            while j < self.follows.len()
                invariant
                    j <= self.follows@.len(),
                    followed == exists|l: int| 0 <= l < j && (#[trigger] self.follows@[l]).steam_id@ == friend.steam_id@,
                decreases self.follows@.len() - j,
            {
                if str_eq(self.follows[j].steam_id.as_str(), friend.steam_id.as_str()) {
                    followed = true;
                }
                proof {
                    if self.follows@[j as int].steam_id@ == friend.steam_id@ {
                        assert(exists|l: int| 0 <= l < j + 1 && (#[trigger] self.follows@[l]).steam_id@ == friend.steam_id@);
                    }
                }
                j = j + 1;
            }
            let entry = ListEntry {
                name: friend.persona_name.clone(),
                steam_id: friend.steam_id.clone(),
                online: friend.persona_state.is_online(),
                game: clone_opt_string(&friend.game_extra_info),
            };
            let name_folded = to_lowercase(entry.name.as_str());
            let name = chars_of(name_folded.as_str());
            let shown = shown_by(&entry, &name, &q);
            proof {
                assert(entry == friend_entry(*friend));
            }
            flags.push(!followed && shown);
            i = i + 1;
        }
        collect_flags(&flags)
    }

    pub fn selected_count(&self) -> (n: usize)
        ensures
            n == self.selected_view().len(),
    {
        self.picker_selected.len()
    }

    pub fn is_selected(&self, steam_id: &str) -> (selected: bool)
        ensures
            selected == self.selected_view().contains(steam_id@),
    {
        self.picker_selected.contains(steam_id)
    }

    /// Checks or unchecks one friend in the picker.
    pub fn set_selected(&mut self, steam_id: String, checked: bool)
        requires
            old(self).wf(),
        ensures
            final(self).wf(),
            final(self).selected_view().contains(steam_id@) == checked,
            forall|k: Seq<char>| k != steam_id@ ==> (#[trigger] final(self).selected_view().contains(k)
                <==> old(self).selected_view().contains(k)),
            final(self).follows_view() == old(self).follows_view(),
            final(self).friends_view() == old(self).friends_view(),
            final(self).picker_open_view() == old(self).picker_open_view(),
    {
        if checked {
            let ghost before = self.picker_selected@;
            let added = self.picker_selected.insert(steam_id);
            proof {
                if added {
                    assert(self.picker_selected@[before.len() as int] == steam_id@);
                }
            }
        } else {
            self.picker_selected.remove(steam_id.as_str());
        }
    }

    /// "Select all": checks every listed candidate.
    pub fn select_all(&mut self, candidates: &Vec<usize>)
        requires
            old(self).wf(),
            forall|k: int| 0 <= k < candidates@.len() ==> #[trigger] candidates@[k] < old(self).friends_view().len(),
        ensures
            final(self).wf(),
            forall|id: Seq<char>| #[trigger] final(self).selected_view().contains(id) <==> (
                old(self).selected_view().contains(id) || exists|k: int|
                    0 <= k < candidates@.len() && (#[trigger] final(self).friends_view()[candidates@[k] as int]).steam_id@ == id),
            final(self).follows_view() == old(self).follows_view(),
            final(self).friends_view() == old(self).friends_view(),
            final(self).picker_open_view() == old(self).picker_open_view(),
    {
        let ghost start = self.picker_selected@;
        let mut i: usize = 0;
        while i < candidates.len()
            invariant
                i <= candidates@.len(),
                self.picker_selected.wf(),
                self.collapsed.wf(),
                self.expanded.wf(),
                self.available_friends@ == old(self).available_friends@,
                self.follows@ == old(self).follows@,
                self.picker_open == old(self).picker_open,
                start == old(self).picker_selected@,
                forall|k: int| 0 <= k < candidates@.len() ==> #[trigger] candidates@[k] < self.available_friends@.len(),
                forall|id: Seq<char>| #[trigger] self.picker_selected@.contains(id) <==> (start.contains(id)
                    || exists|k: int| 0 <= k < i && (#[trigger] self.available_friends@[candidates@[k] as int]).steam_id@ == id),
            decreases candidates@.len() - i,
        {
            let id = self.available_friends[candidates[i]].steam_id.clone();
            let ghost before = self.picker_selected@;
            let added = self.picker_selected.insert(id);
            proof {
                assert forall|x: Seq<char>| #[trigger] self.picker_selected@.contains(x) <==> (start.contains(x)
                    || exists|k: int| 0 <= k < i + 1 && (#[trigger] self.available_friends@[candidates@[k] as int]).steam_id@ == x) by {
                    if added {
                        assert(self.picker_selected@ == before.push(id@));
                        if self.picker_selected@.contains(x) && x != id@ {
                            let a = choose|a: int| 0 <= a < self.picker_selected@.len() && self.picker_selected@[a] == x;
                            assert(before[a] == x);
                        }
                        if before.contains(x) {
                            let a = choose|a: int| 0 <= a < before.len() && before[a] == x;
                            assert(self.picker_selected@[a] == x);
                        }
                        if x == id@ {
                            assert(self.picker_selected@[before.len() as int] == x);
                        }
                    }
                    if exists|k: int| 0 <= k < i + 1 && (#[trigger] self.available_friends@[candidates@[k] as int]).steam_id@ == x {
                        let k = choose|k: int| 0 <= k < i + 1 && (#[trigger] self.available_friends@[candidates@[k] as int]).steam_id@ == x;
                        if k == i {
                            assert(x == id@);
                        }
                    }
                }
            }
            i = i + 1;
        }
    }

    /// "Select none": unchecks every listed candidate, keeping checks on
    /// friends the search currently hides.
    pub fn select_none(&mut self, candidates: &Vec<usize>)
        requires
            old(self).wf(),
            forall|k: int| 0 <= k < candidates@.len() ==> #[trigger] candidates@[k] < old(self).friends_view().len(),
        ensures
            final(self).wf(),
            forall|id: Seq<char>| #[trigger] final(self).selected_view().contains(id) <==> (
                old(self).selected_view().contains(id) && !exists|k: int|
                    0 <= k < candidates@.len() && (#[trigger] final(self).friends_view()[candidates@[k] as int]).steam_id@ == id),
            final(self).follows_view() == old(self).follows_view(),
            final(self).friends_view() == old(self).friends_view(),
            final(self).picker_open_view() == old(self).picker_open_view(),
    {
        let ghost start = self.picker_selected@;
        let mut i: usize = 0;
        while i < candidates.len()
            invariant
                i <= candidates@.len(),
                self.picker_selected.wf(),
                self.collapsed.wf(),
                self.expanded.wf(),
                self.available_friends@ == old(self).available_friends@,
                self.follows@ == old(self).follows@,
                self.picker_open == old(self).picker_open,
                start == old(self).picker_selected@,
                forall|k: int| 0 <= k < candidates@.len() ==> #[trigger] candidates@[k] < self.available_friends@.len(),
                forall|id: Seq<char>| #[trigger] self.picker_selected@.contains(id) <==> (start.contains(id)
                    && !exists|k: int| 0 <= k < i && (#[trigger] self.available_friends@[candidates@[k] as int]).steam_id@ == id),
            decreases candidates@.len() - i,
        {
            let ghost before = self.picker_selected@;
            let ghost id = self.available_friends@[candidates@[i as int] as int].steam_id@;
            self.picker_selected.remove(self.available_friends[candidates[i]].steam_id.as_str());
            proof {
                assert forall|x: Seq<char>| #[trigger] self.picker_selected@.contains(x) <==> (start.contains(x)
                    && !exists|k: int| 0 <= k < i + 1 && (#[trigger] self.available_friends@[candidates@[k] as int]).steam_id@ == x) by {
                    if exists|k: int| 0 <= k < i + 1 && (#[trigger] self.available_friends@[candidates@[k] as int]).steam_id@ == x {
                        let k = choose|k: int| 0 <= k < i + 1 && (#[trigger] self.available_friends@[candidates@[k] as int]).steam_id@ == x;
                        if k == i {
                            assert(x == id);
                        }
                    }
                }
            }
            i = i + 1;
        }
    }

    /// The picker's confirm button: with something checked, asks to follow
    /// the checked friends, empties the selection and closes the picker; with
    /// nothing checked, does nothing.
    pub fn confirm_picker(&mut self) -> (action: Option<FollowAction>)
        requires
            old(self).wf(),
        ensures
            final(self).wf(),
            match action {
                Some(FollowAction::AddSelectedFriends(ids)) => old(self).selected_view().len() > 0
                    && ids@.len() == old(self).selected_view().len()
                    && (forall|i: int| 0 <= i < ids@.len() ==> #[trigger] ids@[i]@ == old(self).selected_view()[i])
                    && (forall|a: int, b: int| 0 <= a < b < ids@.len() ==> #[trigger] ids@[a]@ != #[trigger] ids@[b]@)
                    && final(self).selected_view().len() == 0 && !final(self).picker_open_view(),
                Some(_) => false,
                None => old(self).selected_view().len() == 0 && final(self).picker_open_view()
                    == old(self).picker_open_view(),
            },
            final(self).follows_view() == old(self).follows_view(),
            final(self).friends_view() == old(self).friends_view(),
    {
        if self.picker_selected.len() > 0 {
            proof {
                self.picker_selected.lemma_wf_distinct();
            }
            let ids = self.picker_selected.drain();
            self.picker_open = false;
            Some(FollowAction::AddSelectedFriends(ids))
        } else {
            None
        }
    }
}

/// The trimmed form of a string is unique.
proof fn lemma_trim_unique(s: Seq<char>, t1: Seq<char>, t2: Seq<char>)
    requires
        is_trim_of(t1, s),
        is_trim_of(t2, s),
    ensures
        t1 == t2,
{
    let (a1, b1) = choose|a: int, b: int|
        {
            &&& 0 <= a <= b <= s.len()
            &&& forall|k: int| 0 <= k < a ==> crate::text::is_white_space(#[trigger] s[k])
            &&& forall|k: int| b <= k < s.len() ==> crate::text::is_white_space(#[trigger] s[k])
            &&& a < b ==> !crate::text::is_white_space(s[a]) && !crate::text::is_white_space(s[b - 1])
            &&& #[trigger] s.subrange(a, b) == t1
        };
    let (a2, b2) = choose|a: int, b: int|
        {
            &&& 0 <= a <= b <= s.len()
            &&& forall|k: int| 0 <= k < a ==> crate::text::is_white_space(#[trigger] s[k])
            &&& forall|k: int| b <= k < s.len() ==> crate::text::is_white_space(#[trigger] s[k])
            &&& a < b ==> !crate::text::is_white_space(s[a]) && !crate::text::is_white_space(s[b - 1])
            &&& #[trigger] s.subrange(a, b) == t2
        };
    if a1 < b1 && a2 < b2 {
        if a1 < a2 {
            assert(crate::text::is_white_space(s[a1]));
        }
        if a2 < a1 {
            assert(crate::text::is_white_space(s[a2]));
        }
        if b1 < b2 {
            assert(crate::text::is_white_space(s[b2 - 1]));
        }
        if b2 < b1 {
            assert(crate::text::is_white_space(s[b1 - 1]));
        }
    } else if a1 < b1 {
        if a1 < a2 {
            assert(crate::text::is_white_space(s[a1]));
        } else {
            assert(b2 <= a1);
            assert(crate::text::is_white_space(s[a1]));
        }
    } else if a2 < b2 {
        if a2 < a1 {
            assert(crate::text::is_white_space(s[a2]));
        } else {
            assert(b1 <= a2);
            assert(crate::text::is_white_space(s[a2]));
        }
    } else {
        assert(t1 =~= t2);
    }
}

impl Default for FollowScreen {
    fn default() -> (screen: Self)
        ensures
            screen.wf(),
            screen.follows_view().len() == 0,
            !screen.loading_view(),
            !screen.picker_open_view(),
    {
        Self::new()
    }
}

} // verus!
