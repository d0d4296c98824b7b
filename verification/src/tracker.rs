//! Background match tracking: what one polling cycle decides for each tracked
//! follow, how long to wait between cycles, and which push channels to build.
//! The fetching, storing, sleeping and delivering happen around these
//! decisions, off the UI thread.

use vstd::prelude::*;
use crate::order::{asc_before, no_duplicates, ordered_asc, sort_positions_asc};

verus! {

/// Pause between two follows' OpenDota calls, to stay friendly to rate limits.
pub const PER_FOLLOW_DELAY_MS: u64 = 400;

/// Interval used when the configured one is zero.
pub const MIN_INTERVAL_SECS: u64 = 60;

/// Seconds between two polling cycles for a configured interval of `mins`
/// minutes; zero falls back to [`MIN_INTERVAL_SECS`].
pub fn poll_interval(mins: u32) -> (secs: u64)
    ensures
        secs == if mins == 0 {
            MIN_INTERVAL_SECS as int
        } else {
            mins * 60
        },
{
    if mins == 0 {
        MIN_INTERVAL_SECS
    } else {
        (mins as u64) * 60
    }
}

/// Whether the official hub channel pushes new matches: Telegram is on and
/// set to announce new matches, a subscriber secret is known, and offline
/// mode is off (there the hub's own tracker delivers, so exactly one side
/// pushes).
pub fn hub_channel_enabled(
    enabled: bool,
    notify_new_match: bool,
    offline_mode: bool,
    has_secret: bool,
) -> (on: bool)
    ensures
        on == (enabled && notify_new_match && !offline_mode && has_secret),
{
    enabled && notify_new_match && !offline_mode && has_secret
}

/// A cycle polls the tracked follows only when background tracking is on
/// and some follow is tracked.
pub fn cycle_runs(background: bool, watched: usize) -> (runs: bool)
    ensures
        runs == (background && watched > 0),
{
    background && watched > 0
}

/// What a cycle does for one tracked follow, given the ids of its recent
/// matches and its watermark (the newest match already announced).
pub enum TrackPlan {
    /// The player has no recent matches: nothing to do.
    NoMatches,
    /// First look at the player: adopt the newest match as the watermark
    /// without announcing anything, so tracking a player never announces a
    /// game that was over before.
    Prime(i64),
    /// Nothing is newer than the watermark.
    UpToDate,
    /// Announce the matches at these positions (newer than the watermark,
    /// oldest first), then move the watermark to `newest`.
    Notify { fresh: Vec<usize>, newest: i64 },
}

/// `m` is the largest of `ids`.
pub open spec fn is_max(ids: Seq<i64>, m: i64) -> bool {
    &&& exists|i: int| 0 <= i < ids.len() && ids[i] == m
    &&& forall|i: int| 0 <= i < ids.len() ==> ids[i] <= m
}

/// The positions of the matches newer than `watermark`, oldest first: each
/// such position once, in ascending order of id, equal ids in list order.
pub open spec fn fresh_positions(ids: Seq<i64>, watermark: i64, fresh: Seq<usize>) -> bool {
    &&& no_duplicates(fresh)
    &&& forall|x: usize| #[trigger] fresh.contains(x) <==> (x < ids.len() && ids[x as int] > watermark)
    &&& ordered_asc(ids, fresh)
}

/// Once the watermark is the newest match, nothing in the same list is
/// fresh: a follow that was primed or announced is up to date until newer
/// matches appear.
pub proof fn lemma_watermark_settles(ids: Seq<i64>, newest: i64, fresh: Seq<usize>)
    requires
        is_max(ids, newest),
        fresh_positions(ids, newest, fresh),
    ensures
        fresh.len() == 0,
{
    if fresh.len() > 0 {
        assert(fresh.contains(fresh[0]));
    }
}

/// The largest id.
fn newest_id(ids: &Vec<i64>) -> (newest: i64)
    requires
        ids@.len() > 0,
    ensures
        is_max(ids@, newest),
{
    let mut newest = ids[0];
    let mut i: usize = 1;
    while i < ids.len()
        invariant
            1 <= i <= ids@.len(),
            exists|k: int| 0 <= k < i && ids@[k] == newest,
            forall|k: int| 0 <= k < i ==> ids@[k] <= newest,
        decreases ids@.len() - i,
    {
        if ids[i] > newest {
            newest = ids[i];
        }
        i = i + 1;
    }
    newest
}

/// Decides what a cycle does for one tracked follow whose recent matches
/// have the ids `match_ids` (in the order fetched) and whose watermark is
/// `watermark`, if it has one yet.
pub fn plan_follow(match_ids: &Vec<i64>, watermark: Option<i64>) -> (plan: TrackPlan)
    ensures
        match_ids@.len() == 0 <==> plan is NoMatches,
        match plan {
            TrackPlan::NoMatches => true,
            TrackPlan::Prime(newest) => watermark is None && is_max(match_ids@, newest),
            TrackPlan::UpToDate => match watermark {
                Some(w) => match_ids@.len() > 0 && forall|i: int|
                    0 <= i < match_ids@.len() ==> match_ids@[i] <= w,
                None => false,
            },
            TrackPlan::Notify { fresh, newest } => match watermark {
                Some(w) => fresh@.len() > 0 && fresh_positions(match_ids@, w, fresh@) && is_max(
                    match_ids@,
                    newest,
                ),
                None => false,
            },
        },
        watermark is None && match_ids@.len() > 0 ==> plan is Prime,
{
    if match_ids.len() == 0 {
        return TrackPlan::NoMatches;
    }
    let newest = newest_id(match_ids);
    let w = match watermark {
        None => {
            return TrackPlan::Prime(newest);
        },
        Some(w) => w,
    };
    let sorted = sort_positions_asc(match_ids);
    let mut fresh: Vec<usize> = Vec::new();
    let mut j: usize = 0;
    while j < sorted.len()
        invariant
            sorted@.len() == match_ids@.len(),
            no_duplicates(sorted@),
            forall|x: usize| #[trigger] sorted@.contains(x) <==> x < match_ids@.len(),
            ordered_asc(match_ids@, sorted@),
            j <= sorted@.len(),
            no_duplicates(fresh@),
            ordered_asc(match_ids@, fresh@),
            forall|a: int|
                0 <= a < fresh@.len() ==> exists|k: int|
                    0 <= k < j && sorted@[k] == #[trigger] fresh@[a],
            forall|x: usize| #[trigger]
                fresh@.contains(x) ==> x < match_ids@.len() && match_ids@[x as int] > w,
            forall|k: int|
                0 <= k < j && match_ids@[#[trigger] sorted@[k] as int] > w ==> fresh@.contains(
                    sorted@[k],
                ),
        decreases sorted@.len() - j,
    {
        let x = sorted[j];
        proof {
            assert(sorted@.contains(x));
        }
        if match_ids[x] > w {
            let ghost before = fresh@;
            fresh.push(x);
            proof {
                assert forall|a: int, b: int| 0 <= a < b < fresh@.len() implies asc_before(
                    match_ids@,
                    #[trigger] fresh@[a],
                    #[trigger] fresh@[b],
                ) && fresh@[a] != fresh@[b] by {
                    if b == before.len() {
                        let k = choose|k: int| 0 <= k < j && sorted@[k] == before[a];
                        assert(asc_before(match_ids@, sorted@[k], sorted@[j as int]));
                    } else {
                        assert(asc_before(match_ids@, before[a], before[b]));
                    }
                }
                assert forall|a: int| 0 <= a < fresh@.len() implies exists|k: int|
                    0 <= k < j + 1 && sorted@[k] == #[trigger] fresh@[a] by {
                    if a < before.len() {
                        assert(before[a] == fresh@[a]);
                    } else {
                        assert(sorted@[j as int] == fresh@[a]);
                    }
                }
                assert forall|y: usize| #[trigger] fresh@.contains(y) implies y < match_ids@.len()
                    && match_ids@[y as int] > w by {
                    let a = choose|a: int| 0 <= a < fresh@.len() && fresh@[a] == y;
                    if a < before.len() {
                        assert(before.contains(y));
                    }
                }
                assert forall|k: int|
                    0 <= k < j + 1 && match_ids@[#[trigger] sorted@[k] as int] > w implies fresh@.contains(
                    sorted@[k],
                ) by {
                    if k < j {
                        assert(before.contains(sorted@[k]));
                        let a = choose|a: int| 0 <= a < before.len() && before[a] == sorted@[k];
                        assert(fresh@[a] == sorted@[k]);
                    } else {
                        assert(fresh@[before.len() as int] == sorted@[k]);
                    }
                }
            }
        }
        j = j + 1;
    }
    proof {
        assert forall|y: usize| y < match_ids@.len() && match_ids@[y as int] > w implies #[trigger] fresh@.contains(
            y,
        ) by {
            assert(sorted@.contains(y));
            let k = choose|k: int| 0 <= k < sorted@.len() && sorted@[k] == y;
        }
    }
    if fresh.len() == 0 {
        proof {
            assert forall|i: int| 0 <= i < match_ids@.len() implies match_ids@[i] <= w by {
                if match_ids@[i] > w {
                    assert(fresh@.contains(i as usize));
                }
            }
        }
        TrackPlan::UpToDate
    } else {
        TrackPlan::Notify { fresh, newest }
    }
}

} // verus!
