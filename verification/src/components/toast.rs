//! Transient notifications: their kinds, their lifetime, and the manager that
//! numbers, keeps and retires them.

use vstd::prelude::*;
use std::time::{Duration, Instant};
use crate::icons::action;

verus! {

#[verifier::external_type_specification]
#[verifier::external_body]
pub struct ExInstant(Instant);

/// Calls `Instant::now`; the result is the machine's clock reading, of which
/// nothing is claimed.
#[verifier::external_body]
fn instant_now() -> Instant {
    Instant::now()
}

/// Calls `Instant::elapsed`; the time since `start` depends on the clock, so
/// nothing is claimed of it.
#[verifier::external_body]
fn instant_elapsed(start: &Instant) -> Duration {
    start.elapsed()
}

/// Calls `Duration::as_nanos`. Without a model of `Duration` nothing is
/// claimed of the count; the only durations passed here are clock readings.
#[verifier::external_body]
fn duration_as_nanos(d: &Duration) -> u128 {
    d.as_nanos()
}

/// A notification as sent from anywhere in the app.
pub struct ToastEvent {
    pub title: String,
    pub message: String,
    pub status: ToastStatus,
}

#[derive(Debug, Clone, Copy, PartialEq, Eq, Structural)]
pub enum ToastStatus {
    Success,
    Error,
    Warning,
    Info,
}

impl ToastStatus {
    /// The glyph shown beside a notification of this kind.
    pub fn icon(&self) -> (glyph: &'static str)
        ensures
            glyph == match *self {
                ToastStatus::Success => action::CHECK,
                ToastStatus::Error => action::CLOSE,
                ToastStatus::Warning => action::WARNING,
                ToastStatus::Info => action::INFO,
            },
    {
        match self {
            ToastStatus::Success => action::CHECK,
            ToastStatus::Error => action::CLOSE,
            ToastStatus::Warning => action::WARNING,
            ToastStatus::Info => action::INFO,
        }
    }
}

pub struct Toast {
    pub id: usize,
    pub title: String,
    pub message: String,
    pub status: ToastStatus,
    pub created_at: Instant,
    /// How long the toast stays on screen, in whole seconds.
    pub duration_secs: u64,
}

impl Clone for Toast {
    fn clone(&self) -> (copy: Self)
        ensures
            copy == *self,
    {
        Toast {
            id: self.id,
            title: self.title.clone(),
            message: self.message.clone(),
            status: self.status,
            created_at: self.created_at,
            duration_secs: self.duration_secs,
        }
    }
}

impl Toast {
    /// A toast created now, shown for `duration_secs` seconds.
    pub fn new(id: usize, title: String, message: String, status: ToastStatus, duration_secs: u64) -> (toast: Self)
        ensures
            toast.id == id,
            toast.title == title,
            toast.message == message,
            toast.status == status,
            toast.duration_secs == duration_secs,
    {
        Toast { id, title, message, status, created_at: instant_now(), duration_secs }
    }

    /// Whether a toast that has been on screen for `elapsed_nanos` nanoseconds
    /// has outlived its duration.
    pub fn expired_after(&self, elapsed_nanos: u128) -> (expired: bool)
        ensures
            expired == (elapsed_nanos >= self.duration_secs * 1_000_000_000),
    {
        elapsed_nanos >= (self.duration_secs as u128) * 1_000_000_000
    }

    /// Whether the toast has outlived its duration by the clock; one shown
    /// for zero seconds is expired at once.
    pub fn is_expired(&self) -> (expired: bool)
        ensures
            self.duration_secs == 0 ==> expired,
    {
        let elapsed = instant_elapsed(&self.created_at);
        self.expired_after(duration_as_nanos(&elapsed))
    }
}

/// The toasts currently shown, oldest first, and the id the next one gets.
pub struct ToastManager {
    toasts: Vec<Toast>,
    next_id: usize,
}

/// Ids strictly increase along `toasts` and all lie below `next_id`.
pub open spec fn ids_ok(toasts: Seq<Toast>, next_id: usize) -> bool {
    &&& forall|a: int, b: int| 0 <= a < b < toasts.len() ==> (#[trigger] toasts[a]).id < (#[trigger] toasts[b]).id
    &&& forall|a: int| 0 <= a < toasts.len() ==> (#[trigger] toasts[a]).id < next_id
}

/// The toasts of `all` whose flag in `keep` is set, in order.
pub open spec fn keep_where(all: Seq<Toast>, keep: Seq<bool>) -> Seq<Toast>
    decreases all.len(),
{
    if all.len() == 0 {
        Seq::empty()
    } else {
        let rest = keep_where(all.drop_last(), keep);
        if keep[all.len() - 1] {
            rest.push(all.last())
        } else {
            rest
        }
    }
}

/// The flags that keep every toast still within its duration, the `i`-th
/// toast having been shown for `elapsed_nanos[i]` nanoseconds.
pub open spec fn unexpired_flags(toasts: Seq<Toast>, elapsed_nanos: Seq<u128>) -> Seq<bool> {
    Seq::new(
        toasts.len(),
        |i: int| !(elapsed_nanos[i] >= toasts[i].duration_secs * 1_000_000_000),
    )
}

/// The flags that keep every toast whose id differs from `id`.
pub open spec fn flags_other_than(all: Seq<Toast>, id: usize) -> Seq<bool> {
    Seq::new(all.len(), |i: int| all[i].id != id)
}

/// Shown toasts have distinct ids, each below the next id handed out: a new
/// toast's id is unlike every shown one.
pub proof fn lemma_ids_distinct(toasts: Seq<Toast>, next_id: usize)
    requires
        ids_ok(toasts, next_id),
    ensures
        forall|a: int, b: int|
            0 <= a < b < toasts.len() ==> (#[trigger] toasts[a]).id != (#[trigger] toasts[b]).id,
        forall|a: int| 0 <= a < toasts.len() ==> (#[trigger] toasts[a]).id != next_id,
{
}

/// Flags that agree on the positions of `all` select the same toasts.
proof fn lemma_keep_where_agree(all: Seq<Toast>, k1: Seq<bool>, k2: Seq<bool>)
    requires
        forall|i: int| 0 <= i < all.len() ==> k1[i] == k2[i],
    ensures
        keep_where(all, k1) == keep_where(all, k2),
    decreases all.len(),
{
    if all.len() > 0 {
        lemma_keep_where_agree(all.drop_last(), k1, k2);
    }
}

/// Dismissing a toast keeps exactly the toasts with other ids.
pub proof fn lemma_dismiss_keeps_others(toasts: Seq<Toast>, id: usize)
    ensures
        forall|t: Toast| #[trigger] keep_where(toasts, flags_other_than(toasts, id)).contains(t)
            <==> (toasts.contains(t) && t.id != id),
    decreases toasts.len(),
{
    if toasts.len() > 0 {
        let init = toasts.drop_last();
        lemma_dismiss_keeps_others(init, id);
        lemma_keep_where_agree(init, flags_other_than(toasts, id), flags_other_than(init, id));
        let rest = keep_where(init, flags_other_than(init, id));
        let kept = keep_where(toasts, flags_other_than(toasts, id));
        assert forall|t: Toast| #[trigger] kept.contains(t) <==> (toasts.contains(t) && t.id != id) by {
            if toasts.contains(t) && t.id != id {
                let k = choose|k: int| 0 <= k < toasts.len() && toasts[k] == t;
                if k < init.len() {
                    assert(init[k] == t);
                    assert(rest.contains(t));
                    let j = choose|j: int| 0 <= j < rest.len() && rest[j] == t;
                    if toasts.last().id != id {
                        assert(kept[j] == t);
                    }
                } else {
                    assert(kept.last() == t);
                }
            }
            if kept.contains(t) {
                let j = choose|j: int| 0 <= j < kept.len() && kept[j] == t;
                if toasts.last().id != id && j == kept.len() - 1 {
                    assert(toasts[toasts.len() - 1] == t);
                } else {
                    assert(rest[j] == t);
                    assert(rest.contains(t));
                    let k = choose|k: int| 0 <= k < init.len() && init[k] == t;
                    assert(toasts[k] == t);
                }
            }
        }
    }
}

impl ToastManager {
    pub closed spec fn toasts_view(&self) -> Seq<Toast> {
        self.toasts@
    }

    pub closed spec fn next_id(&self) -> usize {
        self.next_id
    }

    /// Every manager keeps its ids increasing and below the next id.
    pub closed spec fn wf(&self) -> bool {
        ids_ok(self.toasts@, self.next_id)
    }

    /// A well-formed manager's ids strictly increase along its toasts and all
    /// lie below the next id it hands out.
    pub proof fn lemma_wf_ids(&self)
        requires
            self.wf(),
        ensures
            ids_ok(self.toasts_view(), self.next_id()),
    {
    }

    pub fn new() -> (manager: Self)
        ensures
            manager.wf(),
            manager.toasts_view().len() == 0,
            manager.next_id() == 0,
    {
        ToastManager { toasts: Vec::new(), next_id: 0 }
    }

    /// The toasts on screen, oldest first.
    pub fn toasts(&self) -> (toasts: &Vec<Toast>)
        ensures
            toasts@ == self.toasts_view(),
    {
        &self.toasts
    }

    /// Another toast can get an id.
    pub fn has_room(&self) -> (room: bool)
        ensures
            room == (self.next_id() < usize::MAX),
    {
        self.next_id < usize::MAX
    }

    /// Adds a toast with the next id, shown for `duration_secs` seconds.
    pub fn push(&mut self, title: String, message: String, status: ToastStatus, duration_secs: u64)
        requires
            old(self).wf(),
            old(self).next_id() < usize::MAX,
        ensures
            final(self).wf(),
            final(self).next_id() == old(self).next_id() + 1,
            final(self).toasts_view().len() == old(self).toasts_view().len() + 1,
            final(self).toasts_view().drop_last() == old(self).toasts_view(),
            final(self).toasts_view().last().id == old(self).next_id(),
            final(self).toasts_view().last().title == title,
            final(self).toasts_view().last().message == message,
            final(self).toasts_view().last().status == status,
            final(self).toasts_view().last().duration_secs == duration_secs,
    {
        let toast = Toast::new(self.next_id, title, message, status, duration_secs);
        self.toasts.push(toast);
        self.next_id = self.next_id + 1;
        assert(self.toasts@.drop_last() =~= old(self).toasts@);
    }

    pub fn push_error(&mut self, title: String, message: String, duration_secs: u64)
        requires
            old(self).wf(),
            old(self).next_id() < usize::MAX,
        ensures
            final(self).wf(),
            final(self).next_id() == old(self).next_id() + 1,
            final(self).toasts_view().drop_last() == old(self).toasts_view(),
            final(self).toasts_view().len() == old(self).toasts_view().len() + 1,
            final(self).toasts_view().last().id == old(self).next_id(),
            final(self).toasts_view().last().title == title,
            final(self).toasts_view().last().message == message,
            final(self).toasts_view().last().status == ToastStatus::Error,
            final(self).toasts_view().last().duration_secs == duration_secs,
    {
        self.push(title, message, ToastStatus::Error, duration_secs);
    }

    pub fn push_success(&mut self, title: String, message: String, duration_secs: u64)
        requires
            old(self).wf(),
            old(self).next_id() < usize::MAX,
        ensures
            final(self).wf(),
            final(self).next_id() == old(self).next_id() + 1,
            final(self).toasts_view().drop_last() == old(self).toasts_view(),
            final(self).toasts_view().len() == old(self).toasts_view().len() + 1,
            final(self).toasts_view().last().id == old(self).next_id(),
            final(self).toasts_view().last().title == title,
            final(self).toasts_view().last().message == message,
            final(self).toasts_view().last().status == ToastStatus::Success,
            final(self).toasts_view().last().duration_secs == duration_secs,
    {
        self.push(title, message, ToastStatus::Success, duration_secs);
    }

    pub fn push_warning(&mut self, title: String, message: String, duration_secs: u64)
        requires
            old(self).wf(),
            old(self).next_id() < usize::MAX,
        ensures
            final(self).wf(),
            final(self).next_id() == old(self).next_id() + 1,
            final(self).toasts_view().drop_last() == old(self).toasts_view(),
            final(self).toasts_view().len() == old(self).toasts_view().len() + 1,
            final(self).toasts_view().last().id == old(self).next_id(),
            final(self).toasts_view().last().title == title,
            final(self).toasts_view().last().message == message,
            final(self).toasts_view().last().status == ToastStatus::Warning,
            final(self).toasts_view().last().duration_secs == duration_secs,
    {
        self.push(title, message, ToastStatus::Warning, duration_secs);
    }

    pub fn push_info(&mut self, title: String, message: String, duration_secs: u64)
        requires
            old(self).wf(),
            old(self).next_id() < usize::MAX,
        ensures
            final(self).wf(),
            final(self).next_id() == old(self).next_id() + 1,
            final(self).toasts_view().drop_last() == old(self).toasts_view(),
            final(self).toasts_view().len() == old(self).toasts_view().len() + 1,
            final(self).toasts_view().last().id == old(self).next_id(),
            final(self).toasts_view().last().title == title,
            final(self).toasts_view().last().message == message,
            final(self).toasts_view().last().status == ToastStatus::Info,
            final(self).toasts_view().last().duration_secs == duration_secs,
    {
        self.push(title, message, ToastStatus::Info, duration_secs);
    }

    pub fn has_toasts(&self) -> (some: bool)
        ensures
            some == (self.toasts_view().len() > 0),
    {
        !self.toasts.is_empty()
    }

    /// Keeps the toasts whose flag in `keep` is set, in order.
    pub fn retain_flagged(&mut self, keep: &Vec<bool>)
        requires
            old(self).wf(),
            keep@.len() == old(self).toasts_view().len(),
        ensures
            final(self).wf(),
            final(self).next_id() == old(self).next_id(),
            final(self).toasts_view() == keep_where(old(self).toasts_view(), keep@),
    {
        let ghost all = self.toasts@;
        let mut kept: Vec<Toast> = Vec::new();
        let mut i: usize = 0;
        assert(all.subrange(0, 0) =~= Seq::<Toast>::empty());
        while i < self.toasts.len()
            invariant
                self.toasts@ == all,
                keep@.len() == all.len(),
                ids_ok(all, self.next_id),
                i <= all.len(),
                kept@ == keep_where(all.subrange(0, i as int), keep@),
                forall|a: int| 0 <= a < kept@.len() ==> exists|k: int|
                    0 <= k < i && (#[trigger] kept@[a]).id == #[trigger] all[k].id,
                ids_ok(kept@, self.next_id),
            decreases all.len() - i,
        {
            let ghost before = kept@;
            if keep[i] {
                kept.push(self.toasts[i].clone());
                proof {
                    assert forall|a: int, b: int| 0 <= a < b < kept@.len() implies (#[trigger] kept@[a]).id < (#[trigger] kept@[b]).id by {
                        if b == kept@.len() - 1 {
                            let k = choose|k: int| 0 <= k < i && (#[trigger] before[a]).id == #[trigger] all[k].id;
                        }
                    }
                    assert forall|a: int| 0 <= a < kept@.len() implies exists|k: int|
                        0 <= k < i + 1 && (#[trigger] kept@[a]).id == #[trigger] all[k].id by {
                        if a == kept@.len() - 1 {
                            assert(kept@[a].id == all[i as int].id);
                        } else {
                            assert(kept@[a] == before[a]);
                        }
                    }
                }
            }
            proof {
                assert(all.subrange(0, i + 1).drop_last() =~= all.subrange(0, i as int));
            }
            i = i + 1;
        }
        assert(all.subrange(0, i as int) =~= all);
        self.toasts = kept;
    }

    /// Removes the toast with id `id`, if any; the others stay in order.
    pub fn dismiss(&mut self, id: usize)
        requires
            old(self).wf(),
        ensures
            final(self).wf(),
            final(self).next_id() == old(self).next_id(),
            final(self).toasts_view() == keep_where(
                old(self).toasts_view(),
                flags_other_than(old(self).toasts_view(), id),
            ),
    {
        let mut keep: Vec<bool> = Vec::new();
        let mut i: usize = 0;
        while i < self.toasts.len()
            invariant
                i <= self.toasts@.len(),
                keep@.len() == i,
                forall|k: int| 0 <= k < i ==> #[trigger] keep@[k] == (self.toasts@[k].id != id),
            decreases self.toasts@.len() - i,
        {
            keep.push(self.toasts[i].id != id);
            i = i + 1;
        }
        assert(keep@ =~= flags_other_than(self.toasts@, id));
        self.retain_flagged(&keep);
    }

    /// Keeps the toasts that have not outlived their duration, given how
    /// long each has been on screen (`elapsed_nanos[i]` nanoseconds for the
    /// `i`-th toast); the others stay in order.
    pub fn retain_unexpired(&mut self, elapsed_nanos: &Vec<u128>)
        requires
            old(self).wf(),
            elapsed_nanos@.len() == old(self).toasts_view().len(),
        ensures
            final(self).wf(),
            final(self).next_id() == old(self).next_id(),
            final(self).toasts_view() == keep_where(
                old(self).toasts_view(),
                unexpired_flags(old(self).toasts_view(), elapsed_nanos@),
            ),
    {
        let mut keep: Vec<bool> = Vec::new();
        let mut i: usize = 0;
        while i < self.toasts.len()
            invariant
                i <= self.toasts@.len(),
                elapsed_nanos@.len() == self.toasts@.len(),
                keep@.len() == i,
                forall|k: int| 0 <= k < i ==> #[trigger] keep@[k] == unexpired_flags(self.toasts@, elapsed_nanos@)[k],
            decreases self.toasts@.len() - i,
        {
            keep.push(!self.toasts[i].expired_after(elapsed_nanos[i]));
            i = i + 1;
        }
        assert(keep@ =~= unexpired_flags(self.toasts@, elapsed_nanos@));
        self.retain_flagged(&keep);
    }

    /// Removes the toasts that have outlived their duration by the clock; the
    /// others stay in order. What stays is what [`Self::retain_unexpired`]
    /// keeps for the clock's readings of how long each toast has been shown,
    /// so toasts shown for zero seconds always go.
    pub fn remove_expired(&mut self)
        requires
            old(self).wf(),
        ensures
            final(self).wf(),
            final(self).next_id() == old(self).next_id(),
            exists|elapsed: Seq<u128>|
                elapsed.len() == old(self).toasts_view().len() && final(self).toasts_view()
                    == #[trigger] keep_where(old(self).toasts_view(), unexpired_flags(old(self).toasts_view(), elapsed)),
    {
        let mut elapsed: Vec<u128> = Vec::new();
        let mut i: usize = 0;
        while i < self.toasts.len()
            invariant
                i <= self.toasts@.len(),
                elapsed@.len() == i,
            decreases self.toasts@.len() - i,
        {
            let reading = instant_elapsed(&self.toasts[i].created_at);
            elapsed.push(duration_as_nanos(&reading));
            i = i + 1;
        }
        let ghost readings = elapsed@;
        self.retain_unexpired(&elapsed);
        assert(final(self).toasts_view() == keep_where(
            old(self).toasts_view(),
            unexpired_flags(old(self).toasts_view(), readings),
        ));
    }

    /// Positions of the newest `limit` toasts, newest first.
    pub fn newest_first(&self, limit: usize) -> (positions: Vec<usize>)
        ensures
            positions@.len() == if self.toasts_view().len() < limit {
                self.toasts_view().len()
            } else {
                limit as nat
            },
            forall|a: int| 0 <= a < positions@.len() ==> #[trigger] positions@[a] == self.toasts_view().len() - 1 - a,
    {
        let n = self.toasts.len();
        let mut positions: Vec<usize> = Vec::new();
        let mut a: usize = 0;
        while a < n && a < limit
            invariant
                n == self.toasts@.len(),
                a <= n,
                a <= limit,
                positions@.len() == a,
                forall|b: int| 0 <= b < a ==> #[trigger] positions@[b] == n - 1 - b,
            decreases n - a,
        {
            positions.push(n - 1 - a);
            a = a + 1;
        }
        assert(a == n || a == limit);
        assert(self.toasts_view().len() == n);
        positions
    }
}

} // verus!
