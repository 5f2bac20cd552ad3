//! The win detector and the one-shot timer that a win starts.

use crate::dragon::{Dragon, DragonView};
use vstd::prelude::*;

verus! {

/// The delay between a win and the end of the round, in nanoseconds: half a second.
pub const WIN_DELAY: u64 = 500_000_000;

/// The pending win. It counts the time since the win was detected and finishes once,
/// when `WIN_DELAY` has passed.
#[derive(Clone, Copy, PartialEq, Eq, Debug, Structural)]
pub struct WinTimer {
    pub elapsed: u64,
    pub just_finished: bool,
}

impl WinTimer {
    /// A timer on which no time has passed.
    pub open spec fn started() -> WinTimer {
        WinTimer { elapsed: 0, just_finished: false }
    }

    /// Whether the delay has passed.
    pub open spec fn done(self) -> bool {
        self.elapsed >= WIN_DELAY
    }

    /// The timer after `delta` more nanoseconds. A finished timer stays as it is and
    /// no longer reports that it just finished; a running one stops at `WIN_DELAY`.
    pub open spec fn ticked(self, delta: u64) -> WinTimer {
        if self.done() {
            WinTimer { elapsed: self.elapsed, just_finished: false }
        } else if self.elapsed + delta >= WIN_DELAY {
            WinTimer { elapsed: WIN_DELAY, just_finished: true }
        } else {
            WinTimer { elapsed: (self.elapsed + delta) as u64, just_finished: false }
        }
    }

    pub fn new() -> (r: WinTimer)
        ensures
            r == WinTimer::started(),
    {
        WinTimer { elapsed: 0, just_finished: false }
    }

    /// Whether the delay has passed.
    pub fn finished(&self) -> (r: bool)
        ensures
            r == self.done(),
    {
        self.elapsed >= WIN_DELAY
    }

    /// Whether the delay ran out during the latest tick.
    pub fn just_finished(&self) -> (r: bool)
        ensures
            r == self.just_finished,
    {
        self.just_finished
    }

    /// Lets `delta` nanoseconds pass.
    pub fn tick(&mut self, delta: u64)
        ensures
            *final(self) == old(self).ticked(delta),
    {
        if self.elapsed >= WIN_DELAY {
            self.just_finished = false;
        } else if delta >= WIN_DELAY - self.elapsed {
            self.elapsed = WIN_DELAY;
            self.just_finished = true;
        } else {
            self.elapsed = self.elapsed + delta;
            self.just_finished = false;
        }
    }
}

/// Whether `a` looks `b` in the face: the cell in front of `a` is where the head of
/// `b` is, and `b` faces the other way.
pub open spec fn confronts(a: DragonView, b: DragonView) -> bool {
    a.head_position.stepped(a.direction) == Some(b.head_position) && b.direction
        == a.direction.reversed()
}

/// Whether some pair of dragons stands head to head.
pub open spec fn win_condition(dragons: Seq<DragonView>) -> bool {
    exists|i: int, j: int|
        0 <= i < dragons.len() && 0 <= j < dragons.len() && i != j && #[trigger] confronts(
            dragons[i],
            dragons[j],
        )
}

/// The win state after the detector has run: a pending win is left alone, and a win
/// is raised only where none is pending and two heads meet.
pub open spec fn detected(dragons: Seq<DragonView>, win: Option<WinTimer>) -> Option<WinTimer> {
    match win {
        Some(timer) => Some(timer),
        None => if win_condition(dragons) {
            Some(WinTimer::started())
        } else {
            None
        },
    }
}

/// Standing head to head is mutual, so a pair needs to be looked at from one side only.
pub proof fn confronting_is_mutual(a: DragonView, b: DragonView)
    ensures
        confronts(a, b) == confronts(b, a),
{
}

/// Whether `a` looks `b` in the face.
pub fn confronting(a: &Dragon, b: &Dragon) -> (r: bool)
    ensures
        r == confronts(a@, b@),
{
    match a.head_position.checked_apply_direction(a.direction) {
        Some(ahead) => ahead == b.head_position && b.direction == a.direction.opposite(),
        None => false,
    }
}

/// Looks at every pair of heads once for a head-to-head meeting.
pub fn heads_meet(dragons: &Vec<Dragon>) -> (r: bool)
    ensures
        r == win_condition(dragons.deep_view()),
{
    let ghost views = dragons.deep_view();
    let n = dragons.len();
    let mut i: usize = 0;
    while i < n
        invariant
            i <= n,
            n == dragons.len(),
            views == dragons.deep_view(),
            forall|k: int, l: int| 0 <= k < i && k < l < n ==> !confronts(views[k], views[l]),
        decreases n - i,
    {
        let mut j: usize = i + 1;
        while j < n
            invariant
                i < n,
                i < j <= n,
                n == dragons.len(),
                views == dragons.deep_view(),
                forall|k: int, l: int| 0 <= k < i && k < l < n ==> !confronts(views[k], views[l]),
                forall|l: int| i < l < j ==> !confronts(views[i as int], views[l]),
            decreases n - j,
        {
            assert(views[i as int] == dragons@[i as int]@);
            assert(views[j as int] == dragons@[j as int]@);
            if confronting(&dragons[i], &dragons[j]) {
                return true;
            }
            j += 1;
        }
        i += 1;
    }
    proof {
        assert forall|k: int, l: int| 0 <= k < n && 0 <= l < n && k != l implies !confronts(
            views[k],
            views[l],
        ) by {
            if l < k {
                confronting_is_mutual(views[l], views[k]);
            }
        }
    }
    false
}

/// The win detector. It does nothing while a win is pending; otherwise it raises the
/// win, with a fresh timer, if two heads meet. Returns whether it raised one.
pub fn check_win(dragons: &Vec<Dragon>, win: &mut Option<WinTimer>) -> (raised: bool)
    ensures
        *final(win) == detected(dragons.deep_view(), *old(win)),
        raised == (*old(win) is None && win_condition(dragons.deep_view())),
{
    if win.is_some() {
        return false;
    }
    if heads_meet(dragons) {
        *win = Some(WinTimer::new());
        true
    } else {
        false
    }
}

/// Advances a pending win by `delta` nanoseconds and tells whether the delay ran out
/// on this very tick, which ends the round.
pub fn check_win_timer(timer: &mut WinTimer, delta: u64) -> (expired: bool)
    ensures
        *final(timer) == old(timer).ticked(delta),
        expired == old(timer).ticked(delta).just_finished,
{
    timer.tick(delta);
    timer.just_finished()
}

/// Once a win is pending the detector changes nothing, whatever the dragons do.
pub proof fn pending_win_is_kept(dragons: Seq<DragonView>, timer: WinTimer)
    ensures
        detected(dragons, Some(timer)) == Some(timer),
{
}

/// Running the detector again, on the same or on any later board, never raises a
/// second win: what the first run raised is what stays.
pub proof fn detection_raises_once(
    dragons: Seq<DragonView>,
    later: Seq<DragonView>,
    win: Option<WinTimer>,
)
    requires
        detected(dragons, win) is Some,
    ensures
        detected(later, detected(dragons, win)) == detected(dragons, win),
{
}

/// A timer reports that it just finished on one tick only, and stays finished.
pub proof fn timer_finishes_once(timer: WinTimer, delta: u64, next: u64)
    ensures
        timer.ticked(delta).just_finished ==> timer.ticked(delta).done(),
        timer.ticked(delta).done() ==> !timer.ticked(delta).ticked(next).just_finished,
        timer.ticked(delta).done() ==> timer.ticked(delta).ticked(next).done(),
        timer.ticked(delta).done() <==> timer.elapsed + delta >= WIN_DELAY || timer.done(),
{
}

} // verus!
