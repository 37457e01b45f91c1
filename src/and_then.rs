use vstd::prelude::*;
use crate::animate::Animate;
use crate::then::Then;
use crate::animator::{Animator, Progress, Step};
use crate::timer::TimerState;

verus! {

/// What one tick of an `AndThen` did.
pub struct Chain<X, Y> {
    /// Whether the second member was active when the tick began, and so
    /// ticked first.
    pub second_led: bool,
    /// The tick of the first member, if it ticked.
    pub first: Option<X>,
    /// The tick of the second member, if it ticked.
    pub second: Option<Y>,
    /// Whether the host should schedule another tick.
    pub keep: bool,
    /// Whether the sequence has ended in its direction of play.
    pub done: bool,
}

/// The members of an `AndThen`.
pub struct AndThenInner<A, B> {
    pub animator: A,
    pub and_then: B,
}

/// Plays `animator` and then `and_then`; when reversing, `and_then` and
/// then `animator`, each backwards.
pub struct AndThen<A, B> {
    pub inner: AndThenInner<A, B>,
    /// Direction of the sequence.
    pub reverse: bool,
    /// Whether the second member is the active one.
    pub second: bool,
}

impl<A: Animate, B: Animate> AndThen<A, B> {
    pub fn new(animate: A, and_then: B) -> (r: AndThen<A, B>)
        ensures
            r.inner.animator == animate,
            r.inner.and_then == and_then,
            !r.reverse,
            !r.second,
    {
        AndThen { inner: AndThenInner { animator: animate, and_then }, reverse: false, second: false }
    }

    /// This animation with a completion signal.
    pub fn then(self) -> (r: Then<Self>)
        ensures
            r.inner.animator == self,
    {
        Then::new(self)
    }

    /// This sequence followed by `and_then`.
    pub fn and_then<C: Animate>(self, and_then: C) -> (r: AndThen<Self, C>)
        ensures
            r == (AndThen {
                inner: AndThenInner { animator: self, and_then },
                reverse: false,
                second: false,
            }),
    {
        AndThen::new(self, and_then)
    }

    pub open spec fn with(self, animator: A, and_then: B, second: bool) -> Self {
        AndThen { inner: AndThenInner { animator, and_then }, reverse: self.reverse, second }
    }
}

impl<A: Animate, B: Animate> Animate for AndThen<A, B> {
    type Frames = Chain<A::Frames, B::Frames>;

    /// What to show for the first member and for the second.
    type Still = (A::Still, B::Still);

    open spec fn wf(&self) -> bool {
        self.inner.animator.wf() && self.inner.and_then.wf()
    }

    /// Whether the active member runs.
    open spec fn running(&self) -> bool {
        if self.second {
            self.inner.and_then.running()
        } else {
            self.inner.animator.running()
        }
    }

    open spec fn paused(&self) -> bool {
        if self.second {
            self.inner.and_then.paused()
        } else {
            self.inner.animator.paused()
        }
    }

    open spec fn finished(&self) -> bool {
        if self.second {
            self.inner.and_then.finished()
        } else {
            self.inner.animator.finished()
        }
    }

    open spec fn reversing(&self) -> bool {
        self.reverse
    }

    open spec fn keep(r: Chain<A::Frames, B::Frames>) -> bool {
        r.keep
    }

    open spec fn done(r: Chain<A::Frames, B::Frames>) -> bool {
        r.done
    }

    open spec fn still_at(&self, now: u64) -> (A::Still, B::Still) {
        (self.inner.animator.still_at(now), self.inner.and_then.still_at(now))
    }

    /// Unless the active member is paused, play begins afresh at the member
    /// that leads in the direction of play.
    open spec fn spec_start(&self, now: u64) -> Self {
        if self.running() {
            *self
        } else if self.paused() {
            if self.second {
                self.with(self.inner.animator, self.inner.and_then.spec_start(now), true)
            } else {
                self.with(self.inner.animator.spec_start(now), self.inner.and_then, false)
            }
        } else {
            self.spec_restart(now)
        }
    }

    /// Pauses the active member.
    open spec fn spec_pause(&self, now: u64) -> Self {
        if self.second {
            self.with(self.inner.animator, self.inner.and_then.spec_pause(now), true)
        } else {
            self.with(self.inner.animator.spec_pause(now), self.inner.and_then, false)
        }
    }

    /// Back to the start of the first member, resetting the second one too
    /// if it was active.
    open spec fn spec_reset(&self) -> Self {
        if self.second {
            self.with(self.inner.animator.spec_reset(), self.inner.and_then.spec_reset(), false)
        } else {
            self.with(self.inner.animator.spec_reset(), self.inner.and_then, false)
        }
    }

    /// Finishes both members and makes the second one active.
    open spec fn spec_finish(&self) -> Self {
        self.with(self.inner.animator.spec_finish(), self.inner.and_then.spec_finish(), true)
    }

    /// Sets the direction of the sequence and of both members; the active
    /// member stays active.
    open spec fn spec_reverse(&self, on: bool, now: u64) -> Self {
        AndThen {
            inner: AndThenInner {
                animator: self.inner.animator.spec_reverse(on, now),
                and_then: self.inner.and_then.spec_reverse(on, now),
            },
            reverse: on,
            second: self.second,
        }
    }

    /// The member that leads in the direction of play starts afresh.
    open spec fn spec_restart(&self, now: u64) -> Self {
        if self.reverse {
            self.with(self.inner.animator, self.inner.and_then.spec_restart(now), true)
        } else {
            self.with(self.inner.animator.spec_restart(now), self.inner.and_then, false)
        }
    }

    /// The active member ticks; if that ends it in the direction of play
    /// (the first member forwards, the second backwards), the other member
    /// becomes active, starts afresh, and ticks at once.
    open spec fn ticked(&self, next: Self, now: u64, r: Chain<A::Frames, B::Frames>) -> bool {
        let a = self.inner.animator;
        let b = self.inner.and_then;
        let na = next.inner.animator;
        let nb = next.inner.and_then;
        &&& next.reverse == self.reverse
        &&& r.second_led == self.second
        &&& if !self.second {
            &&& r.first is Some
            &&& a.ticked(na, now, r.first->0)
            &&& if A::done(r.first->0) && !self.reverse {
                &&& next.second
                &&& r.second is Some
                &&& b.spec_restart(now).ticked(nb, now, r.second->0)
                &&& r.keep == B::keep(r.second->0)
                &&& r.done == B::done(r.second->0)
            } else {
                &&& !next.second
                &&& r.second is None
                &&& nb == b
                &&& r.keep == A::keep(r.first->0)
                &&& r.done == A::done(r.first->0)
            }
        } else {
            &&& r.second is Some
            &&& b.ticked(nb, now, r.second->0)
            &&& if B::done(r.second->0) && self.reverse {
                &&& !next.second
                &&& r.first is Some
                &&& a.spec_restart(now).ticked(na, now, r.first->0)
                &&& r.keep == A::keep(r.first->0)
                &&& r.done == A::done(r.first->0)
            } else {
                &&& next.second
                &&& r.first is None
                &&& na == a
                &&& r.keep == B::keep(r.second->0)
                &&& r.done == B::done(r.second->0)
            }
        }
    }

    proof fn lemma_ticked(&self, next: Self, now: u64, r: Chain<A::Frames, B::Frames>) {
        let a = self.inner.animator;
        let b = self.inner.and_then;
        if !self.second {
            a.lemma_ticked(next.inner.animator, now, r.first->0);
            if A::done(r.first->0) && !self.reverse {
                b.spec_restart(now).lemma_ticked(next.inner.and_then, now, r.second->0);
            }
        } else {
            b.lemma_ticked(next.inner.and_then, now, r.second->0);
            if B::done(r.second->0) && self.reverse {
                a.spec_restart(now).lemma_ticked(next.inner.animator, now, r.first->0);
            }
        }
    }

    fn tick(&mut self, now: u64) -> (r: Chain<A::Frames, B::Frames>) {
        if !self.second {
            let lead = self.inner.animator.tick(now);
            if A::is_done(&lead) && !self.reverse {
                self.second = true;
                self.inner.and_then.restart(now);
                let follow = self.inner.and_then.tick(now);
                let keep = B::is_keep(&follow);
                let done = B::is_done(&follow);
                Chain { second_led: false, first: Some(lead), second: Some(follow), keep, done }
            } else {
                let keep = A::is_keep(&lead);
                let done = A::is_done(&lead);
                Chain { second_led: false, first: Some(lead), second: None, keep, done }
            }
        } else {
            let lead = self.inner.and_then.tick(now);
            if B::is_done(&lead) && self.reverse {
                self.second = false;
                self.inner.animator.restart(now);
                let follow = self.inner.animator.tick(now);
                let keep = A::is_keep(&follow);
                let done = A::is_done(&follow);
                Chain { second_led: true, first: Some(follow), second: Some(lead), keep, done }
            } else {
                let keep = B::is_keep(&lead);
                let done = B::is_done(&lead);
                Chain { second_led: true, first: None, second: Some(lead), keep, done }
            }
        }
    }

    fn is_keep(r: &Chain<A::Frames, B::Frames>) -> (b: bool) {
        r.keep
    }

    fn is_done(r: &Chain<A::Frames, B::Frames>) -> (b: bool) {
        r.done
    }

    fn start(&mut self, now: u64) -> (r: bool) {
        if self.is_running() {
            return false;
        }
        if self.is_paused() {
            if self.second {
                self.inner.and_then.start(now);
            } else {
                self.inner.animator.start(now);
            }
        } else {
            self.restart(now);
        }
        true
    }

    fn restart(&mut self, now: u64) {
        self.second = self.reverse;
        if self.reverse {
            self.inner.and_then.restart(now);
        } else {
            self.inner.animator.restart(now);
        }
    }

    fn pause(&mut self, now: u64) {
        if self.second {
            self.inner.and_then.pause(now)
        } else {
            self.inner.animator.pause(now)
        }
    }

    fn reset(&mut self, now: u64) -> (r: (A::Still, B::Still)) {
        if self.second {
            self.second = false;
            self.inner.and_then.reset(now);
        }
        let a = self.inner.animator.reset(now);
        (a, self.inner.and_then.shown(now))
    }

    fn finish(&mut self, now: u64) -> (r: (A::Still, B::Still)) {
        let a = self.inner.animator.finish(now);
        self.second = true;
        let b = self.inner.and_then.finish(now);
        (a, b)
    }

    fn reverse(&mut self, on: bool, now: u64) {
        self.reverse = on;
        self.inner.animator.reverse(on, now);
        self.inner.and_then.reverse(on, now);
    }

    fn shown(&self, now: u64) -> (r: (A::Still, B::Still)) {
        (self.inner.animator.shown(now), self.inner.and_then.shown(now))
    }

    fn is_running(&self) -> (r: bool) {
        if self.second {
            self.inner.and_then.is_running()
        } else {
            self.inner.animator.is_running()
        }
    }

    fn is_paused(&self) -> (r: bool) {
        if self.second {
            self.inner.and_then.is_paused()
        } else {
            self.inner.animator.is_paused()
        }
    }

    fn is_finished(&self) -> (r: bool) {
        if self.second {
            self.inner.and_then.is_finished()
        } else {
            self.inner.animator.is_finished()
        }
    }

    fn is_reversing(&self) -> (r: bool) {
        self.reverse
    }
}

/// The hand-over happens within one tick: forwards, the tick that ends the
/// first member ticks it once, makes the second active, starts it afresh and
/// ticks it at once, and reports that tick's outcome; backwards the same
/// holds with the members' roles exchanged. Otherwise only the active member
/// ticks and stays active.
pub proof fn lemma_switch<A: Animate, B: Animate>(
    x: AndThen<A, B>,
    y: AndThen<A, B>,
    now: u64,
    r: Chain<A::Frames, B::Frames>,
)
    requires
        x.ticked(y, now, r),
    ensures
        !x.second && !x.reverse && A::done(r.first->0) ==> {
            &&& x.inner.animator.ticked(y.inner.animator, now, r.first->0)
            &&& y.second
            &&& x.inner.and_then.spec_restart(now).ticked(y.inner.and_then, now, r.second->0)
            &&& r.keep == B::keep(r.second->0)
            &&& r.done == B::done(r.second->0)
        },
        x.second && x.reverse && B::done(r.second->0) ==> {
            &&& x.inner.and_then.ticked(y.inner.and_then, now, r.second->0)
            &&& !y.second
            &&& x.inner.animator.spec_restart(now).ticked(y.inner.animator, now, r.first->0)
            &&& r.keep == A::keep(r.first->0)
            &&& r.done == A::done(r.first->0)
        },
        !x.second && !(!x.reverse && A::done(r.first->0)) ==> !y.second && r.second is None
            && y.inner.and_then == x.inner.and_then,
        x.second && !(x.reverse && B::done(r.second->0)) ==> y.second && r.first is None
            && y.inner.animator == x.inner.animator,
{
}

/// The hand-over between two single animations skips and repeats nothing.
/// Forwards, the tick that ends the first member shows it at 1 and makes the
/// second active, shown (if at all) at 0; backwards, the tick that ends the
/// second member shows it at 0 and makes the first active, shown (if at
/// all) at 1.
pub proof fn lemma_handover<F: Fn() -> bool, G: Fn() -> bool>(
    x: AndThen<Animator<F>, Animator<G>>,
    y: AndThen<Animator<F>, Animator<G>>,
    now: u64,
    r: Chain<Step, Step>,
)
    requires
        x.ticked(y, now, r),
        x.inner.animator.state.reverse == x.reverse,
        x.inner.and_then.state.reverse == x.reverse,
        x.inner.animator.state.timer.duration > 0,
        x.inner.and_then.state.timer.duration > 0,
    ensures
        !x.second && !x.reverse && r.first->0.done ==> {
            &&& r.first->0.frame == Some(
                Progress {
                    num: x.inner.animator.state.timer.duration,
                    den: x.inner.animator.state.timer.duration,
                },
            )
            &&& y.second
            &&& r.second is Some
            &&& r.second->0.frame is Some ==> r.second->0.frame->0 == Progress {
                num: 0,
                den: x.inner.and_then.state.timer.duration,
            }
        },
        x.second && x.reverse && r.second->0.done ==> {
            &&& r.second->0.frame == Some(
                Progress { num: 0, den: x.inner.and_then.state.timer.duration },
            )
            &&& !y.second
            &&& r.first is Some
            &&& r.first->0.frame is Some ==> r.first->0.frame->0 == Progress {
                num: x.inner.animator.state.timer.duration,
                den: x.inner.animator.state.timer.duration,
            }
        },
{
}

} // verus!

verus! {

/// A sequence of two single animations started from rest plays its first
/// member forwards; reversed before it starts, it plays its second member
/// first, from the end (shown at 1) backwards.
pub proof fn lemma_reversed_start<F: Fn() -> bool, G: Fn() -> bool>(
    x: AndThen<Animator<F>, Animator<G>>,
    t0: u64,
    s: u64,
)
    requires
        x.inner.animator.state.timer.state == TimerState::Unstart,
        x.inner.and_then.state.timer.state == TimerState::Unstart,
        !x.inner.animator.state.reverse,
        !x.inner.and_then.state.reverse,
        !x.reverse,
        !x.second,
        x.inner.and_then.state.timer.duration > 0,
    ensures
        !x.spec_start(s).second,
        x.spec_start(s).inner.animator.running(),
        ({
            let y = x.spec_reverse(true, t0).spec_start(s);
            &&& y.second
            &&& y.inner.and_then.running()
            &&& y.inner.and_then.frame_at(s) == Progress {
                num: x.inner.and_then.state.timer.duration,
                den: x.inner.and_then.state.timer.duration,
            }
        }),
{
}

} // verus!

verus! {

proof fn lemma_run_direction<A: Animate, B: Animate>(
    s: Seq<AndThen<A, B>>,
    t: Seq<u64>,
    r: Seq<Chain<A::Frames, B::Frames>>,
    k: nat,
)
    requires
        s.len() == t.len() + 1,
        r.len() == t.len(),
        k <= t.len(),
        forall|i: int| 0 <= i < t.len() ==> #[trigger] s[i].ticked(s[i + 1], t[i], r[i]),
    ensures
        s[k as int].reverse == s[0].reverse,
    decreases k,
{
    if k > 0 {
        lemma_run_direction(s, t, r, (k - 1) as nat);
        assert(s[k - 1].ticked(s[k - 1 + 1], t[k - 1], r[k - 1]));
    }
}

proof fn lemma_run_phase<A: Animate, B: Animate>(
    s: Seq<AndThen<A, B>>,
    t: Seq<u64>,
    r: Seq<Chain<A::Frames, B::Frames>>,
    i: nat,
    j: nat,
)
    requires
        s.len() == t.len() + 1,
        r.len() == t.len(),
        i <= j <= t.len(),
        forall|k: int| 0 <= k < t.len() ==> #[trigger] s[k].ticked(s[k + 1], t[k], r[k]),
    ensures
        s[0].reverse && !s[i as int].second ==> !s[j as int].second,
        !s[0].reverse && s[i as int].second ==> s[j as int].second,
    decreases j - i,
{
    if j > i {
        lemma_run_phase(s, t, r, i, (j - 1) as nat);
        lemma_run_direction(s, t, r, (j - 1) as nat);
        assert(s[j - 1].ticked(s[j - 1 + 1], t[j - 1], r[j - 1]));
    }
}

/// Over any run of ticks a sequence keeps its direction and visits its
/// members in order: forwards, once the second member is active it stays
/// active, and the second member ticks only from the hand-over on;
/// backwards, once the first member is active it stays active, and the first
/// member ticks only from the hand-over on.
pub proof fn lemma_run_order<A: Animate, B: Animate>(
    s: Seq<AndThen<A, B>>,
    t: Seq<u64>,
    r: Seq<Chain<A::Frames, B::Frames>>,
)
    requires
        s.len() == t.len() + 1,
        r.len() == t.len(),
        forall|k: int| 0 <= k < t.len() ==> #[trigger] s[k].ticked(s[k + 1], t[k], r[k]),
    ensures
        forall|k: int| 0 <= k <= t.len() ==> #[trigger] s[k].reverse == s[0].reverse,
        forall|i: int, j: int|
            0 <= i <= j <= t.len() ==> (s[0].reverse && !#[trigger] s[i].second ==> !#[trigger] s[
                j
            ].second),
        forall|i: int, j: int|
            0 <= i <= j <= t.len() ==> (!s[0].reverse && #[trigger] s[i].second ==> #[trigger] s[
                j
            ].second),
        forall|k: int|
            0 <= k < t.len() && (#[trigger] r[k]).second is Some && !s[k].second ==> !s[0].reverse
                && s[k + 1].second,
        forall|k: int|
            0 <= k < t.len() && (#[trigger] r[k]).first is Some && s[k].second ==> s[0].reverse
                && !s[k + 1].second,
{
    assert forall|k: int| 0 <= k <= t.len() implies #[trigger] s[k].reverse == s[0].reverse by {
        lemma_run_direction(s, t, r, k as nat);
    }
    assert forall|i: int, j: int| 0 <= i <= j <= t.len() implies (s[0].reverse
        && !#[trigger] s[i].second ==> !#[trigger] s[j].second) by {
        lemma_run_phase(s, t, r, i as nat, j as nat);
    }
    assert forall|i: int, j: int| 0 <= i <= j <= t.len() implies (!s[0].reverse
        && #[trigger] s[i].second ==> #[trigger] s[j].second) by {
        lemma_run_phase(s, t, r, i as nat, j as nat);
    }
    assert forall|k: int|
        0 <= k < t.len() && (#[trigger] r[k]).second is Some && !s[k].second implies !s[0].reverse
        && s[k + 1].second by {
        lemma_run_direction(s, t, r, k as nat);
        assert(s[k].ticked(s[k + 1], t[k], r[k]));
    }
    assert forall|k: int|
        0 <= k < t.len() && (#[trigger] r[k]).first is Some && s[k].second implies s[0].reverse
        && !s[k + 1].second by {
        lemma_run_direction(s, t, r, k as nat);
        assert(s[k].ticked(s[k + 1], t[k], r[k]));
    }
}

} // verus!
