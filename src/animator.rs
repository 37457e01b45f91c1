use vstd::prelude::*;
use crate::fps::FPS;
use crate::repeat::Repeat;
use crate::timer::{Timer, TimerState};
use crate::animate::Animate;
use crate::and_then::{AndThen, AndThenInner};
use crate::then::Then;

verus! {

/// Frames per second that an animation draws at most.
pub const MAX_FPS: u32 = 60;

/// Raw progress `num / den`, from 0 (start) to 1 (end).
#[derive(Clone, Copy, Debug, PartialEq, Eq)]
pub struct Progress {
    pub num: u64,
    pub den: u64,
}

/// What one scheduled tick did.
#[derive(Clone, Copy, Debug, PartialEq, Eq)]
pub struct Step {
    /// Progress to hand to the progress callback, if any.
    pub frame: Option<Progress>,
    /// Whether the host should schedule another tick.
    pub keep: bool,
    /// Whether this tick ended the animation's last playthrough.
    pub done: bool,
}

/// The raw progress of `timer` at `now`, in the direction given by
/// `reverse`: elapsed over target, held at 1 once the playthrough is over,
/// and mirrored to `1 - p` when reversing. An unstarted timer is at 0; a
/// zero target otherwise counts as over.
pub open spec fn progress_of(timer: Timer, reverse: bool, now: u64) -> Progress {
    let den: u64 = if timer.duration == 0 {
        1
    } else {
        timer.duration
    };
    let fwd: u64 = if timer.state is Unstart {
        0
    } else if timer.complete_at(now) {
        den
    } else {
        timer.elapsed_at(now) as u64
    };
    Progress { num: if reverse { (den - fwd) as u64 } else { fwd }, den }
}

/// A tick result.
pub open spec fn step(frame: Option<Progress>, keep: bool, done: bool) -> Step {
    Step { frame, keep, done }
}

/// The mutable state of one animation.
pub struct State<F> {
    pub timer: Timer,
    pub fps: FPS,
    pub repeat: Repeat<F>,
    pub reverse: bool,
}

impl<F: Fn() -> bool> State<F> {
    pub open spec fn wf(&self) -> bool {
        self.fps.wf() && self.repeat.callable()
    }

    pub fn new(repeat: Repeat<F>, duration: u64, now: u64) -> (r: State<F>)
        requires
            repeat.callable(),
        ensures
            r.wf(),
            r.timer == (Timer { state: TimerState::Unstart, duration: duration }),
            r.fps == (FPS { max: MAX_FPS, instant: now, counter: 0, second_timer: now }),
            r.repeat == repeat,
            !r.reverse,
    {
        State { timer: Timer::new(duration), fps: FPS::new(MAX_FPS, now), repeat, reverse: false }
    }
}

/// One animation over a fixed duration. Each tick yields the progress that
/// the host passes, eased, to its progress callback.
pub struct Animator<F> {
    pub state: State<F>,
}

impl<F: Fn() -> bool> Animator<F> {
    /// The progress shown at `now`.
    pub open spec fn frame_at(&self, now: u64) -> Progress {
        progress_of(self.state.timer, self.state.reverse, now)
    }

    pub open spec fn with_timer(self, timer: Timer) -> Self {
        Animator { state: State { timer, ..self.state } }
    }

    pub fn new(duration: u64, repeat: Repeat<F>, now: u64) -> (r: Animator<F>)
        requires
            repeat.callable(),
        ensures
            r.wf(),
            r.state.timer == (Timer { state: TimerState::Unstart, duration }),
            r.state.fps == (FPS { max: MAX_FPS, instant: now, counter: 0, second_timer: now }),
            r.state.repeat == repeat,
            !r.state.reverse,
    {
        Animator { state: State::new(repeat, duration, now) }
    }

    /// The progress shown at `now`.
    pub fn one_frame(&self, now: u64) -> (r: Progress)
        ensures
            r == self.frame_at(now),
    {
        let den: u64 = if self.state.timer.duration == 0 {
            1
        } else {
            self.state.timer.duration
        };
        let fwd: u64 = if self.state.timer.is_unstarted() {
            0
        } else if self.state.timer.is_complete(now) {
            den
        } else {
            self.state.timer.get_duration(now)
        };
        let num: u64 = if self.state.reverse {
            den - fwd
        } else {
            fwd
        };
        Progress { num, den }
    }

    pub fn set_repeat(&mut self, repeat: Repeat<F>)
        requires
            repeat.callable(),
            old(self).wf(),
        ensures
            final(self).wf(),
            *final(self) == (Animator { state: State { repeat, ..old(self).state } }),
    {
        self.state.repeat = repeat;
    }

    /// This animation with a completion signal.
    pub fn then(self) -> (r: Then<Self>)
        ensures
            r.inner.animator == self,
    {
        Then::new(self)
    }

    /// This animation followed by `and_then`.
    pub fn and_then<B: Animate>(self, and_then: B) -> (r: AndThen<Self, B>)
        ensures
            r == (AndThen {
                inner: AndThenInner { animator: self, and_then },
                reverse: false,
                second: false,
            }),
    {
        AndThen::new(self, and_then)
    }
}

impl<F: Fn() -> bool> Animate for Animator<F> {
    type Frames = Step;

    type Still = Progress;

    open spec fn wf(&self) -> bool {
        self.state.wf()
    }

    open spec fn running(&self) -> bool {
        self.state.timer.running()
    }

    open spec fn paused(&self) -> bool {
        self.state.timer.state is Paused
    }

    open spec fn finished(&self) -> bool {
        self.state.timer.state == TimerState::Finish
    }

    open spec fn reversing(&self) -> bool {
        self.state.reverse
    }

    open spec fn keep(r: Step) -> bool {
        r.keep
    }

    open spec fn done(r: Step) -> bool {
        r.done
    }

    open spec fn still_at(&self, now: u64) -> Progress {
        self.frame_at(now)
    }

    open spec fn spec_start(&self, now: u64) -> Self {
        if self.state.timer.running() {
            *self
        } else {
            self.with_timer(self.state.timer.spec_run(now))
        }
    }

    open spec fn spec_pause(&self, now: u64) -> Self {
        self.with_timer(self.state.timer.spec_pause(now))
    }

    open spec fn spec_reset(&self) -> Self {
        self.with_timer(self.state.timer.with_state(TimerState::Unstart))
    }

    open spec fn spec_finish(&self) -> Self {
        self.with_timer(self.state.timer.with_state(TimerState::Finish))
    }

    open spec fn spec_reverse(&self, on: bool, now: u64) -> Self {
        if on == self.state.reverse {
            *self
        } else {
            Animator {
                state: State { timer: self.state.timer.spec_reverse(now), reverse: on, ..self.state },
            }
        }
    }

    open spec fn spec_restart(&self, now: u64) -> Self {
        self.with_timer(self.state.timer.with_state(TimerState::Running(now, 0)))
    }

    /// How one tick at `now` may take the animation from `self` to `next`
    /// with result `r`.
    open spec fn ticked(&self, next: Self, now: u64, r: Step) -> bool {
        let s = self.state;
        let n = next.state;
        if !s.timer.running() {
            next == *self && r == step(None, false, false)
        } else if !s.fps.accepts(now) {
            next == *self && r == step(None, true, false)
        } else {
            &&& n.fps == s.fps.accepted(now)
            &&& n.reverse == s.reverse
            &&& if !s.timer.complete_at(now) {
                &&& n.timer == s.timer
                &&& n.repeat == s.repeat
                &&& r == step(Some(self.frame_at(now)), true, false)
            } else {
                &&& s.repeat.next(n.repeat, r.keep)
                &&& if r.keep {
                    n.timer == s.timer.with_state(TimerState::Running(now, 0)) && r.frame is None
                        && !r.done
                } else {
                    &&& n.timer == s.timer.with_state(TimerState::Finish)
                    &&& r.frame == Some(next.frame_at(now))
                    &&& r.done
                }
            }
        }
    }

    proof fn lemma_ticked(&self, next: Self, now: u64, r: Step) {
    }

    /// One scheduled tick at `now`: stops if the animation no longer runs;
    /// skips the frame if the frame limiter rejects it; shows the progress
    /// while the playthrough lasts; at its end either plays again from the
    /// start or finishes, as the repeat policy says.
    fn tick(&mut self, now: u64) -> (r: Step) {
        if !self.state.timer.is_running() {
            return Step { frame: None, keep: false, done: false };
        }
        if !self.state.fps.update(now) {
            return Step { frame: None, keep: true, done: false };
        }
        if !self.state.timer.is_complete(now) {
            let p = self.one_frame(now);
            Step { frame: Some(p), keep: true, done: false }
        } else if self.state.repeat.shoud_continue() {
            self.state.timer.restart(now);
            Step { frame: None, keep: true, done: false }
        } else {
            let p = self.finish(now);
            Step { frame: Some(p), keep: false, done: true }
        }
    }

    fn start(&mut self, now: u64) -> (r: bool) {
        if !self.state.timer.is_running() {
            self.state.timer.run(now);
            true
        } else {
            false
        }
    }

    fn is_done(r: &Step) -> (b: bool) {
        r.done
    }

    fn is_keep(r: &Step) -> (b: bool) {
        r.keep
    }

    fn restart(&mut self, now: u64) {
        self.state.timer.restart(now);
    }

    fn pause(&mut self, now: u64) {
        self.state.timer.pause(now);
    }

    /// Returns the progress to show at rest: 0, or 1 when reversing.
    fn reset(&mut self, now: u64) -> (r: Progress) {
        self.state.timer.reset();
        self.one_frame(now)
    }

    /// Returns the progress to show at the end: 1, or 0 when reversing.
    fn finish(&mut self, now: u64) -> (r: Progress) {
        self.state.timer.finish();
        self.one_frame(now)
    }

    /// A change of direction mirrors the timer, so the animation carries on
    /// from the point it shows.
    fn reverse(&mut self, on: bool, now: u64) {
        if on != self.state.reverse {
            self.state.timer.reverse(now);
            self.state.reverse = on;
        }
    }

    fn shown(&self, now: u64) -> (r: Progress) {
        self.one_frame(now)
    }

    fn is_running(&self) -> (r: bool) {
        self.state.timer.is_running()
    }

    fn is_paused(&self) -> (r: bool) {
        self.state.timer.is_paused()
    }

    fn is_finished(&self) -> (r: bool) {
        self.state.timer.is_finished()
    }

    fn is_reversing(&self) -> (r: bool) {
        self.state.reverse
    }
}

} // verus!

verus! {

/// Within one uninterrupted playthrough the progress shown by successive
/// ticks stays between 0 and 1 and never decreases, or, when reversing,
/// never increases.
pub proof fn lemma_progress_monotone<F: Fn() -> bool>(
    a: Animator<F>,
    b: Animator<F>,
    c: Animator<F>,
    t1: u64,
    t2: u64,
    r1: Step,
    r2: Step,
)
    requires
        t1 <= t2,
        a.ticked(b, t1, r1),
        b.ticked(c, t2, r2),
        r1.frame is Some,
        r2.frame is Some,
    ensures
        r1.frame->0.den == r2.frame->0.den,
        r1.frame->0.num <= r1.frame->0.den,
        r2.frame->0.num <= r2.frame->0.den,
        !a.state.reverse ==> r1.frame->0.num <= r2.frame->0.num,
        a.state.reverse ==> r1.frame->0.num >= r2.frame->0.num,
{
}

/// Reversing an animation before it starts plays the mirrored sequence: at
/// every clock reading its progress is one minus that of the same animation
/// started forwards at the same time.
pub proof fn lemma_reverse_before_start<F: Fn() -> bool>(x: Animator<F>, t0: u64, s: u64, t: u64)
    requires
        x.state.timer.state == TimerState::Unstart,
        !x.state.reverse,
    ensures
        ({
            let fwd = x.with_timer(x.state.timer.spec_run(s));
            let y = Animator {
                state: State { timer: x.state.timer.spec_reverse(t0), reverse: true, ..x.state },
            };
            let bwd = y.with_timer(y.state.timer.spec_run(s));
            &&& bwd.frame_at(t).den == fwd.frame_at(t).den
            &&& bwd.frame_at(t).num == fwd.frame_at(t).den - fwd.frame_at(t).num
        }),
{
}

/// Reversing a running animation mid-playthrough keeps the progress it
/// shows at that moment: only the direction changes.
pub proof fn lemma_reverse_keeps_position<F: Fn() -> bool>(x: Animator<F>, on: bool, t: u64)
    requires
        x.running(),
        on != x.state.reverse,
        x.state.timer.elapsed_at(t) < x.state.timer.duration,
    ensures
        ({
            let y = Animator {
                state: State { timer: x.state.timer.spec_reverse(t), reverse: on, ..x.state },
            };
            y.frame_at(t) == x.frame_at(t)
        }),
{
}

} // verus!

verus! {

/// Whether the tick of `a` at `now` ends a playthrough: the animation runs,
/// the frame limiter accepts the frame, and the target is reached.
pub open spec fn at_end<F: Fn() -> bool>(a: Animator<F>, now: u64) -> bool {
    a.state.timer.running() && a.state.fps.accepts(now) && a.state.timer.complete_at(now)
}

/// How many of the first `i` ticks of a run end a playthrough; tick `j`
/// takes `s[j]` at clock reading `t[j]`.
pub open spec fn ends_before<F: Fn() -> bool>(s: Seq<Animator<F>>, t: Seq<u64>, i: nat) -> nat
    decreases i,
{
    if i == 0 {
        0
    } else {
        ends_before(s, t, (i - 1) as nat) + if at_end(s[i - 1], t[i - 1]) {
            1nat
        } else {
            0nat
        }
    }
}

/// What holds after `k` ticks of a run under a count of `n`.
pub open spec fn count_run_holds<F: Fn() -> bool>(
    n: u32,
    s: Seq<Animator<F>>,
    t: Seq<u64>,
    k: nat,
) -> bool {
    let b = ends_before(s, t, k);
    &&& b <= n
    &&& s[k as int].state.repeat == Repeat::<F>::Count(n, (n - b) as u32) || (b == 0
        && s[k as int].state.repeat == Repeat::<F>::Count(n, 0))
    &&& b == n ==> !s[k as int].state.timer.running()
}

proof fn lemma_count_run_step<F: Fn() -> bool>(
    n: u32,
    s: Seq<Animator<F>>,
    t: Seq<u64>,
    r: Seq<Step>,
    k: nat,
)
    requires
        n >= 1,
        k < t.len(),
        s.len() == t.len() + 1,
        r.len() == t.len(),
        s[k as int].ticked(s[k + 1int], t[k as int], r[k as int]),
        count_run_holds(n, s, t, k),
    ensures
        count_run_holds(n, s, t, k + 1),
        at_end(s[k as int], t[k as int]) ==> {
            &&& ends_before(s, t, k) < n
            &&& r[k as int].done == (ends_before(s, t, k) + 1 == n)
            &&& r[k as int].keep == !r[k as int].done
            &&& !r[k as int].done ==> s[k + 1int].state.timer.state == TimerState::Running(
                t[k as int],
                0,
            )
        },
{
    assert(ends_before(s, t, k + 1) == ends_before(s, t, k) + if at_end(s[k as int], t[k as int]) {
        1nat
    } else {
        0nat
    });
}

proof fn lemma_count_run_holds<F: Fn() -> bool>(
    n: u32,
    s: Seq<Animator<F>>,
    t: Seq<u64>,
    r: Seq<Step>,
    k: nat,
)
    requires
        n >= 1,
        k <= t.len(),
        s.len() == t.len() + 1,
        r.len() == t.len(),
        s[0].state.repeat == Repeat::<F>::Count(n, n) || s[0].state.repeat == Repeat::<F>::Count(
            n,
            0,
        ),
        forall|i: int| 0 <= i < t.len() ==> #[trigger] s[i].ticked(s[i + 1], t[i], r[i]),
    ensures
        count_run_holds(n, s, t, k),
    decreases k,
{
    if k > 0 {
        lemma_count_run_holds(n, s, t, r, (k - 1) as nat);
        assert(s[k - 1].ticked(s[k - 1 + 1], t[k - 1], r[k - 1]));
        lemma_count_run_step(n, s, t, r, (k - 1) as nat);
    }
}

/// A count of `n` plays exactly `n` times over any run of ticks: each of the
/// first `n - 1` playthrough ends restarts the timer and keeps ticking, the
/// `n`-th finishes and stops, and no playthrough ends after it. The count is
/// then exhausted, which a run may start from too, so that a later start
/// again plays `n` times.
pub proof fn lemma_count_run<F: Fn() -> bool>(
    n: u32,
    s: Seq<Animator<F>>,
    t: Seq<u64>,
    r: Seq<Step>,
)
    requires
        n >= 1,
        s.len() == t.len() + 1,
        r.len() == t.len(),
        s[0].state.repeat == Repeat::<F>::Count(n, n) || s[0].state.repeat == Repeat::<F>::Count(
            n,
            0,
        ),
        forall|i: int| 0 <= i < t.len() ==> #[trigger] s[i].ticked(s[i + 1], t[i], r[i]),
    ensures
        forall|i: int|
            0 <= i < t.len() && #[trigger] at_end(s[i], t[i]) ==> {
                &&& ends_before(s, t, i as nat) < n
                &&& r[i].done == (ends_before(s, t, i as nat) + 1 == n)
                &&& r[i].keep == !r[i].done
                &&& !r[i].done ==> s[i + 1].state.timer.state == TimerState::Running(t[i], 0)
            },
        ends_before(s, t, t.len()) <= n,
        ends_before(s, t, t.len()) == n ==> !s[t.len() as int].state.timer.running()
            && s[t.len() as int].state.repeat == Repeat::<F>::Count(n, 0),
{
    assert forall|i: int|
        0 <= i < t.len() && #[trigger] at_end(s[i], t[i]) implies {
        &&& ends_before(s, t, i as nat) < n
        &&& r[i].done == (ends_before(s, t, i as nat) + 1 == n)
        &&& r[i].keep == !r[i].done
        &&& !r[i].done ==> s[i + 1].state.timer.state == TimerState::Running(t[i], 0)
    } by {
        lemma_count_run_holds(n, s, t, r, i as nat);
        assert(s[i].ticked(s[i + 1], t[i], r[i]));
        lemma_count_run_step(n, s, t, r, i as nat);
    }
    lemma_count_run_holds(n, s, t, r, t.len());
}

} // verus!
