use vstd::prelude::*;
use crate::animate::Animate;
use crate::and_then::{AndThen, AndThenInner};

verus! {

/// What one tick of a `Then` did.
pub struct Completion<X> {
    /// The tick of the wrapped animation.
    pub frames: X,
    /// Whether the host calls the completion callback after this tick.
    pub completed: bool,
}

/// The wrapped animation.
pub struct ThenInner<A> {
    pub animator: A,
}

/// An animation with a completion signal: the tick that ends the wrapped
/// animation reports `completed`, on which the host calls the completion
/// callback. Every control goes to the wrapped animation.
pub struct Then<A> {
    pub inner: ThenInner<A>,
}

impl<A: Animate> Then<A> {
    pub fn new(animate: A) -> (r: Then<A>)
        ensures
            r.inner.animator == animate,
    {
        Then { inner: ThenInner { animator: animate } }
    }

    pub open spec fn with_inner(self, animator: A) -> Self {
        Then { inner: ThenInner { animator } }
    }

    /// This animation with a completion signal.
    pub fn then(self) -> (r: Then<Self>)
        ensures
            r.inner.animator == self,
    {
        Then::new(self)
    }

    /// This animation followed by `and_then`.
    pub fn and_then<B: Animate>(self, and_then: B) -> (r: AndThen<Self, B>)
        ensures
            r == (AndThen {
                inner: AndThenInner { animator: self, and_then },
                reverse: false,
                second: false,
            }),
    {
        AndThen::new(self, and_then)
    }
}

impl<A: Animate> Animate for Then<A> {
    type Frames = Completion<A::Frames>;

    type Still = A::Still;

    open spec fn wf(&self) -> bool {
        self.inner.animator.wf()
    }

    open spec fn running(&self) -> bool {
        self.inner.animator.running()
    }

    open spec fn paused(&self) -> bool {
        self.inner.animator.paused()
    }

    open spec fn finished(&self) -> bool {
        self.inner.animator.finished()
    }

    open spec fn reversing(&self) -> bool {
        self.inner.animator.reversing()
    }

    open spec fn keep(r: Completion<A::Frames>) -> bool {
        A::keep(r.frames)
    }

    open spec fn done(r: Completion<A::Frames>) -> bool {
        A::done(r.frames)
    }

    open spec fn still_at(&self, now: u64) -> A::Still {
        self.inner.animator.still_at(now)
    }

    open spec fn spec_start(&self, now: u64) -> Self {
        self.with_inner(self.inner.animator.spec_start(now))
    }

    open spec fn spec_pause(&self, now: u64) -> Self {
        self.with_inner(self.inner.animator.spec_pause(now))
    }

    open spec fn spec_reset(&self) -> Self {
        self.with_inner(self.inner.animator.spec_reset())
    }

    open spec fn spec_finish(&self) -> Self {
        self.with_inner(self.inner.animator.spec_finish())
    }

    open spec fn spec_reverse(&self, on: bool, now: u64) -> Self {
        self.with_inner(self.inner.animator.spec_reverse(on, now))
    }

    open spec fn spec_restart(&self, now: u64) -> Self {
        self.with_inner(self.inner.animator.spec_restart(now))
    }

    /// The wrapped animation ticks; the completion is reported exactly when
    /// that tick ended it.
    open spec fn ticked(&self, next: Self, now: u64, r: Completion<A::Frames>) -> bool {
        &&& self.inner.animator.ticked(next.inner.animator, now, r.frames)
        &&& r.completed == A::done(r.frames)
    }

    proof fn lemma_ticked(&self, next: Self, now: u64, r: Completion<A::Frames>) {
        self.inner.animator.lemma_ticked(next.inner.animator, now, r.frames);
    }

    fn tick(&mut self, now: u64) -> (r: Completion<A::Frames>) {
        let frames = self.inner.animator.tick(now);
        let completed = A::is_done(&frames);
        Completion { frames, completed }
    }

    fn start(&mut self, now: u64) -> (r: bool) {
        self.inner.animator.start(now)
    }

    fn is_done(r: &Completion<A::Frames>) -> (b: bool) {
        A::is_done(&r.frames)
    }

    fn is_keep(r: &Completion<A::Frames>) -> (b: bool) {
        A::is_keep(&r.frames)
    }

    fn restart(&mut self, now: u64) {
        self.inner.animator.restart(now)
    }

    fn pause(&mut self, now: u64) {
        self.inner.animator.pause(now)
    }

    fn reset(&mut self, now: u64) -> (r: A::Still) {
        self.inner.animator.reset(now)
    }

    fn finish(&mut self, now: u64) -> (r: A::Still) {
        self.inner.animator.finish(now)
    }

    fn reverse(&mut self, on: bool, now: u64) {
        self.inner.animator.reverse(on, now)
    }

    fn shown(&self, now: u64) -> (r: A::Still) {
        self.inner.animator.shown(now)
    }

    fn is_running(&self) -> (r: bool) {
        self.inner.animator.is_running()
    }

    fn is_paused(&self) -> (r: bool) {
        self.inner.animator.is_paused()
    }

    fn is_finished(&self) -> (r: bool) {
        self.inner.animator.is_finished()
    }

    fn is_reversing(&self) -> (r: bool) {
        self.inner.animator.is_reversing()
    }
}

/// The completion is reported once per completion: the tick that reports it
/// leaves the animation stopped, the next tick reports none, and a stopped
/// animation (paused, reset or finished) reports none.
pub proof fn lemma_completion_once<A: Animate>(
    a: Then<A>,
    b: Then<A>,
    c: Then<A>,
    t1: u64,
    t2: u64,
    r1: Completion<A::Frames>,
    r2: Completion<A::Frames>,
)
    requires
        a.ticked(b, t1, r1),
        b.ticked(c, t2, r2),
    ensures
        r1.completed ==> a.running() && !b.running() && !r2.completed,
        !a.running() ==> !r1.completed,
{
    a.lemma_ticked(b, t1, r1);
    b.lemma_ticked(c, t2, r2);
}

} // verus!
