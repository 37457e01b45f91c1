use vstd::prelude::*;

verus! {

/// The contract that every animation meets: a single animation, one with a
/// completion signal, and a sequence of two, so that they nest freely.
///
/// The host calls `start`; when it returns `true`, the host calls `tick`
/// about every millisecond until a tick's result says not to keep going.
/// Each operation's effect is given by a spec function of the same name.
pub trait Animate: Sized {
    /// What one tick hands to the host: the progress to show, and whether to
    /// keep ticking.
    type Frames;
    /// The progress to show at rest.
    type Still;

    spec fn wf(&self) -> bool;

    spec fn running(&self) -> bool;

    spec fn paused(&self) -> bool;

    spec fn finished(&self) -> bool;

    spec fn reversing(&self) -> bool;

    /// Whether the host keeps ticking after a tick with result `r`.
    spec fn keep(r: Self::Frames) -> bool;

    /// Whether the tick with result `r` ended the animation in its
    /// direction of play.
    spec fn done(r: Self::Frames) -> bool;

    /// The progress shown at `now`.
    spec fn still_at(&self, now: u64) -> Self::Still;

    spec fn spec_start(&self, now: u64) -> Self;

    /// The animation after starting afresh at `now` from its beginning in
    /// its direction of play.
    spec fn spec_restart(&self, now: u64) -> Self;

    spec fn spec_pause(&self, now: u64) -> Self;

    spec fn spec_reset(&self) -> Self;

    spec fn spec_finish(&self) -> Self;

    spec fn spec_reverse(&self, on: bool, now: u64) -> Self;

    /// How one tick at `now` may take the animation from `self` to `next`
    /// with result `r`.
    spec fn ticked(&self, next: Self, now: u64, r: Self::Frames) -> bool;

    /// A tick that ends the animation leaves it stopped; a tick of a stopped
    /// animation changes nothing, ends nothing and stops the schedule; and
    /// no tick changes the direction.
    proof fn lemma_ticked(&self, next: Self, now: u64, r: Self::Frames)
        requires
            self.ticked(next, now, r),
        ensures
            Self::done(r) ==> self.running() && !next.running(),
            !self.running() ==> next == *self && !Self::done(r) && !Self::keep(r),
            next.reversing() == self.reversing(),
    ;

    /// One scheduled tick at `now`.
    fn tick(&mut self, now: u64) -> (r: Self::Frames)
        requires
            old(self).wf(),
        ensures
            final(self).wf(),
            old(self).ticked(*final(self), now, r),
    ;

    /// Whether the host keeps ticking after a tick with result `r`.
    fn is_keep(r: &Self::Frames) -> (b: bool)
        ensures
            b == Self::keep(*r),
    ;

    /// Whether the tick with result `r` ended the animation.
    fn is_done(r: &Self::Frames) -> (b: bool)
        ensures
            b == Self::done(*r),
    ;

    /// Starts, or resumes from a pause, unless running already. Returns
    /// whether it started, in which case the host begins to tick.
    fn start(&mut self, now: u64) -> (r: bool)
        requires
            old(self).wf(),
        ensures
            final(self).wf(),
            *final(self) == old(self).spec_start(now),
            r == !old(self).running(),
            final(self).running(),
            !r ==> *final(self) == *old(self),
            final(self).reversing() == old(self).reversing(),
    ;

    /// Plays afresh from the beginning in the direction of play.
    fn restart(&mut self, now: u64)
        requires
            old(self).wf(),
        ensures
            final(self).wf(),
            *final(self) == old(self).spec_restart(now),
            final(self).running(),
            final(self).reversing() == old(self).reversing(),
    ;

    /// Stops where it is; the next tick ends the schedule.
    fn pause(&mut self, now: u64)
        requires
            old(self).wf(),
        ensures
            final(self).wf(),
            *final(self) == old(self).spec_pause(now),
            !final(self).running(),
            !old(self).running() ==> *final(self) == *old(self),
            final(self).reversing() == old(self).reversing(),
    ;

    /// Back to the beginning; returns the progress to show.
    fn reset(&mut self, now: u64) -> (r: Self::Still)
        requires
            old(self).wf(),
        ensures
            final(self).wf(),
            *final(self) == old(self).spec_reset(),
            r == final(self).still_at(now),
            !final(self).running(),
            final(self).reversing() == old(self).reversing(),
    ;

    /// Jumps to the end; returns the progress to show.
    fn finish(&mut self, now: u64) -> (r: Self::Still)
        requires
            old(self).wf(),
        ensures
            final(self).wf(),
            *final(self) == old(self).spec_finish(),
            r == final(self).still_at(now),
            !final(self).running(),
            final(self).finished(),
            final(self).reversing() == old(self).reversing(),
    ;

    /// Plays backwards when `on`; a change of direction carries on from the
    /// point shown.
    fn reverse(&mut self, on: bool, now: u64)
        requires
            old(self).wf(),
        ensures
            final(self).wf(),
            *final(self) == old(self).spec_reverse(on, now),
            final(self).reversing() == on,
            final(self).running() == old(self).running(),
            final(self).paused() == old(self).paused(),
    ;

    /// The progress shown at `now`.
    fn shown(&self, now: u64) -> (r: Self::Still)
        ensures
            r == self.still_at(now),
    ;

    fn is_running(&self) -> (r: bool)
        ensures
            r == self.running(),
    ;

    fn is_paused(&self) -> (r: bool)
        ensures
            r == self.paused(),
    ;

    fn is_finished(&self) -> (r: bool)
        ensures
            r == self.finished(),
    ;

    fn is_reversing(&self) -> (r: bool)
        ensures
            r == self.reversing(),
    ;
}

} // verus!
