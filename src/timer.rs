use vstd::prelude::*;

verus! {

/// Milliseconds between two clock readings; a reading earlier than the mark
/// counts as no time at all.
pub open spec fn span(now: u64, mark: u64) -> nat {
    if now >= mark {
        (now - mark) as nat
    } else {
        0
    }
}

/// `a + b`, held at `u64::MAX`.
pub open spec fn sat_add(a: nat, b: nat) -> nat {
    if a + b > u64::MAX {
        u64::MAX as nat
    } else {
        a + b
    }
}

/// `a - b`, held at zero.
pub open spec fn sat_sub(a: nat, b: nat) -> nat {
    if a >= b {
        (a - b) as nat
    } else {
        0
    }
}

/// Whole milliseconds in `secs` seconds and `subsec_nanos` nanoseconds.
pub open spec fn millis_of(secs: u64, subsec_nanos: u32) -> nat {
    (secs * 1000 + subsec_nanos / 1_000_000) as nat
}

/// Converts a duration given as seconds and sub-second nanoseconds into
/// whole milliseconds.
pub fn to_millisecond(secs: u64, subsec_nanos: u32) -> (r: u64)
    requires
        millis_of(secs, subsec_nanos) <= u64::MAX,
    ensures
        r == millis_of(secs, subsec_nanos),
{
    secs * 1000 + (subsec_nanos / 1_000_000) as u64
}

/// Where a timer stands.
#[derive(Clone, Copy, Debug, PartialEq, Eq)]
pub enum TimerState {
    /// Running since the clock reading `mark`, with `base` milliseconds
    /// already elapsed at that mark.
    Running(u64, u64),
    /// Stopped with the given elapsed milliseconds.
    Paused(u64),
    Unstart,
    Finish,
}

/// Elapsed time against a target duration, in milliseconds.
pub struct Timer {
    pub state: TimerState,
    pub duration: u64,
}

impl Timer {
    /// Elapsed milliseconds at the clock reading `now`.
    pub open spec fn elapsed_at(self, now: u64) -> nat {
        match self.state {
            TimerState::Running(mark, base) => sat_add(base as nat, span(now, mark)),
            TimerState::Paused(d) => d as nat,
            TimerState::Unstart => 0,
            TimerState::Finish => self.duration as nat,
        }
    }

    /// A playthrough is over once the elapsed time reaches the target.
    pub open spec fn complete_at(self, now: u64) -> bool {
        self.elapsed_at(now) >= self.duration
    }

    pub open spec fn running(self) -> bool {
        self.state is Running
    }

    pub open spec fn with_state(self, state: TimerState) -> Timer {
        Timer { state, duration: self.duration }
    }

    pub open spec fn spec_run(self, now: u64) -> Timer {
        match self.state {
            TimerState::Paused(d) => self.with_state(TimerState::Running(now, d)),
            _ => self.with_state(TimerState::Running(now, 0)),
        }
    }

    pub open spec fn spec_pause(self, now: u64) -> Timer {
        match self.state {
            TimerState::Running(_, _) => self.with_state(
                TimerState::Paused(self.elapsed_at(now) as u64),
            ),
            _ => self,
        }
    }

    pub open spec fn spec_reverse(self, now: u64) -> Timer {
        match self.state {
            TimerState::Paused(d) => self.with_state(
                TimerState::Paused(sat_sub(self.duration as nat, d as nat) as u64),
            ),
            TimerState::Running(_, _) => self.with_state(
                TimerState::Running(
                    now,
                    sat_sub(self.duration as nat, self.elapsed_at(now)) as u64,
                ),
            ),
            TimerState::Finish => self.with_state(TimerState::Unstart),
            TimerState::Unstart => self.with_state(TimerState::Finish),
        }
    }

    pub fn new(duration: u64) -> (r: Timer)
        ensures
            r.state == TimerState::Unstart,
            r.duration == duration,
    {
        Timer { state: TimerState::Unstart, duration }
    }

    /// Starts the clock; from a pause, elapsed time carries on from the
    /// paused value, otherwise it starts from zero.
    pub fn run(&mut self, now: u64)
        ensures
            *final(self) == old(self).spec_run(now),
    {
        match self.state {
            TimerState::Paused(d) => {
                self.state = TimerState::Running(now, d);
            },
            _ => {
                self.state = TimerState::Running(now, 0);
            },
        }
    }

    /// Stops a running clock, keeping the elapsed time; otherwise does nothing.
    pub fn pause(&mut self, now: u64)
        ensures
            *final(self) == old(self).spec_pause(now),
    {
        match self.state {
            TimerState::Running(_, _) => {
                let d = self.get_duration(now);
                self.state = TimerState::Paused(d);
            },
            _ => {},
        }
    }

    pub fn reset(&mut self)
        ensures
            *final(self) == old(self).with_state(TimerState::Unstart),
    {
        self.state = TimerState::Unstart;
    }

    pub fn finish(&mut self)
        ensures
            *final(self) == old(self).with_state(TimerState::Finish),
    {
        self.state = TimerState::Finish;
    }

    /// Mirrors the elapsed time around the target duration (an elapsed time
    /// past the target mirrors to zero); a finished timer becomes unstarted
    /// and an unstarted one finished.
    pub fn reverse(&mut self, now: u64)
        ensures
            *final(self) == old(self).spec_reverse(now),
    {
        match self.state {
            TimerState::Paused(d) => {
                self.state = TimerState::Paused(self.duration.saturating_sub(d));
            },
            TimerState::Running(_, _) => {
                let e = self.get_duration(now);
                self.state = TimerState::Running(now, self.duration.saturating_sub(e));
            },
            TimerState::Finish => self.reset(),
            TimerState::Unstart => self.finish(),
        }
    }

    /// Runs again from zero elapsed time.
    pub fn restart(&mut self, now: u64)
        ensures
            *final(self) == old(self).with_state(TimerState::Running(now, 0)),
    {
        self.state = TimerState::Running(now, 0);
    }

    /// Elapsed milliseconds at the clock reading `now`.
    pub fn get_duration(&self, now: u64) -> (r: u64)
        ensures
            r == self.elapsed_at(now),
    {
        match self.state {
            TimerState::Running(mark, base) => {
                let d: u64 = if now >= mark {
                    now - mark
                } else {
                    0
                };
                base.saturating_add(d)
            },
            TimerState::Paused(d) => d,
            TimerState::Unstart => 0,
            TimerState::Finish => self.duration,
        }
    }

    pub fn get_target_duration(&self) -> (r: u64)
        ensures
            r == self.duration,
    {
        self.duration
    }

    /// The rate `elapsed / target` at `now`, as its two terms: it exceeds 1
    /// once the target is passed, and a zero target counts as complete.
    pub fn get_rate(&self, now: u64) -> (r: (u64, u64))
        ensures
            r.0 == self.elapsed_at(now),
            r.1 == self.duration,
    {
        (self.get_duration(now), self.duration)
    }

    /// Whether the elapsed time has reached the target at `now`.
    pub fn is_complete(&self, now: u64) -> (r: bool)
        ensures
            r == self.complete_at(now),
    {
        self.get_duration(now) >= self.duration
    }

    pub fn is_running(&self) -> (r: bool)
        ensures
            r == self.running(),
    {
        match self.state {
            TimerState::Running(_, _) => true,
            _ => false,
        }
    }

    pub fn is_unstarted(&self) -> (r: bool)
        ensures
            r == (self.state == TimerState::Unstart),
    {
        match self.state {
            TimerState::Unstart => true,
            _ => false,
        }
    }

    pub fn is_paused(&self) -> (r: bool)
        ensures
            r == (self.state is Paused),
    {
        match self.state {
            TimerState::Paused(_) => true,
            _ => false,
        }
    }

    pub fn is_finished(&self) -> (r: bool)
        ensures
            r == (self.state == TimerState::Finish),
    {
        match self.state {
            TimerState::Finish => true,
            _ => false,
        }
    }
}

} // verus!

verus! {

/// Pausing and resuming loses no time: after a pause at `t1` and a resume at
/// `t2`, the elapsed time at `t3` is the elapsed time at the pause plus the
/// time run since the resume; and however often the timer was paused, a
/// finished timer has elapsed exactly its target duration.
pub proof fn lemma_pause_resume(t: Timer, t1: u64, t2: u64, t3: u64)
    requires
        t.running(),
    ensures
        t.spec_pause(t1).spec_run(t2).elapsed_at(t3) == sat_add(t.elapsed_at(t1), span(t3, t2)),
        t.spec_pause(t1).spec_run(t2).with_state(TimerState::Finish).elapsed_at(t3)
            == t.duration,
{
}

} // verus!
