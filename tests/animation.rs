use gtk_animator::and_then::{AndThen, Chain};
use gtk_animator::animate::Animate;
use gtk_animator::animator::{Animator, Progress, Step};
use gtk_animator::repeat::Repeat;
use gtk_animator::then::Then;
use gtk_animator::timer::TimerState;

type Anim = Animator<fn() -> bool>;

fn once(duration: u64, now: u64) -> Anim {
    Animator::new(duration, Repeat::Indefinite, now)
}

fn p(num: u64, den: u64) -> Progress {
    Progress { num, den }
}

/// Ticks every millisecond from `from` up to `to`, collecting the frames
/// shown and stopping when a tick asks to stop.
fn run_ticks(a: &mut Anim, from: u64, to: u64) -> (Vec<(u64, Progress)>, Option<Step>) {
    let mut frames = Vec::new();
    let mut t = from;
    while t <= to {
        let s = a.tick(t);
        if let Some(f) = s.frame {
            frames.push((t, f));
        }
        if !s.keep {
            return (frames, Some(s));
        }
        t += 1;
    }
    (frames, None)
}

#[test]
fn forward_playthrough_is_monotone_and_ends_once_at_one() {
    let mut a = once(5000, 0);
    assert!(a.start(0));
    let (frames, last) = run_ticks(&mut a, 0, 7000);
    let last = last.unwrap();
    assert!(last.done);
    assert_eq!(last.frame, Some(p(5000, 5000)));
    let (t_end, end) = frames[frames.len() - 1];
    assert!(t_end >= 5000 && t_end < 5017);
    assert_eq!(end, p(5000, 5000));
    assert!(frames[0].1.num <= 17);
    for w in frames.windows(2) {
        assert!(w[0].1.num <= w[1].1.num);
        assert!(w[1].1.num <= w[1].1.den);
        assert!(w[1].0 - w[0].0 >= 17);
    }
    assert!(frames[frames.len() - 2].1.num >= 5000 - 17);
    assert!(a.is_finished());
    assert_eq!(a.tick(7001), Step { frame: None, keep: false, done: false });
}

#[test]
fn reversing_before_start_mirrors_the_sequence() {
    let mut fwd = once(1000, 0);
    let mut bwd = once(1000, 0);
    bwd.reverse(true, 0);
    assert!(bwd.is_reversing());
    fwd.start(0);
    bwd.start(0);
    let (ff, _) = run_ticks(&mut fwd, 0, 2000);
    let (bf, _) = run_ticks(&mut bwd, 0, 2000);
    assert_eq!(ff.len(), bf.len());
    for (x, y) in ff.iter().zip(bf.iter()) {
        assert_eq!(x.0, y.0);
        assert_eq!(y.1.num, x.1.den - x.1.num);
    }
    assert_eq!(bf[bf.len() - 1].1, p(0, 1000));
}

#[test]
fn reversing_mid_play_keeps_the_position() {
    let mut a = once(1000, 0);
    a.start(0);
    assert_eq!(a.one_frame(300), p(300, 1000));
    a.reverse(true, 300);
    assert_eq!(a.one_frame(300), p(300, 1000));
    assert_eq!(a.one_frame(400), p(200, 1000));
    a.reverse(true, 400);
    assert_eq!(a.one_frame(400), p(200, 1000));
}

#[test]
fn pause_then_start_resumes_from_the_same_point() {
    let mut a = once(1000, 0);
    a.start(0);
    a.pause(400);
    assert!(!a.is_running());
    assert_eq!(a.tick(450), Step { frame: None, keep: false, done: false });
    assert!(a.start(3000));
    assert!(!a.start(3001));
    assert_eq!(a.one_frame(3100), p(500, 1000));
    a.pause(3200);
    a.start(8000);
    let (_, last) = run_ticks(&mut a, 8000, 9000);
    let last = last.unwrap();
    assert!(last.done);
    assert_eq!(a.state.timer.get_duration(9000), 1000);
}

#[test]
fn count_policy_plays_n_times() {
    let mut a: Anim = Animator::new(100, Repeat::count(3), 0);
    a.start(0);
    let mut restarts = 0u32;
    let mut t = 0u64;
    loop {
        let s = a.tick(t);
        if s.keep && s.frame.is_none() && t > 0 && a.state.timer.get_duration(t) == 0 {
            restarts += 1;
        }
        if !s.keep {
            assert!(s.done);
            break;
        }
        t += 1;
    }
    assert_eq!(restarts, 2);
    assert!(t >= 300 && t < 340);
    a.start(1000);
    let mut t2 = 1000u64;
    while a.tick(t2).keep {
        t2 += 1;
    }
    assert!(t2 >= 1300 && t2 < 1340);
}

#[test]
fn reset_and_finish_show_the_rest_positions() {
    let mut a = once(1000, 0);
    a.start(0);
    assert_eq!(a.finish(100), p(1000, 1000));
    assert_eq!(a.reset(100), p(0, 1000));
    a.reverse(true, 100);
    assert_eq!(a.reset(100), p(1000, 1000));
    assert_eq!(a.finish(100), p(0, 1000));
}

#[test]
fn zero_duration_completes_on_the_first_tick() {
    let mut a = once(0, 0);
    a.start(0);
    let s = a.tick(20);
    assert_eq!(s, Step { frame: Some(p(1, 1)), keep: false, done: true });
}

#[test]
fn zero_duration_reset_shows_the_start() {
    let mut a = once(0, 0);
    assert_eq!(a.reset(0), p(0, 1));
    a.reverse(true, 0);
    assert_eq!(a.reset(0), p(1, 1));
    assert_eq!(a.finish(0), p(0, 1));
}

#[test]
fn rejected_frames_keep_the_schedule_without_work() {
    let mut a = once(1000, 0);
    a.start(0);
    assert_eq!(a.tick(5), Step { frame: None, keep: true, done: false });
    assert_eq!(a.tick(16), Step { frame: None, keep: true, done: false });
    assert_eq!(a.tick(17), Step { frame: Some(p(17, 1000)), keep: true, done: false });
}

#[test]
fn then_reports_completion_exactly_once() {
    let mut th = once(100, 0).then();
    th.start(0);
    let mut completions = 0u32;
    let mut t = 0u64;
    while t < 500 {
        let r = th.tick(t);
        if r.completed {
            completions += 1;
            assert!(r.frames.done);
        }
        t += 1;
    }
    assert_eq!(completions, 1);
    assert!(th.is_finished());
}

#[test]
fn then_does_not_complete_after_pause_reset_or_finish() {
    let mut th = Then::new(once(100, 0));
    th.start(0);
    th.tick(50);
    th.pause(60);
    let s = th.tick(70);
    assert!(!s.completed && !s.frames.keep);
    th.start(100);
    th.reset(120);
    let s = th.tick(130);
    assert!(!s.completed && !s.frames.keep);
    th.finish(140);
    let s = th.tick(150);
    assert!(!s.completed && !s.frames.keep);
}

#[test]
fn then_completes_again_after_a_restart() {
    let mut th = Then::new(once(100, 0));
    let mut completions = 0u32;
    th.start(0);
    let mut t = 0u64;
    loop {
        let r = th.tick(t);
        completions += r.completed as u32;
        if !r.frames.keep {
            break;
        }
        t += 1;
    }
    th.start(1000);
    let mut t = 1000u64;
    loop {
        let r = th.tick(t);
        completions += r.completed as u32;
        if !r.frames.keep {
            break;
        }
        t += 1;
    }
    assert_eq!(completions, 2);
}

/// Ticks a sequence every millisecond, collecting (second member?, frame) in
/// the order they are shown.
fn run_chain(c: &mut AndThen<Anim, Anim>, from: u64, to: u64) -> (Vec<(bool, Progress)>, Chain<Step, Step>) {
    let mut frames = Vec::new();
    let mut t = from;
    loop {
        let r = c.tick(t);
        let first = r.first.and_then(|s| s.frame).map(|f| (false, f));
        let second = r.second.and_then(|s| s.frame).map(|f| (true, f));
        let ordered = if r.second_led { [second, first] } else { [first, second] };
        for f in ordered.into_iter().flatten() {
            frames.push(f);
        }
        if !r.keep || t >= to {
            return (frames, r);
        }
        t += 1;
    }
}

#[test]
fn and_then_forward_plays_first_then_second() {
    let mut c = once(1000, 0).and_then(once(1000, 0));
    assert!(c.start(0));
    let (frames, last) = run_chain(&mut c, 0, 5000);
    assert!(last.done);
    let switch = frames.iter().position(|f| f.0).unwrap();
    assert!(frames[..switch].iter().all(|f| !f.0));
    assert!(frames[switch..].iter().all(|f| f.0));
    assert_eq!(frames[switch - 1].1, p(1000, 1000));
    assert_eq!(frames[switch].1, p(0, 1000));
    assert_eq!(frames[frames.len() - 1].1, p(1000, 1000));
    assert_eq!(frames.iter().filter(|f| f.1 == p(1000, 1000)).count(), 2);
    for w in frames.windows(2) {
        if w[0].0 == w[1].0 {
            assert!(w[0].1.num <= w[1].1.num);
        }
    }
}

#[test]
fn and_then_reversed_before_start_plays_second_then_first_backwards() {
    let mut c = AndThen::new(once(1000, 0), once(1000, 0));
    c.reverse(true, 0);
    assert!(c.is_reversing());
    assert!(c.start(0));
    assert!(c.second);
    let (frames, last) = run_chain(&mut c, 0, 5000);
    assert!(last.done);
    assert!(frames[0].0);
    assert!(frames[0].1.num >= 1000 - 17);
    let switch = frames.iter().position(|f| !f.0).unwrap();
    assert!(frames[..switch].iter().all(|f| f.0));
    assert!(frames[switch..].iter().all(|f| !f.0));
    assert_eq!(frames[switch - 1].1, p(0, 1000));
    assert_eq!(frames[switch].1, p(1000, 1000));
    assert_eq!(frames[frames.len() - 1].1, p(0, 1000));
    for w in frames.windows(2) {
        if w[0].0 == w[1].0 {
            assert!(w[0].1.num >= w[1].1.num);
        }
    }
}

#[test]
fn and_then_finish_and_reset() {
    let mut c = AndThen::new(once(1000, 0), once(500, 0));
    c.start(0);
    assert_eq!(c.finish(10), (p(1000, 1000), p(500, 500)));
    assert!(c.second);
    assert!(c.is_finished());
    assert_eq!(c.reset(20), (p(0, 1000), p(0, 500)));
    assert!(!c.second);
    assert_eq!(c.inner.animator.state.timer.state, TimerState::Unstart);
}

#[test]
fn and_then_pause_resumes_the_active_member() {
    let mut c = AndThen::new(once(1000, 0), once(1000, 0));
    c.start(0);
    run_chain(&mut c, 0, 1500);
    assert!(c.second);
    c.pause(1500);
    assert!(!c.is_running());
    assert!(c.start(2000));
    assert!(c.second);
    assert!(c.is_running());
}

#[test]
fn nested_sequences_play_in_order() {
    let mut c = once(100, 0).then().and_then(once(100, 0)).and_then(once(100, 0));
    let mut completions = 0u32;
    assert!(c.start(0));
    let mut order = Vec::new();
    let mut t = 0u64;
    loop {
        let r = c.tick(t);
        if let Some(inner) = r.first {
            if let Some(c0) = inner.first {
                completions += c0.completed as u32;
                if c0.frames.frame.is_some() {
                    order.push(0);
                }
            }
            if inner.second.and_then(|s| s.frame).is_some() {
                order.push(1);
            }
        }
        if r.second.and_then(|s| s.frame).is_some() {
            order.push(2);
        }
        if !r.keep {
            break;
        }
        t += 1;
    }
    assert!(t >= 300 && t < 360);
    order.dedup();
    assert_eq!(order, vec![0, 1, 2]);
    assert_eq!(completions, 1);
}
