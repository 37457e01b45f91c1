use gtk_animator::fps::FPS;
use gtk_animator::repeat::Repeat;
use gtk_animator::timer::{to_millisecond, Timer, TimerState};
use std::cell::Cell;
use std::rc::Rc;

#[test]
fn to_millisecond_whole_and_fraction() {
    assert_eq!(to_millisecond(5, 0), 5000);
    assert_eq!(to_millisecond(1, 999_999_999), 1999);
    assert_eq!(to_millisecond(0, 1_500_000), 1);
}

#[test]
fn timer_starts_unstarted_with_zero_elapsed() {
    let t = Timer::new(1000);
    assert_eq!(t.state, TimerState::Unstart);
    assert_eq!(t.get_duration(123), 0);
    assert_eq!(t.get_target_duration(), 1000);
    assert!(!t.is_running());
    assert!(!t.is_finished());
}

#[test]
fn timer_runs_from_the_clock_reading() {
    let mut t = Timer::new(1000);
    t.run(200);
    assert!(t.is_running());
    assert_eq!(t.get_duration(450), 250);
    assert_eq!(t.get_rate(450), (250, 1000));
    assert!(!t.is_complete(450));
    assert!(t.is_complete(1200));
}

#[test]
fn timer_pause_and_resume_keeps_elapsed_time() {
    let mut t = Timer::new(1000);
    t.run(0);
    t.pause(300);
    assert!(t.is_paused());
    assert_eq!(t.get_duration(5000), 300);
    t.run(2000);
    assert_eq!(t.get_duration(2100), 400);
    t.pause(2500);
    t.run(9000);
    assert_eq!(t.get_duration(9600), 1400);
    t.finish();
    assert_eq!(t.get_duration(9999), 1000);
}

#[test]
fn timer_reverse_mirrors_elapsed_time() {
    let mut t = Timer::new(1000);
    t.run(0);
    t.reverse(300);
    assert_eq!(t.get_duration(300), 700);
    assert_eq!(t.get_duration(400), 800);
    t.pause(400);
    t.reverse(400);
    assert_eq!(t.get_duration(400), 200);
    let mut u = Timer::new(1000);
    u.reverse(0);
    assert!(u.is_finished());
    u.reverse(0);
    assert_eq!(u.state, TimerState::Unstart);
}

#[test]
fn timer_reverse_past_the_target_mirrors_to_zero() {
    let mut t = Timer::new(1000);
    t.run(0);
    t.pause(1500);
    t.reverse(1500);
    assert_eq!(t.get_duration(1500), 0);
}

#[test]
fn timer_restart_and_reset() {
    let mut t = Timer::new(1000);
    t.run(0);
    t.restart(700);
    assert_eq!(t.get_duration(800), 100);
    t.reset();
    assert_eq!(t.get_duration(900), 0);
}

#[test]
fn fps_throttles_to_one_frame_per_period() {
    let mut f = FPS::new(60, 0);
    assert!(!f.update(10));
    assert!(!f.update(16));
    assert!(f.update(17));
    assert_eq!(f.instant, 17);
    assert!(!f.update(20));
    assert!(f.update(40));
}

#[test]
fn fps_allows_at_most_max_frames_per_second() {
    let mut f = FPS::new(60, 0);
    let mut accepted = 0u32;
    let mut t = 1u64;
    while t <= 1000 {
        if f.update(t) {
            accepted += 1;
        }
        t += 1;
    }
    assert!(accepted <= 60);
    assert_eq!(accepted, 58);
    let mut g = FPS::new(1000, 0);
    assert!(!g.update(0));
    assert!(g.update(1));
}

#[test]
fn fps_counts_frames_within_a_second() {
    let mut f = FPS::new(60, 0);
    assert!(f.update(100));
    assert!(f.update(200));
    assert_eq!(f.counter, 2);
    assert!(f.update(1200));
    assert_eq!(f.counter, 0);
    assert_eq!(f.second_timer, 1200);
}

#[test]
fn repeat_count_plays_n_times_then_refills() {
    let mut r = Repeat::<fn() -> bool>::count(3);
    assert!(r.shoud_continue());
    assert!(r.shoud_continue());
    assert!(!r.shoud_continue());
    assert!(r.shoud_continue());
    assert!(r.shoud_continue());
    assert!(!r.shoud_continue());
}

#[test]
fn repeat_count_of_one_and_zero_never_repeat() {
    let mut one = Repeat::<fn() -> bool>::count(1);
    assert!(!one.shoud_continue());
    assert!(!one.shoud_continue());
    let mut zero = Repeat::<fn() -> bool>::count(0);
    assert!(!zero.shoud_continue());
}

#[test]
fn repeat_indefinite_does_not_repeat() {
    let mut r = Repeat::<fn() -> bool>::Indefinite;
    assert!(!r.shoud_continue());
}

#[test]
fn repeat_function_is_asked_each_time() {
    let calls = Rc::new(Cell::new(0u32));
    let c = calls.clone();
    let mut r = Repeat::function(move || {
        c.set(c.get() + 1);
        c.get() < 3
    });
    assert!(r.shoud_continue());
    assert!(r.shoud_continue());
    assert!(!r.shoud_continue());
    assert_eq!(calls.get(), 3);
}
