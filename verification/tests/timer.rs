use parity_common::macros::code::{timer_enclose_code, Piece};
use parity_common::time::{Duration, Instant};
use parity_common::timer::TimerState;

fn at(nanos: u128) -> Instant {
    Instant::from_origin(Duration::from_nanos(nanos))
}

fn fibonacci(n: usize) -> usize {
    match n {
        0 => panic!("zero is not a right argument to fibonacci_reccursive()!"),
        1 | 2 => 1,
        3 => 2,
        _ => fibonacci(n - 1) + fibonacci(n - 2),
    }
}

#[test]
fn test_timers() {
    // the bodies that #[timer_enclose(a_timer_counter)] and
    // #[timer_enclose(a_timer_counter, timer_enclose_backends_alt)] make
    let w = |s: &str| Some(s.to_string());
    let to_time = timer_enclose_code(&vec![w("a_timer_counter")]).ok().unwrap();
    assert!(matches!(&to_time[0], Piece::Text(s) if s == "timer_enclose_backends"));
    assert!(matches!(to_time[4], Piece::Body));
    let to_time_alt = timer_enclose_code(&vec![w("a_timer_counter"), w("timer_enclose_backends_alt")]).ok().unwrap();
    assert!(matches!(&to_time_alt[6], Piece::Text(s) if s == "timer_enclose_backends_alt"));
    assert!(matches!(&to_time_alt[9], Piece::Text(s) if s == ", suspend()); r"));
    // a timer started and suspended around each measured call
    let mut state = TimerState::new();
    state.assert_tick_start(at(100));
    state.assert_tick_stop(at(250));
    assert_eq!(state.duration.as_nanos(), 150);
    state.assert_tick_start(at(1_000));
    let a = fibonacci(10);
    state.assert_tick_stop(at(1_500));
    assert!(a > 5);
    state.assert_tick_start(at(2_000));
    let mut b = 5;
    b += 2;
    state.assert_tick_stop(at(2_100));
    assert_eq!(b, 7);
    assert_eq!(state.duration.as_nanos(), 750);
    assert!(!state.is_running());
}

#[test]
fn timer_new_is_stopped_and_empty() {
    let t = TimerState::new();
    assert!(t.last_start.is_none());
    assert_eq!(t.duration.as_nanos(), 0);
    assert_eq!(t.depth, 0);
}

#[test]
fn timer_from_dur_keeps_duration() {
    let t = TimerState::from_dur(Duration::new(3, 5));
    assert!(!t.is_running());
    assert_eq!(t.duration.as_secs(), 3);
    assert_eq!(t.duration.subsec_nanos(), 5);
    assert_eq!(t.depth, 0);
}

#[test]
fn timer_two_ticks_measure_interval() {
    let mut t = TimerState::from_dur(Duration::from_nanos(10));
    t.tick(at(40));
    assert!(t.is_running());
    assert_eq!(t.duration.as_nanos(), 10);
    t.tick(at(100));
    assert!(!t.is_running());
    assert_eq!(t.duration.as_nanos(), 70);
}

#[test]
fn timer_tick_backwards_clock_adds_nothing() {
    let mut t = TimerState::new();
    t.tick(at(500));
    t.tick(at(200));
    assert_eq!(t.duration.as_nanos(), 0);
    assert!(!t.is_running());
}

#[test]
fn timer_nested_starts_measure_outer_interval() {
    let mut t = TimerState::new();
    t.assert_tick_start(at(10));
    t.assert_tick_start(at(20));
    t.assert_tick_start(at(30));
    assert_eq!(t.depth, 2);
    t.assert_tick_stop(at(40));
    t.assert_tick_stop(at(50));
    assert!(t.is_running());
    assert_eq!(t.duration.as_nanos(), 0);
    t.assert_tick_stop(at(60));
    assert!(!t.is_running());
    assert_eq!(t.depth, 0);
    assert_eq!(t.duration.as_nanos(), 50);
}

#[test]
fn timer_nested_start_stop_on_running_is_neutral() {
    let mut t = TimerState::new();
    t.assert_tick_start(at(5));
    t.assert_tick_start(at(7));
    t.assert_tick_stop(at(9));
    assert!(t.is_running());
    assert_eq!(t.depth, 0);
    assert_eq!(t.duration.as_nanos(), 0);
}

#[test]
fn timer_add_adds_to_total() {
    let mut t = TimerState::new();
    t.add(&Duration::new(1, 500_000_000));
    t.add(&Duration::new(0, 600_000_000));
    assert_eq!(t.duration.as_secs(), 2);
    assert_eq!(t.duration.subsec_nanos(), 100_000_000);
}

#[test]
fn duration_new_carries_nanos() {
    let d = Duration::new(1, 2_500_000_000);
    assert_eq!(d.as_secs(), 3);
    assert_eq!(d.subsec_nanos(), 500_000_000);
    assert_eq!(d.as_nanos(), 3_500_000_000);
}

#[test]
fn duration_checked_add_overflow() {
    let max = Duration::from_nanos(parity_common::time::MAX_NANOS);
    assert!(max.checked_add(&Duration::from_nanos(1)).is_none());
    let s = Duration::from_secs(2).checked_add(&Duration::new(0, 7)).unwrap();
    assert_eq!(s.as_nanos(), 2_000_000_007);
    assert_eq!(max.as_secs(), u64::MAX);
    assert_eq!(max.subsec_nanos(), 999_999_999);
}

#[test]
fn duration_saturating_sub_and_since() {
    let a = Duration::from_nanos(100);
    let b = Duration::from_nanos(30);
    assert_eq!(a.saturating_sub(&b).as_nanos(), 70);
    assert_eq!(b.saturating_sub(&a).as_nanos(), 0);
    assert_eq!(at(100).duration_since(&at(30)).as_nanos(), 70);
    assert_eq!(at(30).duration_since(&at(100)).as_nanos(), 0);
    assert!(Duration::zero().same(&Duration::from_nanos(0)));
    assert_eq!(at(42).since_origin().as_nanos(), 42);
}
