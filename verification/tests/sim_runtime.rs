use std::sync::atomic::{AtomicBool, Ordering};
use std::sync::Arc;

use platform_runtime::duration::Duration;
use platform_runtime::runtime::Runtime;
use platform_runtime::sim::SimRuntime;

#[test]
fn duration_between_measures_the_gap() {
    let mut rt = SimRuntime::new();
    let a = rt.now();
    rt.advance(Duration::from_nanos(5));
    let b = rt.now();
    let d = rt.duration_between(a, b);
    assert_eq!(d.as_nanos(), 5);
}

#[test]
fn duration_between_same_instant_is_zero() {
    let mut rt = SimRuntime::new();
    rt.advance(Duration::from_millis(3));
    let a = rt.now();
    let d = rt.duration_between(a, a);
    assert_eq!(d.as_nanos(), 0);
    assert!(d.is_zero());
}

#[test]
fn duration_between_is_non_negative() {
    let mut rt = SimRuntime::new();
    let a = rt.now();
    rt.advance(Duration::from_nanos(1));
    let b = rt.now();
    rt.advance(Duration::from_nanos(41));
    let c = rt.now();
    assert!(rt.duration_between(a, b).as_nanos() >= 0);
    assert!(rt.duration_between(b, c).as_nanos() == 41);
    assert!(rt.duration_between(a, c).as_nanos() == 42);
}

#[test]
fn elapsed_of_fresh_instant_is_zero() {
    let mut rt = SimRuntime::new();
    rt.advance(Duration::from_secs(1));
    let i = rt.now();
    let d = rt.elapsed(i);
    assert!(d.is_zero());
    assert_eq!(d.as_nanos(), 0);
}

#[test]
fn elapsed_grows_with_the_clock() {
    let mut rt = SimRuntime::new();
    let i = rt.now();
    rt.advance(Duration::from_nanos(10));
    assert_eq!(rt.elapsed(i).as_nanos(), 10);
    rt.advance(Duration::from_nanos(7));
    assert_eq!(rt.elapsed(i).as_nanos(), 17);
}

#[test]
fn delay_completes_no_sooner_than_its_duration() {
    let mut rt = SimRuntime::new();
    let before = rt.now();
    let mut dl = rt.delay(Duration::from_nanos(100));
    assert!(!rt.delay_poll(&mut dl));
    rt.advance(Duration::from_nanos(99));
    assert!(!rt.delay_poll(&mut dl));
    rt.advance(Duration::from_nanos(1));
    assert!(rt.delay_poll(&mut dl));
    let after = rt.now();
    assert!(rt.duration_between(before, after).as_nanos() >= 100);
}

#[test]
fn delay_stays_complete_once_reached() {
    let mut rt = SimRuntime::new();
    let mut dl = rt.delay(Duration::from_nanos(2));
    rt.advance(Duration::from_nanos(5));
    assert!(rt.delay_poll(&mut dl));
    assert!(rt.delay_poll(&mut dl));
    rt.advance(Duration::from_nanos(5));
    assert!(rt.delay_poll(&mut dl));
}

#[test]
fn zero_delay_is_complete_at_once() {
    let rt = SimRuntime::new();
    let mut dl = rt.delay(Duration::from_nanos(0));
    assert!(rt.delay_poll(&mut dl));
}

#[test]
fn discarding_a_delay_has_no_effect() {
    let mut rt = SimRuntime::new();
    let dl = rt.delay(Duration::from_nanos(50));
    drop(dl);
    rt.advance(Duration::from_nanos(1));
    let i = rt.now();
    assert_eq!(rt.elapsed(i).as_nanos(), 0);
}

#[test]
fn longest_delay_never_early() {
    let mut rt = SimRuntime::new();
    let mut dl = rt.delay(Duration::from_nanos(u64::MAX));
    rt.advance(Duration::from_nanos(u64::MAX - 1));
    assert!(!rt.delay_poll(&mut dl));
    rt.advance(Duration::from_nanos(1));
    assert!(rt.delay_poll(&mut dl));
}

#[test]
fn interval_first_tick_waits_one_period() {
    let mut rt = SimRuntime::new();
    let mut iv = rt.interval(Duration::from_nanos(10));
    assert!(rt.interval_poll(&mut iv).is_none());
    rt.advance(Duration::from_nanos(9));
    assert!(rt.interval_poll(&mut iv).is_none());
    rt.advance(Duration::from_nanos(1));
    let t = rt.interval_poll(&mut iv);
    assert!(t.is_some());
    assert_eq!(rt.elapsed(t.unwrap()).as_nanos(), 0);
}

#[test]
fn interval_ticks_spaced_at_least_one_period() {
    let mut rt = SimRuntime::new();
    let period: u64 = 10;
    let mut iv = rt.interval(Duration::from_nanos(period));
    let mut ticks = Vec::new();
    let steps: [u64; 6] = [10, 4, 6, 25, 3, 7];
    for s in steps {
        rt.advance(Duration::from_nanos(s));
        if let Some(t) = rt.interval_poll(&mut iv) {
            ticks.push(t);
        }
    }
    assert_eq!(ticks.len(), 4);
    for w in ticks.windows(2) {
        let gap = rt.duration_between(w[0], w[1]);
        assert!(gap.as_nanos() >= period);
    }
}

#[test]
fn interval_is_not_exhausted_by_polling() {
    let mut rt = SimRuntime::new();
    let mut iv = rt.interval(Duration::from_nanos(1));
    let mut seen: u64 = 0;
    for _ in 0..100 {
        rt.advance(Duration::from_nanos(1));
        if rt.interval_poll(&mut iv).is_some() {
            seen += 1;
        }
    }
    assert_eq!(seen, 100);
}

#[test]
fn early_poll_leaves_the_interval_undisturbed() {
    let mut rt = SimRuntime::new();
    let mut iv = rt.interval(Duration::from_nanos(20));
    for _ in 0..5 {
        assert!(rt.interval_poll(&mut iv).is_none());
    }
    rt.advance(Duration::from_nanos(20));
    let t = rt.interval_poll(&mut iv);
    assert!(t.is_some());
    assert_eq!(rt.elapsed(t.unwrap()).as_nanos(), 0);
}

#[test]
fn spawned_task_is_observed_to_run() {
    let rt = SimRuntime::new();
    let ran = Arc::new(AtomicBool::new(false));
    let flag = ran.clone();
    rt.spawn(move || {
        flag.store(true, Ordering::SeqCst);
    });
    assert!(ran.load(Ordering::SeqCst));
}

#[test]
fn clones_share_the_reading_they_were_taken_at() {
    let mut rt = SimRuntime::new();
    rt.advance(Duration::from_nanos(8));
    let snapshot = rt.clone();
    let i = rt.now();
    assert_eq!(snapshot.elapsed(i).as_nanos(), 0);
}
