use reactor_sim::{Clock, Outcome, Timer};

#[test]
fn one_shot_timer_finishes_once() {
    let mut t = Timer::new(1000, false);
    assert!(!t.tick(600));
    assert_eq!(t.fraction_remaining(), 400);
    assert!(t.tick(600));
    assert_eq!(t.elapsed, 1000);
    assert!(!t.tick(600));
    assert_eq!(t.fraction_remaining(), 0);
}

#[test]
fn repeating_timer_wraps() {
    let mut t = Timer::new(2000, true);
    assert!(!t.tick(1500));
    assert!(t.tick(1500));
    assert_eq!(t.elapsed, 1000);
    assert!(t.tick(5000));
    assert_eq!(t.elapsed, 0);
}

#[test]
fn day_end_decides_by_power() {
    let mut c = Clock::new(10_000, 2000);
    assert_eq!(c.advance(10_000, 2001, 2000, 0, 50), Outcome::Won);
    let mut c = Clock::new(10_000, 2000);
    assert_eq!(c.advance(10_000, 2000, 2000, 0, 50), Outcome::Lost);
}

#[test]
fn pressure_checked_only_at_boundary() {
    let mut c = Clock::new(100_000, 2000);
    assert_eq!(c.advance(1000, 0, 10, 50, 50), Outcome::Running);
    assert_eq!(c.advance(1000, 0, 10, 50, 50), Outcome::Exploded);
    let mut c = Clock::new(100_000, 2000);
    assert_eq!(c.advance(2000, 0, 10, 49, 50), Outcome::Running);
}
