use pi::clock::ElapsedTime;
use pi::sleep::SpinSleep;

/// Polls a simulated clock the way a busy-wait does and returns the reading
/// at which the wait was over.
fn run_wait(clock: &[u64], wait: u64) -> u64 {
    let start = ElapsedTime::from_micros(clock[0]);
    let sleep = SpinSleep::start(start, ElapsedTime::from_micros(wait));
    for &now in &clock[1..] {
        if sleep.is_over(ElapsedTime::from_micros(now)) {
            return now;
        }
    }
    panic!("the simulated clock ran out before the deadline");
}

#[test]
fn deadline_is_start_plus_wait() {
    let s = SpinSleep::start(ElapsedTime::from_micros(100), ElapsedTime::from_micros(50));
    assert_eq!(s.deadline, 150);
    assert!(!s.is_over(ElapsedTime::from_micros(149)));
    assert!(s.is_over(ElapsedTime::from_micros(150)));
    assert!(s.is_over(ElapsedTime::from_micros(151)));
}

#[test]
fn wait_ends_no_earlier_than_requested() {
    let clock: Vec<u64> = vec![1000, 1003, 1007, 1012, 1020, 1031, 1045];
    for wait in 0..40u64 {
        let end = run_wait(&clock, wait);
        assert!(end - clock[0] >= wait);
    }
}

#[test]
fn wait_ends_at_first_reading_past_deadline() {
    let clock: Vec<u64> = vec![1000, 1003, 1007, 1012, 1020];
    assert_eq!(run_wait(&clock, 8), 1012);
    assert_eq!(run_wait(&clock, 12), 1012);
    assert_eq!(run_wait(&clock, 13), 1020);
}

#[test]
fn zero_wait_is_over_at_once() {
    let start = ElapsedTime::from_micros(777);
    let s = SpinSleep::start(start, ElapsedTime::from_micros(0));
    assert!(s.is_over(start));
    assert_eq!(run_wait(&[5, 5], 0), 5);
}

#[test]
fn largest_deadline_does_not_overflow() {
    let max = ElapsedTime::from_micros(u64::MAX);
    let s = SpinSleep::start(max, max);
    assert_eq!(s.deadline, 2 * (u64::MAX as u128));
    assert!(!s.is_over(max));
}
