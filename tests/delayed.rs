use std::task::Poll;
use vignettes::DelayedValue;

#[test]
fn pending_before_the_delay() {
    let mut d = DelayedValue::new(500, 42);
    assert_eq!(d.poll_elapsed(0), Poll::Pending);
    assert_eq!(d.poll_elapsed(499), Poll::Pending);
    assert!(!d.is_taken());
}

#[test]
fn ready_once_the_delay_has_passed() {
    let mut d = DelayedValue::new(500, 42);
    assert_eq!(d.poll_elapsed(500), Poll::Ready(42));
    assert!(d.is_taken());
    let mut e = DelayedValue::new(500, String::from("late"));
    assert_eq!(e.poll_elapsed(10_000), Poll::Ready(String::from("late")));
    assert!(e.is_taken());
}

#[test]
fn zero_delay_is_ready_on_the_clock() {
    let mut d = DelayedValue::new(0, 7);
    assert_eq!(d.poll(), Poll::Ready(7));
    assert!(d.is_taken());
}

#[test]
fn long_delay_is_pending_on_the_clock() {
    let mut d = DelayedValue::new(60_000, 7);
    assert_eq!(d.poll(), Poll::Pending);
    assert!(!d.is_taken());
}

#[test]
fn clock_reaches_a_short_delay() {
    let mut d = DelayedValue::new(20, 5);
    let began = std::time::Instant::now();
    let mut result = d.poll();
    while result.is_pending() && began.elapsed().as_secs() < 5 {
        result = d.poll();
    }
    assert_eq!(result, Poll::Ready(5));
    assert!(began.elapsed().as_millis() >= 20);
}

#[test]
fn taken_value_stays_pending_before_the_delay() {
    let mut d = DelayedValue::new(500, 3);
    assert_eq!(d.poll_elapsed(600), Poll::Ready(3));
    assert_eq!(d.poll_elapsed(100), Poll::Pending);
    assert!(d.is_taken());
}
