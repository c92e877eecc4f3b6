//! The retry buffer's backoff arithmetic and counter discipline.
use uption::exporters::RetryItem;
use uption::message::Message;
use uption::value::PayloadValue;

#[test]
fn backoff_monotone_and_capped() {
    let mut item = RetryItem::new(120_000);
    let mut prev: u64 = 0;
    for n in 1..=20u64 {
        item.increment_error_count();
        let b = item.backoff_duration_ms();
        assert!(b >= prev, "backoff shrank at count {}", n);
        assert!(b <= 120_000, "backoff exceeded the cap at count {}", n);
        if n == 1 {
            assert_eq!(b, 100);
        }
        prev = b;
    }
}

#[test]
fn backoff_formula_values() {
    let mut item = RetryItem::new(120_000);
    assert_eq!(item.backoff_duration_ms(), 0);
    item.increment_error_count();
    assert_eq!(item.backoff_duration_ms(), 100);
    item.increment_error_count();
    assert_eq!(item.backoff_duration_ms(), 250);
    item.increment_error_count();
    assert_eq!(item.backoff_duration_ms(), 475);
    item.increment_error_count();
    // 200 * (1.5^4 - 1) = 812.5, rounded down
    assert_eq!(item.backoff_duration_ms(), 812);
    item.increment_error_count();
    assert_eq!(item.backoff_duration_ms(), 1318);
    item.increment_error_count();
    // 200 * (1.5^6 - 1) = 2078.125, rounded down
    assert_eq!(item.backoff_duration_ms(), 2078);
}

#[test]
fn decrement_not_reset() {
    let mut item = RetryItem::new(120_000);
    item.increment_error_count();
    item.increment_error_count();
    item.increment_error_count();
    assert_eq!(item.error_count(), 3);
    item.decrement_error_count();
    assert_eq!(item.error_count(), 2);
}

#[test]
fn decrement_stops_at_zero() {
    let mut item = RetryItem::new(120_000);
    item.decrement_error_count();
    assert_eq!(item.error_count(), 0);
}

#[test]
fn counter_saturates_once_backoff_caps() {
    let mut item = RetryItem::new(1_000);
    for _ in 0..50 {
        item.increment_error_count();
    }
    // the delays run 100, 250, 475, 812; the next would pass the cap
    assert_eq!(item.error_count(), 4);
    assert_eq!(item.backoff_duration_ms(), 812);
    item.increment_error_count();
    assert_eq!(item.error_count(), 4);
}

#[test]
fn retry_buffer_holds_one_message() {
    let mut item = RetryItem::new(120_000);
    assert!(!item.has_pending());
    assert!(item.take().is_none());
    let mut msg = Message::new("m");
    msg.insert_metric("x", PayloadValue::Uint8(1));
    item.set(msg);
    assert!(item.has_pending());
    let back = item.take().expect("the buffered message");
    assert_eq!(back.source(), "m");
    assert!(!item.has_pending());
    assert!(item.take().is_none());
}
