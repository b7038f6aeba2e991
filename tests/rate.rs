use speedhive::chain::format_error_chain;
use speedhive::limits::{add_bytes, is_success_status, past_deadline, stop_after_ms};
use speedhive::rate::{rate_over, Rate};

#[test]
fn rate_formula() {
    assert_eq!(rate_over(1_250_000, 1_000_000), Rate { bits: 10_000_000, micros: 1_000_000 });
}

#[test]
fn rate_floors_short_intervals() {
    assert_eq!(rate_over(1000, 0), Rate { bits: 8000, micros: 1000 });
    assert_eq!(rate_over(1000, 999), Rate { bits: 8000, micros: 1000 });
}

#[test]
fn rate_is_repeatable() {
    let a = rate_over(123_456, 789_012);
    let b = rate_over(123_456, 789_012);
    assert_eq!(a, b);
}

#[test]
fn rate_of_largest_count() {
    assert_eq!(rate_over(u64::MAX, 5000).bits, (u64::MAX as u128) * 8);
}

#[test]
fn run_length_is_floored() {
    assert_eq!(stop_after_ms(0), 250);
    assert_eq!(stop_after_ms(100), 250);
    assert_eq!(stop_after_ms(5000), 5000);
    assert!(!past_deadline(0, 0));
    assert!(!past_deadline(0, 249_999));
    assert!(past_deadline(0, 250_000));
    assert!(!past_deadline(u64::MAX, u64::MAX));
}

#[test]
fn success_statuses() {
    assert!(is_success_status(200));
    assert!(is_success_status(299));
    assert!(!is_success_status(199));
    assert!(!is_success_status(300));
    assert!(!is_success_status(500));
}

#[test]
fn byte_count_holds_at_max() {
    assert_eq!(add_bytes(10, 5), 15);
    assert_eq!(add_bytes(u64::MAX - 1, 5), u64::MAX);
}

#[test]
fn chain_without_causes() {
    assert_eq!(format_error_chain("plain", &Vec::new()), "plain");
}

#[test]
fn chain_with_causes() {
    let causes = vec!["inner".to_string(), "root".to_string()];
    let text = format_error_chain("outer", &causes);
    assert_eq!(text, "outer\ncaused by: inner\ncaused by: root");
    assert!(text.contains("caused by:"));
}
