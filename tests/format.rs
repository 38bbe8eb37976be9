use timekeep::format::{human_duration, rounded_div};
use timekeep::time::Duration;

#[test]
fn rounded_div_rounds_positive_quotients_to_nearest() {
    let tests = [(3, 2, 2), (2, 3, 1), (1, 2, 1), (1, 3, 0), (-2, -3, 1), (-1, 3, 0)];
    for (n, d, a) in tests {
        assert_eq!(rounded_div(n, d), a, "testing: rounded_div({}, {}) == {}", n, d, a);
    }
}

#[test]
fn rounded_div_adds_half_the_denominator_first() {
    // (-3 + 1) / 2 and (1 + -1) / -2, with Rust's division toward zero.
    assert_eq!(rounded_div(-3, 2), -1);
    assert_eq!(rounded_div(1, -2), 0);
    assert_eq!(rounded_div(1999, 1000), 2);
}

fn millis(n: i128) -> Duration {
    Duration { nanos: n * 1_000_000 }
}

#[test]
fn human_duration_examples() {
    let durations = [
        (millis(947), "947 milliseconds"),
        (millis(1947), "2 seconds"),
        (millis(57_000), "57 seconds"),
        (millis(157_000), "2 minutes 37 seconds"),
        (millis(4_734_000), "1 hours 19 minutes"),
        (millis(92_750_000), "1 days 2 hours"),
        (millis(173 * 3_600_000), "7 days 5 hours"),
    ];
    for (d, a) in durations {
        assert_eq!(human_duration(d), a, "testing: human_duration({:?}) == {}", d, a);
    }
}

#[test]
fn human_duration_of_nothing_and_of_negative_time() {
    assert_eq!(human_duration(Duration { nanos: 0 }), "0 milliseconds");
    assert_eq!(human_duration(Duration { nanos: 999_999 }), "0 milliseconds");
    assert_eq!(human_duration(millis(-5)), "-5 milliseconds");
}
