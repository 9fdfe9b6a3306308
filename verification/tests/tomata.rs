use tomata::tomata::{duration_to_string, HOUR_S, MINUTE_S, SECOND_S};

#[test]
fn duration_converts_to_string() {
    const ONE_HOUR_THIRTY_MINUTE_TEN_SECONDS_IN_SECONDS: u64 = HOUR_S + MINUTE_S * 30 + SECOND_S * 10;
    let as_string = duration_to_string(ONE_HOUR_THIRTY_MINUTE_TEN_SECONDS_IN_SECONDS);
    assert_eq!(as_string, "01:30:10");
}

#[test]
fn zero_duration_converts_to_all_zeros() {
    assert_eq!(duration_to_string(0), "00:00:00");
}

#[test]
fn each_field_is_zero_padded_to_two_digits() {
    assert_eq!(duration_to_string(HOUR_S + MINUTE_S + SECOND_S), "01:01:01");
    assert_eq!(duration_to_string(59), "00:00:59");
    assert_eq!(duration_to_string(MINUTE_S * 59), "00:59:00");
}

#[test]
fn hours_grow_past_two_digits_when_needed() {
    assert_eq!(duration_to_string(HOUR_S * 100 + 59), "100:00:59");
    assert_eq!(duration_to_string(HOUR_S * 123 + MINUTE_S * 45 + 6), "123:45:06");
}
