use pipeweld::diff::DiffValue;

#[test]
fn positive_delta_has_explicit_plus() {
    assert_eq!(DiffValue::new(5).to_string(), "+5%");
}

#[test]
fn negative_delta_has_minus_only() {
    assert_eq!(DiffValue::new(-5).to_string(), "-5%");
}

#[test]
fn zero_delta_has_no_sign() {
    assert_eq!(DiffValue::new(0).to_string(), "0%");
}

#[test]
fn single_digits_are_formatted() {
    assert_eq!(DiffValue::new(1).to_string(), "+1%");
    assert_eq!(DiffValue::new(9).to_string(), "+9%");
    assert_eq!(DiffValue::new(-1).to_string(), "-1%");
    assert_eq!(DiffValue::new(-9).to_string(), "-9%");
}

#[test]
fn several_digits_keep_their_order() {
    assert_eq!(DiffValue::new(10).to_string(), "+10%");
    assert_eq!(DiffValue::new(100).to_string(), "+100%");
    assert_eq!(DiffValue::new(-120).to_string(), "-120%");
    assert_eq!(DiffValue::new(1234567890).to_string(), "+1234567890%");
    assert_eq!(DiffValue::new(-9080706).to_string(), "-9080706%");
}

#[test]
fn extreme_deltas_are_formatted() {
    assert_eq!(DiffValue::new(i32::MAX).to_string(), "+2147483647%");
    assert_eq!(DiffValue::new(i32::MIN).to_string(), "-2147483648%");
}

#[test]
fn text_matches_standard_decimal_notation() {
    let samples = [
        -1000000, -99999, -4096, -101, -100, -99, -11, -10, -2, 0, 2, 10, 11, 99, 100, 101, 4096,
        99999, 1000000,
    ];
    for d in samples {
        let expected = if d > 0 { format!("+{}%", d) } else { format!("{}%", d) };
        assert_eq!(DiffValue::new(d).to_string(), expected);
    }
}

#[test]
fn distinct_deltas_have_distinct_text() {
    let mut seen: Vec<String> = Vec::new();
    for d in -50..=50 {
        let text = DiffValue::new(d).to_string();
        assert!(!seen.contains(&text));
        seen.push(text);
    }
}

#[test]
fn percent_gives_back_the_delta() {
    assert_eq!(DiffValue::new(-5).percent(), -5);
    assert_eq!(DiffValue::new(5).percent(), 5);
    assert_eq!(DiffValue::new(0).percent(), 0);
}

#[test]
fn delta_is_copied_unchanged() {
    let diff = DiffValue::new(7);
    let copy = diff;
    assert_eq!(copy.percent(), 7);
    assert_eq!(diff.clone().to_string(), "+7%");
}
