use chart_formatter::TriggerEntry;
use chart_formatter::format_data_value;
use chart_formatter::format_tooltip;

#[test]
fn label_for_single_digit() {
    assert_eq!(format_data_value(7), "7 Charming");
}

#[test]
fn label_for_zero() {
    assert_eq!(format_data_value(0), "0 Charming");
}

#[test]
fn label_for_demo_point() {
    assert_eq!(format_data_value(230), "230 Charming");
}

#[test]
fn label_for_round_number() {
    assert_eq!(format_data_value(100), "100 Charming");
}

#[test]
fn label_for_negative_value() {
    assert_eq!(format_data_value(-42), "-42 Charming");
}

#[test]
fn label_for_extreme_values() {
    assert_eq!(format_data_value(i64::MAX), "9223372036854775807 Charming");
    assert_eq!(format_data_value(i64::MIN), "-9223372036854775808 Charming");
}

#[test]
fn formatter_labels_first_payload_entry() {
    let payload = vec![TriggerEntry { data: 150 }, TriggerEntry { data: 260 }];
    let label = format_tooltip(&payload, 12, 34).unwrap();
    assert_eq!(label, "150 Charming");
}

#[test]
fn formatter_suffix_and_prefix() {
    let payload = vec![TriggerEntry { data: 224 }];
    let label = format_tooltip(&payload, 0, 0).unwrap();
    assert!(label.ends_with(" Charming"));
    assert!(label.starts_with("224"));
}

#[test]
fn formatter_ignores_pointer_position() {
    let payload = vec![TriggerEntry { data: 135 }];
    let a = format_tooltip(&payload, 0, 0);
    let b = format_tooltip(&payload, -500, 1000);
    assert_eq!(a, b);
    assert_eq!(a.unwrap(), "135 Charming");
}

#[test]
fn formatter_empty_payload_has_no_label() {
    let payload: Vec<TriggerEntry> = Vec::new();
    assert!(format_tooltip(&payload, 1, 2).is_none());
}
