use drone_telemetry::text::same_text;

#[test]
fn same_text_compares_characters() {
    assert!(same_text("battery", "battery"));
    assert!(!same_text("battery", "batterx"));
    assert!(!same_text("battery", "batter"));
    assert!(same_text("", ""));
}
