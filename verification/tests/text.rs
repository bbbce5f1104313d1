use dart_launch::text::same_text;

#[test]
fn equal_slices_are_the_same_text() {
    assert!(same_text("", ""));
    assert!(same_text("windows", "windows"));
    assert!(same_text("d\u{e4}rt", "d\u{e4}rt"));
}

#[test]
fn different_slices_are_not_the_same_text() {
    assert!(!same_text("windows", "window"));
    assert!(!same_text("window", "windows"));
    assert!(!same_text("windows", "Windows"));
    assert!(!same_text("", " "));
}
