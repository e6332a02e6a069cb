use can_viewer::text::same_text;

#[test]
fn texts_compare_character_for_character() {
    assert!(same_text("", ""));
    assert!(same_text("abc", "abc"));
    assert!(!same_text("abc", "abd"));
    assert!(!same_text("abc", "ab"));
    assert!(!same_text("abc", "ABC"));
    assert!(same_text("grüße", "grüße"));
    assert!(!same_text("grüße", "grusse"));
}
