use music_bot::text::truncate_select_label;

#[test]
fn select_label_is_limited_by_characters_without_breaking_utf8() {
    let label = "ạ".repeat(101);
    let truncated = truncate_select_label(&label);

    assert_eq!(truncated.chars().count(), 100);
    assert!(truncated.ends_with("..."));
}

#[test]
fn select_label_under_limit_is_unchanged() {
    let label = "Track - Artist";
    assert_eq!(truncate_select_label(label), label);
}
