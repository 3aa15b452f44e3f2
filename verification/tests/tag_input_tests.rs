use photo_handler::tag_input::{
    add_suggestion, commit_tag_draft, metadata_dimensions, metadata_size, metadata_value,
    remove_tag, toggle_tag,
};

fn strings(items: &[&str]) -> Vec<String> {
    items.iter().map(|s| s.to_string()).collect()
}

#[test]
fn typed_words_become_tags_when_a_space_ends_them() {
    let (tags, draft) = commit_tag_draft(strings(&["beach"]), "Family trip Bea");
    assert_eq!(tags, strings(&["beach", "family", "trip"]));
    assert_eq!(draft, "Bea");
    let (tags, draft) = commit_tag_draft(strings(&[]), "  Beach  beach ");
    assert_eq!(tags, strings(&["beach"]));
    assert_eq!(draft, "");
    let (tags, draft) = commit_tag_draft(strings(&["x"]), "");
    assert_eq!(tags, strings(&["x"]));
    assert_eq!(draft, "");
}

#[test]
fn chips_are_removed_toggled_and_suggested() {
    assert_eq!(remove_tag(strings(&["a", "b", "a"]), "a"), strings(&["b"]));
    assert_eq!(toggle_tag(strings(&["a"]), "b".to_string()), strings(&["a", "b"]));
    assert_eq!(toggle_tag(strings(&["a", "b"]), "a".to_string()), strings(&["b"]));
    assert_eq!(add_suggestion(strings(&["zoo", "alpha"]), "beta".to_string()), strings(&["alpha", "beta", "zoo"]));
    assert_eq!(add_suggestion(strings(&["zoo", "alpha"]), "zoo".to_string()), strings(&["zoo", "alpha"]));
}

#[test]
fn missing_metadata_is_labelled() {
    assert_eq!(metadata_value(None), "Not available");
    assert_eq!(metadata_value(Some("Canon".to_string())), "Canon");
    assert_eq!(metadata_size(Some(2048)), "2048 bytes");
    assert_eq!(metadata_size(None), "Not available");
    assert_eq!(metadata_dimensions(Some(640), Some(480)), "640 × 480");
    assert_eq!(metadata_dimensions(Some(640), None), "Not available");
}
