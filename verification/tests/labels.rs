use player_ui::labels::{contains_label, display_name};

#[test]
fn display_name_takes_the_last_path_component() {
    assert_eq!(display_name(&"dir/sub/track.mp3".to_string()), "track.mp3");
    assert_eq!(display_name(&"track.mp3".to_string()), "track.mp3");
}

#[test]
fn display_name_ignores_one_trailing_separator() {
    assert_eq!(display_name(&"dir/name/".to_string()), "name");
    assert_eq!(display_name(&"/".to_string()), "");
    assert_eq!(display_name(&"".to_string()), "");
}

#[test]
fn contains_label_compares_by_value() {
    let v = vec!["a".to_string(), "b".to_string()];
    assert!(contains_label(&v, &"a".to_string()));
    assert!(contains_label(&v, &"b".to_string()));
    assert!(!contains_label(&v, &"c".to_string()));
    assert!(!contains_label(&Vec::new(), &"a".to_string()));
}
