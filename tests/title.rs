use replay_capture::title::{is_target_title, select_targets, title_contains};

#[test]
fn finds_pattern_inside() {
    assert!(title_contains("abcde", "cd"));
    assert!(title_contains("abc", ""));
    assert!(title_contains("abc", "abc"));
    assert!(!title_contains("abc", "abcd"));
    assert!(!title_contains("abcabd", "abe"));
}

#[test]
fn target_title_matches() {
    assert!(is_target_title("Fightcade FBNeo v0.2.97.44"));
    assert!(!is_target_title("Fightcade"));
    assert!(!is_target_title("fightcade fbneo"));
}

#[test]
fn selects_target_windows_in_order() {
    let titles = vec![
        "Notepad".to_string(),
        "Fightcade FBNeo - sf3".to_string(),
        "Browser".to_string(),
        "x Fightcade FBNeo".to_string(),
    ];
    assert_eq!(select_targets(&titles), vec![1, 3]);
    assert!(select_targets(&Vec::new()).is_empty());
}
