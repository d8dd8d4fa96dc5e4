use peeksy::classify::is_candidate;
use peeksy::paths::{file_name_of, join_path, name_start_index, real_path};
use peeksy::worker::SSController;

fn controller() -> SSController {
    SSController::new("key".to_string(), "prompt".to_string())
}

#[test]
fn candidate_accepts_screenshot_prefix() {
    assert!(is_candidate("/Users/me/Desktop/.Screenshot 2024-01-01 at 10.00.00.png"));
    assert!(is_candidate("/d/_screenshot.png"));
    assert!(is_candidate("/d/_SCREENSHOT-1.png"));
}

#[test]
fn candidate_accepts_screen_shot_anywhere() {
    assert!(is_candidate("/d/_My Screen Shot 1.png"));
    assert!(is_candidate("/d/xa screen shot.png"));
}

#[test]
fn candidate_rejects_other_names() {
    assert!(!is_candidate("/d/_photo.png"));
    assert!(!is_candidate("/d/_my screenshot.png"));
    assert!(!is_candidate("/d/_screenshots-are-great.jpg"));
}

#[test]
fn candidate_rejects_other_extensions() {
    assert!(!is_candidate("/d/_Screenshot 1.jpg"));
    assert!(!is_candidate("/d/_Screenshot 1.PNG"));
    assert!(!is_candidate("/d/_Screenshot 1"));
    assert!(!is_candidate("/d/_Screenshot 1.png.tmp"));
}

#[test]
fn candidate_rejects_ss_suffix() {
    assert!(!is_candidate("/d/_Screenshot 1-ss"));
    assert!(!is_candidate("/d/_Screen Shot 1-ss"));
}

#[test]
fn candidate_counts_marker_as_first_character() {
    // Without a marker the name loses its first letter and no longer matches.
    assert!(!is_candidate("/d/Screenshot 1.png"));
    assert!(is_candidate("/d/xScreenshot 1.png"));
}

#[test]
fn candidate_short_names_do_not_panic() {
    assert!(!is_candidate(""));
    assert!(!is_candidate("/"));
    assert!(!is_candidate("/d/"));
    assert!(!is_candidate("a"));
    assert!(!is_candidate("/d/é"));
    assert!(!is_candidate("/d/.png"));
}

#[test]
fn candidate_non_ascii_marker() {
    assert!(is_candidate("/d/éScreenshot 1.png"));
}

#[test]
fn screenshot_file_method_matches_rule() {
    let c = controller();
    assert!(c.is_screenshot_file("/d/_Screenshot 2024-01-01 at 10.00.00.png"));
    assert!(!c.is_screenshot_file("/d/_notes.png"));
}

#[test]
fn real_path_strips_marker() {
    assert_eq!(
        real_path("/Users/me/Desktop/_Screenshot 1.png"),
        "/Users/me/Desktop/Screenshot 1.png"
    );
    assert_eq!(real_path("_a.png"), "a.png");
    assert_eq!(real_path("/d/éx"), "/d/x");
    assert_eq!(real_path("/d/"), "/d/");
    assert_eq!(real_path(""), "");
}

#[test]
fn real_path_strips_only_once() {
    let once = real_path("/d/__Screenshot.png");
    assert_eq!(once, "/d/_Screenshot.png");
    let c = controller();
    assert_eq!(c.modify_path("/d/__Screenshot.png"), once);
    // Applying it to its own output strips again, so it must only see event paths.
    assert_eq!(real_path(&once), "/d/Screenshot.png");
}

#[test]
fn real_path_distinct_inputs_same_marker() {
    assert_ne!(real_path("/d/_a.png"), real_path("/d/_b.png"));
    assert_ne!(real_path("/d/_a.png"), real_path("/e/_a.png"));
    // Different markers can meet: that is why the marker matters.
    assert_eq!(real_path("/d/_a.png"), real_path("/d/.a.png"));
}

#[test]
fn path_helpers() {
    assert_eq!(name_start_index("/a/b/c.png"), 5);
    assert_eq!(name_start_index("c.png"), 0);
    assert_eq!(file_name_of("/a/b/c.png"), "c.png");
    assert_eq!(file_name_of("/a/b/"), "");
    assert_eq!(join_path("/home/me", "Pictures"), "/home/me/Pictures");
    assert_eq!(join_path("/home/me/", "Pictures"), "/home/me/Pictures");
    assert_eq!(join_path("/home/me", "/etc"), "/etc");
    assert_eq!(join_path("", "x"), "x");
}
