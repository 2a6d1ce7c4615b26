//! The watcher's name filter, the settle-delay decision, and the
//! file-to-submission conversion.

use base64::Engine;
use screenshot_pipeline::watcher::{
    is_screenshot_file, prepare_file_submission, worker_decision, WatcherDecision,
};

#[test]
fn accepts_standard_screenshot_name() {
    assert!(is_screenshot_file("Screenshot 2024-01-01.png"));
}

#[test]
fn rejects_hidden_file() {
    assert!(!is_screenshot_file(".hidden-screenshot.png"));
}

#[test]
fn rejects_wrong_extension() {
    assert!(!is_screenshot_file("photo.gif"));
    assert!(!is_screenshot_file("screenshot.txt"));
    assert!(!is_screenshot_file("screenshot"));
}

#[test]
fn rejects_name_without_pattern() {
    assert!(!is_screenshot_file("holiday-photo.png"));
}

#[test]
fn accepts_all_patterns_case_insensitively() {
    assert!(is_screenshot_file("My CAPTURE.JPEG"));
    assert!(is_screenshot_file("CleanShot 2024.jpg"));
    assert!(is_screenshot_file("Screen Shot 2024-05-01 at 10.00.png"));
    assert!(is_screenshot_file("SCREENSHOT.PNG"));
}

#[test]
fn vanished_file_is_skipped() {
    assert_eq!(worker_decision(false, 2048), WatcherDecision::SkipMissing);
}

#[test]
fn oversized_file_is_skipped() {
    assert_eq!(worker_decision(true, 15 * 1024 * 1024 + 1), WatcherDecision::SkipTooLarge);
}

#[test]
fn settled_file_is_submitted() {
    assert_eq!(worker_decision(true, 15 * 1024 * 1024), WatcherDecision::Submit);
    assert_eq!(worker_decision(true, 2048), WatcherDecision::Submit);
}

#[test]
fn worker_continues_after_a_skip() {
    // A vanished file is skipped; the next event is handled normally.
    assert_eq!(worker_decision(false, 2048), WatcherDecision::SkipMissing);
    assert_eq!(worker_decision(true, 2048), WatcherDecision::Submit);
}

#[test]
fn file_submission_round_trips_and_marks_auto() {
    let bytes: Vec<u8> = (0..64u8).collect();
    let (payload, metadata) = prepare_file_submission(&bytes, Some("Screenshot.png".to_string()));
    let decoded = base64::engine::general_purpose::STANDARD
        .decode(&payload)
        .expect("payload must decode");
    assert_eq!(decoded, bytes);
    assert_eq!(metadata.source.as_deref(), Some("desktop_auto"));
    assert_eq!(metadata.app.as_deref(), Some("macOS Screenshot"));
    assert_eq!(metadata.filename.as_deref(), Some("Screenshot.png"));
    assert_eq!(metadata.auto_detected, Some(true));
    assert_eq!(metadata.location, None);
}
