//! Notification composition: header, timestamp, and the action buttons.

use screenshot_pipeline::dispatch::{compose_notification, hms_text};

#[test]
fn clock_reading_is_two_digit_utc() {
    let ms = ((13 * 3600 + 5 * 60 + 9) * 1000) as i64;
    assert_eq!(hms_text(ms), "13:05:09");
    assert_eq!(hms_text(0), "00:00:00");
}

#[test]
fn desktop_notification_with_url() {
    let m = compose_notification("found a paper", "abc123", true, "desktop_auto", 0);
    assert!(m.text.starts_with("<b>\u{1F5A5}\u{FE0F} Desktop Screenshot</b> <i>00:00:00</i>"));
    assert!(m.text.ends_with("\n\n<b>AI Analysis:</b>\n\nfound a paper"));
    assert_eq!(m.buttons.len(), 3);
    assert_eq!(m.buttons[0].label, "\u{1F52C} Research Papers");
    assert_eq!(m.buttons[0].callback, "arxiv_research_abc123");
    assert_eq!(m.buttons[1].label, "\u{1F9E0} Deep Research");
    assert_eq!(m.buttons[1].callback, "deep_research_abc123");
    assert_eq!(m.buttons[2].label, "\u{1F310} Webpage Content");
    assert_eq!(m.buttons[2].callback, "full_webpage_abc123");
}

#[test]
fn phone_notification_without_url() {
    let m = compose_notification("summary", "id9", false, "iOS", 1000);
    assert!(m.text.starts_with("<b>\u{1F4F1} iPhone Screenshot</b> <i>00:00:01</i>"));
    assert_eq!(m.buttons.len(), 2);
    assert_eq!(m.buttons[0].callback, "arxiv_research_id9");
    assert_eq!(m.buttons[1].callback, "deep_research_id9");
}
