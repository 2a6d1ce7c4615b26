//! Classification parsing: labeled lines amid prose, defaults, and the
//! comma-separated topic list.

use screenshot_pipeline::parse::parse_content_analysis;

#[test]
fn all_labels_any_order_with_prose() {
    let text = "Here is my analysis of the screenshot.\n\
        FOLLOW_UP: read the docs\n\
        Some unrelated commentary.\n\
        RESEARCH_TOPICS: formal methods, rust\n\
        USER_INTENT: learn verification\n\
        WEBPAGE_URL: https://example.com/page\n\
        CONTENT_TYPE: webpage\n\
        Hope this helps!";
    let r = parse_content_analysis(text);
    assert_eq!(r.content_type, "webpage");
    assert_eq!(r.webpage_url.as_deref(), Some("https://example.com/page"));
    assert_eq!(r.research_topics, vec!["formal methods".to_string(), "rust".to_string()]);
    assert_eq!(r.user_intent, "learn verification");
    assert_eq!(r.follow_up, "read the docs");
}

#[test]
fn no_labels_yields_defaults() {
    let r = parse_content_analysis("Just prose.\nNothing labeled here.\n");
    assert_eq!(r.content_type, "unknown");
    assert_eq!(r.webpage_url, None);
    assert!(r.research_topics.is_empty());
    assert_eq!(r.user_intent, "");
    assert_eq!(r.follow_up, "");
}

#[test]
fn url_none_left_unset() {
    let r = parse_content_analysis("CONTENT_TYPE: app\nWEBPAGE_URL: none\n");
    assert_eq!(r.content_type, "app");
    assert_eq!(r.webpage_url, None);
}

#[test]
fn url_unknown_left_unset() {
    let r = parse_content_analysis("WEBPAGE_URL: unknown");
    assert_eq!(r.webpage_url, None);
}

#[test]
fn topics_trimmed_and_empty_dropped() {
    let r = parse_content_analysis("RESEARCH_TOPICS:  ai ,  , verus ,,  proofs  ");
    assert_eq!(
        r.research_topics,
        vec!["ai".to_string(), "verus".to_string(), "proofs".to_string()]
    );
}

#[test]
fn labels_matched_after_trimming_lines() {
    let r = parse_content_analysis("   CONTENT_TYPE: document   \r\n");
    assert_eq!(r.content_type, "document");
}

#[test]
fn labels_are_case_sensitive() {
    let r = parse_content_analysis("content_type: webpage\nContent_Type: app\n");
    assert_eq!(r.content_type, "unknown");
}

#[test]
fn later_line_wins() {
    let r = parse_content_analysis("CONTENT_TYPE: app\nCONTENT_TYPE: game\n");
    assert_eq!(r.content_type, "game");
}

#[test]
fn empty_text_yields_defaults() {
    let r = parse_content_analysis("");
    assert_eq!(r.content_type, "unknown");
    assert_eq!(r.webpage_url, None);
    assert!(r.research_topics.is_empty());
}
