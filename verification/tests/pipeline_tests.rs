//! Orchestration: interpreting upstream outcomes, composing requests,
//! shaping responses, and the processor's submission steps.

use screenshot_pipeline::pipeline::{
    classification_outcome, failure_response, source_type_of, summary_outcome,
    classification_request_body, summary_request_body, FetchOutcome, PipelineError,
    ScreenshotProcessor, UpstreamError,
};
use screenshot_pipeline::image::ValidationError;
use screenshot_pipeline::types::{
    AnalysisData, AppConfig, ContentAnalysis, HealthStatus, ProcessedImage, ScreenshotMetadata,
    health_status,
};

fn config() -> AppConfig {
    AppConfig {
        anthropic_api_key: "key".to_string(),
        telegram_bot_token: Some("token".to_string()),
        telegram_chat_id: Some("42".to_string()),
        enable_desktop_detection: true,
        server_port: 5001,
    }
}

fn image() -> ProcessedImage {
    ProcessedImage {
        base64_data: "QUJDRA==".to_string(),
        media_type: "image/png".to_string(),
        size_bytes: 2048,
    }
}

fn record(ts: i64) -> AnalysisData {
    AnalysisData {
        image_data: image(),
        brief_summary: "a short summary".to_string(),
        content_analysis: ContentAnalysis::default(),
        metadata: ScreenshotMetadata::default(),
        timestamp: ts,
        source: "iOS".to_string(),
    }
}

#[test]
fn summary_transport_failure_aborts() {
    assert_eq!(summary_outcome(&FetchOutcome::Failed), Err(UpstreamError::Transport));
}

#[test]
fn summary_bad_status_aborts() {
    let f = FetchOutcome::Response { status_ok: false, body: "ignored".to_string() };
    assert_eq!(summary_outcome(&f), Err(UpstreamError::ApiStatus));
}

#[test]
fn summary_extracts_first_content_text() {
    let body = "{\"content\":[{\"type\":\"text\",\"text\":\"hello there\"}]}";
    let f = FetchOutcome::Response { status_ok: true, body: body.to_string() };
    assert_eq!(summary_outcome(&f), Ok("hello there".to_string()));
}

#[test]
fn summary_missing_field_aborts() {
    let f = FetchOutcome::Response { status_ok: true, body: "{\"content\":[]}".to_string() };
    assert_eq!(summary_outcome(&f), Err(UpstreamError::MissingField));
    let g = FetchOutcome::Response { status_ok: true, body: "not json".to_string() };
    assert_eq!(summary_outcome(&g), Err(UpstreamError::MissingField));
}

#[test]
fn classification_failure_degrades_to_default() {
    let r = classification_outcome(&FetchOutcome::Failed);
    assert_eq!(r.content_type, "unknown");
    assert_eq!(r.webpage_url, None);
    assert!(r.research_topics.is_empty());
    let f = FetchOutcome::Response { status_ok: false, body: "x".to_string() };
    let r2 = classification_outcome(&f);
    assert_eq!(r2.content_type, "unknown");
}

#[test]
fn classification_parses_successful_body() {
    let body = "{\"content\":[{\"text\":\"CONTENT_TYPE: social\\nUSER_INTENT: share\"}]}";
    let f = FetchOutcome::Response { status_ok: true, body: body.to_string() };
    let r = classification_outcome(&f);
    assert_eq!(r.content_type, "social");
    assert_eq!(r.user_intent, "share");
}

#[test]
fn source_type_defaults_to_ios() {
    assert_eq!(source_type_of(&None), "iOS");
    let md = ScreenshotMetadata { source: None, ..ScreenshotMetadata::default() };
    assert_eq!(source_type_of(&Some(md)), "iOS");
    let md2 = ScreenshotMetadata {
        source: Some("desktop_auto".to_string()),
        ..ScreenshotMetadata::default()
    };
    assert_eq!(source_type_of(&Some(md2)), "desktop_auto");
}

#[test]
fn summary_request_is_wellformed_json() {
    let body = summary_request_body(&image(), "desktop_auto", "vision-model-a");
    let v: serde_json::Value = serde_json::from_str(&body).expect("body must parse");
    assert_eq!(v["model"], "vision-model-a");
    assert_eq!(v["max_tokens"], 200);
    let content = &v["messages"][0]["content"];
    assert!(content[0]["text"].as_str().unwrap().starts_with("Analyze this desktop screenshot"));
    assert_eq!(content[1]["source"]["media_type"], "image/png");
    assert_eq!(content[1]["source"]["data"], "QUJDRA==");
}

#[test]
fn summary_request_uses_phone_prompt_otherwise() {
    let body = summary_request_body(&image(), "iOS", "vision-model-a");
    let v: serde_json::Value = serde_json::from_str(&body).expect("body must parse");
    assert!(v["messages"][0]["content"][0]["text"]
        .as_str()
        .unwrap()
        .starts_with("Analyze this iPhone screenshot"));
}

#[test]
fn classification_request_carries_labeled_prompt() {
    let body = classification_request_body(&image(), "vision-model-a");
    let v: serde_json::Value = serde_json::from_str(&body).expect("body must parse");
    assert_eq!(v["max_tokens"], 300);
    let prompt = v["messages"][0]["content"][0]["text"].as_str().unwrap();
    assert!(prompt.contains("CONTENT_TYPE:"));
    assert!(prompt.contains("WEBPAGE_URL:"));
    assert!(prompt.contains("RESEARCH_TOPICS:"));
    assert!(prompt.contains("USER_INTENT:"));
    assert!(prompt.contains("FOLLOW_UP:"));
}

#[test]
fn failure_response_is_wellformed() {
    let e = PipelineError::Validation(ValidationError::TooSmall);
    let r = failure_response(&e, 1234);
    assert!(!r.success);
    assert_eq!(r.error.as_deref(), Some("Image too small"));
    assert_eq!(r.summary, None);
    assert_eq!(r.analysis_id, None);
    assert_eq!(r.timestamp, 1234);
    let e2 = PipelineError::Upstream(UpstreamError::Transport);
    assert_eq!(failure_response(&e2, 0).error.as_deref(), Some("API request failed"));
}

#[test]
fn begin_submission_counts_and_stamps() {
    let mut p = ScreenshotProcessor::new(config());
    let (now1, id1) = p.begin_submission();
    let (_now2, id2) = p.begin_submission();
    assert_eq!(p.store.request_count(), 2);
    assert_eq!(p.store.last_request().is_some(), true);
    assert!(now1 > 0);
    assert_ne!(id1, id2);
}

#[test]
fn finish_submission_ignores_delivery_outcome() {
    let mut p1 = ScreenshotProcessor::new(config());
    let mut p2 = ScreenshotProcessor::new(config());
    let delivered = p1.finish_submission(9, record(77), true);
    let failed = p2.finish_submission(9, record(77), false);
    assert_eq!(delivered.success, failed.success);
    assert_eq!(delivered.summary, failed.summary);
    assert_eq!(delivered.analysis_id, failed.analysis_id);
    assert_eq!(delivered.timestamp, failed.timestamp);
    assert_eq!(delivered.source, failed.source);
    assert_eq!(delivered.error, failed.error);
    assert!(delivered.success);
    assert_eq!(delivered.analysis_id, Some(9));
    assert_eq!(delivered.summary.as_deref(), Some("a short summary"));
    assert_eq!(p1.store.count(), 1);
}

#[test]
fn get_recent_analyses_caps_at_fifty() {
    let mut p = ScreenshotProcessor::new(config());
    for i in 0..55u64 {
        p.finish_submission(i as u128, record(i as i64), true);
    }
    let r = p.get_recent_analyses();
    assert_eq!(r.len(), 50);
    assert_eq!(r[0].1.timestamp, 54);
}

#[test]
fn status_snapshot_reflects_state() {
    let mut p = ScreenshotProcessor::new(config());
    p.begin_submission();
    p.finish_submission(1, record(5), true);
    let s = p.get_status("192.168.1.10".to_string());
    assert_eq!(s.server, "Screenshot AI Server");
    assert_eq!(s.status, "running");
    assert_eq!(s.local_ip, "192.168.1.10");
    assert_eq!(s.port, 5001);
    assert_eq!(s.total_requests, 1);
    assert_eq!(s.active_analyses, 1);
    assert!(s.telegram_configured);
    assert!(s.desktop_detection_enabled);
}

#[test]
fn health_marker_is_fixed() {
    let h: HealthStatus = health_status(42);
    assert_eq!(h.status, "healthy");
    assert_eq!(h.server, "iOS Screenshot AI Server");
    assert_eq!(h.timestamp, 42);
}
