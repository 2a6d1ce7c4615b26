//! The analysis store: distinct inserts, counters, and the bounded
//! newest-first recent query.

use screenshot_pipeline::store::AnalysisStore;
use screenshot_pipeline::types::{
    AnalysisData, ContentAnalysis, ProcessedImage, ScreenshotMetadata,
};

fn record(ts: i64) -> AnalysisData {
    AnalysisData {
        image_data: ProcessedImage {
            base64_data: "QUFBQQ==".to_string(),
            media_type: "image/png".to_string(),
            size_bytes: 2048,
        },
        brief_summary: format!("summary at {}", ts),
        content_analysis: ContentAnalysis::default(),
        metadata: ScreenshotMetadata::default(),
        timestamp: ts,
        source: "iOS".to_string(),
    }
}

#[test]
fn hundred_distinct_ids_all_stored() {
    let mut store = AnalysisStore::new();
    let n: u64 = 120;
    for i in 0..n {
        store.record_request(i as i64);
        store.insert(i as u128, record(i as i64));
    }
    assert_eq!(store.count(), n as usize);
    assert_eq!(store.request_count(), n);
    assert_eq!(store.last_request(), Some((n - 1) as i64));
}

#[test]
fn reinserting_same_id_keeps_one_record() {
    let mut store = AnalysisStore::new();
    store.insert(7, record(1));
    store.insert(7, record(2));
    assert_eq!(store.count(), 1);
}

#[test]
fn fresh_store_is_empty() {
    let store = AnalysisStore::new();
    assert_eq!(store.count(), 0);
    assert_eq!(store.request_count(), 0);
    assert_eq!(store.last_request(), None);
}

#[test]
fn recent_caps_at_fifty_newest_first() {
    let mut store = AnalysisStore::new();
    for i in 0..60u64 {
        store.insert(i as u128, record(i as i64));
    }
    let r = store.recent(50);
    assert_eq!(r.len(), 50);
    for w in r.windows(2) {
        assert!(w[0].1.timestamp >= w[1].1.timestamp);
    }
    assert_eq!(r[0].1.timestamp, 59);
    assert_eq!(r[49].1.timestamp, 10);
}

#[test]
fn recent_returns_everything_when_under_limit() {
    let mut store = AnalysisStore::new();
    for i in 0..5u64 {
        store.insert(i as u128, record((100 - i) as i64));
    }
    let r = store.recent(50);
    assert_eq!(r.len(), 5);
    assert_eq!(r[0].1.timestamp, 100);
    assert_eq!(r[4].1.timestamp, 96);
    let mut ids: Vec<u128> = r.iter().map(|e| e.0).collect();
    ids.sort();
    assert_eq!(ids, vec![0, 1, 2, 3, 4]);
}

#[test]
fn recent_handles_equal_timestamps() {
    let mut store = AnalysisStore::new();
    for i in 0..10u64 {
        store.insert(i as u128, record(5));
    }
    let r = store.recent(50);
    assert_eq!(r.len(), 10);
    let mut ids: Vec<u128> = r.iter().map(|e| e.0).collect();
    ids.sort();
    ids.dedup();
    assert_eq!(ids.len(), 10);
}
