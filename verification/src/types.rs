//! Data model of the pipeline: submissions, processed images, analysis
//! results, stored records, and the point-in-time server snapshot.

use vstd::prelude::*;

verus! {

/// Optional metadata accompanying a submitted image.
#[derive(Clone, Debug)]
pub struct ScreenshotMetadata {
    pub source: Option<String>,
    pub app: Option<String>,
    pub filename: Option<String>,
    pub location: Option<String>,
    pub auto_detected: Option<bool>,
}

pub struct ScreenshotMetadataView {
    pub source: Option<Seq<char>>,
    pub app: Option<Seq<char>>,
    pub filename: Option<Seq<char>>,
    pub location: Option<Seq<char>>,
    pub auto_detected: Option<bool>,
}

impl View for ScreenshotMetadata {
    type V = ScreenshotMetadataView;

    open spec fn view(&self) -> ScreenshotMetadataView {
        ScreenshotMetadataView {
            source: self.source.deep_view(),
            app: self.app.deep_view(),
            filename: self.filename.deep_view(),
            location: self.location.deep_view(),
            auto_detected: self.auto_detected,
        }
    }
}

impl ScreenshotMetadataView {
    /// The metadata all submissions fall back to when none is given.
    pub open spec fn default_spec() -> ScreenshotMetadataView {
        ScreenshotMetadataView {
            source: None,
            app: None,
            filename: None,
            location: None,
            auto_detected: None,
        }
    }
}

impl Default for ScreenshotMetadata {
    fn default() -> (r: Self)
        ensures
            r@ == ScreenshotMetadataView::default_spec(),
    {
        ScreenshotMetadata {
            source: None,
            app: None,
            filename: None,
            location: None,
            auto_detected: None,
        }
    }
}

/// A validated image payload: the cleaned base64 text, the sniffed media
/// type, and the decoded size in bytes.
#[derive(Clone, Debug)]
pub struct ProcessedImage {
    pub base64_data: String,
    pub media_type: String,
    pub size_bytes: usize,
}

pub struct ProcessedImageView {
    pub base64_data: Seq<char>,
    pub media_type: Seq<char>,
    pub size_bytes: usize,
}

impl View for ProcessedImage {
    type V = ProcessedImageView;

    open spec fn view(&self) -> ProcessedImageView {
        ProcessedImageView {
            base64_data: self.base64_data@,
            media_type: self.media_type@,
            size_bytes: self.size_bytes,
        }
    }
}

/// Structured fields extracted from the classification response. Every
/// field is always present; a line the response lacks leaves its field at
/// the default.
#[derive(Clone, Debug)]
pub struct ContentAnalysis {
    pub content_type: String,
    pub webpage_url: Option<String>,
    pub research_topics: Vec<String>,
    pub user_intent: String,
    pub follow_up: String,
}

pub struct ContentAnalysisView {
    pub content_type: Seq<char>,
    pub webpage_url: Option<Seq<char>>,
    pub research_topics: Seq<Seq<char>>,
    pub user_intent: Seq<char>,
    pub follow_up: Seq<char>,
}

impl View for ContentAnalysis {
    type V = ContentAnalysisView;

    open spec fn view(&self) -> ContentAnalysisView {
        ContentAnalysisView {
            content_type: self.content_type@,
            webpage_url: self.webpage_url.deep_view(),
            research_topics: self.research_topics.deep_view(),
            user_intent: self.user_intent@,
            follow_up: self.follow_up@,
        }
    }
}

impl ContentAnalysisView {
    /// The all-default analysis: unknown content type, no URL, no topics.
    pub open spec fn default_spec() -> ContentAnalysisView {
        ContentAnalysisView {
            content_type: "unknown"@,
            webpage_url: None,
            research_topics: Seq::empty(),
            user_intent: Seq::empty(),
            follow_up: Seq::empty(),
        }
    }
}

impl Default for ContentAnalysis {
    fn default() -> (r: Self)
        ensures
            r@ == ContentAnalysisView::default_spec(),
    {
        let r = ContentAnalysis {
            content_type: "unknown".to_owned(),
            webpage_url: None,
            research_topics: Vec::new(),
            user_intent: String::new(),
            follow_up: String::new(),
        };
        assert(r@.research_topics =~= Seq::<Seq<char>>::empty());
        r
    }
}

/// The immutable record kept for each completed submission.
#[derive(Clone, Debug)]
pub struct AnalysisData {
    pub image_data: ProcessedImage,
    pub brief_summary: String,
    pub content_analysis: ContentAnalysis,
    pub metadata: ScreenshotMetadata,
    /// Creation time, in milliseconds since the Unix epoch.
    pub timestamp: i64,
    pub source: String,
}

pub struct AnalysisDataView {
    pub image_data: ProcessedImageView,
    pub brief_summary: Seq<char>,
    pub content_analysis: ContentAnalysisView,
    pub metadata: ScreenshotMetadataView,
    pub timestamp: i64,
    pub source: Seq<char>,
}

impl View for AnalysisData {
    type V = AnalysisDataView;

    open spec fn view(&self) -> AnalysisDataView {
        AnalysisDataView {
            image_data: self.image_data@,
            brief_summary: self.brief_summary@,
            content_analysis: self.content_analysis@,
            metadata: self.metadata@,
            timestamp: self.timestamp,
            source: self.source@,
        }
    }
}

/// One image submission entering the pipeline.
#[derive(Clone, Debug)]
pub struct ScreenshotRequest {
    pub image: String,
    pub metadata: Option<ScreenshotMetadata>,
}

/// The outcome returned to a submission's caller. Exactly one of the
/// success fields or the error field is populated.
#[derive(Clone, Debug)]
pub struct ProcessingResponse {
    pub success: bool,
    pub summary: Option<String>,
    pub analysis_id: Option<u128>,
    /// Milliseconds since the Unix epoch.
    pub timestamp: i64,
    pub follow_up_available: Option<bool>,
    pub source: Option<String>,
    pub error: Option<String>,
}

pub struct ProcessingResponseView {
    pub success: bool,
    pub summary: Option<Seq<char>>,
    pub analysis_id: Option<u128>,
    pub timestamp: i64,
    pub follow_up_available: Option<bool>,
    pub source: Option<Seq<char>>,
    pub error: Option<Seq<char>>,
}

impl View for ProcessingResponse {
    type V = ProcessingResponseView;

    open spec fn view(&self) -> ProcessingResponseView {
        ProcessingResponseView {
            success: self.success,
            summary: self.summary.deep_view(),
            analysis_id: self.analysis_id,
            timestamp: self.timestamp,
            follow_up_available: self.follow_up_available,
            source: self.source.deep_view(),
            error: self.error.deep_view(),
        }
    }
}

/// Point-in-time snapshot of the server's counters and configuration.
#[derive(Clone, Debug)]
pub struct ServerStatus {
    pub server: String,
    pub status: String,
    pub local_ip: String,
    pub port: u16,
    pub total_requests: u64,
    /// Milliseconds since the Unix epoch of the last submission, if any.
    pub last_request: Option<i64>,
    pub active_analyses: usize,
    pub telegram_configured: bool,
    pub desktop_detection_enabled: bool,
}

/// Validated configuration the core consumes. The AI-service credential is
/// mandatory; collaborators reject a configuration without it before the
/// core ever sees one.
#[derive(Clone, Debug)]
pub struct AppConfig {
    pub anthropic_api_key: String,
    pub telegram_bot_token: Option<String>,
    pub telegram_chat_id: Option<String>,
    pub enable_desktop_detection: bool,
    pub server_port: u16,
}

/// Fixed liveness marker returned by the health query.
#[derive(Clone, Debug)]
pub struct HealthStatus {
    pub status: String,
    pub server: String,
    /// Milliseconds since the Unix epoch.
    pub timestamp: i64,
}

/// Liveness marker: always healthy, stamped with the caller's clock.
pub fn health_status(now_millis: i64) -> (r: HealthStatus)
    ensures
        r.status@ == "healthy"@,
        r.server@ == "iOS Screenshot AI Server"@,
        r.timestamp == now_millis,
{
    HealthStatus {
        status: "healthy".to_owned(),
        server: "iOS Screenshot AI Server".to_owned(),
        timestamp: now_millis,
    }
}

} // verus!
