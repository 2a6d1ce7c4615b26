//! Orchestration of one submission: stamp and count it, validate the
//! image, compose the two upstream requests, interpret the two upstream
//! responses, store the enriched record, and shape the caller's response.
//! The network calls themselves happen outside the library; every
//! decision around them is made here.

use vstd::prelude::*;
use crate::types::{
    AnalysisData, AppConfig, ContentAnalysis, ContentAnalysisView, ProcessedImage,
    ProcessingResponse, ProcessingResponseView, ScreenshotMetadata, ScreenshotMetadataView,
    ServerStatus,
};
use crate::store::{AnalysisStore, sorted_desc};
use crate::image::ValidationError;
use crate::parse::{parse_content_analysis, parse_spec};
use crate::text::{starts_with_spec, starts_with_str};

verus! {

/// How many records a recent query hands back at most.
pub const RECENT_LIMIT: usize = 50;

/// What serde_json finds in an AI-service response document: the text of
/// its first content element, `None` where the document does not parse or
/// lacks that field. A function of the body text alone.
pub uninterp spec fn response_text_of(body: Seq<char>) -> Option<Seq<char>>;

/// Relies on `serde_json::from_str` and `serde_json::Value`'s indexing
/// and `as_str`: the text at `content[0].text` of the parsed document.
#[verifier::external_body]
fn extract_response_text(body: &str) -> (r: Option<String>)
    ensures
        (r is Some) == (response_text_of(body@) is Some),
        r matches Some(t) ==> response_text_of(body@) matches Some(v) && t@ == v,
{
    let parsed: serde_json::Value = match serde_json::from_str(body) {
        Ok(v) => v,
        Err(_) => return None,
    };
    parsed["content"][0]["text"].as_str().map(|s| s.to_string())
}

/// Relies on `chrono::Utc::now` and `timestamp_millis`: the clock's
/// reading in milliseconds since the Unix epoch. Nothing is promised of
/// the value.
#[verifier::external_body]
fn now_millis() -> (r: i64) {
    chrono::Utc::now().timestamp_millis()
}

/// Relies on `uuid::Uuid::new_v4` and `as_u128`: a randomly drawn
/// 128-bit identifier. Nothing is promised of the value.
#[verifier::external_body]
fn fresh_id() -> (r: u128) {
    uuid::Uuid::new_v4().as_u128()
}

/// Why the mandatory summary call failed.
#[derive(Clone, Copy, Debug, PartialEq, Eq, Structural)]
pub enum UpstreamError {
    /// The request never got an answer.
    Transport,
    /// The service answered with a non-success status.
    ApiStatus,
    /// The answer lacked the expected text field.
    MissingField,
}

impl UpstreamError {
    /// The human-readable description of this failure.
    pub open spec fn message_spec(self) -> Seq<char> {
        match self {
            UpstreamError::Transport => "API request failed"@,
            UpstreamError::ApiStatus => "AI service error"@,
            UpstreamError::MissingField => "Invalid response format"@,
        }
    }

    /// The human-readable description of this failure.
    pub fn message(&self) -> (r: String)
        ensures
            r@ == self.message_spec(),
    {
        match self {
            UpstreamError::Transport => "API request failed".to_owned(),
            UpstreamError::ApiStatus => "AI service error".to_owned(),
            UpstreamError::MissingField => "Invalid response format".to_owned(),
        }
    }
}

/// Everything that can end a submission with a failure response.
#[derive(Clone, Copy, Debug, PartialEq, Eq, Structural)]
pub enum PipelineError {
    Validation(ValidationError),
    Upstream(UpstreamError),
}

impl PipelineError {
    /// The human-readable description of this failure.
    pub open spec fn message_spec(self) -> Seq<char> {
        match self {
            PipelineError::Validation(e) => e.message_spec(),
            PipelineError::Upstream(e) => e.message_spec(),
        }
    }

    /// The human-readable description of this failure.
    pub fn message(&self) -> (r: String)
        ensures
            r@ == self.message_spec(),
    {
        match self {
            PipelineError::Validation(e) => e.message(),
            PipelineError::Upstream(e) => e.message(),
        }
    }
}

/// What came back from one upstream call, as the transport layer saw it:
/// nothing at all, or a status with the body text.
#[derive(Clone, Debug)]
pub enum FetchOutcome {
    /// Transport failure: no response was obtained.
    Failed,
    /// A response, successful or not, with its body.
    Response { status_ok: bool, body: String },
}

/// The summary a fetch outcome yields: the text of the document's first
/// content element, or the failure that makes the submission abort.
pub open spec fn summary_outcome_spec(f: FetchOutcome) -> Result<Seq<char>, UpstreamError> {
    match f {
        FetchOutcome::Failed => Err(UpstreamError::Transport),
        FetchOutcome::Response { status_ok, body } => {
            if !status_ok {
                Err(UpstreamError::ApiStatus)
            } else {
                match response_text_of(body@) {
                    None => Err(UpstreamError::MissingField),
                    Some(t) => Ok(t),
                }
            }
        },
    }
}

/// Interpret the summary call's outcome. The summary is mandatory: any
/// failure here aborts the submission.
pub fn summary_outcome(f: &FetchOutcome) -> (r: Result<String, UpstreamError>)
    ensures
        match r {
            Ok(s) => summary_outcome_spec(*f) matches Ok(t) && s@ == t,
            Err(e) => summary_outcome_spec(*f) matches Err(e2) && e == e2,
        },
{
    match f {
        FetchOutcome::Failed => Err(UpstreamError::Transport),
        FetchOutcome::Response { status_ok, body } => {
            if !*status_ok {
                Err(UpstreamError::ApiStatus)
            } else {
                match extract_response_text(body.as_str()) {
                    None => Err(UpstreamError::MissingField),
                    Some(t) => Ok(t),
                }
            }
        },
    }
}

/// The analysis a classification fetch outcome yields: the parsed labeled
/// fields on success, the all-default analysis on any failure.
pub open spec fn classification_outcome_spec(f: FetchOutcome) -> ContentAnalysisView {
    match f {
        FetchOutcome::Failed => ContentAnalysisView::default_spec(),
        FetchOutcome::Response { status_ok, body } => {
            if !status_ok {
                ContentAnalysisView::default_spec()
            } else {
                match response_text_of(body@) {
                    None => ContentAnalysisView::default_spec(),
                    Some(t) => parse_spec(t),
                }
            }
        },
    }
}

/// Interpret the classification call's outcome. The classification is
/// optional: any failure degrades to the all-default analysis and never
/// aborts the submission.
pub fn classification_outcome(f: &FetchOutcome) -> (r: ContentAnalysis)
    ensures
        r@ == classification_outcome_spec(*f),
{
    match f {
        FetchOutcome::Failed => ContentAnalysis::default(),
        FetchOutcome::Response { status_ok, body } => {
            if !*status_ok {
                ContentAnalysis::default()
            } else {
                match extract_response_text(body.as_str()) {
                    None => ContentAnalysis::default(),
                    Some(t) => parse_content_analysis(t.as_str()),
                }
            }
        },
    }
}

/// The source tag of a submission: its metadata's source, or the mobile
/// default when none is given.
pub open spec fn source_type_spec(metadata: Option<ScreenshotMetadata>) -> Seq<char> {
    match metadata {
        Some(m) => match m.source {
            Some(s) => s@,
            None => "iOS"@,
        },
        None => "iOS"@,
    }
}

/// The source tag of a submission.
pub fn source_type_of(metadata: &Option<ScreenshotMetadata>) -> (r: String)
    ensures
        r@ == source_type_spec(*metadata),
{
    match metadata {
        Some(m) => match &m.source {
            Some(s) => s.clone(),
            None => "iOS".to_owned(),
        },
        None => "iOS".to_owned(),
    }
}

/// The summary prompt: desktop framing for desktop sources, phone framing
/// for everything else.
pub open spec fn summary_prompt_spec(source_type: Seq<char>) -> Seq<char> {
    if starts_with_spec(source_type, "desktop"@) {
        "Analyze this desktop screenshot briefly. What is shown and what might be the user's intent?"@
    } else {
        "Analyze this iPhone screenshot briefly. What is shown and what might be the user's intent?"@
    }
}

/// The fixed classification prompt, as it stands (JSON-escaped) inside
/// the request body.
pub open spec fn classification_prompt_escaped() -> Seq<char> {
    "Analyze this screenshot and determine:\\n\\n1. Content type (webpage, app, document, social media, etc.)\\n2. If webpage: extract any visible URLs or domains\\n3. If research-related: identify key topics\\n4. User context: what might they want to do with this?\\n\\nRespond with:\\nCONTENT_TYPE: [webpage/app/document/social/game/other]\\nWEBPAGE_URL: [URL if visible, or \\\"none\\\"]\\nRESEARCH_TOPICS: [comma-separated topics if research-related]\\nUSER_INTENT: [likely user intent]\\nFOLLOW_UP: [suggested follow-up actions]"@
}

/// The upstream request document: the configured model identifier, an
/// output-token bound, and one user turn holding the prompt text and the
/// inlined base64 image with its media type.
pub open spec fn json_image_request(
    model: Seq<char>,
    prompt: Seq<char>,
    max_tokens_text: Seq<char>,
    media_type: Seq<char>,
    data: Seq<char>,
) -> Seq<char> {
    "{\"model\":\""@ + model + "\",\"max_tokens\":"@ + max_tokens_text
        + ",\"messages\":[{\"role\":\"user\",\"content\":[{\"type\":\"text\",\"text\":\""@ + prompt
        + "\"},{\"type\":\"image\",\"source\":{\"type\":\"base64\",\"media_type\":\""@ + media_type
        + "\",\"data\":\""@ + data + "\"}}]}]}"@
}

/// Assemble an upstream request body around a validated image.
fn vision_request_body(model: &str, prompt: &str, max_tokens_text: &str, pi: &ProcessedImage) -> (r:
    String)
    ensures
        r@ == json_image_request(model@, prompt@, max_tokens_text@, pi@.media_type,
        pi@.base64_data),
{
    let mut r: String = "{\"model\":\"".to_owned();
    r.append(model);
    r.append("\",\"max_tokens\":");
    r.append(max_tokens_text);
    r.append(",\"messages\":[{\"role\":\"user\",\"content\":[{\"type\":\"text\",\"text\":\"");
    r.append(prompt);
    r.append("\"},{\"type\":\"image\",\"source\":{\"type\":\"base64\",\"media_type\":\"");
    r.append(pi.media_type.as_str());
    r.append("\",\"data\":\"");
    r.append(pi.base64_data.as_str());
    r.append("\"}}]}]}");
    proof {
        assert(r@ =~= json_image_request(model@, prompt@, max_tokens_text@, pi@.media_type,
        pi@.base64_data));
    }
    r
}

/// The body of the summary request: a source-aware prompt, a 200-token
/// bound, and the image.
pub fn summary_request_body(pi: &ProcessedImage, source_type: &str, model: &str) -> (r: String)
    ensures
        r@ == json_image_request(
            model@,
            summary_prompt_spec(source_type@),
            "200"@,
            pi@.media_type,
            pi@.base64_data,
        ),
{
    let prompt: &str = if starts_with_str(source_type, "desktop") {
        "Analyze this desktop screenshot briefly. What is shown and what might be the user's intent?"
    } else {
        "Analyze this iPhone screenshot briefly. What is shown and what might be the user's intent?"
    };
    vision_request_body(model, prompt, "200", pi)
}

/// The body of the classification request: the fixed labeled-lines
/// prompt, a 300-token bound, and the image.
pub fn classification_request_body(pi: &ProcessedImage, model: &str) -> (r: String)
    ensures
        r@ == json_image_request(
            model@,
            classification_prompt_escaped(),
            "300"@,
            pi@.media_type,
            pi@.base64_data,
        ),
{
    vision_request_body(
        model,
        "Analyze this screenshot and determine:\\n\\n1. Content type (webpage, app, document, social media, etc.)\\n2. If webpage: extract any visible URLs or domains\\n3. If research-related: identify key topics\\n4. User context: what might they want to do with this?\\n\\nRespond with:\\nCONTENT_TYPE: [webpage/app/document/social/game/other]\\nWEBPAGE_URL: [URL if visible, or \\\"none\\\"]\\nRESEARCH_TOPICS: [comma-separated topics if research-related]\\nUSER_INTENT: [likely user intent]\\nFOLLOW_UP: [suggested follow-up actions]",
        "300",
        pi,
    )
}

/// Build the immutable record of a completed submission.
pub fn make_record(
    image: ProcessedImage,
    summary: String,
    analysis: ContentAnalysis,
    metadata: Option<ScreenshotMetadata>,
    now_ms: i64,
    source: String,
) -> (r: AnalysisData)
    ensures
        r@.image_data == image@,
        r@.brief_summary == summary@,
        r@.content_analysis == analysis@,
        r@.metadata == (match metadata {
            Some(m) => m@,
            None => ScreenshotMetadataView::default_spec(),
        }),
        r@.timestamp == now_ms,
        r@.source == source@,
{
    let md = match metadata {
        Some(m) => m,
        None => ScreenshotMetadata::default(),
    };
    AnalysisData {
        image_data: image,
        brief_summary: summary,
        content_analysis: analysis,
        metadata: md,
        timestamp: now_ms,
        source,
    }
}

/// The response of a successful submission.
pub open spec fn success_response_spec(
    summary: Seq<char>,
    id: u128,
    now_ms: i64,
    source: Seq<char>,
) -> ProcessingResponseView {
    ProcessingResponseView {
        success: true,
        summary: Some(summary),
        analysis_id: Some(id),
        timestamp: now_ms,
        follow_up_available: Some(true),
        source: Some(source),
        error: None,
    }
}

/// The outcome handed back once a submission's record is stored. The
/// delivery flag reports whether the notification went out; it has no
/// bearing on the response.
pub open spec fn submission_response(
    summary: Seq<char>,
    id: u128,
    now_ms: i64,
    source: Seq<char>,
    delivered: bool,
) -> ProcessingResponseView {
    success_response_spec(summary, id, now_ms, source)
}

/// Notification delivery is a side channel: whether it succeeded or
/// failed, the submission's response is the same.
pub proof fn lemma_delivery_failure_harmless(
    summary: Seq<char>,
    id: u128,
    now_ms: i64,
    source: Seq<char>,
)
    ensures
        submission_response(summary, id, now_ms, source, true) == submission_response(
            summary,
            id,
            now_ms,
            source,
            false,
        ),
{
}

/// The response of a failed submission: no success fields, the failure's
/// description in the error field.
pub open spec fn failure_response_spec(e: PipelineError, now_ms: i64) -> ProcessingResponseView {
    ProcessingResponseView {
        success: false,
        summary: None,
        analysis_id: None,
        timestamp: now_ms,
        follow_up_available: None,
        source: None,
        error: Some(e.message_spec()),
    }
}

/// A response never mixes the success fields with the error field:
/// exactly one side is populated.
pub open spec fn response_well_formed(r: ProcessingResponseView) -> bool {
    &&& (r.success ==> r.summary is Some && r.analysis_id is Some && r.error is None)
    &&& (!r.success ==> r.error is Some && r.summary is None && r.analysis_id is None)
}

/// Every response the pipeline shapes is well-formed, whether the
/// submission succeeded or failed.
pub proof fn lemma_responses_well_formed(
    summary: Seq<char>,
    id: u128,
    now_ms: i64,
    source: Seq<char>,
    e: PipelineError,
    delivered: bool,
)
    ensures
        response_well_formed(submission_response(summary, id, now_ms, source, delivered)),
        response_well_formed(failure_response_spec(e, now_ms)),
{
}

/// Shape the well-formed failure response a caller receives.
pub fn failure_response(e: &PipelineError, now_ms: i64) -> (r: ProcessingResponse)
    ensures
        r@ == failure_response_spec(*e, now_ms),
{
    ProcessingResponse {
        success: false,
        summary: None,
        analysis_id: None,
        timestamp: now_ms,
        follow_up_available: None,
        source: None,
        error: Some(e.message()),
    }
}

/// The pipeline's verified core: the validated configuration and the
/// record store. The HTTP client and the messaging client live with the
/// caller, which drives the network between the steps here.
pub struct ScreenshotProcessor {
    pub config: AppConfig,
    pub store: AnalysisStore,
}

impl ScreenshotProcessor {
    /// A processor with a fresh, empty store.
    pub fn new(config: AppConfig) -> (s: Self)
        ensures
            s.config == config,
            s.store.records_view() == crate::store::no_records(),
            s.store.records_view().dom().finite(),
            s.store.request_count_view() == 0,
            s.store.last_request_view() is None,
    {
        ScreenshotProcessor { config, store: AnalysisStore::new() }
    }

    /// Open a submission: count it, stamp the activity cell with the
    /// clock, and draw a fresh record identifier. Returns the timestamp
    /// and the identifier.
    pub fn begin_submission(&mut self) -> (r: (i64, u128))
        ensures
            old(self).store.request_count_view() < u64::MAX ==> final(self).store.request_count_view() == old(self).store.request_count_view() + 1,
            old(self).store.request_count_view() == u64::MAX ==> final(self).store.request_count_view() == 0,
            final(self).store.last_request_view() == Some(r.0),
            final(self).store.records_view() == old(self).store.records_view(),
            final(self).config == old(self).config,
    {
        let now = now_millis();
        let id = fresh_id();
        self.store.record_request(now);
        (now, id)
    }

    /// Close a submission: store its record under its identifier and
    /// shape the success response. The delivery flag reports whether the
    /// notification went out; the response does not depend on it.
    pub fn finish_submission(&mut self, id: u128, data: AnalysisData, delivered: bool) -> (r:
        ProcessingResponse)
        ensures
            final(self).store.records_view() == old(self).store.records_view().insert(id, data),
            old(self).store.records_view().dom().finite() ==> final(self).store.records_view().dom().finite(),
            final(self).store.request_count_view() == old(self).store.request_count_view(),
            final(self).store.last_request_view() == old(self).store.last_request_view(),
            final(self).config == old(self).config,
            r@ == submission_response(data.brief_summary@, id, data.timestamp, data.source@,
            delivered),
    {
        let summary = data.brief_summary.clone();
        let source = data.source.clone();
        let ts = data.timestamp;
        self.store.insert(id, data);
        ProcessingResponse {
            success: true,
            summary: Some(summary),
            analysis_id: Some(id),
            timestamp: ts,
            follow_up_available: Some(true),
            source: Some(source),
            error: None,
        }
    }

    /// The most recent records, newest first, capped at the recent-query
    /// bound.
    pub fn get_recent_analyses(&self) -> (r: Vec<(u128, AnalysisData)>)
        ensures
            r@.len() == (if RECENT_LIMIT as int <= self.store.records_view().dom().len() {
                RECENT_LIMIT as int
            } else {
                self.store.records_view().dom().len() as int
            }),
            sorted_desc(r@),
            forall|i: int| 0 <= i < r@.len() ==> self.store.records_view().contains_pair(
                #[trigger] r@[i].0,
                r@[i].1,
            ),
            forall|i: int, j: int| 0 <= i < j < r@.len() ==> r@[i].0 != r@[j].0,
            exists|all: Seq<(u128, AnalysisData)>|
                sorted_desc(all) && all.len() == self.store.records_view().dom().len() && (forall|
                    i: int,
                |
                    0 <= i < all.len() ==> self.store.records_view().contains_pair(
                        (#[trigger] all[i]).0,
                        all[i].1,
                    )) && (forall|i: int, j: int|
                    0 <= i < j < all.len() ==> all[i].0 != all[j].0) && r@ == all.take(
                    r@.len() as int,
                ),
    {
        self.store.recent(RECENT_LIMIT)
    }

    /// The point-in-time snapshot of counters, store size, and
    /// configuration flags. The caller supplies its own address, the one
    /// thing the core cannot know.
    pub fn get_status(&self, local_ip: String) -> (r: ServerStatus)
        ensures
            r.server@ == "Screenshot AI Server"@,
            r.status@ == "running"@,
            r.local_ip@ == local_ip@,
            r.port == self.config.server_port,
            r.total_requests == self.store.request_count_view(),
            r.last_request == self.store.last_request_view(),
            r.active_analyses == self.store.records_view().dom().len(),
            r.telegram_configured == (self.config.telegram_bot_token is Some),
            r.desktop_detection_enabled == self.config.enable_desktop_detection,
    {
        let telegram_configured = self.config.telegram_bot_token.is_some();
        ServerStatus {
            server: "Screenshot AI Server".to_owned(),
            status: "running".to_owned(),
            local_ip,
            port: self.config.server_port,
            total_requests: self.store.request_count(),
            last_request: self.store.last_request(),
            active_analyses: self.store.count(),
            telegram_configured,
            desktop_detection_enabled: self.config.enable_desktop_detection,
        }
    }
}

} // verus!
