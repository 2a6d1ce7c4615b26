//! The filesystem watcher's decisions: which file names qualify as
//! screenshots, what to do with a queued file after the settle delay, and
//! how a file's bytes become a submission. The event callback and the
//! waiting itself live with the caller; nothing here blocks.

use vstd::prelude::*;
use crate::types::ScreenshotMetadata;
use crate::text::{
    contains_spec, to_lower_spec, contains_ignore_ascii_case, eq_ignore_ascii_case, rfind_char,
};
use crate::image::{encode_base64, base64_encoding, base64_decoding};
use crate::MAX_IMAGE_BYTES;

verus! {

/// `i` is the position of the last dot in `s`.
pub open spec fn is_last_dot(s: Seq<char>, i: int) -> bool {
    0 <= i < s.len() && s[i] == '.' && forall|k: int| i < k < s.len() ==> s[k] != '.'
}

/// At most one position is the last dot.
proof fn lemma_last_dot_unique(s: Seq<char>, i1: int, i2: int)
    requires
        is_last_dot(s, i1),
        is_last_dot(s, i2),
    ensures
        i1 == i2,
{
    if i1 < i2 {
        assert(s[i2] != '.');
    }
    if i2 < i1 {
        assert(s[i1] != '.');
    }
}

/// The lowercased text after the last dot of `s`.
pub open spec fn extension_of(s: Seq<char>) -> Seq<char> {
    to_lower_spec(s.subrange((choose|i: int| is_last_dot(s, i)) + 1, s.len() as int))
}

/// A file name the watcher accepts: not hidden, an image extension, and
/// a screenshot-suggesting name, case-insensitively.
pub open spec fn is_screenshot_name(s: Seq<char>) -> bool {
    &&& s.len() > 0
    &&& s[0] != '.'
    &&& exists|i: int| is_last_dot(s, i)
    &&& (extension_of(s) == "png"@ || extension_of(s) == "jpg"@ || extension_of(s) == "jpeg"@)
    &&& (contains_spec(to_lower_spec(s), "screenshot"@) || contains_spec(
        to_lower_spec(s),
        "screen shot"@,
    ) || contains_spec(to_lower_spec(s), "capture"@) || contains_spec(
        to_lower_spec(s),
        "cleanshot"@,
    ))
}

/// The pattern and extension literals are already lowercase: ASCII
/// lowercasing leaves them alone.
proof fn lemma_patterns_lowercase()
    ensures
        to_lower_spec("png"@) == "png"@,
        to_lower_spec("jpg"@) == "jpg"@,
        to_lower_spec("jpeg"@) == "jpeg"@,
        to_lower_spec("screenshot"@) == "screenshot"@,
        to_lower_spec("screen shot"@) == "screen shot"@,
        to_lower_spec("capture"@) == "capture"@,
        to_lower_spec("cleanshot"@) == "cleanshot"@,
{
    reveal_strlit("png");
    reveal_strlit("jpg");
    reveal_strlit("jpeg");
    reveal_strlit("screenshot");
    reveal_strlit("screen shot");
    reveal_strlit("capture");
    reveal_strlit("cleanshot");
    assert(to_lower_spec("png"@) =~= "png"@);
    assert(to_lower_spec("jpg"@) =~= "jpg"@);
    assert(to_lower_spec("jpeg"@) =~= "jpeg"@);
    assert(to_lower_spec("screenshot"@) =~= "screenshot"@);
    assert(to_lower_spec("screen shot"@) =~= "screen shot"@);
    assert(to_lower_spec("capture"@) =~= "capture"@);
    assert(to_lower_spec("cleanshot"@) =~= "cleanshot"@);
}

/// Whether a file name qualifies for the pipeline: reject hidden files,
/// non-image extensions, and names without a screenshot-suggesting
/// substring.
pub fn is_screenshot_file(name: &str) -> (r: bool)
    ensures
        r == is_screenshot_name(name@),
{
    proof {
        lemma_patterns_lowercase();
    }
    let n = name.unicode_len();
    if n == 0 {
        return false;
    }
    if name.get_char(0) == '.' {
        return false;
    }
    match rfind_char(name, '.') {
        None => {
            proof {
                if exists|i: int| is_last_dot(name@, i) {
                    let i = choose|i: int| is_last_dot(name@, i);
                    assert(name@[i] == '.');
                }
            }
            false
        },
        Some(d) => {
            proof {
                assert(is_last_dot(name@, d as int));
                let j = choose|j: int| is_last_dot(name@, j);
                lemma_last_dot_unique(name@, d as int, j);
            }
            let ext = name.substring_char(d + 1, n);
            let ext_ok = eq_ignore_ascii_case(ext, "png") || eq_ignore_ascii_case(ext, "jpg")
                || eq_ignore_ascii_case(ext, "jpeg");
            if !ext_ok {
                return false;
            }
            contains_ignore_ascii_case(name, "screenshot") || contains_ignore_ascii_case(
                name,
                "screen shot",
            ) || contains_ignore_ascii_case(name, "capture") || contains_ignore_ascii_case(
                name,
                "cleanshot",
            )
        },
    }
}

/// What the worker does with a queued file once the settle delay has
/// passed.
#[derive(Clone, Copy, Debug, PartialEq, Eq, Structural)]
pub enum WatcherDecision {
    /// The file vanished during the delay: log it, skip it, create no
    /// record, and go on with the next event.
    SkipMissing,
    /// The file exceeds the size bound: log it, skip it, create no
    /// record.
    SkipTooLarge,
    /// Read the file and feed it into the pipeline.
    Submit,
}

/// The worker's decision for a settled file.
pub open spec fn worker_decision_spec(file_present: bool, size_bytes: u64) -> WatcherDecision {
    if !file_present {
        WatcherDecision::SkipMissing
    } else if size_bytes > MAX_IMAGE_BYTES as u64 {
        WatcherDecision::SkipTooLarge
    } else {
        WatcherDecision::Submit
    }
}

/// Decide what to do with a queued file after the settle delay: skip a
/// vanished file, skip an oversized file, submit anything else.
pub fn worker_decision(file_present: bool, size_bytes: u64) -> (r: WatcherDecision)
    ensures
        r == worker_decision_spec(file_present, size_bytes),
{
    if !file_present {
        WatcherDecision::SkipMissing
    } else if size_bytes > MAX_IMAGE_BYTES as u64 {
        WatcherDecision::SkipTooLarge
    } else {
        WatcherDecision::Submit
    }
}

/// A file that vanished during the settle delay is always skipped — no
/// record comes of it, whatever its last known size was.
pub proof fn lemma_vanished_file_skipped(size_bytes: u64)
    ensures
        worker_decision_spec(false, size_bytes) == WatcherDecision::SkipMissing,
{
}

/// Turn a watched file's bytes into a submission: the base64 payload the
/// intake expects (decoding it yields the file's bytes back), and
/// metadata marking the submission as auto-detected from the desktop.
pub fn prepare_file_submission(bytes: &Vec<u8>, filename: Option<String>) -> (r: (
    String,
    ScreenshotMetadata,
))
    ensures
        r.0@ == base64_encoding(bytes@),
        base64_decoding(r.0@) == Some(bytes@),
        r.1@.source == Some("desktop_auto"@),
        r.1@.app == Some("macOS Screenshot"@),
        r.1@.filename == filename.deep_view(),
        r.1@.location is None,
        r.1@.auto_detected == Some(true),
{
    let payload = encode_base64(bytes.as_slice());
    let metadata = ScreenshotMetadata {
        source: Some("desktop_auto".to_owned()),
        app: Some("macOS Screenshot".to_owned()),
        filename,
        location: None,
        auto_detected: Some(true),
    };
    (payload, metadata)
}

} // verus!
