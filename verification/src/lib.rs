//! Verified core of a screenshot ingestion and analysis pipeline.
//!
//! Images arrive from an HTTP intake or a filesystem watcher, are validated
//! and classified, enriched by an external vision service, retained in a
//! keyed store, and optionally announced through a messaging service. The
//! logic of every stage lives here with a contract; the surrounding I/O
//! (HTTP, filesystem events, network calls) stays outside the library.

use vstd::prelude::*;

pub mod types;
pub mod text;
pub mod image;
pub mod parse;
pub mod store;
pub mod pipeline;
pub mod watcher;
pub mod dispatch;

verus! {

/// Largest accepted decoded image size, in bytes (15 MiB).
pub const MAX_IMAGE_BYTES: usize = 15 * 1024 * 1024;

/// Smallest accepted decoded image size, in bytes.
pub const MIN_IMAGE_BYTES: usize = 1024;

} // verus!
