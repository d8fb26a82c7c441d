//! Activity segmentation and persistence engine.
//!
//! Converts a stream of raw `(timestamp, app_name, window_title)` samples
//! into a deduplicated, merged, ticket-tagged session log: window titles are
//! matched against configurable regex patterns to extract a work-item id,
//! consecutive samples for the same `(app, issue)` pair form one session,
//! and closed sessions are appended to a per-day record list with gap-aware
//! merging of adjacent records.

pub mod daylog;
pub mod identify;
pub mod records;
pub mod timestamp;
pub mod tracking;
