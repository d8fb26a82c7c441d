//! Wall-clock instants as the engine sees them.
//!
//! The engine never asks the clock itself: the driver hands it a `Timestamp`
//! carrying both the instant in epoch seconds (for duration and gap
//! arithmetic) and its rendered `"%Y-%m-%d %H:%M:%S"` form (what the day log
//! stores). Reading a rendered form back into seconds is chrono's job,
//! reached through a single trusted wrapper.

use vstd::prelude::*;

verus! {

/// An instant handed in by the driver: the epoch seconds and the
/// `"%Y-%m-%d %H:%M:%S"` rendering of the same moment.
pub struct Timestamp {
    pub secs: i64,
    pub rendered: String,
}

/// The mathematical image of a `Timestamp`.
pub ghost struct TimestampView {
    pub secs: i64,
    pub rendered: Seq<char>,
}

impl View for Timestamp {
    type V = TimestampView;

    open spec fn view(&self) -> TimestampView {
        TimestampView { secs: self.secs, rendered: self.rendered@ }
    }
}

impl TimestampView {
    /// The two fields name the same instant: the rendered text reads back
    /// as the seconds.
    pub open spec fn coherent(self) -> bool {
        parse_ts(self.rendered) == Some(self.secs)
    }
}

impl Timestamp {
    /// Check that the rendered text reads back as the seconds.
    pub fn is_coherent(&self) -> (r: bool)
        ensures
            r == self@.coherent(),
    {
        match parse_timestamp(self.rendered.as_str()) {
            Some(secs) => secs == self.secs,
            None => false,
        }
    }
}

/// What parsing a `"%Y-%m-%d %H:%M:%S"` text yields: `None` where the text
/// is not of that shape, else the instant in epoch seconds. The result
/// depends on the text alone.
pub uninterp spec fn parse_ts(s: Seq<char>) -> Option<i64>;

/// Relies on `chrono::NaiveDateTime::parse_from_str` with the
/// `"%Y-%m-%d %H:%M:%S"` format, and on `NaiveDateTime::and_utc` /
/// `DateTime::timestamp` to turn the parsed value into epoch seconds:
/// the outcome is a function of the text alone.
#[verifier::external_body]
pub fn parse_timestamp(s: &str) -> (r: Option<i64>)
    ensures
        r == parse_ts(s@),
{
    match chrono::NaiveDateTime::parse_from_str(s, "%Y-%m-%d %H:%M:%S") {
        Ok(dt) => Some(dt.and_utc().timestamp()),
        Err(_) => None,
    }
}

} // verus!
