//! The session tracker: a state machine over focus samples.
//!
//! The tracker is either idle or holds one open session. Each sample either
//! continues that session (same application and same resolved issue id) or
//! closes it and opens a new one; the closed session is handed back to the
//! caller, which runs it through `save_activity` against the records of the
//! day. A failed sample (no focused window resolvable) changes nothing.
//!
//! The driver owns the locking and every file read and write; the tracker
//! itself is plain state with a contract for each step.

use vstd::prelude::*;
use vstd::string::StringExecFns;

use crate::daylog::{
    append_record, lemma_append_keeps_no_mergeable_adjacent, lemma_append_keeps_spans_ordered,
    mergeable, no_mergeable_adjacent, span_ordered, spans_ordered, spec_append,
};
use crate::identify::{identify, spec_identified_by, spec_identify};
use crate::records::{
    option_string_eq, spec_category, spec_issue_identified_by, ActivityItem, ActivityItemView,
};
use crate::timestamp::{parse_ts, Timestamp, TimestampView};

verus! {

/// A session shorter than this many seconds is discarded at close, unless
/// it would be the first record of its day.
pub const MIN_SESSION_SECS: i64 = 60;

/// One observation of the focused window, as the sampling collaborator
/// reports it.
pub struct Sample {
    pub app_name: String,
    pub title: String,
}

/// The open session: where it started and what identifies it.
pub struct CurrentActivity {
    pub start_time: Timestamp,
    pub app_name: String,
    pub title: String,
    pub issue_id: Option<String>,
    pub identified_by: String,
}

/// The mathematical image of a `CurrentActivity`.
pub ghost struct CurrentActivityView {
    pub start_time: TimestampView,
    pub app_name: Seq<char>,
    pub title: Seq<char>,
    pub issue_id: Option<Seq<char>>,
    pub identified_by: Seq<char>,
}

impl View for CurrentActivity {
    type V = CurrentActivityView;

    open spec fn view(&self) -> CurrentActivityView {
        CurrentActivityView {
            start_time: self.start_time@,
            app_name: self.app_name@,
            title: self.title@,
            issue_id: self.issue_id.deep_view(),
            identified_by: self.identified_by@,
        }
    }
}

/// The tracker's configuration: the ordered ticket patterns and where the
/// day logs live. The storage directory is resolved by the environment at
/// startup and handed in; it is not part of the persisted document.
pub struct TrackerConfig {
    pub ticket_patterns: Vec<String>,
    pub storage_dir: String,
}

/// The pattern list a fresh configuration starts with: `#` followed by
/// digits, the digits captured.
pub open spec fn default_ticket_patterns_view() -> Seq<Seq<char>> {
    seq![r"#(\d+)"@]
}

/// Build the default pattern list.
pub fn default_ticket_patterns() -> (r: Vec<String>)
    ensures
        r.deep_view() == default_ticket_patterns_view(),
{
    let mut patterns: Vec<String> = Vec::new();
    patterns.push(r"#(\d+)".to_owned());
    assert(patterns.deep_view() =~= default_ticket_patterns_view());
    patterns
}

/// The record a closing session turns into: its span, its application, the
/// title seen when it closed, and the category its issue id dictates.
pub open spec fn spec_record_of(
    activity: CurrentActivityView,
    end: TimestampView,
) -> ActivityItemView {
    ActivityItemView {
        from: activity.start_time.rendered,
        to: end.rendered,
        application_name: activity.app_name,
        application_window_title: activity.title,
        related_issue_id: activity.issue_id,
        category: spec_category(activity.issue_id),
        issue_identified_by: spec_issue_identified_by(activity.issue_id, activity.identified_by),
    }
}

/// What closing a session does to a day's records: nothing where the
/// session ran shorter than `MIN_SESSION_SECS` and the day already has a
/// record, else one `spec_append` of the session's record.
pub open spec fn spec_save(
    records: Seq<ActivityItemView>,
    activity: CurrentActivityView,
    end: TimestampView,
) -> Seq<ActivityItemView> {
    if end.secs - activity.start_time.secs >= MIN_SESSION_SECS || records.len() == 0 {
        spec_append(records, spec_record_of(activity, end))
    } else {
        records
    }
}

/// A closed session shorter than the minimum is discarded: where the day
/// already has a record, saving such a session leaves the records as they
/// were.
pub proof fn lemma_short_session_discarded(
    records: Seq<ActivityItemView>,
    activity: CurrentActivityView,
    end: TimestampView,
)
    requires
        end.secs - activity.start_time.secs < MIN_SESSION_SECS,
        records.len() > 0,
    ensures
        spec_save(records, activity, end) == records,
{
}

/// The first record of a day is written whatever its duration: saving any
/// session against an empty day yields exactly that session's record.
pub proof fn lemma_first_entry_always_written(
    records: Seq<ActivityItemView>,
    activity: CurrentActivityView,
    end: TimestampView,
)
    requires
        records.len() == 0,
    ensures
        spec_save(records, activity, end).len() == 1,
        spec_save(records, activity, end)[0] == spec_record_of(activity, end),
{
}

/// After any sequence of closed sessions is saved into a day's records, no
/// two adjacent records could still be merged: saving preserves the day
/// log's merge invariant.
pub proof fn lemma_save_keeps_no_mergeable_adjacent(
    records: Seq<ActivityItemView>,
    activity: CurrentActivityView,
    end: TimestampView,
)
    requires
        no_mergeable_adjacent(records),
    ensures
        no_mergeable_adjacent(spec_save(records, activity, end)),
{
    if end.secs - activity.start_time.secs >= MIN_SESSION_SECS || records.len() == 0 {
        lemma_append_keeps_no_mergeable_adjacent(records, spec_record_of(activity, end));
    }
}

/// A session with coherent timestamps that end no earlier than they start
/// turns into a record that spans forward: the data-model invariant that a
/// record's `from` is not after its `to`.
pub proof fn lemma_record_spans_forward(activity: CurrentActivityView, end: TimestampView)
    requires
        activity.start_time.coherent(),
        end.coherent(),
        activity.start_time.secs <= end.secs,
    ensures
        span_ordered(spec_record_of(activity, end)),
{
}

/// Every record of a day keeps spanning forward across a save, provided
/// the closing session's timestamps are coherent and in order and — where
/// its record merges — the session started no earlier than the last record
/// ended, which is how the driver closes sessions: in the order they
/// happened.
pub proof fn lemma_save_keeps_spans_ordered(
    records: Seq<ActivityItemView>,
    activity: CurrentActivityView,
    end: TimestampView,
)
    requires
        spans_ordered(records),
        activity.start_time.coherent(),
        end.coherent(),
        activity.start_time.secs <= end.secs,
        records.len() > 0 && mergeable(records.last(), spec_record_of(activity, end)) ==> parse_ts(
            records.last().to,
        ).unwrap() <= activity.start_time.secs,
    ensures
        spans_ordered(spec_save(records, activity, end)),
{
    lemma_record_spans_forward(activity, end);
    if end.secs - activity.start_time.secs >= MIN_SESSION_SECS || records.len() == 0 {
        lemma_append_keeps_spans_ordered(records, spec_record_of(activity, end));
    }
}

/// A whole day's records, as the sequence of session closes leaves them:
/// every close saved in order, starting from the empty day.
pub open spec fn spec_save_all(
    closes: Seq<(CurrentActivityView, TimestampView)>,
) -> Seq<ActivityItemView>
    decreases closes.len(),
{
    if closes.len() == 0 {
        Seq::empty()
    } else {
        spec_save(spec_save_all(closes.drop_last()), closes.last().0, closes.last().1)
    }
}

/// However many sessions a day saw, and in whatever order they closed, the
/// day's records never hold two adjacent entries that the merge rule would
/// still fold together.
pub proof fn lemma_day_records_no_mergeable_adjacent(
    closes: Seq<(CurrentActivityView, TimestampView)>,
)
    ensures
        no_mergeable_adjacent(spec_save_all(closes)),
    decreases closes.len(),
{
    if closes.len() > 0 {
        lemma_day_records_no_mergeable_adjacent(closes.drop_last());
        lemma_save_keeps_no_mergeable_adjacent(
            spec_save_all(closes.drop_last()),
            closes.last().0,
            closes.last().1,
        );
    }
}

/// The tracker: at most one open session, plus the configuration.
pub struct ActivityTracker {
    pub current_activity: Option<CurrentActivity>,
    pub config: TrackerConfig,
}

impl ActivityTracker {
    /// A fresh tracker with no open session: the given storage directory,
    /// and the loaded patterns where the configuration file yielded some,
    /// else the default pattern.
    pub fn new(storage_dir: String, loaded_patterns: Option<Vec<String>>) -> (r: Self)
        ensures
            r.current_activity is None,
            r.config.storage_dir@ == storage_dir@,
            match loaded_patterns {
                Some(ps) => r.config.ticket_patterns@ == ps@,
                None => r.config.ticket_patterns.deep_view() == default_ticket_patterns_view(),
            },
    {
        let patterns = match loaded_patterns {
            Some(ps) => ps,
            None => default_ticket_patterns(),
        };
        ActivityTracker {
            current_activity: None,
            config: TrackerConfig { ticket_patterns: patterns, storage_dir },
        }
    }

    /// Replace the ticket patterns; the open session and the storage
    /// directory stay as they were.
    pub fn update_patterns(&mut self, patterns: Vec<String>)
        ensures
            final(self).config.ticket_patterns@ == patterns@,
            final(self).config.storage_dir == old(self).config.storage_dir,
            final(self).current_activity == old(self).current_activity,
    {
        self.config.ticket_patterns = patterns;
    }

    /// A copy of the configured ticket patterns, in order.
    pub fn get_patterns(&self) -> (r: Vec<String>)
        ensures
            r@ == self.config.ticket_patterns@,
    {
        let r = self.config.ticket_patterns.clone();
        proof {
            assert forall|i: int| 0 <= i < r@.len() implies r@[i] == self.config.ticket_patterns@[i] by {
                assert(vstd::pervasive::cloned::<String>(self.config.ticket_patterns[i], r[i]));
            }
            assert(r@ =~= self.config.ticket_patterns@);
        }
        r
    }

    /// The directory the day logs and the configuration live in.
    pub fn get_storage_dir(&self) -> (r: String)
        ensures
            r@ == self.config.storage_dir@,
    {
        self.config.storage_dir.clone()
    }

    /// Resolve an issue id for a title with the configured patterns. The
    /// application name is accepted for future use; only the title is
    /// inspected.
    pub fn identify_ticket(&self, _app_name: &str, title: &str) -> (r: (Option<String>, String))
        ensures
            r.0.deep_view() == spec_identify(self.config.ticket_patterns.deep_view(), title@),
            r.1@ == spec_identified_by(self.config.ticket_patterns.deep_view(), title@),
    {
        identify(title, &self.config.ticket_patterns)
    }

    /// One step of the state machine. A missing sample (the collaborator
    /// could not resolve a focused window) changes nothing. Otherwise the
    /// sample's issue id is resolved; a sample for the same application
    /// and the same issue id continues the open session unchanged, title
    /// churn included, and anything else closes the open session (handed
    /// back for saving, carrying the switching sample's title so the
    /// persisted record reflects the title at close, not the one at start)
    /// and opens a new one starting now.
    pub fn check_activity(&mut self, sample: Option<Sample>, now: Timestamp) -> (closed: Option<
        CurrentActivity,
    >)
        ensures
            final(self).config == old(self).config,
            match sample {
                None => closed is None && *final(self) == *old(self),
                Some(s) => {
                    let patterns = old(self).config.ticket_patterns.deep_view();
                    let issue = spec_identify(patterns, s.title@);
                    let switch = match old(self).current_activity {
                        None => true,
                        Some(cur) => cur.app_name@ != s.app_name@ || cur.issue_id.deep_view()
                            != issue,
                    };
                    if switch {
                        &&& closed == (match old(self).current_activity {
                            None => None,
                            Some(cur) => Some(CurrentActivity { title: s.title, ..cur }),
                        })
                        &&& final(self).current_activity is Some
                        &&& final(self).current_activity.unwrap()@ == (CurrentActivityView {
                            start_time: now@,
                            app_name: s.app_name@,
                            title: s.title@,
                            issue_id: issue,
                            identified_by: spec_identified_by(patterns, s.title@),
                        })
                    } else {
                        closed is None && *final(self) == *old(self)
                    }
                },
            },
    {
        match sample {
            None => None,
            Some(s) => {
                let (issue_id, identified_by) = identify(
                    s.title.as_str(),
                    &self.config.ticket_patterns,
                );
                let should_switch = match &self.current_activity {
                    None => true,
                    Some(cur) => !(cur.app_name == s.app_name) || !option_string_eq(
                        &cur.issue_id,
                        &issue_id,
                    ),
                };
                if should_switch {
                    let closed = match self.current_activity.take() {
                        None => None,
                        Some(cur) => Some(
                            CurrentActivity {
                                start_time: cur.start_time,
                                app_name: cur.app_name,
                                title: s.title.clone(),
                                issue_id: cur.issue_id,
                                identified_by: cur.identified_by,
                            },
                        ),
                    };
                    self.current_activity = Some(
                        CurrentActivity {
                            start_time: now,
                            app_name: s.app_name,
                            title: s.title,
                            issue_id,
                            identified_by,
                        },
                    );
                    closed
                } else {
                    None
                }
            },
        }
    }

    /// Run a closed session against a day's records: discard it where it
    /// ran shorter than `MIN_SESSION_SECS` and the day already has a
    /// record; otherwise derive its record — category from the presence of
    /// the issue id, the identification source forced to `"none"` where no
    /// id is present — and append it with the day log's merge rule. The
    /// session's timestamps must be coherent and in order, so that the
    /// record spans forward (`lemma_record_spans_forward`) and the duration
    /// filter and the gap merge measure the same clock; the driver builds
    /// both fields of each timestamp from one reading of the clock.
    pub fn save_activity(
        records: Vec<ActivityItem>,
        activity: CurrentActivity,
        end_time: Timestamp,
    ) -> (r: Vec<ActivityItem>)
        requires
            activity@.start_time.coherent(),
            end_time@.coherent(),
            activity@.start_time.secs <= end_time@.secs,
        ensures
            r.deep_view() == spec_save(records.deep_view(), activity@, end_time@),
    {
        let is_first_entry = records.len() == 0;
        let long_enough = match activity.start_time.secs.checked_add(MIN_SESSION_SECS) {
            Some(limit) => end_time.secs >= limit,
            None => false,
        };
        if long_enough || is_first_entry {
            let has_issue = activity.issue_id.is_some();
            let item = ActivityItem {
                from: activity.start_time.rendered,
                to: end_time.rendered,
                application_name: activity.app_name,
                application_window_title: activity.title,
                related_issue_id: activity.issue_id,
                category: if has_issue {
                    "issue_related_activity".to_owned()
                } else {
                    "no_ticket_found".to_owned()
                },
                issue_identified_by: if has_issue {
                    activity.identified_by
                } else {
                    "none".to_owned()
                },
            };
            assert(item@ == spec_record_of(activity@, end_time@));
            append_record(records, item)
        } else {
            records
        }
    }

    /// Close a session against a day's records, checking the timestamps
    /// first: where either timestamp's rendered text does not read back as
    /// its seconds, or the session would run backwards, nothing is written
    /// and the records come back unchanged.
    pub fn save_activity_checked(
        records: Vec<ActivityItem>,
        activity: CurrentActivity,
        end_time: Timestamp,
    ) -> (r: Vec<ActivityItem>)
        ensures
            if activity@.start_time.coherent() && end_time@.coherent()
                && activity@.start_time.secs <= end_time@.secs {
                r.deep_view() == spec_save(records.deep_view(), activity@, end_time@)
            } else {
                r.deep_view() == records.deep_view()
            },
    {
        let start_ok = activity.start_time.is_coherent();
        let end_ok = end_time.is_coherent();
        if start_ok && end_ok && activity.start_time.secs <= end_time.secs {
            Self::save_activity(records, activity, end_time)
        } else {
            records
        }
    }

    /// The day's records as read back from storage: whatever the file
    /// parsed to, or nothing where it was absent or unreadable.
    pub fn get_days_activities(parsed: Option<Vec<ActivityItem>>) -> (r: Vec<ActivityItem>)
        ensures
            match parsed {
                Some(items) => r@ == items@,
                None => r@ == Seq::<ActivityItem>::empty(),
            },
    {
        match parsed {
            Some(items) => items,
            None => Vec::new(),
        }
    }

    /// The live status line: the tracked issue id where one is resolved,
    /// else the tracked application, else idle.
    pub fn get_current_status(&self) -> (r: String)
        ensures
            match self.current_activity {
                None => r@ == "Idle"@,
                Some(cur) => match cur.issue_id {
                    Some(id) => r@ == "Tracking: #"@ + id@,
                    None => r@ == "Tracking: "@ + cur.app_name@,
                },
            },
    {
        match &self.current_activity {
            None => "Idle".to_owned(),
            Some(cur) => match &cur.issue_id {
                Some(id) => {
                    let mut r = "Tracking: #".to_owned();
                    r.append(id.as_str());
                    r
                },
                None => {
                    let mut r = "Tracking: ".to_owned();
                    r.append(cur.app_name.as_str());
                    r
                },
            },
        }
    }
}

} // verus!
