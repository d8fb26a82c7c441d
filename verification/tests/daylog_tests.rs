//! Day-log appends: duration filtering, category derivation, and the
//! gap-aware merge of adjacent records.

use activity_tracker::daylog::{append_record, day_file_name};
use activity_tracker::records::ActivityItem;
use activity_tracker::timestamp::Timestamp;
use activity_tracker::tracking::{ActivityTracker, CurrentActivity};

/// A timestamp whose epoch seconds really belong to its rendered text.
fn ts(rendered: &str) -> Timestamp {
    let secs = chrono::NaiveDateTime::parse_from_str(rendered, "%Y-%m-%d %H:%M:%S")
        .expect("test timestamp must parse")
        .and_utc()
        .timestamp();
    Timestamp {
        secs,
        rendered: rendered.to_string(),
    }
}

fn activity(app: &str, title: &str, issue: Option<&str>, start: &str) -> CurrentActivity {
    CurrentActivity {
        start_time: ts(start),
        app_name: app.to_string(),
        title: title.to_string(),
        issue_id: issue.map(|s| s.to_string()),
        identified_by: if issue.is_some() { "window_title" } else { "none" }.to_string(),
    }
}

fn record(app: &str, title: &str, issue: Option<&str>, from: &str, to: &str) -> ActivityItem {
    ActivityItem {
        from: from.to_string(),
        to: to.to_string(),
        application_name: app.to_string(),
        application_window_title: title.to_string(),
        related_issue_id: issue.map(|s| s.to_string()),
        category: if issue.is_some() {
            "issue_related_activity"
        } else {
            "no_ticket_found"
        }
        .to_string(),
        issue_identified_by: if issue.is_some() { "window_title" } else { "none" }.to_string(),
    }
}

#[test]
fn gap_of_two_minutes_merges() {
    let existing = vec![record(
        "Editor",
        "Fix bug #42",
        Some("42"),
        "2024-05-06 10:00:00",
        "2024-05-06 10:00:00",
    )];
    let session = activity("Editor", "Fix bug #42 again", Some("42"), "2024-05-06 10:02:00");
    let out = ActivityTracker::save_activity(existing, session, ts("2024-05-06 10:05:00"));
    assert_eq!(out.len(), 1);
    assert_eq!(out[0].from, "2024-05-06 10:00:00");
    assert_eq!(out[0].to, "2024-05-06 10:05:00");
}

#[test]
fn gap_of_five_minutes_stays_separate() {
    let existing = vec![record(
        "Editor",
        "Fix bug #42",
        Some("42"),
        "2024-05-06 09:40:00",
        "2024-05-06 10:00:00",
    )];
    let session = activity("Editor", "Fix bug #42 again", Some("42"), "2024-05-06 10:05:00");
    let out = ActivityTracker::save_activity(existing, session, ts("2024-05-06 10:08:00"));
    assert_eq!(out.len(), 2);
    assert_eq!(out[0].to, "2024-05-06 10:00:00");
    assert_eq!(out[1].from, "2024-05-06 10:05:00");
    assert_eq!(out[1].to, "2024-05-06 10:08:00");
}

#[test]
fn merge_keeps_earlier_title_and_extends_end_only() {
    let existing = vec![record(
        "Editor",
        "original title",
        Some("42"),
        "2024-05-06 09:40:00",
        "2024-05-06 10:00:00",
    )];
    let session = activity("Editor", "newer title", Some("42"), "2024-05-06 10:01:00");
    let out = ActivityTracker::save_activity(existing, session, ts("2024-05-06 10:03:00"));
    assert_eq!(out.len(), 1);
    assert_eq!(out[0].application_window_title, "original title");
    assert_eq!(out[0].from, "2024-05-06 09:40:00");
    assert_eq!(out[0].to, "2024-05-06 10:03:00");
}

#[test]
fn different_issue_never_merges() {
    let existing = vec![record(
        "Editor",
        "Fix bug #42",
        Some("42"),
        "2024-05-06 09:40:00",
        "2024-05-06 10:00:00",
    )];
    let session = activity("Editor", "Fix bug #43", Some("43"), "2024-05-06 10:00:00");
    let out = ActivityTracker::save_activity(existing, session, ts("2024-05-06 10:02:00"));
    assert_eq!(out.len(), 2);
}

#[test]
fn different_app_never_merges() {
    let existing = vec![record(
        "Editor",
        "Fix bug #42",
        Some("42"),
        "2024-05-06 09:40:00",
        "2024-05-06 10:00:00",
    )];
    let session = activity("Browser", "Fix bug #42", Some("42"), "2024-05-06 10:00:00");
    let out = ActivityTracker::save_activity(existing, session, ts("2024-05-06 10:02:00"));
    assert_eq!(out.len(), 2);
}

#[test]
fn unparseable_boundary_never_merges() {
    let mut first = record(
        "Editor",
        "Fix bug #42",
        Some("42"),
        "2024-05-06 09:40:00",
        "2024-05-06 10:00:00",
    );
    first.to = "not a timestamp".to_string();
    let second = record(
        "Editor",
        "Fix bug #42",
        Some("42"),
        "2024-05-06 10:00:30",
        "2024-05-06 10:02:00",
    );
    let out = append_record(vec![first], second);
    assert_eq!(out.len(), 2);
}

#[test]
fn short_first_entry_is_still_written() {
    let session = activity("Editor", "Untitled", None, "2024-05-06 10:00:00");
    let out = ActivityTracker::save_activity(Vec::new(), session, ts("2024-05-06 10:00:10"));
    assert_eq!(out.len(), 1);
    assert_eq!(out[0].from, "2024-05-06 10:00:00");
    assert_eq!(out[0].to, "2024-05-06 10:00:10");
}

#[test]
fn short_session_is_discarded_when_day_has_records() {
    let existing = vec![record(
        "Browser",
        "news",
        None,
        "2024-05-06 09:40:00",
        "2024-05-06 10:00:00",
    )];
    let session = activity("Editor", "quick peek", None, "2024-05-06 10:10:00");
    let out = ActivityTracker::save_activity(existing, session, ts("2024-05-06 10:10:30"));
    assert_eq!(out.len(), 1);
    assert_eq!(out[0].application_name, "Browser");
}

#[test]
fn session_of_exactly_one_minute_is_written() {
    let existing = vec![record(
        "Browser",
        "news",
        None,
        "2024-05-06 09:40:00",
        "2024-05-06 09:50:00",
    )];
    let session = activity("Editor", "work", None, "2024-05-06 10:10:00");
    let out = ActivityTracker::save_activity(existing, session, ts("2024-05-06 10:11:00"));
    assert_eq!(out.len(), 2);
}

#[test]
fn closing_without_issue_derives_no_ticket_category() {
    let session = activity("Notes", "Untitled - Notes", None, "2024-05-06 10:00:00");
    let out = ActivityTracker::save_activity(Vec::new(), session, ts("2024-05-06 10:05:00"));
    assert_eq!(out.len(), 1);
    assert_eq!(out[0].category, "no_ticket_found");
    assert_eq!(out[0].issue_identified_by, "none");
    assert_eq!(out[0].related_issue_id, None);
}

#[test]
fn closing_with_issue_derives_issue_category() {
    let session = activity("Editor", "Fix bug #42", Some("42"), "2024-05-06 10:00:00");
    let out = ActivityTracker::save_activity(Vec::new(), session, ts("2024-05-06 10:05:00"));
    assert_eq!(out.len(), 1);
    assert_eq!(out[0].category, "issue_related_activity");
    assert_eq!(out[0].issue_identified_by, "window_title");
    assert_eq!(out[0].related_issue_id, Some("42".to_string()));
}

#[test]
fn checked_save_writes_coherent_sessions() {
    let session = activity("Editor", "Fix bug #42", Some("42"), "2024-05-06 10:00:00");
    let out =
        ActivityTracker::save_activity_checked(Vec::new(), session, ts("2024-05-06 10:05:00"));
    assert_eq!(out.len(), 1);
    assert_eq!(out[0].from, "2024-05-06 10:00:00");
    assert_eq!(out[0].to, "2024-05-06 10:05:00");
}

#[test]
fn checked_save_refuses_incoherent_timestamps() {
    let mut session = activity("Editor", "Fix bug #42", Some("42"), "2024-05-06 10:00:00");
    // The rendered text no longer names the instant the seconds do.
    session.start_time.rendered = "2024-05-06 09:00:00".to_string();
    let out =
        ActivityTracker::save_activity_checked(Vec::new(), session, ts("2024-05-06 10:05:00"));
    assert!(out.is_empty());
}

#[test]
fn checked_save_refuses_a_backwards_session() {
    let session = activity("Editor", "Fix bug #42", Some("42"), "2024-05-06 10:05:00");
    let out =
        ActivityTracker::save_activity_checked(Vec::new(), session, ts("2024-05-06 10:00:00"));
    assert!(out.is_empty());
}

#[test]
fn day_file_name_has_date_inside() {
    assert_eq!(day_file_name("2024-05-06"), "activity_2024-05-06.json");
}

#[test]
fn missing_day_file_reads_as_empty() {
    let out = ActivityTracker::get_days_activities(None);
    assert!(out.is_empty());
}

#[test]
fn parsed_day_file_reads_back_in_order() {
    let parsed = vec![
        record("A", "t1", None, "2024-05-06 09:00:00", "2024-05-06 09:10:00"),
        record("B", "t2", Some("7"), "2024-05-06 09:20:00", "2024-05-06 09:30:00"),
    ];
    let out = ActivityTracker::get_days_activities(Some(parsed));
    assert_eq!(out.len(), 2);
    assert_eq!(out[0].application_name, "A");
    assert_eq!(out[1].application_name, "B");
    assert_eq!(out[1].related_issue_id, Some("7".to_string()));
}
