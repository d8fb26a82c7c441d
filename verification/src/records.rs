//! Persisted session records.
//!
//! An `ActivityItem` is one entry of a day's log: a closed session with its
//! span, application, last seen window title, resolved issue id, and the
//! category derived from that id. Records are modelled in specifications by
//! `ActivityItemView`, the same fields as sequences of characters.

use vstd::prelude::*;

verus! {

/// One persisted session record of a day's log.
pub struct ActivityItem {
    pub from: String,
    pub to: String,
    pub application_name: String,
    pub application_window_title: String,
    pub related_issue_id: Option<String>,
    pub category: String,
    pub issue_identified_by: String,
}

/// The mathematical image of an `ActivityItem`: each text field as its
/// sequence of characters.
pub ghost struct ActivityItemView {
    pub from: Seq<char>,
    pub to: Seq<char>,
    pub application_name: Seq<char>,
    pub application_window_title: Seq<char>,
    pub related_issue_id: Option<Seq<char>>,
    pub category: Seq<char>,
    pub issue_identified_by: Seq<char>,
}

impl View for ActivityItem {
    type V = ActivityItemView;

    open spec fn view(&self) -> ActivityItemView {
        ActivityItemView {
            from: self.from@,
            to: self.to@,
            application_name: self.application_name@,
            application_window_title: self.application_window_title@,
            related_issue_id: self.related_issue_id.deep_view(),
            category: self.category@,
            issue_identified_by: self.issue_identified_by@,
        }
    }
}

impl DeepView for ActivityItem {
    type V = ActivityItemView;

    open spec fn deep_view(&self) -> ActivityItemView {
        self.view()
    }
}

/// The category a record gets from its resolved issue id: issue-related
/// where an id was found, otherwise the no-ticket marker.
pub open spec fn spec_category(issue: Option<Seq<char>>) -> Seq<char> {
    if issue is Some {
        "issue_related_activity"@
    } else {
        "no_ticket_found"@
    }
}

/// How the record says its issue was identified: whatever the identifier
/// reported while an id is present, forced to `"none"` where it is absent.
pub open spec fn spec_issue_identified_by(
    issue: Option<Seq<char>>,
    reported: Seq<char>,
) -> Seq<char> {
    if issue is Some {
        reported
    } else {
        "none"@
    }
}

/// Compare two optional texts by their characters.
pub fn option_string_eq(a: &Option<String>, b: &Option<String>) -> (r: bool)
    ensures
        r == (a.deep_view() == b.deep_view()),
{
    match (a, b) {
        (None, None) => true,
        (Some(x), Some(y)) => *x == *y,
        _ => false,
    }
}

} // verus!
