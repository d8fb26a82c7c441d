//! The day log: an ordered list of session records with gap-aware merging.
//!
//! A closed session becomes a record of the day whose file is being
//! written. Before it is appended, the list's last record is examined: if
//! it names the same application and the same issue id, and the gap from
//! its end to the new record's start is at most `MERGE_GAP_SECS`, the last
//! record is extended in place instead of a near-duplicate being appended.
//! The driver reads the day's list, calls into here, and writes the result
//! back.

use vstd::prelude::*;
use vstd::string::StringExecFns;

use crate::records::{option_string_eq, ActivityItem, ActivityItemView};
use crate::timestamp::{parse_timestamp, parse_ts};

verus! {

/// Two records whose gap is at most this many seconds may merge.
pub const MERGE_GAP_SECS: i64 = 180;

/// Whether a new record may be folded into the preceding one: same
/// application, same issue id, both boundary texts parse as timestamps,
/// and the start of the new one is at most `MERGE_GAP_SECS` after the end
/// of the old one.
pub open spec fn mergeable(last: ActivityItemView, item: ActivityItemView) -> bool {
    &&& last.application_name == item.application_name
    &&& last.related_issue_id == item.related_issue_id
    &&& parse_ts(last.to) is Some
    &&& parse_ts(item.from) is Some
    &&& parse_ts(item.from).unwrap() - parse_ts(last.to).unwrap() <= MERGE_GAP_SECS
}

/// The record a merge leaves behind: the earlier record, its end extended
/// to the new record's end; title and category of the earlier record stay.
pub open spec fn merge_into(last: ActivityItemView, item: ActivityItemView) -> ActivityItemView {
    ActivityItemView { to: item.to, ..last }
}

/// One append step on a day's records: fold the new record into the last
/// one where `mergeable` allows it, else put it at the end.
pub open spec fn spec_append(
    records: Seq<ActivityItemView>,
    item: ActivityItemView,
) -> Seq<ActivityItemView> {
    if records.len() > 0 && mergeable(records.last(), item) {
        records.update(records.len() - 1, merge_into(records.last(), item))
    } else {
        records.push(item)
    }
}

/// No two adjacent records of the list could still be merged: whatever
/// pairs satisfied the merge criteria have been folded already.
pub open spec fn no_mergeable_adjacent(records: Seq<ActivityItemView>) -> bool {
    forall|i: int| 0 <= i && i + 1 < records.len() ==> !mergeable(#[trigger] records[i], records[i + 1])
}

/// A record spans forward: both of its boundary texts read back as
/// instants, and it does not end before it starts.
pub open spec fn span_ordered(item: ActivityItemView) -> bool {
    &&& parse_ts(item.from) is Some
    &&& parse_ts(item.to) is Some
    &&& parse_ts(item.from).unwrap() <= parse_ts(item.to).unwrap()
}

/// Every record of the list spans forward.
pub open spec fn spans_ordered(records: Seq<ActivityItemView>) -> bool {
    forall|i: int| 0 <= i < records.len() ==> span_ordered(#[trigger] records[i])
}

/// Append one record to a day's records, folding it into the last record
/// where the merge criteria hold.
pub fn append_record(records: Vec<ActivityItem>, item: ActivityItem) -> (r: Vec<ActivityItem>)
    ensures
        r.deep_view() == spec_append(records.deep_view(), item@),
{
    let ghost orig: Seq<ActivityItemView> = records.deep_view();
    let mut rs = records;
    let n = rs.len();
    let mut do_merge = false;
    if n > 0 {
        let last = &rs[n - 1];
        assert(last@ == orig.last());
        if last.application_name == item.application_name && option_string_eq(
            &last.related_issue_id,
            &item.related_issue_id,
        ) {
            let last_to = parse_timestamp(last.to.as_str());
            let item_from = parse_timestamp(item.from.as_str());
            do_merge = match (last_to, item_from) {
                (Some(t0), Some(t1)) => match t0.checked_add(MERGE_GAP_SECS) {
                    Some(limit) => t1 <= limit,
                    None => true,
                },
                _ => false,
            };
        }
    }
    assert(do_merge == (orig.len() > 0 && mergeable(orig.last(), item@)));
    if do_merge {
        let last = rs.pop().unwrap();
        let merged = ActivityItem {
            from: last.from,
            to: item.to,
            application_name: last.application_name,
            application_window_title: last.application_window_title,
            related_issue_id: last.related_issue_id,
            category: last.category,
            issue_identified_by: last.issue_identified_by,
        };
        rs.push(merged);
        assert(merged@ == merge_into(orig.last(), item@));
        assert(rs.deep_view() =~= spec_append(orig, item@));
    } else {
        rs.push(item);
        assert(rs.deep_view() =~= spec_append(orig, item@));
    }
    rs
}

/// After an append, the records still hold `no_mergeable_adjacent`: a
/// merged record changes only its end, and a record appended without a
/// merge failed the merge criteria against its new neighbour.
pub proof fn lemma_append_keeps_no_mergeable_adjacent(
    records: Seq<ActivityItemView>,
    item: ActivityItemView,
)
    requires
        no_mergeable_adjacent(records),
    ensures
        no_mergeable_adjacent(spec_append(records, item)),
{
    let r = spec_append(records, item);
    if records.len() > 0 && mergeable(records.last(), item) {
        assert forall|i: int| 0 <= i && i + 1 < r.len() implies !mergeable(#[trigger] r[i], r[i + 1]) by {
            if i + 2 < records.len() {
                assert(!mergeable(records[i], records[i + 1]));
            } else {
                assert(r[i] == records[i]);
                assert(r[i + 1] == merge_into(records.last(), item));
                assert(!mergeable(records[i], records[i + 1]));
            }
        }
    } else {
        assert forall|i: int| 0 <= i && i + 1 < r.len() implies !mergeable(#[trigger] r[i], r[i + 1]) by {
            if i + 1 < records.len() {
                assert(!mergeable(records[i], records[i + 1]));
            }
        }
    }
}

/// Every record keeps spanning forward across an append, provided the new
/// record spans forward and — where it merges — starts no earlier than the
/// last record ended, which is how closes reach a day's file: in the order
/// they happened.
pub proof fn lemma_append_keeps_spans_ordered(
    records: Seq<ActivityItemView>,
    item: ActivityItemView,
)
    requires
        spans_ordered(records),
        span_ordered(item),
        records.len() > 0 && mergeable(records.last(), item) ==> parse_ts(
            records.last().to,
        ).unwrap() <= parse_ts(item.from).unwrap(),
    ensures
        spans_ordered(spec_append(records, item)),
{
    let r = spec_append(records, item);
    if records.len() > 0 && mergeable(records.last(), item) {
        assert(span_ordered(records.last()));
        assert(span_ordered(merge_into(records.last(), item)));
        assert forall|i: int| 0 <= i < r.len() implies span_ordered(#[trigger] r[i]) by {
            if i < records.len() - 1 {
                assert(span_ordered(records[i]));
            }
        }
    } else {
        assert forall|i: int| 0 <= i < r.len() implies span_ordered(#[trigger] r[i]) by {
            if i < records.len() {
                assert(span_ordered(records[i]));
            }
        }
    }
}

/// Appending touches nothing before the last record: a merge rewrites
/// only the last record's end, and a plain append only adds one record at
/// the end. Reading a day's records back therefore yields the appended
/// sequence in order, up to those in-place end extensions.
pub proof fn lemma_append_changes_only_last(
    records: Seq<ActivityItemView>,
    item: ActivityItemView,
)
    ensures
        ({
            let r = spec_append(records, item);
            &&& records.len() <= r.len() <= records.len() + 1
            &&& forall|i: int| 0 <= i < records.len() - 1 ==> r[i] == records[i]
            &&& r.len() == records.len() ==> r.last() == merge_into(records.last(), item)
            &&& r.len() == records.len() + 1 ==> r.last() == item && (forall|i: int|
                0 <= i < records.len() ==> r[i] == records[i])
        }),
{
}

/// The name of a day's file: `activity_<date>.json`.
pub fn day_file_name(date_str: &str) -> (r: String)
    ensures
        r@ == "activity_"@ + date_str@ + ".json"@,
{
    let mut name = "activity_".to_owned();
    name.append(date_str);
    name.append(".json");
    name
}

} // verus!
