//! Requests for approval. The first decision wins.

use vstd::prelude::*;

use crate::json;
use crate::outside;
use crate::protocol::api::ApprovalDto;
use crate::protocol::events::Decision;
use crate::protocol::ids::{ApprovalId, SessionId, ToolCallId};
use crate::protocol::time::{self, Timestamp};
use crate::text;

verus! {

/// A request as it is stored.
#[derive(Debug, PartialEq)]
pub struct ApprovalRow {
    pub id: String,
    pub session_id: String,
    pub tool_call_id: String,
    pub tool: String,
    pub summary: String,
    /// JSON text.
    pub args: String,
    pub decision: Option<String>,
    pub resolved_by: Option<String>,
    pub created_at: String,
    pub resolved_at: Option<String>,
}

/// The decision stored as a text, if it is one.
pub open spec fn text_decision(s: Option<String>) -> Option<Decision> {
    match s {
        Some(d) => if d@ == "approve"@ {
            Some(Decision::Approve)
        } else if d@ == "reject"@ {
            Some(Decision::Reject)
        } else {
            None
        },
        None => None,
    }
}

/// The text under which a decision is stored.
pub open spec fn decision_text(d: Decision) -> Seq<char> {
    match d {
        Decision::Approve => "approve"@,
        Decision::Reject => "reject"@,
    }
}

/// The instant stored as a text, if it is one.
pub open spec fn text_instant(s: Option<String>) -> Option<Timestamp> {
    match s {
        Some(t) => match outside::rfc3339_instant(t@) {
            Some((secs, nanos)) => Some(Timestamp { secs, nanos }),
            None => None,
        },
        None => None,
    }
}

impl ApprovalRow {
    /// Whether the row can be read: its identifiers, its arguments and its
    /// time of creation are what they should be.
    pub open spec fn readable(self) -> bool {
        &&& outside::ulid_number(self.id@) is Some
        &&& outside::ulid_number(self.session_id@) is Some
        &&& outside::ulid_number(self.tool_call_id@) is Some
        &&& outside::json_compact(self.args@) is Some
        &&& outside::rfc3339_instant(self.created_at@) is Some
    }

    /// Whether a request is what the row holds.
    pub open spec fn reads_as(self, dto: ApprovalDto) -> bool {
        &&& outside::ulid_number(self.id@) == Some(dto.id.0)
        &&& outside::ulid_number(self.session_id@) == Some(dto.session_id.0)
        &&& outside::ulid_number(self.tool_call_id@) == Some(dto.tool_call_id.0)
        &&& dto.tool == self.tool
        &&& dto.summary == self.summary
        &&& outside::json_compact(self.args@) == Some(dto.args@)
        &&& dto.decision == text_decision(self.decision)
        &&& dto.resolved_by == self.resolved_by
        &&& outside::rfc3339_instant(self.created_at@) == Some(
            (dto.created_at.secs, dto.created_at.nanos),
        )
        &&& dto.resolved_at == text_instant(self.resolved_at)
    }

    /// The request that the row holds, if it can be read.
    pub fn to_dto(&self) -> (r: Option<ApprovalDto>)
        ensures
            r is Some <==> self.readable(),
            r matches Some(dto) ==> self.reads_as(dto),
    {
        let id = match ApprovalId::from_text(self.id.as_str()) {
            Ok(id) => id,
            Err(_) => return None,
        };
        let session_id = match SessionId::from_text(self.session_id.as_str()) {
            Ok(id) => id,
            Err(_) => return None,
        };
        let tool_call_id = match ToolCallId::from_text(self.tool_call_id.as_str()) {
            Ok(id) => id,
            Err(_) => return None,
        };
        let args = match json::compact(self.args.as_str()) {
            Some(args) => args,
            None => return None,
        };
        let created_at = match time::parse_ts(self.created_at.as_str()) {
            Some(t) => t,
            None => return None,
        };
        let decision = match &self.decision {
            Some(d) => if text::same(d.as_str(), "approve") {
                Some(Decision::Approve)
            } else if text::same(d.as_str(), "reject") {
                Some(Decision::Reject)
            } else {
                None
            },
            None => None,
        };
        let resolved_at = match &self.resolved_at {
            Some(t) => time::parse_ts(t.as_str()),
            None => None,
        };
        Some(
            ApprovalDto {
                id,
                session_id,
                tool_call_id,
                tool: self.tool.clone(),
                summary: self.summary.clone(),
                args,
                decision,
                resolved_by: text::copy_option(&self.resolved_by),
                created_at,
                resolved_at,
            },
        )
    }
}

/// The text under which a decision is stored.
pub fn decision_to_str(d: Decision) -> (r: &'static str)
    ensures
        r@ == decision_text(d),
{
    match d {
        Decision::Approve => "approve",
        Decision::Reject => "reject",
    }
}

/// A request to store; `args` is JSON text.
#[derive(Debug, PartialEq)]
pub struct NewApproval {
    pub id: ApprovalId,
    pub session_id: SessionId,
    pub tool_call_id: ToolCallId,
    pub tool: String,
    pub summary: String,
    pub args: String,
    pub created_at: Timestamp,
}

/// Whether a row is that of a request that nobody decided yet.
pub open spec fn is_new(r: ApprovalRow, new: NewApproval) -> bool {
    &&& r.id@ == outside::ulid_chars(new.id.0)
    &&& r.session_id@ == outside::ulid_chars(new.session_id.0)
    &&& r.tool_call_id@ == outside::ulid_chars(new.tool_call_id.0)
    &&& r.tool == new.tool
    &&& r.summary == new.summary
    &&& r.args == new.args
    &&& r.decision is None
    &&& r.resolved_by is None
    &&& r.resolved_at is None
    &&& r.created_at@ == outside::rfc3339_chars(new.created_at.secs, new.created_at.nanos)
    &&& outside::json_compact(new.args@) is Some ==> r.readable()
    &&& forall|dto: ApprovalDto|
        #[trigger] r.reads_as(dto) ==> dto.id == new.id && dto.session_id == new.session_id
            && dto.tool_call_id == new.tool_call_id && dto.created_at == new.created_at
}

/// The row of a request that nobody decided yet.
pub fn insert(new: NewApproval) -> (r: ApprovalRow)
    requires
        new.created_at.in_range(),
    ensures
        is_new(r, new),
{
    ApprovalRow {
        id: new.id.text(),
        session_id: new.session_id.text(),
        tool_call_id: new.tool_call_id.text(),
        tool: new.tool,
        summary: new.summary,
        args: new.args,
        decision: None,
        resolved_by: None,
        created_at: new.created_at.to_rfc3339(),
        resolved_at: None,
    }
}

/// What came of a decision.
#[derive(Debug, PartialEq)]
pub enum DecideOutcome {
    /// It stands now; with the row to store.
    Applied(ApprovalRow),
    /// Another one already stood.
    AlreadyResolved(ApprovalRow),
    /// There is no such request.
    NotFound,
}

/// Whether a row is another one with a decision on it.
pub open spec fn is_resolved(
    row: ApprovalRow,
    before: ApprovalRow,
    decision: Decision,
    by: Seq<char>,
    at: Timestamp,
) -> bool {
    &&& row.decision matches Some(d)
    &&& d@ == decision_text(decision)
    &&& row.resolved_by matches Some(b)
    &&& b@ == by
    &&& row.resolved_at matches Some(t)
    &&& t@ == outside::rfc3339_chars(at.secs, at.nanos)
    &&& text_instant(row.resolved_at) == Some(at)
    &&& row == (ApprovalRow {
        decision: row.decision,
        resolved_by: row.resolved_by,
        resolved_at: row.resolved_at,
        ..before
    })
}

/// Whether an outcome is that of a decision on a request.
pub open spec fn decides(
    row: Option<ApprovalRow>,
    decision: Decision,
    by: Seq<char>,
    at: Timestamp,
    outcome: DecideOutcome,
) -> bool {
    match row {
        None => outcome == DecideOutcome::NotFound,
        Some(before) => if before.decision is Some {
            outcome == DecideOutcome::AlreadyResolved(before)
        } else {
            outcome matches DecideOutcome::Applied(after) && is_resolved(
                after,
                before,
                decision,
                by,
                at,
            )
        },
    }
}

/// Decides on a request, unless it is decided already: the first decision
/// wins.
pub fn decide(
    row: Option<ApprovalRow>,
    decision: Decision,
    resolved_by: &str,
    resolved_at: Timestamp,
) -> (r: DecideOutcome)
    requires
        resolved_at.in_range(),
    ensures
        decides(row, decision, resolved_by@, resolved_at, r),
{
    match row {
        None => DecideOutcome::NotFound,
        Some(row) => {
            if row.decision.is_some() {
                return DecideOutcome::AlreadyResolved(row);
            }
            let mut row = row;
            row.decision = Some(decision_to_str(decision).to_owned());
            row.resolved_by = Some(resolved_by.to_owned());
            row.resolved_at = Some(resolved_at.to_rfc3339());
            DecideOutcome::Applied(row)
        },
    }
}

/// Law: a stored decision reads back.
pub proof fn law_decision_round_trip(row: ApprovalRow, d: Decision)
    requires
        row.decision matches Some(s) && s@ == decision_text(d),
    ensures
        text_decision(row.decision) == Some(d),
{
    reveal_strlit("approve");
    reveal_strlit("reject");
    assert("approve"@.len() == 7);
    assert("reject"@.len() == 6);
}

/// Law: once a decision stands, no later one changes the request: whoever
/// decides next, and however, gets the row of the first decision.
pub proof fn law_first_decision_wins(
    before: ApprovalRow,
    first: Decision,
    by: Seq<char>,
    at: Timestamp,
    after: ApprovalRow,
    second: Decision,
    second_by: Seq<char>,
    second_at: Timestamp,
    later: DecideOutcome,
)
    requires
        decides(Some(before), first, by, at, DecideOutcome::Applied(after)),
        decides(Some(after), second, second_by, second_at, later),
    ensures
        later == DecideOutcome::AlreadyResolved(after),
        text_decision(after.decision) == Some(first),
        after.resolved_by matches Some(b) && b@ == by,
        after.readable() == before.readable(),
{
    law_decision_round_trip(after, first);
}

/// The rows that can be read.
pub open spec fn readable_rows(rows: Seq<ApprovalRow>) -> Seq<ApprovalRow> {
    rows.filter(|row: ApprovalRow| row.readable())
}

/// The requests of the rows that can be read, in order.
pub fn pending_all(rows: &Vec<ApprovalRow>) -> (r: Vec<ApprovalDto>)
    ensures
        r@.len() == readable_rows(rows@).len(),
        forall|i: int| 0 <= i < r@.len() ==> readable_rows(rows@)[i].reads_as(#[trigger] r@[i]),
{
    let mut out: Vec<ApprovalDto> = Vec::new();
    let ghost keep = |row: ApprovalRow| row.readable();
    let mut i: usize = 0;
    proof {
        reveal(Seq::filter);
        assert(rows@.take(0).filter(keep) == Seq::<ApprovalRow>::empty());
    }
    while i < rows.len()
        invariant
            i <= rows.len(),
            keep == (|row: ApprovalRow| row.readable()),
            out@.len() == rows@.take(i as int).filter(keep).len(),
            forall|k: int|
                0 <= k < out@.len() ==> rows@.take(i as int).filter(keep)[k].reads_as(
                    #[trigger] out@[k],
                ),
        decreases rows.len() - i,
    {
        proof {
            reveal(Seq::filter);
            assert(rows@.take(i + 1).drop_last() == rows@.take(i as int));
        }
        match rows[i].to_dto() {
            Some(dto) => {
                out.push(dto);
            },
            None => {},
        }
        i += 1;
    }
    assert(rows@.take(i as int) == rows@);
    out
}

/// Law: a decision on an open request stores its text, its author and its
/// instant, which reads back, and keeps everything else of the request; a
/// decided request is kept whole, and one that is not there stays away.
pub proof fn law_decision_is_kept(
    row: Option<ApprovalRow>,
    decision: Decision,
    by: Seq<char>,
    at: Timestamp,
    outcome: DecideOutcome,
)
    requires
        decides(row, decision, by, at, outcome),
    ensures
        row is None <==> outcome is NotFound,
        row matches Some(before) ==> {
            &&& before.decision is None <==> outcome is Applied
            &&& outcome matches DecideOutcome::AlreadyResolved(kept) ==> kept == before
            &&& outcome matches DecideOutcome::Applied(after) ==> {
                &&& after.id == before.id
                &&& after.session_id == before.session_id
                &&& after.tool_call_id == before.tool_call_id
                &&& after.tool == before.tool
                &&& after.summary == before.summary
                &&& after.args == before.args
                &&& after.created_at == before.created_at
                &&& after.decision matches Some(d) && d@ == (if decision is Approve {
                    "approve"@
                } else {
                    "reject"@
                })
                &&& after.resolved_by matches Some(b) && b@ == by
                &&& after.resolved_at matches Some(t) && outside::rfc3339_instant(t@) == Some(
                    (at.secs, at.nanos),
                )
            }
        },
{
}

/// Law: a request that is read shows what its row holds: the approval only of a
/// row that says so, the rejection likewise, and none of any other.
pub proof fn law_request_shows_its_row(row: ApprovalRow, dto: ApprovalDto)
    requires
        row.reads_as(dto),
    ensures
        dto.tool@ == row.tool@,
        dto.summary@ == row.summary@,
        dto.decision == Some(Decision::Approve) <==> (row.decision matches Some(d) && d@
            == "approve"@),
        dto.decision == Some(Decision::Reject) <==> (row.decision matches Some(d) && d@
            == "reject"@),
        dto.resolved_by == row.resolved_by,
        row.resolved_at is None ==> dto.resolved_at is None,
        dto.resolved_at matches Some(t) ==> (row.resolved_at matches Some(s)
            && outside::rfc3339_instant(s@) == Some((t.secs, t.nanos))),
{
    reveal_strlit("approve");
    reveal_strlit("reject");
    assert("approve"@.len() == 7);
    assert("reject"@.len() == 6);
}

/// Law: the rows that are read are those of all the rows that can be, and no
/// others; where every row can be read they are the rows themselves.
pub proof fn law_readable_rows(rows: Seq<ApprovalRow>, row: ApprovalRow)
    ensures
        readable_rows(rows).contains(row) <==> rows.contains(row) && row.readable(),
        (forall|i: int| 0 <= i < rows.len() ==> (#[trigger] rows[i]).readable()) ==> readable_rows(
            rows,
        ) == rows,
    decreases rows.len(),
{
    reveal(Seq::filter);
    if rows.len() > 0 {
        let rest = rows.drop_last();
        law_readable_rows(rest, row);
        assert(rows == rest.push(rows.last()));
        let kept = readable_rows(rest);
        if rows.last().readable() {
            assert(readable_rows(rows) == kept.push(rows.last()));
        } else {
            assert(readable_rows(rows) == kept);
        }
        assert(rows.contains(row) <==> rest.contains(row) || row == rows.last()) by {
            if rest.contains(row) {
                let i = choose|i: int| 0 <= i < rest.len() && rest[i] == row;
                assert(rows[i] == row);
            }
            if row == rows.last() {
                assert(rows[rows.len() - 1] == row);
            }
            if rows.contains(row) && row != rows.last() {
                let i = choose|i: int| 0 <= i < rows.len() && rows[i] == row;
                assert(rest[i] == row);
            }
        }
        assert(kept.push(rows.last()).contains(row) <==> kept.contains(row) || row
            == rows.last()) by {
            let grown = kept.push(rows.last());
            if kept.contains(row) {
                let i = choose|i: int| 0 <= i < kept.len() && kept[i] == row;
                assert(grown[i] == row);
            }
            assert(grown[kept.len() as int] == rows.last());
            if grown.contains(row) && row != rows.last() {
                let i = choose|i: int| 0 <= i < grown.len() && grown[i] == row;
                assert(kept[i] == row);
            }
        }
        assert forall|i: int| 0 <= i < rest.len() && (forall|j: int|
            0 <= j < rows.len() ==> (#[trigger] rows[j]).readable()) implies (
        #[trigger] rest[i]).readable() by {
            assert(rows[i] == rest[i]);
        }
        if forall|j: int| 0 <= j < rows.len() ==> (#[trigger] rows[j]).readable() {
            assert(rows[rows.len() - 1].readable());
        }
    }
}

/// Law: a new request is open: whoever decides on it first is heard. It reads as
/// it was made, with no decision on it.
pub proof fn law_new_request_is_open(
    row: ApprovalRow,
    new: NewApproval,
    dto: ApprovalDto,
    decision: Decision,
    by: Seq<char>,
    at: Timestamp,
    outcome: DecideOutcome,
)
    requires
        is_new(row, new),
        row.reads_as(dto),
        decides(Some(row), decision, by, at, outcome),
    ensures
        outcome is Applied,
        dto.decision is None,
        dto.resolved_by is None,
        dto.resolved_at is None,
        dto.id == new.id,
        dto.session_id == new.session_id,
        dto.tool_call_id == new.tool_call_id,
        dto.tool@ == new.tool@,
        dto.summary@ == new.summary@,
        outside::json_compact(new.args@) == Some(dto.args@),
        dto.created_at == new.created_at,
{
}

} // verus!
