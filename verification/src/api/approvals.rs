//! Requests for approval: the list of pending ones, and the decision on one.

use vstd::prelude::*;
use vstd::string::*;

use crate::agent::{self, Effect};
use crate::error::ApiError;
use crate::json;
use crate::outside;
use crate::protocol::api::{
    ApprovalsPage, DecisionRequest, DecisionResponse, ErrorCode, ErrorDetails, NewRule,
};
use crate::protocol::events::{Decision, Event};
use crate::protocol::ids::{ApprovalId, SessionId};
use crate::protocol::time::Timestamp;
use crate::store::approvals::{self as stored, ApprovalRow, DecideOutcome};
use crate::store::sessions::SessionRow;
use crate::text;

verus! {

/// Characters that a reason may have.
pub const MAX_REASON_CHARS: usize = 500;

/// Who decides when the decision comes over REST.
pub const LOCAL_REST_RESOLVER: &'static str = "local:rest";

/// The pending requests of every session, in the order of the rows.
pub fn list_pending(rows: &Vec<ApprovalRow>) -> (r: ApprovalsPage)
    ensures
        r.approvals@.len() == stored::readable_rows(rows@).len(),
        forall|i: int|
            0 <= i < r.approvals@.len() ==> stored::readable_rows(rows@)[i].reads_as(
                #[trigger] r.approvals@[i],
            ),
{
    ApprovalsPage { approvals: stored::pending_all(rows) }
}

/// The request that a decision is on, or why the decision is refused before it
/// is taken.
pub fn check_decision(raw_id: &str, req: &DecisionRequest) -> (r: Result<ApprovalId, ApiError>)
    ensures
        match outside::ulid_number(raw_id@) {
            None => r matches Err(e) && e.is_not_found("aprobación"@),
            Some(n) => if req.reason matches Some(reason) && reason@.len() > MAX_REASON_CHARS {
                r matches Err(e) && e.is_field_error(
                    "reason supera "@ + text::decimal(MAX_REASON_CHARS as nat) + " caracteres"@,
                    "reason"@,
                )
            } else {
                r == Ok::<ApprovalId, ApiError>(ApprovalId(n))
            },
        },
        r is Ok <==> outside::ulid_number(raw_id@) is Some && (req.reason matches Some(reason)
            ==> reason@.len() <= 500),
        r matches Ok(id) ==> outside::ulid_number(raw_id@) == Some(id.0),
        r matches Err(e) ==> e.status == 404 || e.status == 422,
{
    let id = match ApprovalId::from_text(raw_id) {
        Ok(id) => id,
        Err(_) => return Err(ApiError::not_found("aprobación")),
    };
    match &req.reason {
        Some(reason) => {
            if reason.as_str().unicode_len() > MAX_REASON_CHARS {
                let message = text::join3(
                    "reason supera ",
                    text::number(MAX_REASON_CHARS as u64).as_str(),
                    " caracteres",
                );
                return Err(ApiError::field(message.as_str(), "reason"));
            }
        },
        None => {},
    }
    Ok(id)
}

/// What to remember of an approved command.
#[derive(Debug, PartialEq)]
pub struct RuleSeed {
    pub tool: String,
    pub pattern: String,
}

/// What a decision does.
#[derive(Debug, PartialEq)]
pub struct DecisionPlan {
    /// Session of the request.
    pub session_id: SessionId,
    /// The effects on that session; none for a repeat.
    pub effects: Vec<Effect>,
    /// A rule to create, in the workspace of the session.
    pub remember: Option<RuleSeed>,
    /// Whether the suspended session has to be woken with the decision.
    pub wake: bool,
    pub response: DecisionResponse,
}

/// What the audit log holds of a decision.
pub open spec fn decision_members(
    id: ApprovalId,
    tool: Seq<char>,
    decision: Decision,
    by: Seq<char>,
    reason: Option<String>,
) -> Seq<(Seq<char>, json::FieldView)> {
    seq![
        ("approval_id"@, json::FieldView::Text(outside::ulid_chars(id.0))),
        ("tool"@, json::FieldView::Text(tool)),
        ("decision"@, json::FieldView::Text(stored::decision_text(decision))),
        ("resolved_by"@, json::FieldView::Text(by)),
        (
            "reason"@,
            match reason {
                Some(r) => json::FieldView::Text(r@),
                None => json::FieldView::Null,
            },
        ),
    ]
}

/// Whether a decision is to be remembered: an approved shell command, when the
/// client asks for it.
pub open spec fn remembers(req: DecisionRequest, tool: Seq<char>) -> bool {
    req.remember_rule == Some(true) && req.decision == Decision::Approve && tool == "run_shell"@
}

/// The pattern to remember: the command itself, else the summary.
pub open spec fn pattern_of(args: Seq<char>, summary: Seq<char>) -> Seq<char> {
    match outside::json_text_member(args, "cmd"@) {
        Some(cmd) => cmd,
        None => summary,
    }
}

/// Whether a plan is that of a decision that now stands.
pub open spec fn applies(
    plan: DecisionPlan,
    id: ApprovalId,
    row: ApprovalRow,
    req: DecisionRequest,
    by: Seq<char>,
    now: Timestamp,
) -> bool {
    &&& outside::ulid_number(row.session_id@) == Some(plan.session_id.0)
    &&& plan.effects@.len() == 2
    &&& plan.effects@[0] matches Effect::Emit {
        event: Event::ApprovalResolved { approval_id, decision, resolved_by },
        new_state,
    }
    &&& approval_id == id
    &&& decision == req.decision
    &&& resolved_by@ == by
    &&& new_state is None
    &&& agent::is_audit(
        plan.effects@[1],
        "approval"@,
        decision_members(id, row.tool@, req.decision, by, req.reason),
    )
    &&& plan.remember is Some <==> remembers(req, row.tool@)
    &&& plan.remember matches Some(seed) ==> seed.tool == row.tool && Some(seed.pattern@)
        == (match outside::json_compact(row.args@) {
        Some(args) => Some(pattern_of(args, row.summary@)),
        None => None,
    })
    &&& plan.wake
    &&& plan.response.approval_id == id
    &&& plan.response.resolved
    &&& plan.response.decision == req.decision
    &&& plan.response.resolved_by@ == by
    &&& plan.response.resolved_at == now
}

/// Whether a plan answers a repeat with the decision that stands.
pub open spec fn repeats(
    plan: DecisionPlan,
    id: ApprovalId,
    row: ApprovalRow,
    decision: Decision,
    now: Timestamp,
) -> bool {
    &&& outside::ulid_number(row.session_id@) == Some(plan.session_id.0)
    &&& plan.effects@.len() == 0
    &&& plan.remember is None
    &&& !plan.wake
    &&& plan.response.approval_id == id
    &&& plan.response.resolved
    &&& plan.response.decision == decision
    &&& plan.response.resolved_by@ == (match row.resolved_by {
        Some(by) => by@,
        None => Seq::empty(),
    })
    &&& plan.response.resolved_at == (match stored::text_instant(row.resolved_at) {
        Some(t) => t,
        None => now,
    })
}

/// What a decision comes to, given what came of it in the store.
pub open spec fn concludes(
    id: ApprovalId,
    req: DecisionRequest,
    by: Seq<char>,
    now: Timestamp,
    outcome: DecideOutcome,
    r: Result<DecisionPlan, ApiError>,
) -> bool {
    match outcome {
        DecideOutcome::NotFound => r matches Err(e) && e.is_not_found("aprobación"@),
        DecideOutcome::Applied(row) => if row.readable() {
            r matches Ok(plan) && applies(plan, id, row, req, by, now)
        } else {
            r matches Err(e) && e.is_internal()
        },
        DecideOutcome::AlreadyResolved(row) => {
            let stands = stored::text_decision(row.decision);
            if !row.readable() || stands is None {
                r matches Err(e) && e.is_internal()
            } else if stands == Some(req.decision) {
                r matches Ok(plan) && repeats(plan, id, row, req.decision, now)
            } else {
                r matches Err(e) && e.says(
                    ErrorCode::Conflict,
                    "la aprobación ya fue resuelta con la decisión contraria"@,
                ) && (e.details matches Some(ErrorDetails::Approval(dto)) && row.reads_as(dto))
            }
        },
    }
}

/// What a decision does, given what came of it in the store. The first one is
/// told to the clients, audited, maybe remembered, and wakes the session; the
/// same one again is answered with the first; a contrary one is a conflict.
pub fn decide_inner(
    id: ApprovalId,
    req: DecisionRequest,
    resolved_by: &str,
    now: Timestamp,
    outcome: DecideOutcome,
) -> (r: Result<DecisionPlan, ApiError>)
    ensures
        concludes(id, req, resolved_by@, now, outcome, r),
{
    match outcome {
        DecideOutcome::NotFound => Err(ApiError::not_found("aprobación")),
        DecideOutcome::Applied(row) => {
            let dto = match row.to_dto() {
                Some(dto) => dto,
                None => return Err(ApiError::internal()),
            };
            let mut members: Vec<(String, json::Field)> = Vec::new();
            members.push(json::text_member("approval_id", id.text().as_str()));
            members.push(json::text_member("tool", dto.tool.as_str()));
            members.push(
                json::text_member("decision", stored::decision_to_str(req.decision)),
            );
            members.push(json::text_member("resolved_by", resolved_by));
            members.push(json::option_member("reason", &req.reason));
            assert(json::members_view(members@) == decision_members(
                id,
                row.tool@,
                req.decision,
                resolved_by@,
                req.reason,
            ));
            proof {
                json::lemma_reserved_key();
                reveal_strlit("approval_id");
                reveal_strlit("tool");
                reveal_strlit("decision");
                reveal_strlit("resolved_by");
                reveal_strlit("reason");
                assert(members@[0].0@.len() == 11);
                assert(members@[1].0@.len() == 4);
                assert(members@[2].0@.len() == 8);
                assert(members@[3].0@.len() == 11);
                assert(members@[4].0@.len() == 6);
                assert(members@[0].0@[0] == 'a' && members@[3].0@[0] == 'r');
                json::lemma_distinct_keys(members@);
            }
            let mut effects: Vec<Effect> = Vec::new();
            effects.push(
                Effect::Emit {
                    event: Event::ApprovalResolved {
                        approval_id: id,
                        decision: req.decision,
                        resolved_by: resolved_by.to_owned(),
                    },
                    new_state: None,
                },
            );
            effects.push(
                Effect::Audit { kind: "approval".to_owned(), detail: json::object(&members) },
            );
            let asked = match req.remember_rule {
                Some(yes) => yes,
                None => false,
            };
            let remember = if asked && req.decision == Decision::Approve && text::same(
                dto.tool.as_str(),
                "run_shell",
            ) {
                let pattern = match json::get_text(dto.args.as_str(), "cmd") {
                    Some(cmd) => cmd,
                    None => dto.summary.clone(),
                };
                Some(RuleSeed { tool: dto.tool.clone(), pattern })
            } else {
                None
            };
            Ok(
                DecisionPlan {
                    session_id: dto.session_id,
                    effects,
                    remember,
                    wake: true,
                    response: DecisionResponse {
                        approval_id: id,
                        resolved: true,
                        decision: req.decision,
                        resolved_by: resolved_by.to_owned(),
                        resolved_at: now,
                    },
                },
            )
        },
        DecideOutcome::AlreadyResolved(row) => {
            let dto = match row.to_dto() {
                Some(dto) => dto,
                None => return Err(ApiError::internal()),
            };
            let original = match dto.decision {
                Some(d) => d,
                None => return Err(ApiError::internal()),
            };
            if original != req.decision {
                return Err(
                    ApiError::conflict(
                        "la aprobación ya fue resuelta con la decisión contraria".to_owned(),
                        Some(ErrorDetails::Approval(dto)),
                    ),
                );
            }
            let resolved_by = match dto.resolved_by {
                Some(by) => by,
                None => {
                    let nobody = String::new();
                    assert(nobody@ == Seq::<char>::empty());
                    nobody
                },
            };
            let resolved_at = match dto.resolved_at {
                Some(t) => t,
                None => now,
            };
            Ok(
                DecisionPlan {
                    session_id: dto.session_id,
                    effects: Vec::new(),
                    remember: None,
                    wake: false,
                    response: DecisionResponse {
                        approval_id: id,
                        resolved: true,
                        decision: original,
                        resolved_by,
                        resolved_at,
                    },
                },
            )
        },
    }
}

/// What a remembered command becomes.
pub open spec fn becomes(seed: RuleSeed, session: Option<SessionRow>, r: Option<NewRule>) -> bool {
    match session {
        None => r is None,
        Some(row) => r == Some(
            NewRule {
                workspace_path: row.workspace_path,
                tool: seed.tool,
                pattern: seed.pattern,
            },
        ),
    }
}

/// The rule that remembers an approved command, in the workspace of its
/// session; none if the session is gone.
pub fn remembered_rule(seed: RuleSeed, session: &Option<SessionRow>) -> (r: Option<NewRule>)
    ensures
        becomes(seed, *session, r),
{
    match session {
        None => None,
        Some(row) => Some(
            NewRule {
                workspace_path: row.workspace_path.clone(),
                tool: seed.tool,
                pattern: seed.pattern,
            },
        ),
    }
}

/// Law: whoever repeats the decision that stands is answered with it, its
/// author and its time, and nothing else happens.
pub proof fn law_repeat_gets_the_first_decision(
    before: ApprovalRow,
    first: Decision,
    by: Seq<char>,
    at: Timestamp,
    after: ApprovalRow,
    plan: DecisionPlan,
    id: ApprovalId,
    now: Timestamp,
)
    requires
        stored::decides(Some(before), first, by, at, DecideOutcome::Applied(after)),
        repeats(plan, id, after, first, now),
    ensures
        plan.response.decision == first,
        plan.response.resolved_by@ == by,
        plan.response.resolved_at == at,
        plan.effects@.len() == 0,
        !plan.wake,
{
}

/// Law: a rule is remembered exactly when the client asked for it, approved the
/// call, and the call is one of the shell. It is for that tool and, where the
/// arguments hold a command, for that command; else for the summary.
pub proof fn law_rule_only_on_request(
    plan: DecisionPlan,
    id: ApprovalId,
    row: ApprovalRow,
    req: DecisionRequest,
    by: Seq<char>,
    now: Timestamp,
    args: Seq<char>,
)
    requires
        applies(plan, id, row, req, by, now),
        outside::json_compact(row.args@) == Some(args),
    ensures
        plan.remember is Some ==> {
            &&& req.remember_rule == Some(true)
            &&& req.decision == Decision::Approve
            &&& row.tool@ == "run_shell"@
        },
        req.remember_rule == Some(true) && req.decision == Decision::Approve && row.tool@
            == "run_shell"@ ==> plan.remember is Some,
        plan.remember matches Some(seed) ==> {
            &&& seed.tool@ == row.tool@
            &&& outside::json_text_member(args, "cmd"@) matches Some(cmd) ==> seed.pattern@ == cmd
            &&& outside::json_text_member(args, "cmd"@) is None ==> seed.pattern@ == row.summary@
        },
{
}

/// Law: a decision that now stands is told to the clients with its author, is
/// audited so that every word of it can be read back, wakes the session, and is
/// answered as it was taken.
pub proof fn law_decision_is_told_and_audited(
    plan: DecisionPlan,
    id: ApprovalId,
    row: ApprovalRow,
    req: DecisionRequest,
    by: Seq<char>,
    now: Timestamp,
)
    requires
        applies(plan, id, row, req, by, now),
    ensures
        plan.wake,
        plan.effects@.len() == 2,
        plan.effects@[0] matches Effect::Emit {
            event: Event::ApprovalResolved { approval_id, decision, resolved_by },
            new_state,
        } && approval_id == id && decision == req.decision && resolved_by@ == by
            && new_state is None,
        plan.effects@[1] matches Effect::Audit { kind, detail } && {
            &&& kind@ == "approval"@
            &&& outside::json_text_member(detail@, "approval_id"@) == Some(
                outside::ulid_chars(id.0),
            )
            &&& outside::json_text_member(detail@, "tool"@) == Some(row.tool@)
            &&& req.decision == Decision::Approve ==> outside::json_text_member(
                detail@,
                "decision"@,
            ) == Some("approve"@)
            &&& req.decision == Decision::Reject ==> outside::json_text_member(
                detail@,
                "decision"@,
            ) == Some("reject"@)
            &&& outside::json_text_member(detail@, "resolved_by"@) == Some(by)
            &&& req.reason matches Some(reason) ==> outside::json_text_member(
                detail@,
                "reason"@,
            ) == Some(reason@)
            &&& req.reason is None ==> outside::json_member(detail@, "reason"@) == Some("null"@)
        },
        plan.response.approval_id == id,
        plan.response.resolved,
        plan.response.decision == req.decision,
        plan.response.resolved_by@ == by,
        plan.response.resolved_at == now,
{
    let members = decision_members(id, row.tool@, req.decision, by, req.reason);
    assert(members[0].0 == "approval_id"@ && members[1].0 == "tool"@);
    assert(members[2].0 == "decision"@ && members[3].0 == "resolved_by"@);
    assert(members[4].0 == "reason"@);
}

/// Law: a decision is planned exactly when its request is there, can be read,
/// and either waited for a decision or has this very one already. A contrary
/// decision is a conflict, which shows the one that stands; a request that is
/// not there is not found.
pub proof fn law_contrary_decision_is_a_conflict(
    id: ApprovalId,
    req: DecisionRequest,
    by: Seq<char>,
    now: Timestamp,
    outcome: DecideOutcome,
    r: Result<DecisionPlan, ApiError>,
)
    requires
        concludes(id, req, by, now, outcome, r),
    ensures
        outcome is NotFound ==> (r matches Err(e) && e.status == 404),
        outcome matches DecideOutcome::Applied(row) ==> (r is Ok <==> row.readable()),
        outcome matches DecideOutcome::AlreadyResolved(row) ==> {
            &&& r is Ok <==> row.readable() && row.decision is Some && row.decision->0@ == (
            if req.decision is Approve {
                "approve"@
            } else {
                "reject"@
            })
            &&& row.readable() && row.decision is Some && row.decision->0@ == (
            if req.decision is Approve {
                "reject"@
            } else {
                "approve"@
            }) ==> (r matches Err(e) && e.status == 409 && (e.details matches Some(
                ErrorDetails::Approval(dto),
            ) && dto.decision is Some && dto.decision != Some(req.decision)))
            &&& r matches Ok(plan) ==> plan.effects@.len() == 0 && plan.remember is None
                && !plan.wake
        },
        outcome is Applied ==> (r matches Ok(plan) ==> plan.wake),
{
    reveal_strlit("approve");
    reveal_strlit("reject");
    assert("approve"@.len() == 7);
    assert("reject"@.len() == 6);
}

/// Law: a remembered command becomes a rule for its tool and pattern in the
/// workspace of its session, where the session is still there.
pub proof fn law_remembered_rule(
    seed: RuleSeed,
    session: Option<SessionRow>,
    r: Option<NewRule>,
)
    requires
        becomes(seed, session, r),
    ensures
        r is Some <==> session is Some,
        r matches Some(rule) ==> rule.workspace_path@ == session->0.workspace_path@ && rule.tool@
            == seed.tool@ && rule.pattern@ == seed.pattern@,
{
}

} // verus!
