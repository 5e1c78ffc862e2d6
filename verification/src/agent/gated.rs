//! A tool call behind the permission gate.
//!
//! A call of a tool that changes something suspends its session until somebody
//! decides; the first decision wins, and no decision counts as a rejection.

use vstd::prelude::*;

use crate::agent::{self, Effect};
use crate::llm::ToolCallRequest;
use crate::outside;
use crate::protocol::events::{Decision, Event, SessionState};
use crate::protocol::ids::{ApprovalId, SessionId};
use crate::store::files;
use crate::text;
use crate::tools::{Tool, ToolRegistry, ToolResult};

verus! {

/// What to do next with a call.
#[derive(Debug, PartialEq)]
pub enum GateStep {
    /// Wait for the decision on a request to run a tool.
    Await { approval_id: ApprovalId, tool: Tool },
    /// Run the tool.
    Execute(Tool),
    /// The call is over.
    Finished { result: ToolResult, rejected: bool },
}

/// Whether effects ask for a decision on a call: the request is stored, its
/// slot opened, the clients told, and the session suspended.
pub open spec fn asks(
    effects: Seq<Effect>,
    session_id: SessionId,
    tc: ToolCallRequest,
    approval_id: ApprovalId,
) -> bool {
    &&& effects.len() == 4
    &&& effects[0] matches Effect::SaveApproval {
        approval_id: a,
        session_id: s,
        tool_call_id,
        tool,
        summary,
        args,
    }
    &&& a == approval_id
    &&& s == session_id
    &&& tool_call_id == tc.tool_call_id
    &&& tool == tc.tool
    &&& args == tc.args
    &&& summary@ == agent::summary_of(tc.tool@, tc.args@)
    &&& effects[1] == Effect::Register(approval_id)
    &&& effects[2] == agent::plain_event(
        Event::ApprovalRequest {
            approval_id,
            tool_call_id: tc.tool_call_id,
            tool: tc.tool,
            summary,
            args: tc.args,
            expires_at: None,
        },
    )
    &&& effects[3] == agent::state_event(SessionState::WaitingApproval)
}

/// What the start of a call comes to: a call of a tool that is not registered
/// fails, one of a tool that needs a decision asks for it, and any other runs
/// at once.
pub open spec fn begins(
    tools: ToolRegistry,
    session_id: SessionId,
    tc: ToolCallRequest,
    approval_id: ApprovalId,
    effects: Seq<Effect>,
    step: GateStep,
) -> bool {
    match step {
        GateStep::Finished { result, rejected } => {
            &&& forall|t: Tool|
                #[trigger] tools.registered().contains(t) ==> t.name_text() != tc.tool@
            &&& result.is_result(false, "herramienta desconocida: "@ + tc.tool@, None)
            &&& !rejected
            &&& effects.len() == 1
            &&& agent::is_tool_result(effects[0], tc.tool_call_id, result)
        },
        GateStep::Execute(tool) => {
            &&& tools.registered().contains(tool)
            &&& tool.name_text() == tc.tool@
            &&& !tool.gated()
            &&& effects.len() == 0
        },
        GateStep::Await { approval_id: id, tool } => {
            &&& id == approval_id
            &&& tools.registered().contains(tool)
            &&& tool.name_text() == tc.tool@
            &&& tool.gated()
            &&& asks(effects, session_id, tc, approval_id)
        },
    }
}

/// What a decision on a call comes to: the session runs again, and the tool
/// runs if it was approved; anything else is a rejection, which is a result.
pub open spec fn settles(
    tool: Tool,
    tc: ToolCallRequest,
    decision: Option<Decision>,
    effects: Seq<Effect>,
    step: GateStep,
) -> bool {
    &&& effects.len() > 0
    &&& effects[0] == agent::state_event(SessionState::Running)
    &&& if decision == Some(Decision::Approve) {
        effects.len() == 1 && step == GateStep::Execute(tool)
    } else {
        &&& step matches GateStep::Finished { result, rejected }
        &&& rejected
        &&& result.is_result(false, "rechazado por el usuario"@, None)
        &&& effects.len() == 3
        &&& agent::is_tool_result(effects[1], tc.tool_call_id, result)
        &&& agent::is_audit(
            effects[2],
            "tool_exec"@,
            agent::tool_members(tc.tool@, tc.tool_call_id, false, true),
        )
    }
}

/// Starts a call. A call of a tool that is not registered fails; one that
/// needs a decision asks for it; any other runs at once. `approval_id` is a
/// fresh identifier for the request.
pub fn begin(
    tools: &ToolRegistry,
    session_id: SessionId,
    tc: &ToolCallRequest,
    approval_id: ApprovalId,
) -> (r: (Vec<Effect>, GateStep))
    ensures
        begins(*tools, session_id, *tc, approval_id, r.0@, r.1),
{
    let mut effects: Vec<Effect> = Vec::new();
    let tool = match tools.get(tc.tool.as_str()) {
        Some(tool) => tool,
        None => {
            let result = ToolResult::fail(
                text::join2("herramienta desconocida: ", tc.tool.as_str()),
            );
            effects.push(agent::emit_tool_result(tc.tool_call_id, &result));
            return (effects, GateStep::Finished { result, rejected: false });
        },
    };
    if !tool.requires_approval() {
        return (effects, GateStep::Execute(tool));
    }
    let summary = agent::summarize(tc);
    effects.push(
        Effect::SaveApproval {
            approval_id,
            session_id,
            tool_call_id: tc.tool_call_id,
            tool: tc.tool.clone(),
            summary: summary.clone(),
            args: tc.args.clone(),
        },
    );
    effects.push(Effect::Register(approval_id));
    effects.push(
        Effect::Emit {
            event: Event::ApprovalRequest {
                approval_id,
                tool_call_id: tc.tool_call_id,
                tool: tc.tool.clone(),
                summary,
                args: tc.args.clone(),
                expires_at: None,
            },
            new_state: None,
        },
    );
    effects.push(agent::set_state(SessionState::WaitingApproval));
    (effects, GateStep::Await { approval_id, tool })
}

/// Goes on once a decision was taken, or once none can be any more. The
/// session runs again; a rejection is the result of the call.
pub fn decided(tool: Tool, tc: &ToolCallRequest, decision: Option<Decision>) -> (r: (
    Vec<Effect>,
    GateStep,
))
    ensures
        settles(tool, *tc, decision, r.0@, r.1),
{
    let mut effects: Vec<Effect> = Vec::new();
    effects.push(agent::set_state(SessionState::Running));
    let approved = match decision {
        Some(Decision::Approve) => true,
        _ => false,
    };
    if approved {
        return (effects, GateStep::Execute(tool));
    }
    let result = ToolResult::fail("rechazado por el usuario".to_owned());
    effects.push(agent::emit_tool_result(tc.tool_call_id, &result));
    effects.push(agent::audit_tool(tc, false, true));
    (effects, GateStep::Finished { result, rejected: true })
}

/// Whether effects end a call whose tool ran.
pub open spec fn concludes(tc: ToolCallRequest, result: ToolResult, effects: Seq<Effect>) -> bool {
    &&& effects.len() == (if result.diff is Some {
        4nat
    } else {
        2nat
    })
    &&& agent::is_tool_result(effects[0], tc.tool_call_id, result)
    &&& result.diff matches Some(d) ==> {
        &&& effects[1] == agent::plain_event(
            Event::FileDiff {
                tool_call_id: tc.tool_call_id,
                path: d.path,
                diff_unified: d.unified,
                additions: d.additions,
                deletions: d.deletions,
            },
        )
        &&& effects[2] matches Effect::KeepFile { path, mime }
        &&& path == d.path
        &&& mime@ == files::mime_of(d.path@)
    }
    &&& agent::is_audit(
        effects.last(),
        "tool_exec"@,
        agent::tool_members(tc.tool@, tc.tool_call_id, result.ok, false),
    )
}

/// Ends a call whose tool ran: the result is emitted, then the diff if a file
/// changed, whose copy is kept, then the call is audited.
pub fn executed(tc: &ToolCallRequest, result: &ToolResult) -> (r: Vec<Effect>)
    ensures
        concludes(*tc, *result, r@),
{
    let mut effects: Vec<Effect> = Vec::new();
    effects.push(agent::emit_tool_result(tc.tool_call_id, result));
    match &result.diff {
        Some(d) => {
            effects.push(
                Effect::Emit {
                    event: Event::FileDiff {
                        tool_call_id: tc.tool_call_id,
                        path: d.path.clone(),
                        diff_unified: d.unified.clone(),
                        additions: d.additions,
                        deletions: d.deletions,
                    },
                    new_state: None,
                },
            );
            effects.push(
                Effect::KeepFile {
                    path: d.path.clone(),
                    mime: files::guess_mime(d.path.as_str()).to_owned(),
                },
            );
        },
        None => {},
    }
    effects.push(agent::audit_tool(tc, result.ok, false));
    effects
}

/// Law: no tool that changes something runs unless somebody approved its call:
/// its call always waits for a decision, and only an approval lets it run.
pub proof fn law_no_effect_without_approval(
    tools: ToolRegistry,
    session_id: SessionId,
    tc: ToolCallRequest,
    approval_id: ApprovalId,
    asked: Seq<Effect>,
    first: GateStep,
    decision: Option<Decision>,
    settled: Seq<Effect>,
    second: GateStep,
)
    requires
        begins(tools, session_id, tc, approval_id, asked, first),
        first matches GateStep::Await { tool, .. } ==> settles(tool, tc, decision, settled, second),
    ensures
        first matches GateStep::Execute(tool) ==> !tool.gated(),
        first is Await && second is Execute ==> decision == Some(Decision::Approve)
            && first->tool == second->Execute_0,
{
}

/// Law: a call that waits for a decision is stored as it was made, its slot is
/// open before the clients are told, they read the same arguments and summary
/// that were stored, and the session is suspended last.
pub proof fn law_request_is_the_call(
    tools: ToolRegistry,
    session_id: SessionId,
    tc: ToolCallRequest,
    approval_id: ApprovalId,
    effects: Seq<Effect>,
    step: GateStep,
)
    requires
        begins(tools, session_id, tc, approval_id, effects, step),
        step is Await,
    ensures
        step->approval_id == approval_id,
        step->tool.name_text() == tc.tool@,
        effects.len() == 4,
        effects[0] matches Effect::SaveApproval {
            approval_id: a,
            session_id: s,
            tool_call_id,
            tool,
            summary,
            args,
        } && a == approval_id && s == session_id && tool_call_id == tc.tool_call_id && tool@
            == tc.tool@ && args@ == tc.args@ && (effects[2] matches Effect::Emit {
            event: Event::ApprovalRequest {
                approval_id: shown_id,
                tool_call_id: shown_call,
                tool: shown_tool,
                summary: shown_summary,
                args: shown_args,
                expires_at,
            },
            new_state,
        } && shown_id == approval_id && shown_call == tc.tool_call_id && shown_tool@ == tc.tool@
            && shown_summary@ == summary@ && shown_args@ == tc.args@ && expires_at is None
            && new_state is None),
        effects[1] == Effect::Register(approval_id),
        effects[3] matches Effect::Emit {
            event: Event::SessionState { state, title, reason },
            new_state,
        } && state == SessionState::WaitingApproval && new_state == Some(
            SessionState::WaitingApproval,
        ) && title is None && reason is None,
{
}

/// Law: a call of a tool that only reads runs at once and leaves no trace
/// before it runs; a call of a tool that is not there fails, tells so, and
/// waits for nobody.
pub proof fn law_other_calls_do_not_wait(
    tools: ToolRegistry,
    session_id: SessionId,
    tc: ToolCallRequest,
    approval_id: ApprovalId,
    effects: Seq<Effect>,
    step: GateStep,
)
    requires
        begins(tools, session_id, tc, approval_id, effects, step),
        !(step is Await),
    ensures
        step matches GateStep::Execute(tool) ==> effects.len() == 0 && (tool == Tool::ReadFile
            || tool == Tool::Search) && tool.name_text() == tc.tool@,
        step matches GateStep::Finished { result, rejected } ==> {
            &&& !result.ok
            &&& !rejected
            &&& result.diff is None
            &&& !result.truncated ==> tc.tool@.is_suffix_of(result.output@)
            &&& effects.len() == 1
            &&& effects[0] matches Effect::Emit {
                event: Event::ToolResult { tool_call_id, ok, output_excerpt, truncated },
                new_state,
            } && tool_call_id == tc.tool_call_id && !ok && output_excerpt == result.output
                && truncated == result.truncated && new_state is None
        },
{
    assert(tc.tool@.is_suffix_of("herramienta desconocida: "@ + tc.tool@));
}

/// Law: whatever is decided, the session runs again first. Only an approval
/// runs the tool; a rejection, and no decision at all, is a failed result that
/// the clients are told and the audit log keeps as rejected.
pub proof fn law_decision_resumes_the_session(
    tool: Tool,
    tc: ToolCallRequest,
    decision: Option<Decision>,
    effects: Seq<Effect>,
    step: GateStep,
)
    requires
        settles(tool, tc, decision, effects, step),
    ensures
        effects.len() > 0,
        effects[0] matches Effect::Emit {
            event: Event::SessionState { state, title, reason },
            new_state,
        } && state == SessionState::Running && new_state == Some(SessionState::Running)
            && title is None && reason is None,
        decision == Some(Decision::Approve) <==> step == GateStep::Execute(tool),
        decision == Some(Decision::Approve) ==> effects.len() == 1,
        decision != Some(Decision::Approve) ==> {
            &&& step matches GateStep::Finished { result, .. } && (!result.truncated
                ==> result.output@ == "rechazado por el usuario"@)
            &&& step matches GateStep::Finished { result, rejected } && rejected && !result.ok && (
            effects[1] matches Effect::Emit {
                event: Event::ToolResult { tool_call_id, ok, output_excerpt, .. },
                ..
            } && tool_call_id == tc.tool_call_id && !ok && output_excerpt == result.output)
            &&& effects.len() == 3
            &&& effects[2] matches Effect::Audit { kind, detail } && kind@ == "tool_exec"@
                && outside::json_member(detail@, "rejected"@) == Some("true"@)
                && outside::json_member(detail@, "ok"@) == Some("false"@)
                && outside::json_text_member(detail@, "tool"@) == Some(tc.tool@)
        },
{
    if decision != Some(Decision::Approve) {
        agent::law_tool_call_is_audited(effects[2], tc.tool@, tc.tool_call_id, false, true);
    }
}

/// Law: a tool that ran is told to the clients with its verdict and output as
/// they are, and audited as not rejected; a file it changed is shown as its
/// diff, and its copy is kept under the same path.
pub proof fn law_execution_is_told(tc: ToolCallRequest, result: ToolResult, effects: Seq<Effect>)
    requires
        concludes(tc, result, effects),
    ensures
        effects.len() == (if result.diff is Some {
            4int
        } else {
            2
        }),
        effects[0] matches Effect::Emit {
            event: Event::ToolResult { tool_call_id, ok, output_excerpt, truncated },
            new_state,
        } && tool_call_id == tc.tool_call_id && ok == result.ok && output_excerpt == result.output
            && truncated == result.truncated && new_state is None,
        result.diff matches Some(d) ==> {
            &&& effects[1] matches Effect::Emit {
                event: Event::FileDiff { tool_call_id, path, diff_unified, additions, deletions },
                new_state,
            } && tool_call_id == tc.tool_call_id && path == d.path && diff_unified == d.unified
                && additions == d.additions && deletions == d.deletions && new_state is None
            &&& effects[2] matches Effect::KeepFile { path, mime } && path == d.path && mime@
                == files::mime_of(d.path@)
        },
        effects.last() matches Effect::Audit { kind, detail } && {
            &&& kind@ == "tool_exec"@
            &&& outside::json_text_member(detail@, "tool"@) == Some(tc.tool@)
            &&& result.ok ==> outside::json_member(detail@, "ok"@) == Some("true"@)
            &&& !result.ok ==> outside::json_member(detail@, "ok"@) == Some("false"@)
            &&& outside::json_member(detail@, "rejected"@) == Some("false"@)
        },
{
    agent::law_tool_call_is_audited(effects.last(), tc.tool@, tc.tool_call_id, result.ok, false);
}

} // verus!
