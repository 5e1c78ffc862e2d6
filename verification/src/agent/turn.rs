//! One turn of the agent: generations and tool calls until the model stops,
//! fails, or the limit of iterations is reached.

use vstd::prelude::*;
use vstd::string::*;

use crate::agent::{self, context, Effect};
use crate::json;
use crate::llm::fallback::GenerationOutcome;
use crate::llm::{
    self, ChatMessage, GenerationRequest, ProviderError, StreamItem, ToolCallRequest,
};
use crate::outside;
use crate::protocol::events::{Event, SessionState, StopReason, Usage};
use crate::protocol::ids::MessageId;
use crate::store::messages::MessageRow;
use crate::text;
use crate::tools::{ToolRegistry, ToolResult};

verus! {

/// Tokens that a generation may produce.
pub const MAX_TOKENS: u32 = 1024;

/// Sampling temperature of the loop, in thousandths.
pub const TEMPERATURE_MILLI: u32 = 200;

/// Where a turn stands.
#[derive(Debug, Clone, Copy, PartialEq, Eq, Structural)]
pub enum Phase {
    /// A generation has to start.
    Generating,
    /// A generation is streaming.
    Streaming,
    /// Tool calls are being run; so many have been.
    Calling(usize),
    /// The turn is over.
    Ended,
}

/// What came of the last action.
#[derive(Debug, PartialEq)]
pub enum TurnEvent {
    /// The generation started, or could not.
    Generated(Result<GenerationOutcome, ProviderError>),
    /// The stream gave an item, or failed.
    Item(Result<StreamItem, ProviderError>),
    /// The stream ended.
    StreamEnd,
    /// A tool call ended.
    ToolDone { result: ToolResult, rejected: bool },
}

/// What to do next.
#[derive(Debug, PartialEq)]
pub enum TurnAction {
    /// Start a generation.
    Generate,
    /// Take the next item of the stream.
    NextItem,
    /// Run a tool call.
    RunTool(ToolCallRequest),
    /// Nothing: the turn is over.
    End,
}

/// A turn in progress.
#[derive(Debug, PartialEq)]
pub struct Turn {
    pub message_id: MessageId,
    pub max_iterations: u32,
    /// Generations started so far, without the current one.
    pub iteration: u32,
    pub phase: Phase,
    /// What the model said in this turn.
    pub collected: String,
    /// Tool exchanges of this turn.
    pub messages: Vec<ChatMessage>,
    /// Tool calls of the current generation.
    pub pending: Vec<ToolCallRequest>,
    /// How the current generation ended, if it said.
    pub done: Option<(StopReason, Usage)>,
}

/// No tokens.
pub open spec fn no_usage() -> Usage {
    Usage { prompt_tokens: 0, completion_tokens: 0 }
}

/// What the audit log holds of a generation.
pub open spec fn call_members(provider: Seq<char>, iteration: u32, id: MessageId) -> Seq<
    (Seq<char>, json::FieldView),
> {
    seq![
        ("provider_id"@, json::FieldView::Text(provider)),
        ("iteration"@, json::FieldView::Number(iteration as u64)),
        ("message_id"@, json::FieldView::Text(outside::ulid_chars(id.0))),
    ]
}

/// What the model reads of a tool call.
pub open spec fn answer_members(tc: ToolCallRequest, result: ToolResult, rejected: bool) -> Seq<
    (Seq<char>, json::FieldView),
> {
    seq![
        ("tool"@, json::FieldView::Text(tc.tool@)),
        ("tool_call_id"@, json::FieldView::Text(outside::ulid_chars(tc.tool_call_id.0))),
        ("ok"@, json::FieldView::Flag(result.ok)),
        ("rejected"@, json::FieldView::Flag(rejected)),
        ("output"@, json::FieldView::Text(result.output@)),
    ]
}

/// The message that answers a tool call.
pub open spec fn answer(tc: ToolCallRequest, result: ToolResult, rejected: bool) -> llm::ChatMessageView {
    llm::ChatMessageView {
        role: "tool"@,
        content: outside::json_object_text(answer_members(tc, result, rejected)),
        tool_calls: Seq::empty(),
        tool_call_id: Some(tc.tool_call_id),
        provider_tool_call_id: tc.provider_call_id,
    }
}

/// The message in which the model made its calls.
pub open spec fn calls_message(calls: Seq<ToolCallRequest>) -> llm::ChatMessageView {
    llm::ChatMessageView {
        role: "assistant"@,
        content: Seq::empty(),
        tool_calls: calls,
        tool_call_id: None,
        provider_tool_call_id: None,
    }
}

/// The event that announces a tool call.
pub open spec fn call_event(tc: ToolCallRequest) -> Effect {
    agent::plain_event(
        Event::ToolCallRequested { tool_call_id: tc.tool_call_id, tool: tc.tool, args: tc.args },
    )
}

/// Whether effects report who serves a generation: the change of provider if
/// there is one, then the entry of the audit log.
pub open spec fn reports(effects: Seq<Effect>, turn: Turn, outcome: GenerationOutcome) -> bool {
    &&& effects.len() == (if outcome.switch is Some {
        2nat
    } else {
        1nat
    })
    &&& outcome.switch matches Some(info) ==> effects[0] == agent::plain_event(
        Event::ModelProviderChanged { from: info.from, to: info.to, trigger: info.trigger },
    )
    &&& agent::is_audit(
        effects.last(),
        "llm_call"@,
        call_members(outcome.provider_id.0@, turn.iteration, turn.message_id),
    )
}

/// How a turn begins.
pub open spec fn begins(
    message_id: MessageId,
    max_iterations: u32,
    r: (Turn, Vec<Effect>, TurnAction),
) -> bool {
    &&& r.0.well_formed()
    &&& r.0.message_id == message_id
    &&& r.0.max_iterations == max_iterations
    &&& r.0.iteration == 0
    &&& r.0.collected@.len() == 0
    &&& r.0.messages@.len() == 0
    &&& max_iterations > 0 ==> {
        &&& r.0.phase == Phase::Generating
        &&& r.1@.len() == 0
        &&& r.2 == TurnAction::Generate
    }
    &&& max_iterations == 0 ==> {
        &&& r.0.phase == Phase::Ended
        &&& agent::closes(
            r.1@,
            message_id,
            Seq::empty(),
            StopReason::MaxIterations,
            no_usage(),
        )
        &&& r.2 == TurnAction::End
    }
}

impl Turn {
    /// Whether the turn keeps its bounds: no iteration beyond the limit, and a
    /// call to run while calls are being run.
    pub open spec fn well_formed(self) -> bool {
        &&& self.iteration <= self.max_iterations
        &&& !(self.phase is Ended) ==> self.iteration < self.max_iterations
        &&& self.phase matches Phase::Calling(k) ==> k < self.pending@.len()
    }

    /// Whether an event can come in the phase the turn is in.
    pub open spec fn expects(self, event: TurnEvent) -> bool {
        match self.phase {
            Phase::Generating => event is Generated,
            Phase::Streaming => event is Item || event is StreamEnd,
            Phase::Calling(_) => event is ToolDone,
            Phase::Ended => false,
        }
    }

    /// Everything that a step leaves alone.
    pub open spec fn same_turn(self, other: Turn) -> bool {
        self.message_id == other.message_id && self.max_iterations == other.max_iterations
    }

    /// The turn begins: a first generation, unless the limit is zero.
    pub fn begin(message_id: MessageId, max_iterations: u32) -> (r: (Turn, Vec<Effect>, TurnAction))
        ensures
            begins(message_id, max_iterations, r),
    {
        let mut turn = Turn {
            message_id,
            max_iterations,
            iteration: 0,
            phase: Phase::Generating,
            collected: String::new(),
            messages: Vec::new(),
            pending: Vec::new(),
            done: None,
        };
        assert(turn.collected@ == Seq::<char>::empty());
        if max_iterations == 0 {
            turn.phase = Phase::Ended;
            let effects = agent::finish_completed(
                message_id,
                "",
                StopReason::MaxIterations,
                Usage { prompt_tokens: 0, completion_tokens: 0 },
            );
            proof {
                reveal_strlit("");
                assert(""@ == Seq::<char>::empty());
            }
            return (turn, effects, TurnAction::End);
        }
        (turn, Vec::new(), TurnAction::Generate)
    }

    /// The request for the next generation: the context with the exchanges of
    /// this turn, and the tools on offer.
    pub fn request(
        &self,
        workspace: &str,
        workspace_files: &Vec<String>,
        history: &Vec<MessageRow>,
        tools: &ToolRegistry,
    ) -> (r: GenerationRequest)
        ensures
            llm::message_views(r.messages@) == context::context_of(
                workspace@,
                text::views(workspace_files@),
                history@,
                self.messages@,
            ),
            tools.are_schemas(r.tools@),
            r.max_tokens == MAX_TOKENS,
            r.temperature_milli == TEMPERATURE_MILLI,
            r.max_tokens == 1024,
            r.temperature_milli == 200,
    {
        GenerationRequest {
            messages: context::build(workspace, workspace_files, history, &self.messages),
            tools: tools.schemas(),
            max_tokens: MAX_TOKENS,
            temperature_milli: TEMPERATURE_MILLI,
        }
    }

    /// What a step does, as a relation between the turn before, the event, the
    /// effects, the action and the turn after.
    pub open spec fn steps(
        self,
        event: TurnEvent,
        effects: Seq<Effect>,
        action: TurnAction,
        after: Turn,
    ) -> bool {
        match event {
            TurnEvent::Generated(Err(err)) => {
                &&& after.phase == Phase::Ended
                &&& after.iteration == self.iteration
                &&& after.collected == self.collected
                &&& after.messages@ == self.messages@
                &&& agent::fails(effects, err)
                &&& action == TurnAction::End
            },
            TurnEvent::Generated(Ok(outcome)) => {
                &&& after.phase == Phase::Streaming
                &&& after.iteration == self.iteration
                &&& after.collected == self.collected
                &&& after.messages@ == self.messages@
                &&& after.pending@.len() == 0
                &&& after.done is None
                &&& reports(effects, self, outcome)
                &&& action == TurnAction::NextItem
            },
            TurnEvent::Item(Ok(item)) => {
                &&& after.phase == Phase::Streaming
                &&& after.iteration == self.iteration
                &&& after.messages@ == self.messages@
                &&& action == TurnAction::NextItem
                &&& match item {
                    StreamItem::Delta(delta) => {
                        &&& after.collected@ == self.collected@ + delta@
                        &&& after.pending@ == self.pending@
                        &&& after.done == self.done
                        &&& effects == seq![
                            agent::plain_event(
                                Event::MessageDelta { message_id: self.message_id, delta },
                            ),
                        ]
                    },
                    StreamItem::ToolCall(tc) => {
                        &&& after.collected == self.collected
                        &&& after.pending@ == self.pending@.push(tc)
                        &&& after.done == self.done
                        &&& effects.len() == 0
                    },
                    StreamItem::Done(stop, usage) => {
                        &&& after.collected == self.collected
                        &&& after.pending@ == self.pending@
                        &&& after.done == Some((stop, usage))
                        &&& effects.len() == 0
                    },
                }
            },
            TurnEvent::Item(Err(err)) => if err is Cancelled {
                self.stream_over(Some((StopReason::Cancelled, no_usage())), effects, action, after)
            } else {
                &&& after.phase == Phase::Ended
                &&& after.iteration == self.iteration
                &&& after.collected == self.collected
                &&& after.messages@ == self.messages@
                &&& action == TurnAction::End
                &&& if self.collected@.len() > 0 {
                    &&& effects.len() == 3
                    &&& agent::fails(effects.take(2), err)
                    &&& agent::is_save(effects[2], self.message_id, self.collected@)
                } else {
                    agent::fails(effects, err)
                }
            },
            TurnEvent::StreamEnd => self.stream_over(self.done, effects, action, after),
            TurnEvent::ToolDone { result, rejected } => {
                let k = self.phase->Calling_0 as int;
                let said = llm::message_views(self.messages@).push(
                    answer(self.pending@[k], result, rejected),
                );
                &&& llm::message_views(after.messages@) == said
                &&& json::reads_back(
                    after.messages@.last().content@,
                    answer_members(self.pending@[k], result, rejected),
                )
                &&& after.collected == self.collected
                &&& after.pending@ == self.pending@
                &&& if k + 1 < self.pending@.len() {
                    &&& after.phase == Phase::Calling((k + 1) as usize)
                    &&& after.iteration == self.iteration
                    &&& effects == seq![call_event(self.pending@[k + 1])]
                    &&& action == TurnAction::RunTool(self.pending@[k + 1])
                } else {
                    &&& after.iteration == self.iteration + 1
                    &&& if after.iteration < self.max_iterations {
                        &&& after.phase == Phase::Generating
                        &&& effects.len() == 0
                        &&& action == TurnAction::Generate
                    } else {
                        &&& after.phase == Phase::Ended
                        &&& agent::closes(
                            effects,
                            self.message_id,
                            self.collected@,
                            StopReason::MaxIterations,
                            no_usage(),
                        )
                        &&& action == TurnAction::End
                    }
                }
            },
        }
    }

    /// What the end of a stream does: the turn closes if the model asked for
    /// no tool, else its calls are run, the first one first.
    pub open spec fn stream_over(
        self,
        done: Option<(StopReason, Usage)>,
        effects: Seq<Effect>,
        action: TurnAction,
        after: Turn,
    ) -> bool {
        &&& after.collected == self.collected
        &&& after.pending@ == self.pending@
        &&& after.iteration == self.iteration
        &&& if self.pending@.len() == 0 {
            let (stop, usage) = match done {
                Some(d) => d,
                None => (StopReason::EndTurn, no_usage()),
            };
            &&& after.phase == Phase::Ended
            &&& after.messages@ == self.messages@
            &&& agent::closes(effects, self.message_id, self.collected@, stop, usage)
            &&& action == TurnAction::End
        } else {
            &&& after.phase == Phase::Calling(0)
            &&& llm::message_views(after.messages@) == llm::message_views(self.messages@).push(
                calls_message(self.pending@),
            )
            &&& effects == seq![call_event(self.pending@[0])]
            &&& action == TurnAction::RunTool(self.pending@[0])
        }
    }

    /// Takes what came of the last action: the effects to perform, in order,
    /// and the next action.
    pub fn step(&mut self, event: TurnEvent) -> (r: (Vec<Effect>, TurnAction))
        requires
            old(self).well_formed(),
            old(self).expects(event),
        ensures
            final(self).well_formed(),
            final(self).same_turn(*old(self)),
            old(self).steps(event, r.0@, r.1, *final(self)),
    {
        match event {
            TurnEvent::Generated(Err(err)) => {
                self.phase = Phase::Ended;
                (agent::finish_with_error(&err), TurnAction::End)
            },
            TurnEvent::Generated(Ok(outcome)) => self.started(outcome),
            TurnEvent::Item(Ok(item)) => self.item(item),
            TurnEvent::Item(Err(ProviderError::Cancelled)) => {
                self.done = Some(
                    (StopReason::Cancelled, Usage { prompt_tokens: 0, completion_tokens: 0 }),
                );
                self.end_stream()
            },
            TurnEvent::Item(Err(err)) => {
                self.phase = Phase::Ended;
                let mut effects = agent::finish_with_error(&err);
                let ghost fatal = effects@;
                if !self.collected.as_str().is_empty() {
                    effects.push(
                        Effect::SaveAssistant {
                            message_id: self.message_id,
                            content: self.collected.clone(),
                        },
                    );
                    assert(effects@.take(2) == fatal);
                }
                (effects, TurnAction::End)
            },
            TurnEvent::StreamEnd => self.end_stream(),
            TurnEvent::ToolDone { result, rejected } => self.tool_done(result, rejected),
        }
    }

    fn started(&mut self, outcome: GenerationOutcome) -> (r: (Vec<Effect>, TurnAction))
        requires
            old(self).well_formed(),
            old(self).phase == Phase::Generating,
        ensures
            final(self).well_formed(),
            final(self).same_turn(*old(self)),
            old(self).steps(
                TurnEvent::Generated(Ok(outcome)),
                r.0@,
                r.1,
                *final(self),
            ),
    {
        let mut members: Vec<(String, json::Field)> = Vec::new();
        members.push(json::text_member("provider_id", outcome.provider_id.0.as_str()));
        members.push(json::number_member("iteration", self.iteration as u64));
        members.push(json::text_member("message_id", self.message_id.text().as_str()));
        assert(json::members_view(members@) == call_members(
            outcome.provider_id.0@,
            self.iteration,
            self.message_id,
        ));
        proof {
            json::lemma_reserved_key();
            reveal_strlit("provider_id");
            reveal_strlit("iteration");
            reveal_strlit("message_id");
            assert(members@[0].0@.len() == 11);
            assert(members@[1].0@.len() == 9);
            assert(members@[2].0@.len() == 10);
            json::lemma_distinct_keys(members@);
        }
        let mut effects: Vec<Effect> = Vec::new();
        match outcome.switch {
            Some(info) => {
                effects.push(
                    Effect::Emit {
                        event: Event::ModelProviderChanged {
                            from: info.from,
                            to: info.to,
                            trigger: info.trigger,
                        },
                        new_state: None,
                    },
                );
            },
            None => {},
        }
        effects.push(
            Effect::Audit { kind: "llm_call".to_owned(), detail: json::object(&members) },
        );
        self.phase = Phase::Streaming;
        self.pending = Vec::new();
        self.done = None;
        (effects, TurnAction::NextItem)
    }

    fn item(&mut self, item: StreamItem) -> (r: (Vec<Effect>, TurnAction))
        requires
            old(self).well_formed(),
            old(self).phase == Phase::Streaming,
        ensures
            final(self).well_formed(),
            final(self).same_turn(*old(self)),
            old(self).steps(TurnEvent::Item(Ok(item)), r.0@, r.1, *final(self)),
    {
        let mut effects: Vec<Effect> = Vec::new();
        match item {
            StreamItem::Delta(delta) => {
                self.collected.append(delta.as_str());
                let ghost given = delta;
                effects.push(
                    Effect::Emit {
                        event: Event::MessageDelta { message_id: self.message_id, delta },
                        new_state: None,
                    },
                );
                assert(effects@ == seq![
                    agent::plain_event(
                        Event::MessageDelta { message_id: self.message_id, delta: given },
                    ),
                ]);
            },
            StreamItem::ToolCall(tc) => {
                self.pending.push(tc);
            },
            StreamItem::Done(stop, usage) => {
                self.done = Some((stop, usage));
            },
        }
        (effects, TurnAction::NextItem)
    }

    fn end_stream(&mut self) -> (r: (Vec<Effect>, TurnAction))
        requires
            old(self).well_formed(),
            old(self).phase == Phase::Streaming,
        ensures
            final(self).well_formed(),
            final(self).same_turn(*old(self)),
            old(self).stream_over(old(self).done, r.0@, r.1, *final(self)),
    {
        if self.pending.len() == 0 {
            let (stop, usage) = match self.done {
                Some((stop, usage)) => (stop, usage),
                None => (
                    StopReason::EndTurn,
                    Usage { prompt_tokens: 0, completion_tokens: 0 },
                ),
            };
            self.phase = Phase::Ended;
            let effects = agent::finish_completed(
                self.message_id,
                self.collected.as_str(),
                stop,
                usage,
            );
            return (effects, TurnAction::End);
        }
        let message = ChatMessage {
            role: "assistant".to_owned(),
            content: String::new(),
            tool_calls: llm::copy_calls(&self.pending),
            tool_call_id: None,
            provider_tool_call_id: None,
        };
        proof {
            assert(message.content@ == Seq::<char>::empty());
            assert(llm::message_views(self.messages@.push(message)) == llm::message_views(
                self.messages@,
            ).push(message@));
        }
        self.messages.push(message);
        self.phase = Phase::Calling(0);
        let first = self.pending[0].clone();
        let mut effects: Vec<Effect> = Vec::new();
        effects.push(announce(&first));
        assert(effects@ == seq![call_event(first)]);
        (effects, TurnAction::RunTool(first))
    }

    fn tool_done(&mut self, result: ToolResult, rejected: bool) -> (r: (Vec<Effect>, TurnAction))
        requires
            old(self).well_formed(),
            old(self).phase is Calling,
        ensures
            final(self).well_formed(),
            final(self).same_turn(*old(self)),
            old(self).steps(
                TurnEvent::ToolDone { result, rejected },
                r.0@,
                r.1,
                *final(self),
            ),
    {
        let k: usize = match self.phase {
            Phase::Calling(k) => k,
            _ => 0,
        };
        let tc = self.pending[k].clone();
        let message = tool_message(&tc, &result, rejected);
        assert(llm::message_views(self.messages@.push(message)) == llm::message_views(
            self.messages@,
        ).push(message@));
        self.messages.push(message);
        let mut effects: Vec<Effect> = Vec::new();
        if k < self.pending.len() - 1 {
            self.phase = Phase::Calling(k + 1);
            let next = self.pending[k + 1].clone();
            effects.push(announce(&next));
            assert(effects@ == seq![call_event(next)]);
            return (effects, TurnAction::RunTool(next));
        }
        self.iteration = self.iteration + 1;
        if self.iteration < self.max_iterations {
            self.phase = Phase::Generating;
            return (effects, TurnAction::Generate);
        }
        self.phase = Phase::Ended;
        let effects = agent::finish_completed(
            self.message_id,
            self.collected.as_str(),
            StopReason::MaxIterations,
            Usage { prompt_tokens: 0, completion_tokens: 0 },
        );
        (effects, TurnAction::End)
    }
}

fn announce(tc: &ToolCallRequest) -> (r: Effect)
    ensures
        r == call_event(*tc),
{
    Effect::Emit {
        event: Event::ToolCallRequested {
            tool_call_id: tc.tool_call_id,
            tool: tc.tool.clone(),
            args: tc.args.clone(),
        },
        new_state: None,
    }
}

/// The message that answers a tool call.
fn tool_message(tc: &ToolCallRequest, result: &ToolResult, rejected: bool) -> (r: ChatMessage)
    ensures
        r@ == answer(*tc, *result, rejected),
        json::reads_back(r.content@, answer_members(*tc, *result, rejected)),
{
    let mut members: Vec<(String, json::Field)> = Vec::new();
    members.push(json::text_member("tool", tc.tool.as_str()));
    members.push(json::text_member("tool_call_id", tc.tool_call_id.text().as_str()));
    members.push(json::flag_member("ok", result.ok));
    members.push(json::flag_member("rejected", rejected));
    members.push(json::text_member("output", result.output.as_str()));
    assert(json::members_view(members@) == answer_members(*tc, *result, rejected));
    proof {
        json::lemma_reserved_key();
        reveal_strlit("tool");
        reveal_strlit("tool_call_id");
        reveal_strlit("ok");
        reveal_strlit("rejected");
        reveal_strlit("output");
        assert(members@[0].0@.len() == 4);
        assert(members@[1].0@.len() == 12);
        assert(members@[2].0@.len() == 2);
        assert(members@[3].0@.len() == 8);
        assert(members@[4].0@.len() == 6);
        json::lemma_distinct_keys(members@);
    }
    let r = ChatMessage {
        role: "tool".to_owned(),
        content: json::object(&members),
        tool_calls: Vec::new(),
        tool_call_id: Some(tc.tool_call_id),
        provider_tool_call_id: text::copy_option(&tc.provider_call_id),
    };
    assert(r.tool_calls@ == Seq::<ToolCallRequest>::empty());
    r
}

/// Whether effects leave the session idle: one of them sends it there, and
/// none after it emits anything.
pub open spec fn leaves_idle(effects: Seq<Effect>) -> bool {
    exists|i: int|
        #![trigger effects[i]]
        0 <= i < effects.len() && (effects[i] matches Effect::Emit { new_state, .. } && new_state
            == Some(crate::protocol::events::SessionState::Idle)) && forall|j: int|
            i < j < effects.len() ==> !(#[trigger] effects[j] is Emit)
}

/// Law: whatever ends a turn, its last event sends the session to idle.
pub proof fn law_turn_ends_idle(
    before: Turn,
    event: TurnEvent,
    effects: Seq<Effect>,
    action: TurnAction,
    after: Turn,
)
    requires
        before.expects(event),
        before.steps(event, effects, action, after),
        after.phase == Phase::Ended,
    ensures
        action == TurnAction::End,
        leaves_idle(effects),
{
    assert(effects.take(2)[1] == effects[1]);
    assert(effects[1] == effects[1]);
    assert(effects[effects.len() - 1] == effects.last());
}

/// Law: a rejected call does not abort the turn: the loop goes on exactly as
/// it does after a call that was not rejected.
pub proof fn law_rejection_does_not_abort(
    before: Turn,
    result: ToolResult,
    effects: Seq<Effect>,
    action: TurnAction,
    after: Turn,
)
    requires
        before.well_formed(),
        before.phase is Calling,
        before.steps(TurnEvent::ToolDone { result, rejected: true }, effects, action, after),
    ensures
        after.phase is Ended <==> {
            &&& before.phase->Calling_0 + 1 == before.pending@.len()
            &&& before.iteration + 1 == before.max_iterations
        },
        llm::message_views(after.messages@).last() == answer(
            before.pending@[before.phase->Calling_0 as int],
            result,
            true,
        ),
{
}

/// A step of a turn, with what it did.
pub ghost struct Step {
    pub event: TurnEvent,
    pub effects: Seq<Effect>,
    pub action: TurnAction,
    pub after: Turn,
}

/// Whether steps follow one another from a turn on.
pub open spec fn follows(start: Turn, run: Seq<Step>) -> bool
    decreases run.len(),
{
    run.len() > 0 ==> {
        let before = state_after(start, run.drop_last());
        &&& follows(start, run.drop_last())
        &&& before.well_formed()
        &&& before.expects(run.last().event)
        &&& before.steps(run.last().event, run.last().effects, run.last().action, run.last().after)
        &&& run.last().after.same_turn(before)
    }
}

/// The turn after some steps.
pub open spec fn state_after(start: Turn, run: Seq<Step>) -> Turn {
    if run.len() == 0 {
        start
    } else {
        run.last().after
    }
}

/// The deltas among some effects, one after the other.
pub open spec fn streamed(effects: Seq<Effect>) -> Seq<char>
    decreases effects.len(),
{
    if effects.len() == 0 {
        Seq::empty()
    } else {
        streamed(effects.drop_last()) + match effects.last() {
            Effect::Emit { event: Event::MessageDelta { delta, .. }, .. } => delta@,
            _ => Seq::empty(),
        }
    }
}

/// The deltas of a whole run, one after the other.
pub open spec fn streamed_in(run: Seq<Step>) -> Seq<char>
    decreases run.len(),
{
    if run.len() == 0 {
        Seq::empty()
    } else {
        streamed_in(run.drop_last()) + streamed(run.last().effects)
    }
}

/// How often a run started a generation.
pub open spec fn generations(run: Seq<Step>) -> nat
    decreases run.len(),
{
    if run.len() == 0 {
        0
    } else {
        generations(run.drop_last()) + if run.last().event is Generated {
            1nat
        } else {
            0nat
        }
    }
}

proof fn lemma_step_streams(
    before: Turn,
    event: TurnEvent,
    effects: Seq<Effect>,
    action: TurnAction,
    after: Turn,
)
    requires
        before.expects(event),
        before.steps(event, effects, action, after),
        !(after.phase is Ended),
    ensures
        after.collected@ == before.collected@ + streamed(effects),
{
    reveal_with_fuel(streamed, 4);
    assert(before.collected@ + Seq::<char>::empty() == before.collected@);
    if effects.len() > 0 {
        assert(effects.drop_last().len() == effects.len() - 1);
    }
    match event {
        TurnEvent::Item(Ok(StreamItem::Delta(delta))) => {
            assert(effects.last() == effects[0]);
            assert(effects.drop_last() == Seq::<Effect>::empty());
            assert(Seq::<char>::empty() + delta@ == delta@);
        },
        TurnEvent::Generated(Ok(outcome)) => {
            assert(effects.last() is Audit);
            if effects.len() == 2 {
                assert(effects.drop_last().last() == effects[0]);
                assert(effects.drop_last().drop_last() == Seq::<Effect>::empty());
            }
            assert(streamed(effects) == Seq::<char>::empty());
        },
        _ => {
            if effects.len() > 0 {
                assert(effects.last() == effects[0]);
                assert(effects.drop_last() == Seq::<Effect>::empty());
            }
            assert(streamed(effects) == Seq::<char>::empty());
        },
    }
}

/// Law: while a turn goes on, what it collected, and will store, is what it
/// streamed to the clients, in order.
pub proof fn law_collected_is_what_was_streamed(start: Turn, run: Seq<Step>)
    requires
        follows(start, run),
        !(state_after(start, run).phase is Ended),
    ensures
        state_after(start, run).collected@ == start.collected@ + streamed_in(run),
    decreases run.len(),
{
    if run.len() == 0 {
        assert(start.collected@ + Seq::<char>::empty() == start.collected@);
    } else {
        let before = state_after(start, run.drop_last());
        assert(!(before.phase is Ended));
        law_collected_is_what_was_streamed(start, run.drop_last());
        let last = run.last();
        lemma_step_streams(before, last.event, last.effects, last.action, last.after);
        assert(start.collected@ + streamed_in(run.drop_last()) + streamed(last.effects)
            == start.collected@ + (streamed_in(run.drop_last()) + streamed(last.effects)));
    }
}

/// Law: a turn starts no more generations than its limit. It has started one
/// with each iteration behind it, one more while it streams or runs calls, and
/// all that it may when it ends at the limit.
pub proof fn law_iterations_are_bounded(start: Turn, run: Seq<Step>)
    requires
        start.iteration == 0,
        start.phase == Phase::Generating,
        start.well_formed(),
        follows(start, run),
    ensures
        generations(run) <= start.max_iterations,
        state_after(start, run).max_iterations == start.max_iterations,
        state_after(start, run).iteration <= start.max_iterations,
        state_after(start, run).phase is Generating ==> generations(run) == state_after(
            start,
            run,
        ).iteration,
        state_after(start, run).phase is Streaming || state_after(start, run).phase is Calling
            ==> generations(run) == state_after(start, run).iteration + 1,
        run.len() > 0 && run.last().event is ToolDone && run.last().after.phase is Ended
            ==> generations(run) == start.max_iterations,
    decreases run.len(),
{
    if run.len() > 0 {
        law_iterations_are_bounded(start, run.drop_last());
    }
}

/// Law: what the model reads of a call is one message more, the answer to that
/// call, from which the verdict, whether it was rejected, the output and the
/// tool come back as they were.
pub proof fn law_model_reads_the_result(
    before: Turn,
    result: ToolResult,
    rejected: bool,
    effects: Seq<Effect>,
    action: TurnAction,
    after: Turn,
)
    requires
        before.well_formed(),
        before.phase is Calling,
        before.steps(TurnEvent::ToolDone { result, rejected }, effects, action, after),
    ensures
        after.messages@.len() == before.messages@.len() + 1,
        ({
            let tc = before.pending@[before.phase->Calling_0 as int];
            let m = after.messages@.last();
            &&& m.role@ == "tool"@
            &&& m.tool_call_id == Some(tc.tool_call_id)
            &&& m.provider_tool_call_id == tc.provider_call_id
            &&& m.tool_calls@.len() == 0
            &&& result.ok ==> outside::json_member(m.content@, "ok"@) == Some("true"@)
            &&& !result.ok ==> outside::json_member(m.content@, "ok"@) == Some("false"@)
            &&& rejected ==> outside::json_member(m.content@, "rejected"@) == Some("true"@)
            &&& !rejected ==> outside::json_member(m.content@, "rejected"@) == Some("false"@)
            &&& outside::json_text_member(m.content@, "output"@) == Some(result.output@)
            &&& outside::json_text_member(m.content@, "tool"@) == Some(tc.tool@)
            &&& outside::json_text_member(m.content@, "tool_call_id"@) == Some(
                outside::ulid_chars(tc.tool_call_id.0),
            )
        }),
        forall|i: int|
            #![trigger after.messages@[i]]
            0 <= i < before.messages@.len() ==> after.messages@[i]@ == before.messages@[i]@,
{
    let tc = before.pending@[before.phase->Calling_0 as int];
    let views = llm::message_views(after.messages@);
    let old_views = llm::message_views(before.messages@);
    assert(views.len() == after.messages@.len());
    assert(views.last() == after.messages@.last()@);
    let members = answer_members(tc, result, rejected);
    assert(members[0].0 == "tool"@ && members[1].0 == "tool_call_id"@);
    assert(members[2].0 == "ok"@ && members[3].0 == "rejected"@ && members[4].0 == "output"@);
    assert forall|i: int|
        #![trigger after.messages@[i]]
        0 <= i < before.messages@.len() implies after.messages@[i]@ == before.messages@[i]@ by {
        assert(views[i] == old_views[i]);
        assert(views[i] == after.messages@[i]@);
        assert(old_views[i] == before.messages@[i]@);
    }
}

/// Law: the calls of a generation are announced and run one after the other, in
/// the order in which the model made them: after one the next, after the last a
/// new generation, unless that was the last one allowed.
pub proof fn law_calls_run_in_order(
    before: Turn,
    result: ToolResult,
    rejected: bool,
    effects: Seq<Effect>,
    action: TurnAction,
    after: Turn,
)
    requires
        before.well_formed(),
        before.phase is Calling,
        before.steps(TurnEvent::ToolDone { result, rejected }, effects, action, after),
    ensures
        ({
            let k = before.phase->Calling_0 as int;
            let n = before.pending@.len();
            &&& k + 1 < n ==> {
                &&& action == TurnAction::RunTool(before.pending@[k + 1])
                &&& after.phase matches Phase::Calling(j) && j == k + 1
                &&& effects.len() == 1
                &&& effects[0] matches Effect::Emit {
                    event: Event::ToolCallRequested { tool_call_id, tool, args },
                    new_state,
                } && tool_call_id == before.pending@[k + 1].tool_call_id && tool
                    == before.pending@[k + 1].tool && args == before.pending@[k + 1].args
                    && new_state is None
                &&& after.iteration == before.iteration
            }
            &&& k + 1 == n ==> after.iteration == before.iteration + 1
            &&& k + 1 == n && before.iteration + 1 < before.max_iterations ==> action
                == TurnAction::Generate && effects.len() == 0 && after.phase == Phase::Generating
            &&& k + 1 == n && before.iteration + 1 == before.max_iterations ==> action
                == TurnAction::End && ends_with(
                effects,
                before.message_id,
                StopReason::MaxIterations,
                Usage { prompt_tokens: 0, completion_tokens: 0 },
            )
        }),
        after.pending@ == before.pending@,
        after.collected@ == before.collected@,
{
    assert(before.pending.len() == before.pending@.len());
}

/// Whether effects complete a message for a reason, and send the session to
/// idle last.
pub open spec fn ends_with(
    effects: Seq<Effect>,
    message_id: MessageId,
    stop: StopReason,
    spent: Usage,
) -> bool {
    &&& effects.len() >= 2
    &&& effects[effects.len() - 2] matches Effect::Emit {
        event: Event::MessageCompleted { message_id: m, stop_reason, usage },
        new_state,
    } && m == message_id && stop_reason == stop && usage == spent && new_state is None
    &&& effects.last() matches Effect::Emit {
        event: Event::SessionState { state, title, reason },
        new_state,
    } && state == SessionState::Idle && new_state == Some(SessionState::Idle) && title is None
        && reason is None
}

/// Law: a stream that ends without a call closes the turn: with the reason and
/// the tokens that the model gave, as the end of a turn if it gave none, and as
/// cancelled if it was. What was said is stored first, under the message's
/// name, unless nothing was said.
pub proof fn law_stream_without_calls_closes(
    before: Turn,
    event: TurnEvent,
    effects: Seq<Effect>,
    action: TurnAction,
    after: Turn,
)
    requires
        event is StreamEnd || event == TurnEvent::Item(Err(ProviderError::Cancelled)),
        before.pending@.len() == 0,
        before.steps(event, effects, action, after),
    ensures
        action == TurnAction::End,
        after.phase == Phase::Ended,
        event is StreamEnd ==> (before.done matches Some((stop, usage)) ==> ends_with(
            effects,
            before.message_id,
            stop,
            usage,
        )),
        event is StreamEnd && before.done is None ==> ends_with(
            effects,
            before.message_id,
            StopReason::EndTurn,
            Usage { prompt_tokens: 0, completion_tokens: 0 },
        ),
        event is Item ==> ends_with(
            effects,
            before.message_id,
            StopReason::Cancelled,
            Usage { prompt_tokens: 0, completion_tokens: 0 },
        ),
        before.collected@.len() == 0 ==> effects.len() == 2,
        before.collected@.len() > 0 ==> effects.len() == 3 && (
        effects[0] matches Effect::SaveAssistant { message_id, content } && message_id
            == before.message_id && content@ == before.collected@),
{
}

/// Law: a stream that ends with calls, cancelled or not, announces the first of
/// them and runs it; the model will read that it made them all, in order.
pub proof fn law_stream_with_calls_runs_them(
    before: Turn,
    event: TurnEvent,
    effects: Seq<Effect>,
    action: TurnAction,
    after: Turn,
)
    requires
        event is StreamEnd || event == TurnEvent::Item(Err(ProviderError::Cancelled)),
        before.pending@.len() > 0,
        before.steps(event, effects, action, after),
    ensures
        action == TurnAction::RunTool(before.pending@[0]),
        after.phase == Phase::Calling(0),
        after.pending@ == before.pending@,
        effects.len() == 1,
        effects[0] matches Effect::Emit {
            event: Event::ToolCallRequested { tool_call_id, tool, args },
            new_state,
        } && tool_call_id == before.pending@[0].tool_call_id && tool == before.pending@[0].tool
            && args == before.pending@[0].args && new_state is None,
        after.messages@.len() == before.messages@.len() + 1,
        after.messages@.last().role@ == "assistant"@,
        after.messages@.last().tool_calls@ == before.pending@,
        after.messages@.last().content@.len() == 0,
        after.messages@.last().tool_call_id is None,
{
    let views = llm::message_views(after.messages@);
    assert(views.len() == after.messages@.len());
    assert(views.last() == after.messages@.last()@);
}

/// Law: a failure of the provider, before or during a stream, ends the turn: it
/// is told as fatal in the words of the error, and the session becomes idle;
/// what had been said by then is still stored, last.
pub proof fn law_provider_failure_ends_the_turn(
    before: Turn,
    event: TurnEvent,
    err: ProviderError,
    effects: Seq<Effect>,
    action: TurnAction,
    after: Turn,
)
    requires
        event == TurnEvent::Generated(Err(err)) || (event == TurnEvent::Item(Err(err)) && !(
        err is Cancelled)),
        before.steps(event, effects, action, after),
    ensures
        action == TurnAction::End,
        after.phase == Phase::Ended,
        effects.len() >= 2,
        effects[0] matches Effect::Emit { event: Event::Error { code, message, fatal }, new_state }
            && fatal && new_state is None && code@ == "provider_failed"@ && message@
            == err.message(),
        effects[1] matches Effect::Emit {
            event: Event::SessionState { state, title, reason },
            new_state,
        } && state == SessionState::Idle && new_state == Some(SessionState::Idle)
            && title is None && (reason matches Some(why) && why@
            == "fallo del proveedor de modelo"@),
        event is Item && before.collected@.len() > 0 ==> effects.len() == 3 && (
        effects[2] matches Effect::SaveAssistant { message_id, content } && message_id
            == before.message_id && content@ == before.collected@),
        event is Generated || before.collected@.len() == 0 ==> effects.len() == 2,
{
    assert(effects.len() >= 2 ==> effects.take(2)[0] == effects[0] && effects.take(2)[1]
        == effects[1]);
}

/// Law: a generation that starts is audited with its provider, its number in
/// the turn and the message, all of which can be read back; a change of
/// provider is told to the clients before, as it was reported. Nothing of an
/// earlier generation is left in the way.
pub proof fn law_generation_is_reported(
    before: Turn,
    outcome: GenerationOutcome,
    effects: Seq<Effect>,
    action: TurnAction,
    after: Turn,
)
    requires
        before.steps(TurnEvent::Generated(Ok(outcome)), effects, action, after),
    ensures
        action == TurnAction::NextItem,
        after.phase == Phase::Streaming,
        after.pending@.len() == 0,
        after.done is None,
        after.collected@ == before.collected@,
        effects.len() >= 1,
        effects.last() matches Effect::Audit { kind, detail } && {
            &&& kind@ == "llm_call"@
            &&& outside::json_text_member(detail@, "provider_id"@) == Some(outcome.provider_id.0@)
            &&& outside::json_u64_member(detail@, "iteration"@) == Some(before.iteration as u64)
            &&& outside::json_text_member(detail@, "message_id"@) == Some(
                outside::ulid_chars(before.message_id.0),
            )
        },
        outcome.switch is None ==> effects.len() == 1,
        outcome.switch matches Some(info) ==> effects.len() == 2 && (effects[0] matches Effect::Emit {
            event: Event::ModelProviderChanged { from, to, trigger },
            new_state,
        } && from == info.from && to == info.to && trigger == info.trigger && new_state is None),
{
    let members = call_members(outcome.provider_id.0@, before.iteration, before.message_id);
    assert(members[0].0 == "provider_id"@ && members[1].0 == "iteration"@);
    assert(members[2].0 == "message_id"@);
}

/// Law: a turn begins with a generation and nothing said, unless it may make
/// none: then it ends at once, for its limit, and the session becomes idle.
pub proof fn law_turn_begins(
    message_id: MessageId,
    max_iterations: u32,
    r: (Turn, Vec<Effect>, TurnAction),
)
    requires
        begins(message_id, max_iterations, r),
    ensures
        r.0.message_id == message_id,
        r.0.max_iterations == max_iterations,
        r.0.iteration == 0,
        r.0.collected@.len() == 0,
        r.0.messages@.len() == 0,
        max_iterations > 0 ==> r.2 == TurnAction::Generate && r.1@.len() == 0 && r.0.phase
            == Phase::Generating,
        max_iterations == 0 ==> r.2 == TurnAction::End && r.0.phase == Phase::Ended && r.1@.len()
            == 2 && ends_with(
            r.1@,
            message_id,
            StopReason::MaxIterations,
            Usage { prompt_tokens: 0, completion_tokens: 0 },
        ),
{
}

/// Law: while a generation streams, what is said is told to the clients at once
/// under the name of the message and joins what was said before; a call waits
/// behind those before it; and the last word on how the generation ended counts.
pub proof fn law_stream_items(
    before: Turn,
    item: StreamItem,
    effects: Seq<Effect>,
    action: TurnAction,
    after: Turn,
)
    requires
        before.steps(TurnEvent::Item(Ok(item)), effects, action, after),
    ensures
        action == TurnAction::NextItem,
        after.phase == Phase::Streaming,
        after.messages@ == before.messages@,
        after.iteration == before.iteration,
        item matches StreamItem::Delta(delta) ==> {
            &&& after.collected@ == before.collected@ + delta@
            &&& effects.len() == 1
            &&& effects[0] matches Effect::Emit {
                event: Event::MessageDelta { message_id, delta: told },
                new_state,
            } && message_id == before.message_id && told == delta && new_state is None
            &&& after.pending@ == before.pending@
            &&& after.done == before.done
        },
        item matches StreamItem::ToolCall(tc) ==> {
            &&& after.pending@.len() == before.pending@.len() + 1
            &&& after.pending@.last() == tc
            &&& forall|i: int|
                0 <= i < before.pending@.len() ==> #[trigger] after.pending@[i]
                    == before.pending@[i]
            &&& effects.len() == 0
            &&& after.collected@ == before.collected@
            &&& after.done == before.done
        },
        item matches StreamItem::Done(stop, usage) ==> {
            &&& after.done matches Some((s, u)) && s == stop && u == usage
            &&& effects.len() == 0
            &&& after.collected@ == before.collected@
            &&& after.pending@ == before.pending@
        },
{
}

} // verus!
