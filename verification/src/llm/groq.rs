//! The Groq provider: what is sent in its chat format, and what its answers
//! mean.

use vstd::prelude::*;

use crate::json;
use crate::llm::{ChatMessage, ProviderError, StreamItem, ToolCallRequest};
use crate::outside;
use crate::protocol::api::ProviderHealth;
use crate::protocol::events::{StopReason, Usage};
use crate::protocol::ids::{ProviderId, ToolCallId};
use crate::text;

verus! {

/// Where requests are sent.
pub const GROQ_BASE: &'static str = "https://api.groq.com/openai/v1";

/// Seconds to wait after an answer that there were too many requests.
pub const RETRY_AFTER_S: u64 = 30;

/// A model behind the Groq API.
#[derive(Debug, PartialEq)]
pub struct GroqProvider {
    pub id: ProviderId,
    pub model: String,
    pub api_key: String,
}

/// A call of a tool in the chat format.
#[derive(Debug, PartialEq)]
pub struct SentCall {
    pub id: String,
    pub name: String,
    /// JSON text.
    pub arguments: String,
}

/// A message in the chat format.
#[derive(Debug, PartialEq)]
pub enum SentMessage {
    System(String),
    User(String),
    Assistant { content: String, tool_calls: Vec<SentCall> },
    Tool { content: String, tool_call_id: String },
}

/// A call of a tool in an answer.
#[derive(Debug, PartialEq)]
pub struct GroqToolCall {
    pub id: String,
    pub name: String,
    /// Meant to be JSON text.
    pub arguments: String,
}

/// The message of an answer.
#[derive(Debug, PartialEq)]
pub struct GroqMessage {
    pub content: Option<String>,
    pub tool_calls: Vec<GroqToolCall>,
}

/// An answer: its first choice, if it has one, and its use of tokens.
#[derive(Debug, PartialEq)]
pub struct GroqResponse {
    pub choice: Option<GroqMessage>,
    pub usage: Option<Usage>,
}

/// A choice of an answer as it comes: its calls may be missing.
#[derive(Debug, PartialEq)]
pub struct GroqChoice {
    pub content: Option<String>,
    pub tool_calls: Option<Vec<GroqToolCall>>,
}

/// Whether a message is a choice: the same text, and its calls, or none where
/// they are missing.
pub open spec fn is_choice(message: GroqMessage, choice: GroqChoice) -> bool {
    &&& message.content == choice.content
    &&& match choice.tool_calls {
        Some(calls) => message.tool_calls == calls,
        None => message.tool_calls@.len() == 0,
    }
}

/// Whether an answer is that of its choices.
pub open spec fn is_answer(
    r: GroqResponse,
    choices: Seq<GroqChoice>,
    usage: Option<Usage>,
) -> bool {
    &&& r.usage == usage
    &&& match r.choice {
        Some(message) => choices.len() > 0 && is_choice(message, choices[0]),
        None => choices.len() == 0,
    }
}

impl GroqResponse {
    /// An answer from its choices: only the first one counts.
    pub fn from_choices(choices: Vec<GroqChoice>, usage: Option<Usage>) -> (r: Self)
        ensures
            is_answer(r, choices@, usage),
    {
        let mut choices = choices;
        if choices.len() == 0 {
            return GroqResponse { choice: None, usage };
        }
        let first = choices.remove(0);
        let tool_calls = match first.tool_calls {
            Some(calls) => calls,
            None => Vec::new(),
        };
        GroqResponse { choice: Some(GroqMessage { content: first.content, tool_calls }), usage }
    }
}

/// The calls that the provider gave an identifier, in the chat format.
pub open spec fn are_sent_calls(sent: Seq<SentCall>, calls: Seq<ToolCallRequest>) -> bool
    decreases calls.len(),
{
    if calls.len() == 0 {
        sent.len() == 0
    } else {
        let call = calls.last();
        match call.provider_call_id {
            Some(id) => sent.len() > 0 && sent.last() == (SentCall {
                id,
                name: call.tool,
                arguments: call.args,
            }) && are_sent_calls(sent.drop_last(), calls.drop_last()),
            None => are_sent_calls(sent, calls.drop_last()),
        }
    }
}

/// The identifier of the call that a tool message answers: the provider's own
/// if there is one, else the one of this system, else the empty text.
pub open spec fn answered_call(m: ChatMessage) -> Seq<char> {
    match (m.provider_tool_call_id, m.tool_call_id) {
        (Some(id), _) => id@,
        (None, Some(id)) => outside::ulid_chars(id.0),
        (None, None) => Seq::empty(),
    }
}

/// Whether a message in the chat format stands for one of the context.
pub open spec fn is_sent(sent: SentMessage, m: ChatMessage) -> bool {
    if m.role@ == "system"@ {
        sent matches SentMessage::System(content) && content == m.content
    } else if m.role@ == "assistant"@ {
        sent matches SentMessage::Assistant { content, tool_calls } && content == m.content
            && are_sent_calls(tool_calls@, m.tool_calls@)
    } else if m.role@ == "tool"@ {
        sent matches SentMessage::Tool { content, tool_call_id } && content == m.content
            && tool_call_id@ == answered_call(m)
    } else {
        sent matches SentMessage::User(content) && content == m.content
    }
}

/// Whether the items of a stream are the calls of an answer, in order.
pub open spec fn are_calls(items: Seq<StreamItem>, calls: Seq<GroqToolCall>) -> bool {
    &&& items.len() == calls.len()
    &&& forall|i: int|
        0 <= i < items.len() ==> {
            &&& #[trigger] items[i] matches StreamItem::ToolCall(call)
            &&& call.tool == calls[i].name
            &&& call.provider_call_id == Some(calls[i].id)
            &&& outside::json_compact(calls[i].arguments@) == Some(call.args@)
        }
}

/// Whether every call of an answer has arguments that are JSON.
pub open spec fn legible(calls: Seq<GroqToolCall>) -> bool {
    forall|i: int|
        0 <= i < calls.len() ==> outside::json_compact(
            (#[trigger] calls[i]).arguments@,
        ) is Some
}

/// The use of tokens that an answer reports; nothing if it reports none.
pub open spec fn reported(usage: Option<Usage>) -> Usage {
    match usage {
        Some(u) => u,
        None => Usage { prompt_tokens: 0, completion_tokens: 0 },
    }
}

/// Whether the items of a stream are what an answer says: its text if there is
/// any, its calls, and the end.
pub open spec fn is_stream_of(
    items: Seq<StreamItem>,
    message: GroqMessage,
    usage: Option<Usage>,
) -> bool {
    let texts: int = match message.content {
        Some(t) if t@.len() > 0 => 1,
        _ => 0,
    };
    &&& items.len() == texts + message.tool_calls@.len() + 1
    &&& texts == 1 ==> items[0] == StreamItem::Delta(message.content->0)
    &&& are_calls(items.subrange(texts, items.len() - 1), message.tool_calls@)
    &&& items.last() == StreamItem::Done(StopReason::EndTurn, reported(usage))
}

/// What a status comes to.
pub open spec fn passes(status: u16, shown: Seq<char>, r: Result<(), ProviderError>) -> bool {
    if status == 429 {
        r == Err::<(), ProviderError>(ProviderError::RateLimited { retry_after_s: 30 })
    } else if 500 <= status < 600 {
        r matches Err(ProviderError::Transport(w)) && w@ == "Groq no está disponible"@
    } else if 200 <= status < 300 {
        r is Ok
    } else {
        r matches Err(ProviderError::InvalidResponse(w)) && w@ == "Groq rechazó la petición ("@
            + shown + ")"@
    }
}

/// What an answer comes to.
pub open spec fn means(
    answer: Result<GroqResponse, String>,
    r: Result<Vec<StreamItem>, ProviderError>,
) -> bool {
    match answer {
        Err(why) => r matches Err(ProviderError::InvalidResponse(w)) && w@
            == "respuesta ilegible: "@ + why@,
        Ok(answer) => match answer.choice {
            None => r matches Err(ProviderError::InvalidResponse(w)) && w@
                == "respuesta sin choices"@,
            Some(message) => if legible(message.tool_calls@) {
                r matches Ok(items) && is_stream_of(items@, message, answer.usage)
            } else {
                r matches Err(ProviderError::InvalidResponse(w)) && w@
                    == "argumentos de herramienta inválidos"@
            },
        },
    }
}

/// The calls that the provider gave an identifier, in the chat format.
fn sent_calls(calls: &Vec<ToolCallRequest>) -> (r: Vec<SentCall>)
    ensures
        are_sent_calls(r@, calls@),
{
    let mut out: Vec<SentCall> = Vec::new();
    let mut i: usize = 0;
    while i < calls.len()
        invariant
            i <= calls.len(),
            are_sent_calls(out@, calls@.take(i as int)),
        decreases calls.len() - i,
    {
        let call = &calls[i];
        let ghost before = out@;
        assert(calls@.take(i + 1).drop_last() == calls@.take(i as int));
        match &call.provider_call_id {
            Some(id) => {
                out.push(
                    SentCall {
                        id: id.clone(),
                        name: call.tool.clone(),
                        arguments: call.args.clone(),
                    },
                );
                assert(out@.drop_last() == before);
            },
            None => {},
        }
        i += 1;
    }
    assert(calls@.take(i as int) == calls@);
    out
}

/// A message of the context in the chat format.
fn sent_message(m: &ChatMessage) -> (r: SentMessage)
    ensures
        is_sent(r, *m),
{
    let role = m.role.as_str();
    let content = m.content.clone();
    if text::same(role, "system") {
        SentMessage::System(content)
    } else if text::same(role, "assistant") {
        SentMessage::Assistant { content, tool_calls: sent_calls(&m.tool_calls) }
    } else if text::same(role, "tool") {
        let tool_call_id = match (&m.provider_tool_call_id, &m.tool_call_id) {
            (Some(id), _) => id.clone(),
            (None, Some(id)) => id.text(),
            (None, None) => String::new(),
        };
        SentMessage::Tool { content, tool_call_id }
    } else {
        SentMessage::User(content)
    }
}

/// Whether messages stand for a context.
pub open spec fn are_sent(r: Seq<SentMessage>, messages: Seq<ChatMessage>) -> bool {
    &&& r.len() == messages.len()
    &&& forall|i: int| 0 <= i < r.len() ==> is_sent(#[trigger] r[i], messages[i])
}

impl GroqProvider {
    /// The provider of a model.
    pub fn new(model: String, api_key: String) -> (r: Self)
        ensures
            r.id.0@ == "groq:"@ + model@,
            r.model == model,
            r.api_key == api_key,
    {
        GroqProvider { id: ProviderId(text::join2("groq:", model.as_str())), model, api_key }
    }

    /// The name of the provider.
    pub fn id(&self) -> (r: ProviderId)
        ensures
            r == self.id,
    {
        self.id.clone()
    }

    /// The context in the chat format.
    pub fn messages(messages: &Vec<ChatMessage>) -> (r: Vec<SentMessage>)
        ensures
            are_sent(r@, messages@),
    {
        let mut out: Vec<SentMessage> = Vec::new();
        let mut i: usize = 0;
        while i < messages.len()
            invariant
                i <= messages.len(),
                out@.len() == i,
                forall|k: int| 0 <= k < i ==> is_sent(#[trigger] out@[k], messages@[k]),
            decreases messages.len() - i,
        {
            out.push(sent_message(&messages[i]));
            i += 1;
        }
        out
    }

    /// Lets a request through unless its turn was cancelled.
    pub fn check(cancelled: bool) -> (r: Result<(), ProviderError>)
        ensures
            cancelled ==> r == Err::<(), ProviderError>(ProviderError::Cancelled),
            !cancelled ==> r is Ok,
    {
        if cancelled {
            Err(ProviderError::Cancelled)
        } else {
            Ok(())
        }
    }

    /// Lets an answer through if its status is a success; `shown` is the status
    /// as it is shown.
    pub fn check_status(status: u16, shown: &str) -> (r: Result<(), ProviderError>)
        ensures
            passes(status, shown@, r),
    {
        if status == 429 {
            Err(ProviderError::RateLimited { retry_after_s: RETRY_AFTER_S })
        } else if 500 <= status && status < 600 {
            Err(ProviderError::Transport("Groq no está disponible".to_owned()))
        } else if 200 <= status && status < 300 {
            Ok(())
        } else {
            Err(
                ProviderError::InvalidResponse(
                    text::join3("Groq rechazó la petición (", shown, ")"),
                ),
            )
        }
    }

    /// The stream that an answer stands for, or the error; the answer is what
    /// its body spells, or why it spells none.
    pub fn generate(answer: Result<GroqResponse, String>) -> (r: Result<
        Vec<StreamItem>,
        ProviderError,
    >)
        ensures
            means(answer, r),
    {
        let answer = match answer {
            Ok(answer) => answer,
            Err(why) => return Err(
                ProviderError::InvalidResponse(text::join2("respuesta ilegible: ", why.as_str())),
            ),
        };
        match answer.choice {
            Some(message) => Self::stream_of(message, answer.usage),
            None => Err(ProviderError::InvalidResponse("respuesta sin choices".to_owned())),
        }
    }

    /// The stream that the message of an answer stands for.
    fn stream_of(message: GroqMessage, usage: Option<Usage>) -> (r: Result<
        Vec<StreamItem>,
        ProviderError,
    >)
        ensures
            if legible(message.tool_calls@) {
                r matches Ok(items) && is_stream_of(items@, message, usage)
            } else {
                r matches Err(ProviderError::InvalidResponse(w)) && w@
                    == "argumentos de herramienta inválidos"@
            },
    {
        let mut items: Vec<StreamItem> = Vec::new();
        match &message.content {
            Some(t) => {
                if !t.as_str().is_empty() {
                    items.push(StreamItem::Delta(t.clone()));
                }
            },
            None => {},
        }
        let ghost texts = items@;
        let ghost n = texts.len() as int;
        let calls = &message.tool_calls;
        let mut i: usize = 0;
        assert(items@.skip(n) == Seq::<StreamItem>::empty());
        while i < calls.len()
            invariant
                i <= calls.len(),
                calls@ == message.tool_calls@,
                n == texts.len(),
                n <= items@.len(),
                items@.take(n) == texts,
                are_calls(items@.skip(n), calls@.take(i as int)),
                legible(calls@.take(i as int)),
            decreases calls.len() - i,
        {
            let call = &calls[i];
            match json::compact(call.arguments.as_str()) {
                Some(args) => {
                    let ghost before = items@;
                    items.push(
                        StreamItem::ToolCall(
                            ToolCallRequest {
                                tool_call_id: ToolCallId::new(),
                                tool: call.name.clone(),
                                args,
                                provider_call_id: Some(call.id.clone()),
                            },
                        ),
                    );
                    assert(items@.take(n) == before.take(n));
                    assert(items@.skip(n) == before.skip(n).push(items@.last()));
                    assert(calls@.take(i + 1) == calls@.take(i as int).push(*call));
                },
                None => {
                    assert(!legible(message.tool_calls@)) by {
                        assert(message.tool_calls@[i as int] == *call);
                    }
                    return Err(
                        ProviderError::InvalidResponse(
                            "argumentos de herramienta inválidos".to_owned(),
                        ),
                    );
                },
            }
            i += 1;
        }
        assert(calls@.take(i as int) == message.tool_calls@);
        let usage = match usage {
            Some(u) => u,
            None => Usage { prompt_tokens: 0, completion_tokens: 0 },
        };
        let ghost before = items@;
        items.push(StreamItem::Done(StopReason::EndTurn, usage));
        assert(items@.subrange(n, items@.len() - 1) == before.skip(n));
        assert(n == 1 ==> items@[0] == before.take(n)[0]);
        Ok(items)
    }

    /// The health of the provider: it is not probed.
    pub fn health(&self) -> (r: ProviderHealth)
        ensures
            r == ProviderHealth::Ready,
    {
        ProviderHealth::Ready
    }
}

/// Law: the stream of a readable answer ends, once, and with its last item.
pub proof fn law_stream_ends_once(
    items: Seq<StreamItem>,
    message: GroqMessage,
    usage: Option<Usage>,
)
    requires
        is_stream_of(items, message, usage),
    ensures
        items.len() > 0,
        items.last() is Done,
        forall|i: int| 0 <= i < items.len() - 1 ==> !(#[trigger] items[i] is Done),
{
    let texts: int = match message.content {
        Some(t) if t@.len() > 0 => 1,
        _ => 0,
    };
    let calls = items.subrange(texts, items.len() - 1);
    assert forall|i: int| 0 <= i < items.len() - 1 implies !(#[trigger] items[i] is Done) by {
        if i >= texts {
            assert(calls[i - texts] == items[i]);
        }
    }
}

/// Law: a message goes to the provider in its own role and word for word: the
/// system's, the assistant's and a tool's as such, any other as the user's. A
/// tool's answers the call by the provider's name for it, else by this system's.
pub proof fn law_message_keeps_role_and_words(sent: SentMessage, m: ChatMessage)
    requires
        is_sent(sent, m),
    ensures
        sent is System <==> m.role@ == "system"@,
        sent is Assistant <==> m.role@ == "assistant"@,
        sent is Tool <==> m.role@ == "tool"@,
        m.role@ == "user"@ ==> sent is User,
        sent matches SentMessage::System(content) ==> content@ == m.content@,
        sent matches SentMessage::User(content) ==> content@ == m.content@,
        sent matches SentMessage::Assistant { content, .. } ==> content@ == m.content@,
        sent matches SentMessage::Tool { content, tool_call_id } ==> {
            &&& content@ == m.content@
            &&& m.provider_tool_call_id matches Some(id) ==> tool_call_id@ == id@
            &&& m.provider_tool_call_id is None && m.tool_call_id is Some ==> tool_call_id@
                == outside::ulid_chars((m.tool_call_id->0).0)
        },
{
    reveal_strlit("system");
    reveal_strlit("assistant");
    reveal_strlit("tool");
    reveal_strlit("user");
    assert("system"@.len() == 6 && "assistant"@.len() == 9);
    assert("tool"@.len() == 4 && "user"@.len() == 4);
    assert("tool"@[0] == 't' && "user"@[0] == 'u');
}

/// Law: of the calls that an assistant's message made, those that the provider
/// named go along, in order, under that name, with their tool and arguments;
/// where it named them all, they all do.
pub proof fn law_named_calls_go_along(sent: Seq<SentCall>, calls: Seq<ToolCallRequest>)
    requires
        are_sent_calls(sent, calls),
    ensures
        sent.len() <= calls.len(),
        forall|i: int| 0 <= i < sent.len() ==> was_made(#[trigger] sent[i], calls),
        (forall|i: int| 0 <= i < calls.len() ==> (#[trigger] calls[i]).provider_call_id is Some)
            ==> sent.len() == calls.len() && forall|i: int|
            #![trigger sent[i]]
            0 <= i < sent.len() ==> sent[i].name == calls[i].tool && sent[i].arguments
                == calls[i].args && Some(sent[i].id) == calls[i].provider_call_id,
    decreases calls.len(),
{
    if calls.len() > 0 {
        let rest = calls.drop_last();
        let named = calls.last().provider_call_id is Some;
        let before = if named {
            sent.drop_last()
        } else {
            sent
        };
        law_named_calls_go_along(before, rest);
        assert forall|i: int| 0 <= i < sent.len() implies was_made(#[trigger] sent[i], calls) by {
            if i < before.len() {
                assert(before[i] == sent[i]);
                let k = choose|k: int|
                    0 <= k < rest.len() && (#[trigger] rest[k]).tool == before[i].name
                        && rest[k].args == before[i].arguments && rest[k].provider_call_id == Some(
                        before[i].id,
                    );
                assert(calls[k] == rest[k]);
            } else {
                assert(calls[calls.len() - 1] == calls.last());
            }
        }
        if forall|i: int| 0 <= i < calls.len() ==> (#[trigger] calls[i]).provider_call_id is Some {
            assert(calls[calls.len() - 1].provider_call_id is Some);
            assert forall|i: int| 0 <= i < rest.len() implies (
            #[trigger] rest[i]).provider_call_id is Some by {
                assert(calls[i] == rest[i]);
            }
            assert forall|i: int| #![trigger sent[i]] 0 <= i < sent.len() implies sent[i].name
                == calls[i].tool && sent[i].arguments == calls[i].args && Some(sent[i].id)
                == calls[i].provider_call_id by {
                if i < before.len() {
                    assert(before[i] == sent[i]);
                    assert(rest[i] == calls[i]);
                }
            }
        }
    }
}

/// Whether a call is one of those that were made.
pub open spec fn was_made(sent: SentCall, calls: Seq<ToolCallRequest>) -> bool {
    exists|k: int|
        0 <= k < calls.len() && (#[trigger] calls[k]).tool == sent.name && calls[k].args
            == sent.arguments && calls[k].provider_call_id == Some(sent.id)
}

/// Law: an answer becomes a stream exactly when it can be read, has a choice,
/// and the arguments of all its calls are JSON. The stream gives the text of
/// the choice, if there is any, before its calls, each under its own name and
/// the provider's, with its arguments, and ends with the tokens reported. Every
/// other answer is an invalid response.
pub proof fn law_answer_becomes_a_stream(
    answer: Result<GroqResponse, String>,
    r: Result<Vec<StreamItem>, ProviderError>,
)
    requires
        means(answer, r),
    ensures
        r is Ok <==> answer is Ok && answer->Ok_0.choice is Some && forall|i: int|
            0 <= i < (answer->Ok_0.choice->0).tool_calls@.len() ==> outside::json_compact(
                (#[trigger] (answer->Ok_0.choice->0).tool_calls@[i]).arguments@,
            ) is Some,
        r matches Err(e) ==> e is InvalidResponse,
        r matches Ok(items) ==> {
            let message = answer->Ok_0.choice->0;
            let n = message.tool_calls@.len();
            let spoken = message.content is Some && message.content->0@.len() > 0;
            let first: int = if spoken {
                1
            } else {
                0
            };
            &&& items@.len() == first + n + 1
            &&& spoken ==> (items@[0] matches StreamItem::Delta(d) && d@ == message.content->0@)
            &&& forall|i: int|
                #![trigger message.tool_calls@[i]]
                0 <= i < n ==> (items@[first + i] matches StreamItem::ToolCall(call) && call.tool
                    == message.tool_calls@[i].name && call.provider_call_id == Some(
                    message.tool_calls@[i].id,
                ) && outside::json_compact(message.tool_calls@[i].arguments@) == Some(call.args@))
            &&& items@.last() matches StreamItem::Done(stop, usage) && stop == StopReason::EndTurn
                && (answer->Ok_0.usage matches Some(u) ==> usage == u) && (
            answer->Ok_0.usage is None ==> usage.prompt_tokens == 0 && usage.completion_tokens == 0)
        },
{
    match (answer, r) {
        (Ok(answer), Ok(items)) => {
            let message = answer.choice->0;
            let first: int = if message.content is Some && message.content->0@.len() > 0 {
                1
            } else {
                0
            };
            let calls = items@.subrange(first, items@.len() - 1);
            assert forall|i: int|
                #![trigger message.tool_calls@[i]]
                0 <= i < message.tool_calls@.len() implies (
            items@[first + i] matches StreamItem::ToolCall(call) && call.tool
                == message.tool_calls@[i].name && call.provider_call_id == Some(
                message.tool_calls@[i].id,
            ) && outside::json_compact(message.tool_calls@[i].arguments@) == Some(call.args@)) by {
                assert(calls[i] == items@[first + i]);
            }
        },
        _ => {},
    }
}

/// Law: an answer is let through exactly when its status is a success. Too many
/// requests ask for a pause of thirty seconds, which sends the call elsewhere;
/// a fault of the server counts as one of the network, and any other status as
/// an invalid response.
pub proof fn law_status(status: u16, shown: Seq<char>, r: Result<(), ProviderError>)
    requires
        passes(status, shown, r),
    ensures
        r is Ok <==> 200 <= status <= 299,
        r matches Err(e) ==> {
            &&& e is RateLimited <==> status == 429
            &&& e matches ProviderError::RateLimited { retry_after_s } ==> retry_after_s == 30
            &&& e is Transport <==> 500 <= status <= 599
            &&& !(status == 429 || 500 <= status <= 599) ==> e is InvalidResponse
        },
{
}

/// Law: only the first choice of an answer counts, with its text and its calls.
pub proof fn law_first_choice_counts(
    r: GroqResponse,
    choices: Seq<GroqChoice>,
    usage: Option<Usage>,
)
    requires
        is_answer(r, choices, usage),
    ensures
        r.choice is Some <==> choices.len() > 0,
        r.usage == usage,
        r.choice matches Some(message) ==> {
            &&& message.content == choices[0].content
            &&& choices[0].tool_calls is None ==> message.tool_calls@.len() == 0
            &&& choices[0].tool_calls matches Some(calls) ==> message.tool_calls@ == calls@
        },
{
}

/// Law: the whole context goes to the provider, in order.
pub proof fn law_whole_context_is_sent(r: Seq<SentMessage>, messages: Seq<ChatMessage>, i: int)
    requires
        are_sent(r, messages),
        0 <= i < messages.len(),
    ensures
        r.len() == messages.len(),
        r[i] is System <==> messages[i].role@ == "system"@,
        r[i] is Assistant <==> messages[i].role@ == "assistant"@,
        r[i] is Tool <==> messages[i].role@ == "tool"@,
        r[i] matches SentMessage::User(content) ==> content@ == messages[i].content@,
{
    law_message_keeps_role_and_words(r[i], messages[i]);
}

} // verus!
