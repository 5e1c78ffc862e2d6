//! The context handed to the model: the system prompt, the stored history
//! bounded to its last entries, and the tool exchanges of the turn.

use vstd::prelude::*;
use vstd::string::*;

use crate::llm::{self, ChatMessage};
use crate::store::messages::MessageRow;
use crate::text;

verus! {

/// Entries of the stored history that the model sees.
pub const MAX_HISTORY: usize = 40;

/// The system prompt; files of the workspace are named when they are known.
pub open spec fn prompt(workspace: Seq<char>, files: Seq<Seq<char>>) -> Seq<char> {
    let base = "Eres Rutsubo, un agente de código local-first. Trabajas dentro del workspace `"@
        + workspace
        + "` usando las herramientas disponibles. Toda ruta es relativa al workspace."@;
    if files.len() == 0 {
        base
    } else {
        base + " Archivos del workspace: "@ + text::joined(files, ", "@) + "."@
    }
}

/// A message that neither calls a tool nor answers one.
pub open spec fn plain(role: Seq<char>, content: Seq<char>) -> llm::ChatMessageView {
    llm::ChatMessageView {
        role,
        content,
        tool_calls: Seq::empty(),
        tool_call_id: None,
        provider_tool_call_id: None,
    }
}

/// The last entries of the history.
pub open spec fn window(history: Seq<MessageRow>) -> Seq<MessageRow> {
    if history.len() > MAX_HISTORY {
        history.skip(history.len() - MAX_HISTORY)
    } else {
        history
    }
}

/// The entries of a history as messages.
pub open spec fn as_messages(history: Seq<MessageRow>) -> Seq<llm::ChatMessageView> {
    history.map_values(|m: MessageRow| plain(m.role@, m.content@))
}

/// What the context holds: the prompt, the last entries of the history, the
/// turn so far.
pub open spec fn context_of(
    workspace: Seq<char>,
    files: Seq<Seq<char>>,
    history: Seq<MessageRow>,
    turn: Seq<ChatMessage>,
) -> Seq<llm::ChatMessageView> {
    seq![plain("system"@, prompt(workspace, files))] + as_messages(window(history))
        + llm::message_views(turn)
}

/// The context: the prompt, the last entries of the history, the turn so far.
pub fn build(
    workspace: &str,
    workspace_files: &Vec<String>,
    history: &Vec<MessageRow>,
    turn: &Vec<ChatMessage>,
) -> (r: Vec<ChatMessage>)
    ensures
        llm::message_views(r@) == context_of(
            workspace@,
            text::views(workspace_files@),
            history@,
            turn@,
        ),
{
    let mut content = text::join3(
        "Eres Rutsubo, un agente de código local-first. Trabajas dentro del workspace `",
        workspace,
        "` usando las herramientas disponibles. Toda ruta es relativa al workspace.",
    );
    if workspace_files.len() > 0 {
        content.append(" Archivos del workspace: ");
        content.append(text::join(workspace_files, ", ").as_str());
        content.append(".");
    }
    let mut messages: Vec<ChatMessage> = Vec::new();
    let first = plain_message("system", content.as_str());
    let ghost head = seq![first@];
    messages.push(first);
    assert(llm::message_views(messages@) == head);

    let start: usize = if history.len() > MAX_HISTORY {
        history.len() - MAX_HISTORY
    } else {
        0
    };
    let ghost shown = window(history@);
    let mut i: usize = start;
    assert(shown == history@.skip(start as int));
    assert(as_messages(shown.take(0)) == Seq::<llm::ChatMessageView>::empty());
    assert(head + as_messages(shown.take(0)) == head);
    while i < history.len()
        invariant
            start <= i <= history.len(),
            shown == history@.skip(start as int),
            llm::message_views(messages@) == head + as_messages(shown.take(i - start)),
        decreases history.len() - i,
    {
        let row = &history[i];
        let message = plain_message(row.role.as_str(), row.content.as_str());
        proof {
            let k = i - start;
            assert(shown[k] == history@[i as int]);
            assert(shown.take(k + 1) == shown.take(k).push(shown[k]));
            assert(as_messages(shown.take(k + 1)) == as_messages(shown.take(k)).push(message@));
            assert(llm::message_views(messages@.push(message)) == llm::message_views(
                messages@,
            ).push(message@));
            assert((head + as_messages(shown.take(k))).push(message@) == head + as_messages(
                shown.take(k),
            ).push(message@));
        }
        messages.push(message);
        i += 1;
    }
    assert(shown.take(i - start) == shown);

    let ghost said = head + as_messages(shown);
    let mut k: usize = 0;
    assert(llm::message_views(turn@.take(0)) == Seq::<llm::ChatMessageView>::empty());
    assert(said + llm::message_views(turn@.take(0)) == said);
    while k < turn.len()
        invariant
            k <= turn.len(),
            llm::message_views(messages@) == said + llm::message_views(turn@.take(k as int)),
        decreases turn.len() - k,
    {
        let message = turn[k].clone();
        proof {
            assert(turn@.take(k + 1) == turn@.take(k as int).push(turn@[k as int]));
            assert(llm::message_views(turn@.take(k + 1)) == llm::message_views(
                turn@.take(k as int),
            ).push(message@));
            assert(llm::message_views(messages@.push(message)) == llm::message_views(
                messages@,
            ).push(message@));
            assert((said + llm::message_views(turn@.take(k as int))).push(message@) == said
                + llm::message_views(turn@.take(k as int)).push(message@));
        }
        messages.push(message);
        k += 1;
    }
    assert(turn@.take(k as int) == turn@);
    messages
}

fn plain_message(role: &str, content: &str) -> (r: ChatMessage)
    ensures
        r@ == plain(role@, content@),
{
    let r = ChatMessage {
        role: role.to_owned(),
        content: content.to_owned(),
        tool_calls: Vec::new(),
        tool_call_id: None,
        provider_tool_call_id: None,
    };
    assert(r.tool_calls@ == Seq::<crate::llm::ToolCallRequest>::empty());
    r
}

/// Law: the context never holds more of the history than its limit, and what
/// it holds is the end of it, in order.
pub proof fn law_history_window(history: Seq<MessageRow>)
    ensures
        window(history).len() <= MAX_HISTORY,
        window(history).len() == (if history.len() < MAX_HISTORY {
            history.len()
        } else {
            MAX_HISTORY as nat
        }),
        forall|i: int|
            0 <= i < window(history).len() ==> #[trigger] window(history)[i] == history[history.len()
                - window(history).len() + i],
{
}

/// Law: the model reads the prompt first, in the role of the system, then the
/// last forty entries of the history or all of them if there are fewer, oldest
/// first, each in the role and with the words it was stored with, then the
/// messages of the turn as they are.
pub proof fn law_context_keeps_roles_and_words(
    workspace: Seq<char>,
    files: Seq<Seq<char>>,
    history: Seq<MessageRow>,
    turn: Seq<ChatMessage>,
    r: Seq<ChatMessage>,
)
    requires
        llm::message_views(r) == context_of(workspace, files, history, turn),
    ensures
        ({
            let n = history.len();
            let w = if n < 40 {
                n as int
            } else {
                40
            };
            &&& r.len() == 1 + w + turn.len()
            &&& r[0].role@ == "system"@
            &&& r[0].tool_calls@.len() == 0
            &&& r[0].tool_call_id is None
            &&& forall|i: int|
                #![trigger r[1 + i]]
                0 <= i < w ==> {
                    &&& r[1 + i].role@ == history[n - w + i].role@
                    &&& r[1 + i].content@ == history[n - w + i].content@
                    &&& r[1 + i].tool_calls@.len() == 0
                    &&& r[1 + i].tool_call_id is None
                    &&& r[1 + i].provider_tool_call_id is None
                }
            &&& forall|i: int|
                #![trigger r[1 + w + i]]
                0 <= i < turn.len() ==> {
                    &&& r[1 + w + i].role@ == turn[i].role@
                    &&& r[1 + w + i].content@ == turn[i].content@
                    &&& r[1 + w + i].tool_calls@ == turn[i].tool_calls@
                    &&& r[1 + w + i].tool_call_id == turn[i].tool_call_id
                    &&& r[1 + w + i].provider_tool_call_id == turn[i].provider_tool_call_id
                }
        }),
{
    let n = history.len();
    let w = if n < 40 {
        n as int
    } else {
        40
    };
    let views = llm::message_views(r);
    assert(views.len() == r.len());
    assert(views[0] == r[0]@);
    assert forall|i: int| #![trigger r[1 + i]] 0 <= i < w implies {
        &&& r[1 + i].role@ == history[n - w + i].role@
        &&& r[1 + i].content@ == history[n - w + i].content@
        &&& r[1 + i].tool_calls@.len() == 0
        &&& r[1 + i].tool_call_id is None
        &&& r[1 + i].provider_tool_call_id is None
    } by {
        assert(views[1 + i] == r[1 + i]@);
        assert(window(history)[i] == history[n - w + i]);
        assert(views[1 + i] == as_messages(window(history))[i]);
    }
    assert forall|i: int| #![trigger r[1 + w + i]] 0 <= i < turn.len() implies {
        &&& r[1 + w + i].role@ == turn[i].role@
        &&& r[1 + w + i].content@ == turn[i].content@
        &&& r[1 + w + i].tool_calls@ == turn[i].tool_calls@
        &&& r[1 + w + i].tool_call_id == turn[i].tool_call_id
        &&& r[1 + w + i].provider_tool_call_id == turn[i].provider_tool_call_id
    } by {
        assert(views[1 + w + i] == r[1 + w + i]@);
        assert(views[1 + w + i] == llm::message_views(turn)[i]);
    }
}

/// Law: the prompt names the workspace between back quotes, and it ends with
/// the names of the files, the first one first, exactly when there are any.
pub proof fn law_prompt_names_the_workspace(
    workspace: Seq<char>,
    files: Seq<Seq<char>>,
    history: Seq<MessageRow>,
    turn: Seq<ChatMessage>,
    r: Seq<ChatMessage>,
)
    requires
        llm::message_views(r) == context_of(workspace, files, history, turn),
    ensures
        ({
            let head =
                "Eres Rutsubo, un agente de código local-first. Trabajas dentro del workspace `"@
                + workspace + "` usando las herramientas disponibles. Toda ruta es relativa al workspace."@;
            &&& head.is_prefix_of(r[0].content@)
            &&& files.len() == 0 ==> r[0].content@ == head
            &&& files.len() > 0 ==> {
                let tail = r[0].content@.skip(head.len() as int);
                &&& tail.len() == 26 + text::joined(files, ", "@).len()
                &&& " Archivos del workspace: "@.is_prefix_of(tail)
                &&& tail.subrange(25, tail.len() - 1) == text::joined(files, ", "@)
                &&& tail.last() == '.'
            }
        }),
{
    let head = "Eres Rutsubo, un agente de código local-first. Trabajas dentro del workspace `"@
        + workspace + "` usando las herramientas disponibles. Toda ruta es relativa al workspace."@;
    assert(llm::message_views(r).len() == r.len());
    assert(llm::message_views(r)[0] == r[0]@);
    reveal_strlit(" Archivos del workspace: ");
    reveal_strlit(".");
    if files.len() > 0 {
        let tail = r[0].content@.skip(head.len() as int);
        assert(tail == " Archivos del workspace: "@ + text::joined(files, ", "@) + "."@);
        assert(tail.subrange(25, tail.len() - 1) == text::joined(files, ", "@));
    }
}

} // verus!
