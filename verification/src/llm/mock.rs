//! Providers without a model.
//!
//! [`MockProvider`] follows a script for development and demonstration: it
//! reads the file that the message mentions, runs the tests if the message
//! speaks of them, writes its notes, and ends. [`FailingMock`] fails on demand.

use vstd::prelude::*;

use crate::json;
use crate::llm::{ChatMessage, GenerationRequest, ProviderError, StreamItem, ToolCallRequest};
use crate::outside;
use crate::protocol::api::ProviderHealth;
use crate::protocol::events::{StopReason, Usage};
use crate::protocol::ids::{ProviderId, ToolCallId};
use crate::text;

verus! {

/// Pause before each item of a script, so that the stream can be watched.
pub const DELAY_MS: u64 = 30;

/// Provider that follows a script.
#[derive(Debug, PartialEq)]
pub struct MockProvider {
    pub id: ProviderId,
    /// Pause before each item.
    pub delay_ms: u64,
}

/// Whether a character can stand at the end of a file's name.
pub open spec fn name_char(c: char) -> bool {
    outside::alphanumeric(c) || c == '/' || c == '.' || c == '_' || c == '-'
}

/// A word without what cannot stand at the start of a file's name.
pub open spec fn bare_start(s: Seq<char>) -> Seq<char>
    decreases s.len(),
{
    if s.len() > 0 && !name_char(s[0]) {
        bare_start(s.drop_first())
    } else {
        s
    }
}

/// A word without what cannot stand at the end of a file's name.
pub open spec fn bare_end(s: Seq<char>) -> Seq<char>
    decreases s.len(),
{
    if s.len() > 0 && !name_char(s.last()) {
        bare_end(s.drop_last())
    } else {
        s
    }
}

/// A word without what cannot stand at either end of a file's name.
pub open spec fn bare(s: Seq<char>) -> Seq<char> {
    bare_end(bare_start(s))
}

/// Whether a word looks like a file: it holds a slash, or a dot that is not its
/// end, and is no link.
pub open spec fn looks_like_file(w: Seq<char>) -> bool {
    &&& w.len() > 0
    &&& !"http"@.is_prefix_of(w)
    &&& w.contains('/') || (w.contains('.') && w.last() != '.')
}

/// The first word that looks like a file; the readme if there is none.
pub open spec fn first_file(words: Seq<Seq<char>>) -> Seq<char>
    decreases words.len(),
{
    if words.len() == 0 {
        "README.md"@
    } else if looks_like_file(bare(words[0])) {
        bare(words[0])
    } else {
        first_file(words.drop_first())
    }
}

/// The file that a message mentions.
pub open spec fn file_of(content: Seq<char>) -> Seq<char> {
    first_file(text::words(content))
}

/// Whether a tool has run, by the results among the messages.
pub open spec fn has_run(messages: Seq<ChatMessage>, tool: Seq<char>) -> bool {
    exists|i: int|
        0 <= i < messages.len() && (#[trigger] messages[i]).role@ == "tool"@
            && outside::json_text_member(messages[i].content@, "tool"@) == Some(tool)
}

/// The content of the last message of the user; empty if there is none.
pub open spec fn last_request(messages: Seq<ChatMessage>) -> Seq<char>
    decreases messages.len(),
{
    if messages.len() == 0 {
        Seq::empty()
    } else if messages.last().role@ == "user"@ {
        messages.last().content@
    } else {
        last_request(messages.drop_last())
    }
}

/// The tokens of a message: a quarter of its bytes, counted in 32 bits.
pub open spec fn tokens_of(content: Seq<char>) -> int {
    text::byte_len(content) as int % 0x1_0000_0000 / 4
}

/// The tokens of a context.
pub open spec fn prompt_size(messages: Seq<ChatMessage>) -> int
    decreases messages.len(),
{
    if messages.len() == 0 {
        0
    } else {
        prompt_size(messages.drop_last()) + tokens_of(messages.last().content@)
    }
}

/// A text, up to a number of characters.
pub open spec fn first_chars(s: Seq<char>, n: int) -> Seq<char> {
    if s.len() <= n {
        s
    } else {
        s.take(n)
    }
}

/// The notes that the script writes.
pub open spec fn notes(file: Seq<char>, request: Seq<char>) -> Seq<char> {
    "# Notas de Rutsubo\n\n- Archivo revisado: "@ + file + "\n- Petición: "@ + first_chars(
        request,
        120,
    ) + "\n"@
}

/// Whether an item is a delta with a given text.
pub open spec fn is_delta(item: StreamItem, delta: Seq<char>) -> bool {
    item matches StreamItem::Delta(d) && d@ == delta
}

/// Whether an item is a call of a tool with given arguments.
pub open spec fn is_call(
    item: StreamItem,
    tool: Seq<char>,
    members: Seq<(Seq<char>, json::FieldView)>,
) -> bool {
    &&& item matches StreamItem::ToolCall(call)
    &&& call.tool@ == tool
    &&& call.args@ == outside::json_object_text(members)
    &&& call.provider_call_id is None
}

/// Whether an item is such a call, from which every argument can be read.
pub open spec fn is_legible_call(
    item: StreamItem,
    tool: Seq<char>,
    members: Seq<(Seq<char>, json::FieldView)>,
) -> bool {
    is_call(item, tool, members) && (item matches StreamItem::ToolCall(call) && json::reads_back(
        call.args@,
        members,
    ))
}

/// Whether the items are what the script has for a context.
pub open spec fn is_script(items: Seq<StreamItem>, messages: Seq<ChatMessage>) -> bool {
    let request = last_request(messages);
    let file = file_of(request);
    if !has_run(messages, "read_file"@) {
        &&& items.len() == 5
        &&& is_delta(items[0], "Voy a leer "@)
        &&& is_delta(items[1], "el archivo "@)
        &&& is_delta(items[2], "`"@ + file + "` "@)
        &&& is_delta(items[3], "mencionado."@)
        &&& is_legible_call(items[4], "read_file"@, seq![("path"@, json::FieldView::Text(file))])
    } else if text::occurs(outside::lowercase_text(request), "test"@) && !has_run(
        messages,
        "run_shell"@,
    ) {
        &&& items.len() == 2
        &&& is_delta(items[0], "Ahora ejecuto la suite de tests."@)
        &&& is_legible_call(
            items[1],
            "run_shell"@,
            seq![("cmd"@, json::FieldView::Text("cargo test -p core"@))],
        )
    } else if !has_run(messages, "write_file"@) {
        &&& items.len() == 2
        &&& is_delta(items[0], "Dejo mis notas del análisis en el workspace."@)
        &&& is_legible_call(
            items[1],
            "write_file"@,
            seq![
                ("path"@, json::FieldView::Text("RUTSUBO_NOTES.md"@)),
                ("content"@, json::FieldView::Text(notes(file, request))),
            ],
        )
    } else {
        &&& items.len() == 3
        &&& is_delta(items[0], "Listo: archivo revisado"@)
        &&& is_delta(items[1], " y notas escritas."@)
        &&& items[2] == StreamItem::Done(
            StopReason::EndTurn,
            Usage { prompt_tokens: prompt_size(messages) as u32, completion_tokens: 42 },
        )
    }
}

/// Whether every step of the script has run, so that it ends.
pub open spec fn is_over(messages: Seq<ChatMessage>) -> bool {
    &&& has_run(messages, "read_file"@)
    &&& text::occurs(outside::lowercase_text(last_request(messages)), "test"@) ==> has_run(
        messages,
        "run_shell"@,
    )
    &&& has_run(messages, "write_file"@)
}

/// Whether the tokens that the script reports fit: only its end reports any.
pub open spec fn countable(messages: Seq<ChatMessage>) -> bool {
    is_over(messages) ==> prompt_size(messages) <= u32::MAX
}

/// The word without what cannot stand at either end of a file's name.
fn bare_word(w: &str) -> (r: String)
    ensures
        r@ == bare(w@),
{
    let chars = text::to_chars(w);
    let mut start: usize = 0;
    assert(w@.skip(0) == w@);
    while start < chars.len() && !is_name_char(chars[start])
        invariant
            start <= chars.len(),
            chars@ == w@,
            bare_start(w@) == bare_start(w@.skip(start as int)),
        decreases chars.len() - start,
    {
        assert(w@.skip(start as int).drop_first() == w@.skip(start + 1));
        start += 1;
    }
    let ghost rest = w@.skip(start as int);
    let mut end: usize = chars.len();
    assert(rest.take(end - start) == rest);
    while end > start && !is_name_char(chars[end - 1])
        invariant
            start <= end <= chars.len(),
            chars@ == w@,
            rest == w@.skip(start as int),
            bare_end(rest) == bare_end(rest.take(end - start)),
        decreases end,
    {
        assert(rest.take(end - start).drop_last() == rest.take(end - 1 - start));
        assert(rest.take(end - start).last() == chars@[end - 1]);
        end -= 1;
    }
    assert(rest.take(end - start) == w@.subrange(start as int, end as int));
    text::slice_text(&chars, start, end)
}

/// Whether a character can stand at the end of a file's name.
fn is_name_char(c: char) -> (r: bool)
    ensures
        r == name_char(c),
{
    outside::is_word_char(c) || c == '/' || c == '.' || c == '_' || c == '-'
}

/// Whether a word looks like a file.
fn is_file_like(w: &str) -> (r: bool)
    ensures
        r == looks_like_file(w@),
{
    let chars = text::to_chars(w);
    if chars.len() == 0 || text::begins_with(w, "http") {
        return false;
    }
    text::has_char(w, '/') || (text::has_char(w, '.') && chars[chars.len() - 1] != '.')
}

/// The tokens of a context, if they can be counted.
pub fn prompt_tokens(messages: &Vec<ChatMessage>) -> (r: Option<u32>)
    ensures
        r is Some <==> prompt_size(messages@) <= u32::MAX,
        r matches Some(n) ==> n == prompt_size(messages@),
{
    let mut total: u32 = 0;
    let mut i: usize = 0;
    while i < messages.len()
        invariant
            i <= messages.len(),
            total == prompt_size(messages@.take(i as int)),
        decreases messages.len() - i,
    {
        let bytes: u64 = text::byte_count(messages[i].content.as_str()) as u64;
        let tokens: u32 = (bytes % 0x1_0000_0000 / 4) as u32;
        assert(messages@.take(i + 1).drop_last() == messages@.take(i as int));
        match total.checked_add(tokens) {
            Some(sum) => {
                total = sum;
            },
            None => {
                proof {
                    lemma_prompt_grows(messages@, i + 1);
                }
                return None;
            },
        }
        i += 1;
    }
    assert(messages@.take(i as int) == messages@);
    Some(total)
}

/// A context has no fewer tokens than its start.
proof fn lemma_prompt_grows(messages: Seq<ChatMessage>, n: int)
    requires
        0 <= n <= messages.len(),
    ensures
        prompt_size(messages.take(n)) <= prompt_size(messages),
    decreases messages.len() - n,
{
    if n < messages.len() {
        lemma_prompt_grows(messages, n + 1);
        assert(messages.take(n + 1).drop_last() == messages.take(n));
    } else {
        assert(messages.take(n) == messages);
    }
}

impl MockProvider {
    /// A provider under a name.
    pub fn new(id: String) -> (r: Self)
        ensures
            r.id.0 == id,
            r.delay_ms == DELAY_MS,
    {
        MockProvider { id: ProviderId(id), delay_ms: DELAY_MS }
    }

    /// The name of the provider.
    pub fn id(&self) -> (r: ProviderId)
        ensures
            r == self.id,
    {
        self.id.clone()
    }

    /// The file that a message mentions.
    pub fn mentioned_file(content: &str) -> (r: String)
        ensures
            r@ == file_of(content@),
    {
        let words = text::split_whitespace(content);
        let ghost all = text::words(content@);
        let mut i: usize = 0;
        assert(all.skip(0) == all);
        while i < words.len()
            invariant
                i <= words.len(),
                all == text::words(content@),
                text::views(words@) == all,
                first_file(all) == first_file(all.skip(i as int)),
            decreases words.len() - i,
        {
            let word = bare_word(words[i].as_str());
            assert(text::views(words@)[i as int] == words@[i as int]@);
            if is_file_like(word.as_str()) {
                return word;
            }
            assert(all.skip(i as int).drop_first() == all.skip(i + 1));
            i += 1;
        }
        "README.md".to_owned()
    }

    /// Whether a tool has run, by the results among the messages.
    pub fn tool_ran(messages: &Vec<ChatMessage>, tool: &str) -> (r: bool)
        ensures
            r == has_run(messages@, tool@),
    {
        let mut i: usize = 0;
        while i < messages.len()
            invariant
                i <= messages.len(),
                !has_run(messages@.take(i as int), tool@),
            decreases messages.len() - i,
        {
            let m = &messages[i];
            let mut found = false;
            if text::same(m.role.as_str(), "tool") {
                match json::get_text(m.content.as_str(), "tool") {
                    Some(name) => {
                        found = text::same(name.as_str(), tool);
                    },
                    None => {},
                }
            }
            if found {
                assert(messages@[i as int].role@ == "tool"@);
                return true;
            }
            assert(!has_run(messages@.take(i + 1), tool@)) by {
                let longer = messages@.take(i + 1);
                if has_run(longer, tool@) {
                    let k = choose|k: int|
                        0 <= k < longer.len() && (#[trigger] longer[k]).role@ == "tool"@
                            && outside::json_text_member(longer[k].content@, "tool"@) == Some(
                            tool@,
                        );
                    if k < i {
                        assert(messages@.take(i as int)[k] == longer[k]);
                    }
                }
            }
            i += 1;
        }
        assert(messages@.take(i as int) == messages@);
        false
    }

    /// The content of the last message of the user.
    fn last_user(messages: &Vec<ChatMessage>) -> (r: String)
        ensures
            r@ == last_request(messages@),
    {
        let mut i: usize = messages.len();
        assert(messages@.take(i as int) == messages@);
        while i > 0
            invariant
                i <= messages.len(),
                last_request(messages@) == last_request(messages@.take(i as int)),
            decreases i,
        {
            let m = &messages[i - 1];
            if text::same(m.role.as_str(), "user") {
                return m.content.clone();
            }
            assert(messages@.take(i as int).drop_last() == messages@.take(i - 1));
            i -= 1;
        }
        let none = String::new();
        assert(none@ == Seq::<char>::empty());
        none
    }

    /// The notes that the script writes.
    fn write_notes(file: &str, request: &str) -> (r: String)
        ensures
            r@ == notes(file@, request@),
    {
        let chars = text::to_chars(request);
        let cut = if chars.len() <= 120 {
            chars.len()
        } else {
            120
        };
        let start = text::slice_text(&chars, 0, cut);
        assert(start@ == first_chars(request@, 120));
        let head = text::join3("# Notas de Rutsubo\n\n- Archivo revisado: ", file, "\n- Petición: ");
        text::join3(head.as_str(), start.as_str(), "\n")
    }

    /// A call of a tool.
    fn call(tool: &str, members: &Vec<(String, json::Field)>) -> (r: StreamItem)
        requires
            json::plain_keys(members@),
        ensures
            is_call(r, tool@, json::members_view(members@)),
            json::distinct_keys(members@) ==> is_legible_call(
                r,
                tool@,
                json::members_view(members@),
            ),
    {
        StreamItem::ToolCall(
            ToolCallRequest {
                tool_call_id: ToolCallId::new(),
                tool: tool.to_owned(),
                args: json::object(members),
                provider_call_id: None,
            },
        )
    }

    /// What the script has for a context: it reads, tests, writes and ends,
    /// one step with each call.
    pub fn script(messages: &Vec<ChatMessage>) -> (r: Vec<StreamItem>)
        requires
            countable(messages@),
        ensures
            is_script(r@, messages@),
    {
        let request = Self::last_user(messages);
        let file = Self::mentioned_file(request.as_str());
        let mut items: Vec<StreamItem> = Vec::new();
        let mut members: Vec<(String, json::Field)> = Vec::new();
        if !Self::tool_ran(messages, "read_file") {
            items.push(StreamItem::Delta("Voy a leer ".to_owned()));
            items.push(StreamItem::Delta("el archivo ".to_owned()));
            items.push(StreamItem::Delta(text::join3("`", file.as_str(), "` ")));
            items.push(StreamItem::Delta("mencionado.".to_owned()));
            members.push(json::text_member("path", file.as_str()));
            assert(json::members_view(members@) == seq![("path"@, json::FieldView::Text(file@))]);
            proof {
                json::lemma_reserved_key();
                reveal_strlit("path");
                json::lemma_distinct_keys(members@);
            }
            items.push(Self::call("read_file", &members));
            return items;
        }
        let wants_shell = text::contains(outside::lowercase(request.as_str()).as_str(), "test");
        if wants_shell && !Self::tool_ran(messages, "run_shell") {
            items.push(StreamItem::Delta("Ahora ejecuto la suite de tests.".to_owned()));
            members.push(json::text_member("cmd", "cargo test -p core"));
            assert(json::members_view(members@)
                == seq![("cmd"@, json::FieldView::Text("cargo test -p core"@))]);
            proof {
                json::lemma_reserved_key();
                reveal_strlit("cmd");
                json::lemma_distinct_keys(members@);
            }
            items.push(Self::call("run_shell", &members));
            return items;
        }
        if !Self::tool_ran(messages, "write_file") {
            items.push(
                StreamItem::Delta("Dejo mis notas del análisis en el workspace.".to_owned()),
            );
            let content = Self::write_notes(file.as_str(), request.as_str());
            members.push(json::text_member("path", "RUTSUBO_NOTES.md"));
            members.push(json::text_member("content", content.as_str()));
            assert(json::members_view(members@) == seq![
                ("path"@, json::FieldView::Text("RUTSUBO_NOTES.md"@)),
                ("content"@, json::FieldView::Text(notes(file@, request@))),
            ]);
            proof {
                json::lemma_reserved_key();
                reveal_strlit("path");
                reveal_strlit("content");
                assert(members@[0].0@.len() == 4);
                assert(members@[1].0@.len() == 7);
                json::lemma_distinct_keys(members@);
            }
            items.push(Self::call("write_file", &members));
            return items;
        }
        let prompt_tokens: u32 = match prompt_tokens(messages) {
            Some(n) => n,
            None => 0,
        };
        items.push(StreamItem::Delta("Listo: archivo revisado".to_owned()));
        items.push(StreamItem::Delta(" y notas escritas.".to_owned()));
        items.push(
            StreamItem::Done(StopReason::EndTurn, Usage { prompt_tokens, completion_tokens: 42 }),
        );
        items
    }

    /// The items to stream for a request, unless it was cancelled.
    pub fn generate(&self, req: &GenerationRequest, cancelled: bool) -> (r: Result<
        Vec<StreamItem>,
        ProviderError,
    >)
        requires
            cancelled || countable(req.messages@),
        ensures
            cancelled ==> r == Err::<Vec<StreamItem>, ProviderError>(ProviderError::Cancelled),
            !cancelled ==> (r matches Ok(items) && is_script(items@, req.messages@)),
    {
        if cancelled {
            return Err(ProviderError::Cancelled);
        }
        Ok(Self::script(&req.messages))
    }

    /// The items to stream for a request, as [`MockProvider::generate`] gives
    /// them; none where the tokens to report do not fit.
    pub fn generate_if_countable(&self, req: &GenerationRequest, cancelled: bool) -> (r: Option<
        Result<Vec<StreamItem>, ProviderError>,
    >)
        ensures
            r is None <==> !cancelled && !countable(req.messages@),
            r matches Some(out) ==> {
                &&& cancelled ==> out == Err::<Vec<StreamItem>, ProviderError>(
                    ProviderError::Cancelled,
                )
                &&& !cancelled ==> (out matches Ok(items) && is_script(items@, req.messages@))
            },
    {
        if !cancelled && Self::over(&req.messages) && prompt_tokens(&req.messages).is_none() {
            return None;
        }
        Some(self.generate(req, cancelled))
    }

    /// Whether every step of the script has run.
    fn over(messages: &Vec<ChatMessage>) -> (r: bool)
        ensures
            r == is_over(messages@),
    {
        if !Self::tool_ran(messages, "read_file") || !Self::tool_ran(messages, "write_file") {
            return false;
        }
        let request = Self::last_user(messages);
        !text::contains(outside::lowercase(request.as_str()).as_str(), "test")
            || Self::tool_ran(messages, "run_shell")
    }

    /// What the stream hands out for an item, after its pause.
    pub fn paced(item: StreamItem, cancelled: bool) -> (r: Result<StreamItem, ProviderError>)
        ensures
            cancelled ==> r == Err::<StreamItem, ProviderError>(ProviderError::Cancelled),
            !cancelled ==> r == Ok::<StreamItem, ProviderError>(item),
    {
        if cancelled {
            Err(ProviderError::Cancelled)
        } else {
            Ok(item)
        }
    }

    /// The health of the provider.
    pub fn health(&self) -> (r: ProviderHealth)
        ensures
            r == ProviderHealth::Ready,
    {
        ProviderHealth::Ready
    }
}

/// Law: while a step of the script is missing the script asks for a tool that
/// has not run, and once all have run it ends.
pub proof fn law_script_ends(items: Seq<StreamItem>, messages: Seq<ChatMessage>)
    requires
        is_script(items, messages),
    ensures
        items.len() > 0,
        match items.last() {
            StreamItem::ToolCall(call) => !has_run(messages, call.tool@),
            StreamItem::Done(..) => has_run(messages, "read_file"@) && has_run(
                messages,
                "write_file"@,
            ),
            StreamItem::Delta(_) => false,
        },
{
}

/// How a [`FailingMock`] behaves.
#[derive(Debug, Clone, Copy, PartialEq, Eq, Structural)]
pub enum FailMode {
    /// It answers.
    Healthy,
    Oom,
    Transport,
    InvalidResponse,
    /// It asks for a pause.
    RateLimited,
    /// Its first item takes longer than any wait for one.
    SlowFirstItem,
    /// Its stream breaks after two items.
    FailMidStream,
}

/// Provider that fails on demand.
#[derive(Debug, PartialEq)]
pub struct FailingMock {
    pub id: ProviderId,
    pub mode: FailMode,
    /// How often it was called.
    pub calls: usize,
    pub health: ProviderHealth,
}

/// The stream of a [`FailingMock`].
#[derive(Debug, PartialEq)]
pub enum FailingStream {
    Items(Vec<Result<StreamItem, ProviderError>>),
    /// One item, which comes after an hour or is cancelled before.
    Slow,
}

/// Whether a result is a delta with a given text.
pub open spec fn gives_delta(item: Result<StreamItem, ProviderError>, delta: Seq<char>) -> bool {
    item matches Ok(i) && is_delta(i, delta)
}

impl FailingMock {
    /// A provider under a name, in a mode.
    pub fn new(id: String, mode: FailMode) -> (r: Self)
        ensures
            r.id.0 == id,
            r.mode == mode,
            r.calls == 0,
            r.health == ProviderHealth::Ready,
    {
        FailingMock { id: ProviderId(id), mode, calls: 0, health: ProviderHealth::Ready }
    }

    /// Changes the mode.
    pub fn set_mode(&mut self, mode: FailMode)
        ensures
            *final(self) == (FailingMock { mode, ..*old(self) }),
    {
        self.mode = mode;
    }

    /// Changes the health.
    pub fn set_health(&mut self, health: ProviderHealth)
        ensures
            *final(self) == (FailingMock { health, ..*old(self) }),
    {
        self.health = health;
    }

    /// Counts a call and answers it as the mode says.
    pub fn generate(&mut self) -> (r: Result<FailingStream, ProviderError>)
        ensures
            final(self).calls == old(self).calls.wrapping_add(1),
            final(self).id == old(self).id,
            final(self).mode == old(self).mode,
            final(self).health == old(self).health,
            match old(self).mode {
                FailMode::Healthy => {
                    &&& r matches Ok(FailingStream::Items(items))
                    &&& items@.len() == 2
                    &&& gives_delta(items@[0], "ok"@)
                    &&& items@[1] == Ok::<StreamItem, ProviderError>(
                        StreamItem::Done(
                            StopReason::EndTurn,
                            Usage { prompt_tokens: 1, completion_tokens: 1 },
                        ),
                    )
                },
                FailMode::Oom => r == Err::<FailingStream, ProviderError>(
                    ProviderError::OutOfMemory,
                ),
                FailMode::Transport => r matches Err(ProviderError::Transport(why)) && why@
                    == "conexión rehusada"@,
                FailMode::InvalidResponse => r matches Err(ProviderError::InvalidResponse(why))
                    && why@ == "JSON malformado"@,
                FailMode::RateLimited => r == Err::<FailingStream, ProviderError>(
                    ProviderError::RateLimited { retry_after_s: 30 },
                ),
                FailMode::SlowFirstItem => r == Ok::<FailingStream, ProviderError>(
                    FailingStream::Slow,
                ),
                FailMode::FailMidStream => {
                    &&& r matches Ok(FailingStream::Items(items))
                    &&& items@.len() == 3
                    &&& gives_delta(items@[0], "empecé bien "@)
                    &&& gives_delta(items@[1], "pero "@)
                    &&& items@[2] matches Err(ProviderError::Transport(why))
                    &&& why@ == "se cayó a mitad"@
                },
            },
    {
        self.calls = self.calls.wrapping_add(1);
        match self.mode {
            FailMode::Healthy => {
                let mut items: Vec<Result<StreamItem, ProviderError>> = Vec::new();
                items.push(Ok(StreamItem::Delta("ok".to_owned())));
                items.push(
                    Ok(
                        StreamItem::Done(
                            StopReason::EndTurn,
                            Usage { prompt_tokens: 1, completion_tokens: 1 },
                        ),
                    ),
                );
                Ok(FailingStream::Items(items))
            },
            FailMode::Oom => Err(ProviderError::OutOfMemory),
            FailMode::Transport => Err(ProviderError::Transport("conexión rehusada".to_owned())),
            FailMode::InvalidResponse => Err(
                ProviderError::InvalidResponse("JSON malformado".to_owned()),
            ),
            FailMode::RateLimited => Err(ProviderError::RateLimited { retry_after_s: 30 }),
            FailMode::SlowFirstItem => Ok(FailingStream::Slow),
            FailMode::FailMidStream => {
                let mut items: Vec<Result<StreamItem, ProviderError>> = Vec::new();
                items.push(Ok(StreamItem::Delta("empecé bien ".to_owned())));
                items.push(Ok(StreamItem::Delta("pero ".to_owned())));
                items.push(Err(ProviderError::Transport("se cayó a mitad".to_owned())));
                Ok(FailingStream::Items(items))
            },
        }
    }

    /// The one item of a slow stream: late, or cancelled before.
    pub fn slow_item(cancelled: bool) -> (r: Result<StreamItem, ProviderError>)
        ensures
            cancelled ==> r == Err::<StreamItem, ProviderError>(ProviderError::Cancelled),
            !cancelled ==> gives_delta(r, "tarde"@),
    {
        if cancelled {
            Err(ProviderError::Cancelled)
        } else {
            Ok(StreamItem::Delta("tarde".to_owned()))
        }
    }
}

/// Law: the script reads the file that the user mentioned, then runs the tests
/// if they spoke of them, then writes its notes, then ends; it never calls a
/// tool that has run, and each step says so before it calls. The calls have the
/// arguments that their tools read.
pub proof fn law_script_steps(items: Seq<StreamItem>, messages: Seq<ChatMessage>)
    requires
        is_script(items, messages),
    ensures
        ({
            let read = has_run(messages, "read_file"@);
            let test = text::occurs(outside::lowercase_text(last_request(messages)), "test"@)
                && !has_run(messages, "run_shell"@);
            let wrote = has_run(messages, "write_file"@);
            &&& items.len() >= 2
            &&& items[0] is Delta
            &&& !read ==> (items.last() matches StreamItem::ToolCall(call) && call.tool@
                == "read_file"@ && outside::json_text_member(call.args@, "path"@) == Some(
                file_of(last_request(messages)),
            ))
            &&& read && test ==> (items.last() matches StreamItem::ToolCall(call) && call.tool@
                == "run_shell"@ && outside::json_text_member(call.args@, "cmd"@) == Some(
                "cargo test -p core"@,
            ))
            &&& read && !test && !wrote ==> (items.last() matches StreamItem::ToolCall(call)
                && call.tool@ == "write_file"@ && outside::json_text_member(call.args@, "path"@)
                == Some("RUTSUBO_NOTES.md"@) && outside::json_text_member(
                call.args@,
                "content"@,
            ) is Some)
            &&& read && !test && wrote ==> (items.last() matches StreamItem::Done(stop, _) && stop
                == StopReason::EndTurn)
        }),
{
    let request = last_request(messages);
    let file = file_of(request);
    let path = seq![("path"@, json::FieldView::Text(file))];
    let cmd = seq![("cmd"@, json::FieldView::Text("cargo test -p core"@))];
    let note = seq![
        ("path"@, json::FieldView::Text("RUTSUBO_NOTES.md"@)),
        ("content"@, json::FieldView::Text(notes(file, request))),
    ];
    assert(path[0].0 == "path"@ && cmd[0].0 == "cmd"@);
    assert(note[0].0 == "path"@ && note[1].0 == "content"@);
}

/// Law: what the script works on is the last thing the user said, and the file
/// is the first word of it that looks like one; without any it is the readme.
pub proof fn law_script_follows_the_user(
    messages: Seq<ChatMessage>,
    m: ChatMessage,
    words: Seq<Seq<char>>,
    word: Seq<char>,
)
    ensures
        m.role@ == "user"@ ==> last_request(messages.push(m)) == m.content@,
        m.role@ != "user"@ ==> last_request(messages.push(m)) == last_request(messages),
        looks_like_file(bare(word)) ==> first_file(seq![word] + words) == bare(word),
        !looks_like_file(bare(word)) ==> first_file(seq![word] + words) == first_file(words),
        first_file(Seq::empty()) == "README.md"@,
{
    assert(messages.push(m).drop_last() == messages);
    assert((seq![word] + words).drop_first() == words);
}

/// Law: the notes name the file that was read and quote the request, its first
/// 120 characters where it is longer.
pub proof fn law_notes(file: Seq<char>, request: Seq<char>)
    ensures
        text::occurs(notes(file, request), file),
        request.len() <= 120 ==> text::occurs(notes(file, request), request),
        request.len() > 120 ==> text::occurs(notes(file, request), request.take(120)),
        "# Notas de Rutsubo"@.is_prefix_of(notes(file, request)),
{
    let head = "# Notas de Rutsubo\n\n- Archivo revisado: "@;
    let mid = "\n- Petición: "@;
    let quoted = if request.len() <= 120 {
        request
    } else {
        request.take(120)
    };
    let all = notes(file, request);
    let at = head.len() as int;
    assert(all.subrange(at, at + file.len()) == file);
    assert(text::occurs_at(all, file, at));
    let then = (head + file + mid).len() as int;
    assert(all.subrange(then, then + quoted.len()) == quoted);
    assert(text::occurs_at(all, quoted, then));
    reveal_strlit("# Notas de Rutsubo\n\n- Archivo revisado: ");
    reveal_strlit("# Notas de Rutsubo");
    assert("# Notas de Rutsubo"@.is_prefix_of(all));
}

/// Law: each message adds a quarter of its bytes to the tokens of a context,
/// and the end of the script reports that sum.
pub proof fn law_prompt_tokens(
    messages: Seq<ChatMessage>,
    m: ChatMessage,
    items: Seq<StreamItem>,
)
    requires
        text::byte_len(m.content@) < 0x1_0000_0000,
    ensures
        prompt_size(Seq::empty()) == 0,
        prompt_size(messages.push(m)) == prompt_size(messages) + text::byte_len(m.content@) / 4,
        is_script(items, messages) && prompt_size(messages) <= u32::MAX ==> (
        items.last() matches StreamItem::Done(_, usage) ==> usage.prompt_tokens == prompt_size(
            messages,
        ) && usage.completion_tokens == 42),
{
    assert(messages.push(m).drop_last() == messages);
    lemma_prompt_is_positive(messages);
}

proof fn lemma_prompt_is_positive(messages: Seq<ChatMessage>)
    ensures
        prompt_size(messages) >= 0,
    decreases messages.len(),
{
    if messages.len() > 0 {
        lemma_prompt_is_positive(messages.drop_last());
    }
}

/// Law: a word loses what cannot stand in a file's name at its ends, and nothing
/// else; what is left begins and ends with what can.
pub proof fn law_bare_word(s: Seq<char>)
    ensures
        bare(s).len() > 0 ==> name_char(bare(s)[0]) && name_char(bare(s).last()),
        exists|from: int| #[trigger] is_kernel(s, from, bare(s)),
{
    lemma_bare_start(s);
    let t = bare_start(s);
    lemma_bare_end(t);
    let kernel = bare(s);
    if kernel.len() > 0 {
        assert(kernel[0] == t.take(kernel.len() as int)[0]);
    }
    let from = s.len() - t.len();
    assert(kernel == t.take(kernel.len() as int));
    assert(s.subrange(from, from + kernel.len()) == kernel);
    assert forall|i: int| from + kernel.len() <= i < s.len() implies !name_char(
        #[trigger] s[i],
    ) by {
        assert(t[i - from] == s[i]);
    }
    assert(is_kernel(s, from, kernel));
}

/// Whether a part stands in a word from a position on, with nothing before it
/// and after it that can stand in a file's name.
pub open spec fn is_kernel(s: Seq<char>, from: int, part: Seq<char>) -> bool {
    &&& 0 <= from && from + part.len() <= s.len()
    &&& s.subrange(from, from + part.len()) == part
    &&& forall|i: int| 0 <= i < from ==> !name_char(#[trigger] s[i])
    &&& forall|i: int| from + part.len() <= i < s.len() ==> !name_char(#[trigger] s[i])
}

proof fn lemma_bare_start(s: Seq<char>)
    ensures
        bare_start(s).len() <= s.len(),
        bare_start(s) == s.skip(s.len() - bare_start(s).len()),
        bare_start(s).len() > 0 ==> name_char(bare_start(s)[0]),
        forall|i: int| 0 <= i < s.len() - bare_start(s).len() ==> !name_char(#[trigger] s[i]),
    decreases s.len(),
{
    if s.len() > 0 && !name_char(s[0]) {
        let rest = s.drop_first();
        lemma_bare_start(rest);
        let t = bare_start(s);
        assert(rest.skip(rest.len() - t.len()) == s.skip(s.len() - t.len()));
        assert forall|i: int| 0 <= i < s.len() - t.len() implies !name_char(#[trigger] s[i]) by {
            if i > 0 {
                assert(rest[i - 1] == s[i]);
            }
        }
    } else {
        assert(s.skip(0) == s);
    }
}

proof fn lemma_bare_end(s: Seq<char>)
    ensures
        bare_end(s).is_prefix_of(s),
        bare_end(s).len() > 0 ==> name_char(bare_end(s).last()),
        forall|i: int| bare_end(s).len() <= i < s.len() ==> !name_char(#[trigger] s[i]),
    decreases s.len(),
{
    if s.len() > 0 && !name_char(s.last()) {
        let rest = s.drop_last();
        lemma_bare_end(rest);
        let t = bare_end(s);
        assert(rest.take(t.len() as int) == s.take(t.len() as int));
        assert forall|i: int| t.len() <= i < s.len() implies !name_char(#[trigger] s[i]) by {
            if i < rest.len() {
                assert(rest[i] == s[i]);
            }
        }
    } else {
        assert(s.take(s.len() as int) == s);
    }
}

/// Law: a word with a slash looks like a file, and so does one with a dot that
/// is not its end, but no link does, and no word without either.
pub proof fn law_looks_like_file(w: Seq<char>)
    ensures
        "http"@.is_prefix_of(w) ==> !looks_like_file(w),
        !"http"@.is_prefix_of(w) && w.contains('/') ==> looks_like_file(w),
        !w.contains('/') && !w.contains('.') ==> !looks_like_file(w),
        !"http"@.is_prefix_of(w) && !w.contains('/') && w.contains('.') ==> (looks_like_file(w)
            <==> w.last() != '.'),
{
}

} // verus!
