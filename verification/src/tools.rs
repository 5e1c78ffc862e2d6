//! Tools of the agent.
//!
//! Each tool reads its arguments, says what it wants from the file system or
//! the shell, and turns what came back into a result. Every path goes through
//! [`crate::protocol::paths`].

pub mod edit_file;
pub mod read_file;
pub mod run_shell;
pub mod search;
pub mod write_file;

use vstd::prelude::*;

use crate::json;
use crate::llm::ToolSchema;
use crate::outside;
use crate::protocol::diff::FileDiff;
use crate::protocol::ids::SessionId;
use crate::protocol::paths::PathError;
use crate::text;

verus! {

/// Limit on the output of every tool.
pub const MAX_OUTPUT_BYTES: usize = 65_536;

/// Where a tool runs.
#[derive(Debug, PartialEq)]
pub struct ToolCtx {
    pub workspace: String,
    pub session_id: SessionId,
}

/// Outcome of a tool. A failure is an outcome too: the model decides what to
/// do about it.
#[derive(Debug, PartialEq)]
pub struct ToolResult {
    pub ok: bool,
    pub output: String,
    pub truncated: bool,
    /// What `write_file` and `edit_file` changed.
    pub diff: Option<FileDiff>,
}

/// Whether an output is the longest prefix of a text within the limit.
pub open spec fn is_excerpt(output: Seq<char>, full: Seq<char>) -> bool {
    &&& output.is_prefix_of(full)
    &&& text::byte_len(output) <= MAX_OUTPUT_BYTES
    &&& output.len() < full.len() ==> text::byte_len(full.take(output.len() as int + 1))
        > MAX_OUTPUT_BYTES
}

impl ToolResult {
    /// Whether this is the result with a given verdict, full output and diff:
    /// the output is cut to the limit, and says so.
    pub open spec fn is_result(self, ok: bool, full: Seq<char>, diff: Option<FileDiff>) -> bool {
        &&& self.ok == ok
        &&& self.diff == diff
        &&& self.truncated == (text::byte_len(full) > MAX_OUTPUT_BYTES)
        &&& is_excerpt(self.output@, full)
        &&& !self.truncated ==> self.output@ == full
    }

    /// A success.
    pub fn ok(output: String) -> (r: Self)
        ensures
            r.is_result(true, output@, None),
    {
        Self::truncating(true, output, None)
    }

    /// A failure.
    pub fn fail(output: String) -> (r: Self)
        ensures
            r.is_result(false, output@, None),
    {
        Self::truncating(false, output, None)
    }

    /// A success that changed a file.
    pub fn with_diff(output: String, diff: FileDiff) -> (r: Self)
        ensures
            r.is_result(true, output@, Some(diff)),
    {
        Self::truncating(true, output, Some(diff))
    }

    /// Cuts the output to the limit, at a character, and says whether it did.
    fn truncating(ok: bool, output: String, diff: Option<FileDiff>) -> (r: Self)
        ensures
            r.is_result(ok, output@, diff),
    {
        let truncated = text::byte_count(output.as_str()) > MAX_OUTPUT_BYTES;
        if truncated {
            let output = text::take_bytes(output.as_str(), MAX_OUTPUT_BYTES);
            ToolResult { ok, output, truncated, diff }
        } else {
            ToolResult { ok, output, truncated, diff }
        }
    }
}

/// Law: no output of a tool exceeds the limit, and an output that was cut is a
/// proper prefix of what the tool had to say.
pub proof fn law_output_is_bounded(res: ToolResult, ok: bool, full: Seq<char>, diff: Option<FileDiff>)
    requires
        res.is_result(ok, full, diff),
    ensures
        text::byte_len(res.output@) <= MAX_OUTPUT_BYTES,
        res.output@.is_prefix_of(full),
        res.truncated ==> res.output@.len() < full.len(),
        !res.truncated ==> res.output@ == full,
{
    if res.truncated && res.output@.len() == full.len() {
        assert(res.output@ == full);
    }
}

/// The string that an argument must hold: present and not empty.
pub open spec fn string_arg(args: Seq<char>, key: Seq<char>) -> Option<Seq<char>> {
    match outside::json_text_member(args, key) {
        Some(s) => if s.len() > 0 { Some(s) } else { None },
        None => None,
    }
}

/// What is said of a missing argument.
pub open spec fn missing_arg(key: Seq<char>) -> Seq<char> {
    "falta el argumento obligatorio `"@ + key + "`"@
}

/// Reads a mandatory string argument.
pub fn str_arg(args: &str, key: &str) -> (r: Result<String, String>)
    ensures
        match r {
            Ok(s) => string_arg(args@, key@) == Some(s@),
            Err(e) => string_arg(args@, key@) is None && e@ == missing_arg(key@),
        },
{
    match json::get_text(args, key) {
        Some(s) => {
            if !s.as_str().is_empty() {
                return Ok(s);
            }
        },
        None => {},
    }
    Err(text::join3("falta el argumento obligatorio `", key, "`"))
}

/// The result of a tool whose path was refused.
pub fn path_rejected(err: &PathError) -> (r: ToolResult)
    ensures
        r.is_result(false, "ruta rechazada (RNF-05): "@ + err.message(), None),
{
    ToolResult::fail(text::join2("ruta rechazada (RNF-05): ", err.text().as_str()))
}

/// The tools there are.
#[derive(Debug, Clone, Copy, PartialEq, Eq, Structural)]
pub enum Tool {
    ReadFile,
    WriteFile,
    EditFile,
    Search,
    RunShell,
}

impl Tool {
    /// The name by which the model calls the tool.
    pub open spec fn name_text(self) -> Seq<char> {
        match self {
            Tool::ReadFile => "read_file"@,
            Tool::WriteFile => "write_file"@,
            Tool::EditFile => "edit_file"@,
            Tool::Search => "search"@,
            Tool::RunShell => "run_shell"@,
        }
    }

    /// Whether the tool needs a human decision: those that change something
    /// do.
    pub open spec fn gated(self) -> bool {
        self is WriteFile || self is EditFile || self is RunShell
    }

    /// Whether a schema is that of the tool.
    pub open spec fn is_schema(self, s: ToolSchema) -> bool {
        match self {
            Tool::ReadFile => read_file::is_schema(s),
            Tool::WriteFile => write_file::is_schema(s),
            Tool::EditFile => edit_file::is_schema(s),
            Tool::Search => search::is_schema(s),
            Tool::RunShell => run_shell::is_schema(s),
        }
    }

    /// The name by which the model calls the tool.
    pub fn name(&self) -> (r: &'static str)
        ensures
            r@ == self.name_text(),
    {
        match self {
            Tool::ReadFile => read_file::ReadFile.name(),
            Tool::WriteFile => write_file::WriteFile.name(),
            Tool::EditFile => edit_file::EditFile.name(),
            Tool::Search => search::Search.name(),
            Tool::RunShell => run_shell::RunShell.name(),
        }
    }

    /// The tool as the model sees it.
    pub fn schema(&self) -> (r: ToolSchema)
        ensures
            self.is_schema(r),
            r.name@ == self.name_text(),
    {
        match self {
            Tool::ReadFile => read_file::ReadFile.schema(),
            Tool::WriteFile => write_file::WriteFile.schema(),
            Tool::EditFile => edit_file::EditFile.schema(),
            Tool::Search => search::Search.schema(),
            Tool::RunShell => run_shell::RunShell.schema(),
        }
    }

    /// Whether the tool needs a human decision.
    pub fn requires_approval(&self) -> (r: bool)
        ensures
            r == self.gated(),
    {
        match self {
            Tool::ReadFile => read_file::ReadFile.requires_approval(),
            Tool::WriteFile => write_file::WriteFile.requires_approval(),
            Tool::EditFile => edit_file::EditFile.requires_approval(),
            Tool::Search => search::Search.requires_approval(),
            Tool::RunShell => run_shell::RunShell.requires_approval(),
        }
    }
}

/// Law: no two tools share a name.
pub proof fn law_tool_names_are_distinct(a: Tool, b: Tool)
    ensures
        a.name_text() == b.name_text() <==> a == b,
{
    reveal_strlit("read_file");
    reveal_strlit("write_file");
    reveal_strlit("edit_file");
    reveal_strlit("search");
    reveal_strlit("run_shell");
    assert("read_file"@[1] == 'e');
    assert("edit_file"@[1] == 'd');
    assert("run_shell"@[1] == 'u');
    let (s, t) = (a.name_text(), b.name_text());
    assert(s.len() == t.len() && s[1] == t[1] ==> a == b);
}

/// Every tool, in the order of the names.
pub open spec fn by_name() -> Seq<Tool> {
    seq![Tool::EditFile, Tool::ReadFile, Tool::RunShell, Tool::Search, Tool::WriteFile]
}

/// The tools that an agent may use.
#[derive(Debug, PartialEq)]
pub struct ToolRegistry {
    tools: Vec<Tool>,
}

impl ToolRegistry {
    /// The registered tools.
    pub closed spec fn registered(self) -> Set<Tool> {
        self.tools@.to_set()
    }

    /// The registered tools, in the order of their names.
    pub open spec fn ordered(self) -> Seq<Tool> {
        by_name().filter(|t: Tool| self.registered().contains(t))
    }

    /// Whether schemas are those of the registered tools, in the order of their
    /// names.
    pub open spec fn are_schemas(self, schemas: Seq<ToolSchema>) -> bool {
        &&& schemas.len() == self.ordered().len()
        &&& forall|i: int|
            0 <= i < schemas.len() ==> self.ordered()[i].is_schema(#[trigger] schemas[i])
    }

    /// A registry of no tools.
    pub fn empty() -> (r: Self)
        ensures
            r.registered() == Set::<Tool>::empty(),
    {
        let r = ToolRegistry { tools: Vec::new() };
        assert(r.registered() =~= Set::<Tool>::empty());
        r
    }

    /// Every tool.
    pub fn standard() -> (r: Self)
        ensures
            forall|t: Tool| r.registered().contains(t),
    {
        let mut registry = Self::empty();
        registry.register(Tool::ReadFile);
        registry.register(Tool::WriteFile);
        registry.register(Tool::EditFile);
        registry.register(Tool::Search);
        registry.register(Tool::RunShell);
        registry
    }

    /// The tools for a deployment on a server: those on files, and no shell.
    pub fn remote() -> (r: Self)
        ensures
            forall|t: Tool| r.registered().contains(t) <==> t != Tool::RunShell,
    {
        let mut registry = Self::empty();
        registry.register(Tool::ReadFile);
        registry.register(Tool::WriteFile);
        registry.register(Tool::EditFile);
        registry.register(Tool::Search);
        registry
    }

    /// Adds a tool; a tool of the same name gives way to it.
    pub fn register(&mut self, tool: Tool)
        ensures
            final(self).registered() == old(self).registered().insert(tool),
    {
        let ghost before = self.tools@;
        self.tools.push(tool);
        proof {
            let after = self.tools@;
            assert forall|t: Tool| after.to_set().contains(t) <==> before.to_set().insert(
                tool,
            ).contains(t) by {
                if before.contains(t) {
                    let i = choose|i: int| 0 <= i < before.len() && before[i] == t;
                    assert(after[i] == t);
                }
                assert(after[before.len() as int] == tool);
                if after.contains(t) && t != tool {
                    let i = choose|i: int| 0 <= i < after.len() && after[i] == t;
                    assert(before[i] == t);
                }
            }
            assert(after.to_set() =~= before.to_set().insert(tool));
        }
    }

    fn has(&self, tool: Tool) -> (r: bool)
        ensures
            r == self.registered().contains(tool),
    {
        let mut i: usize = 0;
        while i < self.tools.len()
            invariant
                i <= self.tools.len(),
                forall|k: int| 0 <= k < i ==> self.tools@[k] != tool,
            decreases self.tools.len() - i,
        {
            if self.tools[i] == tool {
                assert(self.tools@[i as int] == tool);
                return true;
            }
            i += 1;
        }
        false
    }

    /// The registered tool of a name.
    pub fn get(&self, name: &str) -> (r: Option<Tool>)
        ensures
            match r {
                Some(t) => self.registered().contains(t) && t.name_text() == name@,
                None => forall|t: Tool|
                    #[trigger] self.registered().contains(t) ==> t.name_text() != name@,
            },
    {
        let mut i: usize = 0;
        while i < self.tools.len()
            invariant
                i <= self.tools.len(),
                forall|k: int| 0 <= k < i ==> (#[trigger] self.tools@[k]).name_text() != name@,
            decreases self.tools.len() - i,
        {
            let tool = self.tools[i];
            if text::same(tool.name(), name) {
                assert(self.tools@[i as int] == tool);
                return Some(tool);
            }
            i += 1;
        }
        None
    }

    /// The registered tools as the model sees them, in the order of their
    /// names.
    pub fn schemas(&self) -> (r: Vec<ToolSchema>)
        ensures
            self.are_schemas(r@),
    {
        let mut out: Vec<ToolSchema> = Vec::new();
        let all = [Tool::EditFile, Tool::ReadFile, Tool::RunShell, Tool::Search, Tool::WriteFile];
        assert(all@ =~= by_name());
        let ghost keep = |t: Tool| self.registered().contains(t);
        let mut i: usize = 0;
        proof {
            reveal(Seq::filter);
            assert(by_name().take(0).filter(keep) == Seq::<Tool>::empty());
        }
        while i < 5
            invariant
                i <= 5,
                all@ == by_name(),
                keep == (|t: Tool| self.registered().contains(t)),
                out@.len() == by_name().take(i as int).filter(keep).len(),
                forall|k: int|
                    0 <= k < out@.len() ==> by_name().take(i as int).filter(keep)[k].is_schema(
                        #[trigger] out@[k],
                    ),
            decreases 5 - i,
        {
            let tool = all[i];
            proof {
                reveal(Seq::filter);
                assert(by_name().take(i + 1).drop_last() == by_name().take(i as int));
            }
            if self.has(tool) {
                out.push(tool.schema());
            }
            i += 1;
        }
        assert(by_name().take(5) == by_name());
        out
    }
}

/// Law: exactly the tools that change something, on disk or through a shell,
/// need a human decision.
pub proof fn law_changing_tools_need_a_decision(tool: Tool)
    ensures
        tool.gated() <==> tool == Tool::WriteFile || tool == Tool::EditFile || tool
            == Tool::RunShell,
        tool.name_text() == "write_file"@ || tool.name_text() == "edit_file"@ || tool.name_text()
            == "run_shell"@ ==> tool.gated(),
        tool.name_text() == "read_file"@ || tool.name_text() == "search"@ ==> !tool.gated(),
{
    law_tool_names_are_distinct(tool, Tool::ReadFile);
    law_tool_names_are_distinct(tool, Tool::WriteFile);
    law_tool_names_are_distinct(tool, Tool::EditFile);
    law_tool_names_are_distinct(tool, Tool::Search);
    law_tool_names_are_distinct(tool, Tool::RunShell);
}

/// Law: the result of a tool keeps its verdict and its diff. An output is cut
/// exactly when it takes more than 65536 bytes, and then keeps as many
/// characters as fit.
pub proof fn law_result_keeps_what_fits(
    res: ToolResult,
    ok: bool,
    full: Seq<char>,
    diff: Option<FileDiff>,
)
    requires
        res.is_result(ok, full, diff),
    ensures
        res.ok == ok,
        res.diff == diff,
        res.truncated <==> text::byte_len(full) > 65_536,
        text::byte_len(full) <= 65_536 ==> res.output@ == full,
        res.truncated ==> res.output@ == full.take(res.output@.len() as int) && text::byte_len(
            full.take(res.output@.len() as int + 1),
        ) > 65_536,
{
    law_output_is_bounded(res, ok, full, diff);
}

/// Law: a mandatory argument is taken as it is where it is a text that is not
/// empty, and is missing everywhere else.
pub proof fn law_mandatory_argument(args: Seq<char>, key: Seq<char>)
    ensures
        string_arg(args, key) is Some <==> outside::json_text_member(args, key) is Some
            && outside::json_text_member(args, key)->0.len() > 0,
        string_arg(args, key) is Some ==> string_arg(args, key) == outside::json_text_member(
            args,
            key,
        ),
{
}

/// Law: the model sees exactly the tools that are registered, each once, and in
/// the order of their names.
pub proof fn law_model_sees_the_registered_tools(
    registry: ToolRegistry,
    schemas: Seq<ToolSchema>,
    tool: Tool,
)
    requires
        registry.are_schemas(schemas),
    ensures
        registry.registered().contains(tool) <==> exists|i: int|
            0 <= i < schemas.len() && (#[trigger] schemas[i]).name@ == tool.name_text(),
        forall|i: int, j: int|
            #![trigger schemas[i], schemas[j]]
            0 <= i < j < schemas.len() ==> sorts_before(schemas[i].name@, schemas[j].name@),
{
    let keep = |t: Tool| registry.registered().contains(t);
    let all = by_name();
    let kept = registry.ordered();
    reveal_strlit("read_file");
    reveal_strlit("write_file");
    reveal_strlit("edit_file");
    reveal_strlit("search");
    reveal_strlit("run_shell");
    assert forall|i: int| 0 <= i < schemas.len() implies (#[trigger] schemas[i]).name@
        == kept[i].name_text() by {
        assert(kept[i].is_schema(schemas[i]));
    }
    assert(all[0] == Tool::EditFile && all[1] == Tool::ReadFile && all[2] == Tool::RunShell);
    assert(all[3] == Tool::Search && all[4] == Tool::WriteFile);
    if registry.registered().contains(tool) {
        let k: int = match tool {
            Tool::EditFile => 0,
            Tool::ReadFile => 1,
            Tool::RunShell => 2,
            Tool::Search => 3,
            Tool::WriteFile => 4,
        };
        assert(all[k] == tool);
        assert(keep(all[k]));
        all.lemma_filter_contains(keep, k);
        let i = choose|i: int| 0 <= i < kept.len() && kept[i] == tool;
        assert(schemas[i].name@ == tool.name_text());
    }
    if exists|i: int|
        0 <= i < schemas.len() && (#[trigger] schemas[i]).name@ == tool.name_text() {
        let i = choose|i: int|
            0 <= i < schemas.len() && (#[trigger] schemas[i]).name@ == tool.name_text();
        law_tool_names_are_distinct(kept[i], tool);
        all.lemma_filter_pred(keep, i);
        assert(keep(kept[i]));
    }
    assert(all.take(5) == all);
    lemma_kept_ascends(keep, 5);
    assert forall|i: int, j: int|
        #![trigger schemas[i], schemas[j]]
        0 <= i < j < schemas.len() implies sorts_before(schemas[i].name@, schemas[j].name@) by {
        assert(place(kept[i]) < place(kept[j]));
        assert(schemas[i].name@ == kept[i].name_text());
        assert(schemas[j].name@ == kept[j].name_text());
        lemma_places(kept[i], kept[j]);
    }
}

/// Whether a name comes before another by its first two letters.
pub open spec fn sorts_before(a: Seq<char>, b: Seq<char>) -> bool {
    a[0] < b[0] || (a[0] == b[0] && a[1] < b[1])
}

/// The place of a tool in the order of the names.
spec fn place(tool: Tool) -> int {
    match tool {
        Tool::EditFile => 0,
        Tool::ReadFile => 1,
        Tool::RunShell => 2,
        Tool::Search => 3,
        Tool::WriteFile => 4,
    }
}

proof fn lemma_places(a: Tool, b: Tool)
    requires
        place(a) < place(b),
    ensures
        sorts_before(a.name_text(), b.name_text()),
{
    reveal_strlit("read_file");
    reveal_strlit("write_file");
    reveal_strlit("edit_file");
    reveal_strlit("search");
    reveal_strlit("run_shell");
    assert("read_file"@[0] == 'r' && "read_file"@[1] == 'e');
    assert("run_shell"@[0] == 'r' && "run_shell"@[1] == 'u');
    assert("edit_file"@[0] == 'e' && "search"@[0] == 's' && "write_file"@[0] == 'w');
}

proof fn lemma_kept_ascends(keep: spec_fn(Tool) -> bool, n: int)
    requires
        0 <= n <= 5,
    ensures
        forall|i: int, j: int|
            #![trigger by_name().take(n).filter(keep)[i], by_name().take(n).filter(keep)[j]]
            0 <= i < j < by_name().take(n).filter(keep).len() ==> place(
                by_name().take(n).filter(keep)[i],
            ) < place(by_name().take(n).filter(keep)[j]),
        forall|i: int|
            0 <= i < by_name().take(n).filter(keep).len() ==> place(
                #[trigger] by_name().take(n).filter(keep)[i],
            ) < n,
    decreases n,
{
    reveal(Seq::filter);
    if n > 0 {
        lemma_kept_ascends(keep, n - 1);
        assert(by_name().take(n).drop_last() == by_name().take(n - 1));
        let last = by_name()[n - 1];
        assert(by_name().take(n).last() == last);
        assert(place(last) == n - 1);
        let before = by_name().take(n - 1).filter(keep);
        let after = by_name().take(n).filter(keep);
        if keep(last) {
            assert(after == before.push(last));
        } else {
            assert(after == before);
        }
        assert forall|i: int| 0 <= i < after.len() implies place(#[trigger] after[i]) < n by {
            if i < before.len() {
                assert(after[i] == before[i]);
            }
        }
        assert forall|i: int, j: int|
            #![trigger after[i], after[j]]
            0 <= i < j < after.len() implies place(after[i]) < place(after[j]) by {
            assert(after[i] == before[i]);
            if j < before.len() {
                assert(after[j] == before[j]);
            }
        }
    } else {
        assert(by_name().take(0).filter(keep) == Seq::<Tool>::empty());
    }
}

} // verus!
