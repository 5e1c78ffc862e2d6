//! `search`: lines of the workspace that match a pattern.

use vstd::prelude::*;
use vstd::string::*;

use crate::json;
use crate::llm::ToolSchema;
use crate::outside;
use crate::text;
use crate::tools::{self, ToolResult};

verus! {

/// The tool.
pub struct Search;

/// Hits when the call sets no limit.
pub const DEFAULT_MAX_RESULTS: usize = 50;

/// The largest limit a call may set.
pub const MAX_MAX_RESULTS: usize = 200;

/// What the tool is asked to look for.
#[derive(Debug, PartialEq)]
pub struct SearchRequest {
    pub pattern: String,
    /// Directory to look in; none for the whole workspace.
    pub path: Option<String>,
    pub max_results: usize,
}

/// Hits found so far, and how many are wanted.
#[derive(Debug, PartialEq)]
pub struct Hits {
    pub max_results: usize,
    pub lines: Vec<String>,
}

/// Whether a schema is that of the tool.
pub open spec fn is_schema(s: ToolSchema) -> bool {
    &&& s.name@ == "search"@
    &&& s.description@
        == "Busca un patrón (regex) en el contenido del workspace; lista rutas y líneas"@
    &&& s.parameters@
        == "{\"properties\":{\"max_results\":{\"description\":\"Tope de coincidencias (default 50, máx 200)\",\"type\":\"integer\"},\"path\":{\"description\":\"Subdirectorio relativo donde buscar (opcional)\",\"type\":\"string\"},\"pattern\":{\"description\":\"Expresión regular a buscar\",\"type\":\"string\"}},\"required\":[\"pattern\"],\"type\":\"object\"}"@
}

/// The limit that a call sets: between one and the largest.
pub open spec fn limit_of(args: Seq<char>) -> int {
    match outside::json_u64_member(args, "max_results"@) {
        None => DEFAULT_MAX_RESULTS as int,
        Some(n) => if n < 1 {
            1
        } else if n > MAX_MAX_RESULTS {
            MAX_MAX_RESULTS as int
        } else {
            n as int
        },
    }
}

/// A hit as the model reads it.
pub open spec fn hit_line(path: Seq<char>, line: nat, found: Seq<char>) -> Seq<char> {
    path + ":"@ + text::decimal(line) + ": "@ + text::trim_end(found)
}

/// What a call asks to be looked for.
pub open spec fn asks(args: Seq<char>, r: Result<SearchRequest, ToolResult>) -> bool {
    match r {
        Ok(req) => {
            &&& tools::string_arg(args, "pattern"@) == Some(req.pattern@)
            &&& req.path is Some <==> tools::string_arg(args, "path"@) is Some
            &&& req.path matches Some(p) ==> tools::string_arg(args, "path"@) == Some(p@)
            &&& req.max_results == limit_of(args)
        },
        Err(res) => tools::string_arg(args, "pattern"@) is None && res.is_result(
            false,
            tools::missing_arg("pattern"@),
            None,
        ),
    }
}

/// What a search comes to.
pub open spec fn ends(found: Result<Hits, String>, r: ToolResult) -> bool {
    match found {
        Err(e) => r.is_result(false, "búsqueda fallida: "@ + e@, None),
        Ok(hits) => r.is_result(true, hits.report(), None),
    }
}

impl Search {
    /// The name of the tool.
    pub fn name(&self) -> (r: &'static str)
        ensures
            r@ == "search"@,
    {
        "search"
    }

    /// The tool as the model sees it.
    pub fn schema(&self) -> (r: ToolSchema)
        ensures
            is_schema(r),
    {
        ToolSchema {
            name: "search".to_owned(),
            description: "Busca un patrón (regex) en el contenido del workspace; lista rutas y líneas".to_owned(),
            parameters: "{\"properties\":{\"max_results\":{\"description\":\"Tope de coincidencias (default 50, máx 200)\",\"type\":\"integer\"},\"path\":{\"description\":\"Subdirectorio relativo donde buscar (opcional)\",\"type\":\"string\"},\"pattern\":{\"description\":\"Expresión regular a buscar\",\"type\":\"string\"}},\"required\":[\"pattern\"],\"type\":\"object\"}".to_owned(),
        }
    }

    /// Searching changes nothing: no decision is needed.
    pub fn requires_approval(&self) -> (r: bool)
        ensures
            !r,
    {
        false
    }

    /// What to look for, or the failure of a call without a pattern.
    pub fn request(&self, args: &str) -> (r: Result<SearchRequest, ToolResult>)
        ensures
            asks(args@, r),
    {
        let pattern = match tools::str_arg(args, "pattern") {
            Ok(pattern) => pattern,
            Err(e) => return Err(ToolResult::fail(e)),
        };
        let path = match tools::str_arg(args, "path") {
            Ok(path) => Some(path),
            Err(_) => None,
        };
        let max_results: usize = match json::get_u64(args, "max_results") {
            None => DEFAULT_MAX_RESULTS,
            Some(n) => if n < 1 {
                1
            } else if n > MAX_MAX_RESULTS as u64 {
                MAX_MAX_RESULTS
            } else {
                n as usize
            },
        };
        Ok(SearchRequest { pattern, path, max_results })
    }

    /// The failure of a pattern that is no regular expression.
    pub fn check_pattern(&self, pattern: &str) -> (r: Option<ToolResult>)
        ensures
            match outside::regex_problem(pattern@) {
                None => r is None,
                Some(e) => r matches Some(res) && res.is_result(
                    false,
                    "patrón inválido: "@ + e,
                    None,
                ),
            },
    {
        pattern_result(outside::regex_check(pattern))
    }

    /// The result, given the hits or why the search failed.
    pub fn execute(&self, found: Result<Hits, String>) -> (r: ToolResult)
        ensures
            ends(found, r),
    {
        match found {
            Err(e) => ToolResult::fail(text::join2("búsqueda fallida: ", e.as_str())),
            Ok(hits) => {
                if hits.lines.len() == 0 {
                    return ToolResult::ok("sin coincidencias".to_owned());
                }
                let mut out = text::join(&hits.lines, "\n");
                if hits.lines.len() >= hits.max_results {
                    out.append("\n… (resultados truncados)");
                }
                ToolResult::ok(out)
            },
        }
    }
}

/// The failure that goes with what was said against a pattern.
pub fn pattern_result(problem: Option<String>) -> (r: Option<ToolResult>)
    ensures
        match problem {
            None => r is None,
            Some(e) => r matches Some(res) && res.is_result(false, "patrón inválido: "@ + e@, None),
        },
{
    match problem {
        None => None,
        Some(e) => Some(ToolResult::fail(text::join2("patrón inválido: ", e.as_str()))),
    }
}

/// What a matching line does to the hits.
pub open spec fn takes(
    before: Hits,
    path: Seq<char>,
    line: nat,
    found: Seq<char>,
    r: bool,
    after: Hits,
) -> bool {
    &&& r == (before.lines@.len() < before.max_results)
    &&& after.max_results == before.max_results
    &&& !r ==> after.lines@ == before.lines@
    &&& r ==> {
        &&& after.lines@.len() == before.lines@.len() + 1
        &&& after.lines@.drop_last() == before.lines@
        &&& after.lines@.last()@ == hit_line(path, line, found)
    }
}

impl Hits {
    /// What the model reads: the hits, and whether there may be more.
    pub open spec fn report(self) -> Seq<char> {
        if self.lines@.len() == 0 {
            "sin coincidencias"@
        } else if self.lines@.len() >= self.max_results {
            text::joined(text::views(self.lines@), "\n"@) + "\n… (resultados truncados)"@
        } else {
            text::joined(text::views(self.lines@), "\n"@)
        }
    }

    /// No hits yet.
    pub fn new(max_results: usize) -> (r: Self)
        ensures
            r.max_results == max_results,
            r.lines@.len() == 0,
    {
        Hits { max_results, lines: Vec::new() }
    }

    /// Whether the search is over because the limit is reached.
    pub fn full(&self) -> (r: bool)
        ensures
            r == (self.lines@.len() >= self.max_results),
    {
        self.lines.len() >= self.max_results
    }

    /// Takes a matching line of a file, unless the limit is reached; answers
    /// whether it took it.
    pub fn take(&mut self, path: &str, line: u64, found: &str) -> (r: bool)
        ensures
            takes(*old(self), path@, line as nat, found@, r, *final(self)),
    {
        if self.full() {
            return false;
        }
        let mut out = text::join3(path, ":", text::number(line).as_str());
        out = text::join3(out.as_str(), ": ", text::trimmed_end(found).as_str());
        let ghost before = self.lines@;
        self.lines.push(out);
        assert(self.lines@.drop_last() == before);
        true
    }
}

/// Law: a search gives at most 200 hits and at least one; 50 where the call
/// does not say, and what it says where that is within these bounds.
pub proof fn law_search_limit(args: Seq<char>)
    ensures
        1 <= limit_of(args) <= 200,
        outside::json_u64_member(args, "max_results"@) is None ==> limit_of(args) == 50,
        outside::json_u64_member(args, "max_results"@) matches Some(n) ==> {
            &&& 1 <= n <= 200 ==> limit_of(args) == n
            &&& n == 0 ==> limit_of(args) == 1
            &&& n > 200 ==> limit_of(args) == 200
        },
{
}

/// Law: a hit is shown as its path, its line number and the line as it was
/// found, but for the white space at its end.
pub proof fn law_hit_shows_its_line(path: Seq<char>, line: nat, found: Seq<char>)
    ensures
        (path + ":"@ + text::decimal(line) + ": "@).is_prefix_of(hit_line(path, line, found)),
        ({
            let shown = hit_line(path, line, found).skip(
                (path + ":"@ + text::decimal(line) + ": "@).len() as int,
            );
            &&& shown.is_prefix_of(found)
            &&& shown.len() > 0 ==> !outside::white_space(shown.last())
            &&& forall|i: int|
                shown.len() <= i < found.len() ==> outside::white_space(#[trigger] found[i])
        }),
{
    let head = path + ":"@ + text::decimal(line) + ": "@;
    text::law_trim_end(found);
    assert(hit_line(path, line, found).skip(head.len() as int) == text::trim_end(found));
    assert(head.is_prefix_of(hit_line(path, line, found)));
}

/// Law: the report of a search holds every hit, in order, one to a line; it
/// says that there may be more exactly when as many were found as were wanted,
/// and that there are none exactly when none were found.
pub proof fn law_report_holds_every_hit(hits: Hits)
    ensures
        hits.lines@.len() == 0 ==> hits.report() == "sin coincidencias"@,
        hits.lines@.len() > 0 ==> {
            let all = text::joined(text::views(hits.lines@), "\n"@);
            &&& all.is_prefix_of(hits.report())
            &&& hits.lines@.len() < hits.max_results ==> hits.report().len() == all.len()
            &&& hits.lines@.len() >= hits.max_results ==> hits.report().skip(all.len() as int)
                == "\n… (resultados truncados)"@
        },
{
    if hits.lines@.len() > 0 {
        let all = text::joined(text::views(hits.lines@), "\n"@);
        assert(all.is_prefix_of(hits.report()));
        if hits.lines@.len() >= hits.max_results {
            assert(hits.report().skip(all.len() as int) == "\n… (resultados truncados)"@);
        }
    }
}

/// Law: a search looks for the pattern that the call gives, in the directory it
/// gives if it gives one; one without a pattern fails.
pub proof fn law_search_request(args: Seq<char>, r: Result<SearchRequest, ToolResult>)
    requires
        asks(args, r),
    ensures
        ({
            let pattern = outside::json_text_member(args, "pattern"@);
            let path = outside::json_text_member(args, "path"@);
            &&& r is Ok <==> pattern is Some && pattern->0.len() > 0
            &&& r matches Ok(req) ==> {
                &&& pattern == Some(req.pattern@)
                &&& req.path is Some <==> path is Some && path->0.len() > 0
                &&& req.path matches Some(p) ==> path == Some(p@)
                &&& 1 <= req.max_results <= 200
            }
            &&& r matches Err(res) ==> !res.ok
        }),
{
}

/// Law: a matching line is taken exactly while fewer hits than wanted were; it
/// goes behind those before it, which stay as they are.
pub proof fn law_hit_is_taken_up_to_the_limit(
    before: Hits,
    path: Seq<char>,
    line: nat,
    found: Seq<char>,
    r: bool,
    after: Hits,
)
    requires
        takes(before, path, line, found, r, after),
    ensures
        r <==> before.lines@.len() < before.max_results,
        after.max_results == before.max_results,
        before.lines@.len() <= before.max_results ==> after.lines@.len() <= after.max_results,
        forall|i: int|
            0 <= i < before.lines@.len() ==> #[trigger] after.lines@[i] == before.lines@[i],
        r ==> after.lines@.len() == before.lines@.len() + 1 && path.is_prefix_of(
            after.lines@.last()@,
        ),
        !r ==> after.lines@ == before.lines@,
{
    if r {
        assert forall|i: int| 0 <= i < before.lines@.len() implies #[trigger] after.lines@[i]
            == before.lines@[i] by {
            assert(after.lines@.drop_last()[i] == before.lines@[i]);
        }
        assert(path.is_prefix_of(hit_line(path, line, found)));
    }
}

/// Law: a search succeeds exactly when it could be made, hits or none, and
/// changes nothing.
pub proof fn law_search_outcome(found: Result<Hits, String>, r: ToolResult)
    requires
        ends(found, r),
    ensures
        r.ok <==> found is Ok,
        r.diff is None,
        found matches Ok(hits) ==> (!r.truncated ==> r.output@ == hits.report()),
        found matches Err(e) ==> (!r.truncated ==> e@.is_suffix_of(r.output@)),
{
    match found {
        Err(e) => {
            assert(e@.is_suffix_of("búsqueda fallida: "@ + e@));
        },
        Ok(_) => {},
    }
}

} // verus!
