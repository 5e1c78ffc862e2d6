//! `edit_file`: replaces the one occurrence of a text in a file.

use vstd::prelude::*;

use crate::json;
use crate::llm::ToolSchema;
use crate::outside;
use crate::protocol::diff::{self, FileDiff};
use crate::text;
use crate::tools::{self, ToolResult};

verus! {

/// The tool.
pub struct EditFile;

/// What the tool is asked to replace.
#[derive(Debug, PartialEq)]
pub struct EditRequest {
    pub path: String,
    pub old_str: String,
    pub new_str: String,
}

/// Whether a schema is that of the tool.
pub open spec fn is_schema(s: ToolSchema) -> bool {
    &&& s.name@ == "edit_file"@
    &&& s.description@
        == "Modifica un archivo reemplazando una única ocurrencia exacta de old_str por new_str"@
    &&& s.parameters@
        == "{\"properties\":{\"new_str\":{\"description\":\"Texto de reemplazo\",\"type\":\"string\"},\"old_str\":{\"description\":\"Texto exacto a reemplazar (debe aparecer exactamente una vez)\",\"type\":\"string\"},\"path\":{\"description\":\"Ruta relativa al workspace\",\"type\":\"string\"}},\"required\":[\"path\",\"old_str\",\"new_str\"],\"type\":\"object\"}"@
}

/// How many matches an ambiguous text is said to have: those that follow one
/// another, or, where all of them overlap, the positions at which it stands.
pub open spec fn shown_matches(content: Seq<char>, old_str: Seq<char>) -> nat {
    let apart = text::match_count(content, old_str, 0);
    if apart > 1 {
        apart
    } else {
        text::occurrences(content, old_str, 0)
    }
}

/// What a call asks to be replaced.
pub open spec fn asks(args: Seq<char>, r: Result<EditRequest, ToolResult>) -> bool {
    match r {
        Ok(req) => {
            &&& tools::string_arg(args, "path"@) == Some(req.path@)
            &&& tools::string_arg(args, "old_str"@) == Some(req.old_str@)
            &&& outside::json_text_member(args, "new_str"@) == Some(req.new_str@)
            &&& req.old_str@.len() > 0
        },
        Err(res) => if tools::string_arg(args, "path"@) is None {
            res.is_result(false, tools::missing_arg("path"@), None)
        } else if tools::string_arg(args, "old_str"@) is None {
            res.is_result(false, tools::missing_arg("old_str"@), None)
        } else {
            &&& outside::json_text_member(args, "new_str"@) is None
            &&& res.is_result(false, "falta el argumento obligatorio `new_str`"@, None)
        },
    }
}

/// What writing an edited file comes to.
pub open spec fn writes(
    path: Seq<char>,
    old_text: Seq<char>,
    new_text: Seq<char>,
    written: Result<(), String>,
    r: ToolResult,
) -> bool {
    match written {
        Ok(()) => r.diff matches Some(d) && d.is_diff(path, old_text, new_text)
            && r.is_result(true, EditFile::report(path, d), Some(d)),
        Err(e) => r.is_result(
            false,
            "no se pudo escribir `"@ + path + "`: "@ + e@,
            None,
        ),
    }
}

impl EditFile {
    /// The name of the tool.
    pub fn name(&self) -> (r: &'static str)
        ensures
            r@ == "edit_file"@,
    {
        "edit_file"
    }

    /// The tool as the model sees it.
    pub fn schema(&self) -> (r: ToolSchema)
        ensures
            is_schema(r),
    {
        ToolSchema {
            name: "edit_file".to_owned(),
            description: "Modifica un archivo reemplazando una única ocurrencia exacta de old_str por new_str".to_owned(),
            parameters: "{\"properties\":{\"new_str\":{\"description\":\"Texto de reemplazo\",\"type\":\"string\"},\"old_str\":{\"description\":\"Texto exacto a reemplazar (debe aparecer exactamente una vez)\",\"type\":\"string\"},\"path\":{\"description\":\"Ruta relativa al workspace\",\"type\":\"string\"}},\"required\":[\"path\",\"old_str\",\"new_str\"],\"type\":\"object\"}".to_owned(),
        }
    }

    /// Editing needs a decision.
    pub fn requires_approval(&self) -> (r: bool)
        ensures
            r,
    {
        true
    }

    /// What to replace, or the failure of a call that does not say. The
    /// replacement may be empty, the text to replace may not.
    pub fn request(&self, args: &str) -> (r: Result<EditRequest, ToolResult>)
        ensures
            asks(args@, r),
    {
        let path = match tools::str_arg(args, "path") {
            Ok(path) => path,
            Err(e) => return Err(ToolResult::fail(e)),
        };
        let old_str = match tools::str_arg(args, "old_str") {
            Ok(s) => s,
            Err(e) => return Err(ToolResult::fail(e)),
        };
        match json::get_text(args, "new_str") {
            Some(new_str) => Ok(EditRequest { path, old_str, new_str }),
            None => {
                Err(ToolResult::fail("falta el argumento obligatorio `new_str`".to_owned()))
            },
        }
    }

    /// What an edit comes to: the edited text, or why there is none.
    pub open spec fn edits(
        req: EditRequest,
        read: Result<String, String>,
        r: Result<String, ToolResult>,
    ) -> bool {
        match read {
            Err(e) => r matches Err(res) && res.is_result(
                false,
                "no se pudo leer `"@ + req.path@ + "`: "@ + e@,
                None,
            ),
            Ok(content) => {
                let n = text::occurrences(content@, req.old_str@, 0);
                if n == 0 {
                    r matches Err(res) && res.is_result(
                        false,
                        "`old_str` no aparece en `"@ + req.path@ + "`"@,
                        None,
                    )
                } else if n == 1 {
                    r matches Ok(edited) && edited@ == text::replaced(
                        content@,
                        req.old_str@,
                        req.new_str@,
                    )
                } else {
                    r matches Err(res) && res.is_result(
                        false,
                        "`old_str` es ambiguo: "@ + text::decimal(
                            shown_matches(content@, req.old_str@),
                        ) + " coincidencias en `"@ + req.path@ + "` (debe ser única)"@,
                        None,
                    )
                }
            },
        }
    }

    /// The edited text, given the text of the file or why it could not be
    /// read. The text to replace must stand at exactly one position: where
    /// occurrences overlap, each counts.
    pub fn edit(&self, req: &EditRequest, read: &Result<String, String>) -> (r: Result<
        String,
        ToolResult,
    >)
        requires
            req.old_str@.len() > 0,
        ensures
            r is Ok <==> (*read matches Ok(content) && text::occurs_once(content@, req.old_str@)),
            Self::edits(*req, *read, r),
    {
        let content = match read {
            Ok(content) => content,
            Err(e) => {
                let head = text::join3("no se pudo leer `", req.path.as_str(), "`: ");
                return Err(ToolResult::fail(text::join2(head.as_str(), e.as_str())));
            },
        };
        let chars = text::to_chars(content.as_str());
        let pattern = text::to_chars(req.old_str.as_str());
        let n = text::count_occurrences(&chars, &pattern);
        proof {
            text::lemma_occurrences(content@, req.old_str@);
        }
        if n == 0 {
            return Err(
                ToolResult::fail(
                    text::join3("`old_str` no aparece en `", req.path.as_str(), "`"),
                ),
            );
        }
        if n > 1 {
            let apart = text::count_matches(&chars, &pattern);
            let shown: usize = if apart > 1 {
                apart
            } else {
                n
            };
            let head = text::join3(
                "`old_str` es ambiguo: ",
                text::number(shown as u64).as_str(),
                " coincidencias en `",
            );
            return Err(
                ToolResult::fail(
                    text::join3(head.as_str(), req.path.as_str(), "` (debe ser única)"),
                ),
            );
        }
        Ok(
            text::replace_first(content.as_str(), req.old_str.as_str(), req.new_str.as_str()),
        )
    }

    /// What the tool says of a file it edited.
    pub open spec fn report(path: Seq<char>, diff: FileDiff) -> Seq<char> {
        "editado `"@ + path + "` (+"@ + text::decimal(diff.additions as nat) + " −"@
            + text::decimal(diff.deletions as nat) + ")"@
    }

    /// The result, given the text before and after and whether it could be
    /// written.
    pub fn execute(
        &self,
        path: &str,
        old_text: &str,
        new_text: &str,
        written: Result<(), String>,
    ) -> (r: ToolResult)
        requires
            written is Ok ==> diff::countable(old_text@, new_text@),
        ensures
            writes(path@, old_text@, new_text@, written, r),
    {
        match written {
            Err(e) => {
                let head = text::join3("no se pudo escribir `", path, "`: ");
                ToolResult::fail(text::join2(head.as_str(), e.as_str()))
            },
            Ok(()) => {
                let diff = FileDiff::compute(path, old_text, new_text);
                let mut out = text::join3("editado `", path, "` (+");
                let added = text::number(diff.additions as u64);
                out = text::join3(out.as_str(), added.as_str(), " −");
                let removed = text::number(diff.deletions as u64);
                out = text::join3(out.as_str(), removed.as_str(), ")");
                ToolResult::with_diff(out, diff)
            },
        }
    }
}

/// Law: an edit keeps everything before and after the occurrence it replaces,
/// and that occurrence is the only one.
pub proof fn law_edit_keeps_the_rest(s: Seq<char>, p: Seq<char>, with: Seq<char>)
    requires
        text::occurs_once(s, p),
    ensures
        exists|i: int|
            #![trigger text::occurs_at(s, p, i)]
            text::occurs_at(s, p, i) && text::replaced(s, p, with) == s.subrange(0, i) + with
                + s.subrange(i + p.len(), s.len() as int) && (forall|j: int|
                #[trigger] text::occurs_at(s, p, j) ==> j == i),
{
    text::lemma_first_match_is_first(s, p);
    let only = choose|i: int|
        text::occurs_at(s, p, i) && forall|j: int| #[trigger] text::occurs_at(s, p, j) ==> j == i;
    assert(text::occurs_at(s, p, only));
    let i = text::first_match(s, p, 0)->0;
    assert(text::occurs_at(s, p, i));
    assert(s.take(i) == s.subrange(0, i));
    assert(s.skip(i + p.len()) == s.subrange(i + p.len(), s.len() as int));
}

/// Law: an edit succeeds exactly when the file could be read and the text to
/// replace stands at exactly one position of it; it then changes that one place
/// and nothing else. A refused edit is a failed result without a diff, that
/// says whether the text is missing or ambiguous.
pub proof fn law_edit_succeeds_iff(
    req: EditRequest,
    read: Result<String, String>,
    r: Result<String, ToolResult>,
)
    requires
        EditFile::edits(req, read, r),
        req.old_str@.len() > 0,
    ensures
        r is Ok <==> (read matches Ok(content) && text::occurs_once(content@, req.old_str@)),
        r matches Ok(edited) ==> (read matches Ok(content) && exists|i: int| #[trigger]
            text::occurs_at(content@, req.old_str@, i) && edited@ == content@.subrange(0, i)
                + req.new_str@ + content@.subrange(
                i + req.old_str@.len(),
                content@.len() as int,
            )),
        r matches Err(res) ==> !res.ok && res.diff is None,
{
    match read {
        Ok(content) => {
            text::lemma_occurrences(content@, req.old_str@);
            if text::occurs_once(content@, req.old_str@) {
                law_edit_keeps_the_rest(content@, req.old_str@, req.new_str@);
            }
        },
        Err(_) => {},
    }
}

/// Law: the report of an edited file names its path between back quotes, then
/// the lines added and the lines removed, in that order.
pub proof fn law_edit_report(path: Seq<char>, diff: FileDiff)
    ensures
        EditFile::report(path, diff) == "editado `"@ + path + "` (+"@ + text::decimal(
            diff.additions as nat,
        ) + " −"@ + text::decimal(diff.deletions as nat) + ")"@,
{
}

/// Law: a call replaces exactly what it says by what it says, in the file it
/// says. The replacement may be empty, the text to replace and the path may not.
pub proof fn law_edit_request(args: Seq<char>, r: Result<EditRequest, ToolResult>)
    requires
        asks(args, r),
    ensures
        r is Ok <==> outside::json_text_member(args, "path"@) is Some && outside::json_text_member(
            args,
            "path"@,
        )->0.len() > 0 && outside::json_text_member(args, "old_str"@) is Some
            && outside::json_text_member(args, "old_str"@)->0.len() > 0
            && outside::json_text_member(args, "new_str"@) is Some,
        r matches Ok(req) ==> outside::json_text_member(args, "path"@) == Some(req.path@)
            && outside::json_text_member(args, "old_str"@) == Some(req.old_str@)
            && outside::json_text_member(args, "new_str"@) == Some(req.new_str@),
        r matches Err(res) ==> !res.ok && res.diff is None,
{
}

/// Law: an edit is done exactly when the file could be written, and then shows
/// the change from the old text to the new one; a failure shows none.
pub proof fn law_edit_is_shown(
    path: Seq<char>,
    old_text: Seq<char>,
    new_text: Seq<char>,
    written: Result<(), String>,
    r: ToolResult,
)
    requires
        writes(path, old_text, new_text, written, r),
    ensures
        r.ok <==> written is Ok,
        r.diff is Some <==> written is Ok,
        r.diff matches Some(d) ==> d.path@ == path && d.unified@ == outside::unified_text(
            old_text,
            new_text,
            3,
            "a/"@ + path,
            "b/"@ + path,
        ),
{
}

/// Law: a text that is called ambiguous is said to have more than one match.
pub proof fn law_ambiguous_has_matches(content: Seq<char>, old_str: Seq<char>)
    requires
        text::occurs(content, old_str),
        !text::occurs_once(content, old_str),
    ensures
        shown_matches(content, old_str) > 1,
{
    text::lemma_occurrences(content, old_str);
}

} // verus!
