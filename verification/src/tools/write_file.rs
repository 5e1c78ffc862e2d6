//! `write_file`: creates or replaces a file of the workspace.

use vstd::prelude::*;
use vstd::utf8::*;

use crate::json;
use crate::llm::ToolSchema;
use crate::outside;
use crate::protocol::diff::{self, FileDiff};
use crate::text;
use crate::tools::{self, ToolResult};

verus! {

/// The tool.
pub struct WriteFile;

/// What the tool is asked to write.
#[derive(Debug, PartialEq)]
pub struct WriteRequest {
    pub path: String,
    pub content: String,
}

/// What kept the tool from writing.
#[derive(Debug, PartialEq)]
pub enum WriteFailure {
    /// The directory could not be created.
    Directory(String),
    /// The file could not be written.
    File(String),
}

/// Whether a schema is that of the tool.
pub open spec fn is_schema(s: ToolSchema) -> bool {
    &&& s.name@ == "write_file"@
    &&& s.description@ == "Crea o reemplaza un archivo dentro del workspace"@
    &&& s.parameters@
        == "{\"properties\":{\"content\":{\"description\":\"Contenido completo del archivo\",\"type\":\"string\"},\"path\":{\"description\":\"Ruta relativa al workspace\",\"type\":\"string\"}},\"required\":[\"path\",\"content\"],\"type\":\"object\"}"@
}

/// What a call asks to be written.
pub open spec fn asks(args: Seq<char>, r: Result<WriteRequest, ToolResult>) -> bool {
    match r {
        Ok(req) => {
            &&& tools::string_arg(args, "path"@) == Some(req.path@)
            &&& outside::json_text_member(args, "content"@) == Some(req.content@)
        },
        Err(res) => if tools::string_arg(args, "path"@) is None {
            res.is_result(false, tools::missing_arg("path"@), None)
        } else {
            &&& outside::json_text_member(args, "content"@) is None
            &&& res.is_result(false, "falta el argumento obligatorio `content`"@, None)
        },
    }
}

/// What writing a file comes to.
pub open spec fn writes(
    req: WriteRequest,
    old_text: Seq<char>,
    written: Result<(), WriteFailure>,
    r: ToolResult,
) -> bool {
    match written {
        Ok(()) => r.diff matches Some(d) && d.is_diff(req.path@, old_text, req.content@)
            && r.is_result(true, WriteFile::report(req.path@, req.content@, d), Some(d)),
        Err(WriteFailure::Directory(e)) => r.is_result(
            false,
            "no se pudo crear el directorio: "@ + e@,
            None,
        ),
        Err(WriteFailure::File(e)) => r.is_result(
            false,
            "no se pudo escribir `"@ + req.path@ + "`: "@ + e@,
            None,
        ),
    }
}

impl WriteFile {
    /// The name of the tool.
    pub fn name(&self) -> (r: &'static str)
        ensures
            r@ == "write_file"@,
    {
        "write_file"
    }

    /// The tool as the model sees it.
    pub fn schema(&self) -> (r: ToolSchema)
        ensures
            is_schema(r),
    {
        ToolSchema {
            name: "write_file".to_owned(),
            description: "Crea o reemplaza un archivo dentro del workspace".to_owned(),
            parameters: "{\"properties\":{\"content\":{\"description\":\"Contenido completo del archivo\",\"type\":\"string\"},\"path\":{\"description\":\"Ruta relativa al workspace\",\"type\":\"string\"}},\"required\":[\"path\",\"content\"],\"type\":\"object\"}".to_owned(),
        }
    }

    /// Writing needs a decision.
    pub fn requires_approval(&self) -> (r: bool)
        ensures
            r,
    {
        true
    }

    /// What to write, or the failure of a call that does not say. The content
    /// may be empty.
    pub fn request(&self, args: &str) -> (r: Result<WriteRequest, ToolResult>)
        ensures
            asks(args@, r),
    {
        let path = match tools::str_arg(args, "path") {
            Ok(path) => path,
            Err(e) => return Err(ToolResult::fail(e)),
        };
        match json::get_text(args, "content") {
            Some(content) => Ok(WriteRequest { path, content }),
            None => {
                Err(ToolResult::fail("falta el argumento obligatorio `content`".to_owned()))
            },
        }
    }

    /// What the tool says of a file it wrote.
    pub open spec fn report(path: Seq<char>, content: Seq<char>, diff: FileDiff) -> Seq<char> {
        "escrito `"@ + path + "` ("@ + text::decimal(text::byte_len(content)) + " bytes, +"@
            + text::decimal(diff.additions as nat) + " −"@ + text::decimal(diff.deletions as nat)
            + ")"@
    }

    /// The result, given what the file held before, empty if it did not exist,
    /// and whether it could be written.
    pub fn execute(
        &self,
        req: &WriteRequest,
        old_text: &str,
        written: Result<(), WriteFailure>,
    ) -> (r: ToolResult)
        requires
            written is Ok ==> diff::countable(old_text@, req.content@),
        ensures
            writes(*req, old_text@, written, r),
    {
        match written {
            Err(WriteFailure::Directory(e)) => {
                ToolResult::fail(text::join2("no se pudo crear el directorio: ", e.as_str()))
            },
            Err(WriteFailure::File(e)) => {
                let head = text::join3("no se pudo escribir `", req.path.as_str(), "`: ");
                ToolResult::fail(text::join2(head.as_str(), e.as_str()))
            },
            Ok(()) => {
                let diff = FileDiff::compute(req.path.as_str(), old_text, req.content.as_str());
                let mut out = text::join3("escrito `", req.path.as_str(), "` (");
                let size: u64 = text::byte_count(req.content.as_str()) as u64;
                out = text::join3(out.as_str(), text::number(size).as_str(), " bytes, +");
                let added = text::number(diff.additions as u64);
                out = text::join3(out.as_str(), added.as_str(), " −");
                let removed = text::number(diff.deletions as u64);
                out = text::join3(out.as_str(), removed.as_str(), ")");
                ToolResult::with_diff(out, diff)
            },
        }
    }
}

/// Law: the report of a written file names its path between back quotes, then
/// its size in bytes, the lines added and the lines removed, in that order.
pub proof fn law_write_report(path: Seq<char>, content: Seq<char>, diff: FileDiff)
    ensures
        WriteFile::report(path, content, diff) == "escrito `"@ + path + "` ("@ + text::decimal(
            encode_utf8(content).len(),
        ) + " bytes, +"@ + text::decimal(diff.additions as nat) + " −"@ + text::decimal(
            diff.deletions as nat,
        ) + ")"@,
        ("escrito `"@ + path + "`"@).is_prefix_of(WriteFile::report(path, content, diff)),
{
    text::lemma_byte_len(content);
    reveal_strlit("` (");
    reveal_strlit("`");
    assert(("escrito `"@ + path + "`"@).is_prefix_of(WriteFile::report(path, content, diff)));
}

/// Law: a call writes exactly what it says, empty or not, at the path it says;
/// one without a path or without content fails.
pub proof fn law_write_request(args: Seq<char>, r: Result<WriteRequest, ToolResult>)
    requires
        asks(args, r),
    ensures
        r is Ok <==> outside::json_text_member(args, "path"@) is Some && outside::json_text_member(
            args,
            "path"@,
        )->0.len() > 0 && outside::json_text_member(args, "content"@) is Some,
        r matches Ok(req) ==> outside::json_text_member(args, "path"@) == Some(req.path@)
            && outside::json_text_member(args, "content"@) == Some(req.content@),
        r matches Err(res) ==> !res.ok && res.diff is None,
{
}

/// Law: writing succeeds exactly when the file could be written, and then shows
/// the change from what the file held before to what was asked for; a failure
/// changes nothing and shows none.
pub proof fn law_write(
    req: WriteRequest,
    old_text: Seq<char>,
    written: Result<(), WriteFailure>,
    r: ToolResult,
)
    requires
        writes(req, old_text, written, r),
    ensures
        r.ok <==> written is Ok,
        r.diff is Some <==> written is Ok,
        r.diff matches Some(d) ==> d.path@ == req.path@ && d.unified@ == outside::unified_text(
            old_text,
            req.content@,
            3,
            "a/"@ + req.path@,
            "b/"@ + req.path@,
        ),
{
}

} // verus!
