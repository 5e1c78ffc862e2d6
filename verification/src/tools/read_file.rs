//! `read_file`: the text of a file of the workspace.

use vstd::prelude::*;

use crate::llm::ToolSchema;
use crate::text;
use crate::tools::{self, ToolResult};

verus! {

/// The tool.
pub struct ReadFile;

/// Whether a schema is that of the tool.
pub open spec fn is_schema(s: ToolSchema) -> bool {
    &&& s.name@ == "read_file"@
    &&& s.description@ == "Lee un archivo de texto dentro del workspace"@
    &&& s.parameters@
        == "{\"properties\":{\"path\":{\"description\":\"Ruta relativa al workspace\",\"type\":\"string\"}},\"required\":[\"path\"],\"type\":\"object\"}"@
}

/// What reading a file comes to.
pub open spec fn reads(path: Seq<char>, read: Result<String, String>, r: ToolResult) -> bool {
    match read {
        Ok(content) => r.is_result(true, content@, None),
        Err(e) => r.is_result(
            false,
            "no se pudo leer `"@ + path + "`: "@ + e@,
            None,
        ),
    }
}

impl ReadFile {
    /// The name of the tool.
    pub fn name(&self) -> (r: &'static str)
        ensures
            r@ == "read_file"@,
    {
        "read_file"
    }

    /// The tool as the model sees it.
    pub fn schema(&self) -> (r: ToolSchema)
        ensures
            is_schema(r),
    {
        ToolSchema {
            name: "read_file".to_owned(),
            description: "Lee un archivo de texto dentro del workspace".to_owned(),
            parameters: "{\"properties\":{\"path\":{\"description\":\"Ruta relativa al workspace\",\"type\":\"string\"}},\"required\":[\"path\"],\"type\":\"object\"}".to_owned(),
        }
    }

    /// Reading changes nothing: no decision is needed.
    pub fn requires_approval(&self) -> (r: bool)
        ensures
            !r,
    {
        false
    }

    /// The path to read, or the failure of a call without one.
    pub fn request(&self, args: &str) -> (r: Result<String, ToolResult>)
        ensures
            match r {
                Ok(path) => tools::string_arg(args@, "path"@) == Some(path@),
                Err(res) => tools::string_arg(args@, "path"@) is None && res.is_result(
                    false,
                    tools::missing_arg("path"@),
                    None,
                ),
            },
    {
        match tools::str_arg(args, "path") {
            Ok(path) => Ok(path),
            Err(e) => Err(ToolResult::fail(e)),
        }
    }

    /// The result, given the text of the file or why it could not be read.
    pub fn execute(&self, path: &str, read: Result<String, String>) -> (r: ToolResult)
        ensures
            reads(path@, read, r),
    {
        match read {
            Ok(content) => ToolResult::ok(content),
            Err(e) => {
                let head = text::join3("no se pudo leer `", path, "`: ");
                ToolResult::fail(text::join2(head.as_str(), e.as_str()))
            },
        }
    }
}

/// Law: reading succeeds exactly when the file could be read, and shows its text
/// as it is, up to the limit of every tool; a failure names the path and the
/// reason.
pub proof fn law_read(path: Seq<char>, read: Result<String, String>, r: ToolResult)
    requires
        reads(path, read, r),
    ensures
        r.ok <==> read is Ok,
        r.diff is None,
        read matches Ok(content) ==> r.output@.is_prefix_of(content@) && (!r.truncated ==> r.output@
            == content@),
        read matches Err(e) ==> (!r.truncated ==> e@.is_suffix_of(r.output@) && ("no se pudo leer `"@
            + path + "`"@).is_prefix_of(r.output@)),
{
    match read {
        Ok(content) => {
            assert(content@.is_prefix_of(content@));
        },
        Err(e) => {
            let full = "no se pudo leer `"@ + path + "`: "@ + e@;
            reveal_strlit("`: ");
            reveal_strlit("`");
            assert(e@.is_suffix_of(full));
            assert(("no se pudo leer `"@ + path + "`"@).is_prefix_of(full));
        },
    }
}

} // verus!
