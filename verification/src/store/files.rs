//! Files of a session on a server, where the disk is not durable.

use vstd::prelude::*;

use crate::text;

verus! {

/// What follows the last dot of a path; all of it if there is none.
pub open spec fn extension(path: Seq<char>) -> Seq<char> {
    text::split(path, '.').last()
}

/// The content type of an extension in lower case.
pub open spec fn mime_of_extension(ext: Seq<char>) -> Seq<char> {
    if ext == "html"@ || ext == "htm"@ {
        "text/html; charset=utf-8"@
    } else if ext == "css"@ {
        "text/css; charset=utf-8"@
    } else if ext == "js"@ || ext == "mjs"@ {
        "text/javascript; charset=utf-8"@
    } else if ext == "json"@ {
        "application/json; charset=utf-8"@
    } else if ext == "svg"@ {
        "image/svg+xml"@
    } else if ext == "md"@ {
        "text/markdown; charset=utf-8"@
    } else if ext == "xml"@ {
        "application/xml; charset=utf-8"@
    } else {
        "text/plain; charset=utf-8"@
    }
}

/// The content type of a path.
pub open spec fn mime_of(path: Seq<char>) -> Seq<char> {
    mime_of_extension(text::ascii_lower(extension(path)))
}

/// The content type of a path, by its extension in whatever case.
pub fn guess_mime(path: &str) -> (r: &'static str)
    ensures
        r@ == mime_of(path@),
{
    let pieces = text::split_on(path, '.');
    proof {
        text::lemma_split_nonempty(path@, text::is_char('.'));
        assert(text::views(pieces@).last() == pieces@.last()@);
    }
    let ext = text::lowercase_ascii(pieces[pieces.len() - 1].as_str());
    let e = ext.as_str();
    if text::same(e, "html") || text::same(e, "htm") {
        "text/html; charset=utf-8"
    } else if text::same(e, "css") {
        "text/css; charset=utf-8"
    } else if text::same(e, "js") || text::same(e, "mjs") {
        "text/javascript; charset=utf-8"
    } else if text::same(e, "json") {
        "application/json; charset=utf-8"
    } else if text::same(e, "svg") {
        "image/svg+xml"
    } else if text::same(e, "md") {
        "text/markdown; charset=utf-8"
    } else if text::same(e, "xml") {
        "application/xml; charset=utf-8"
    } else {
        "text/plain; charset=utf-8"
    }
}

/// Law: the content type of a file follows what stands after the last dot of
/// its path, whatever its case and whatever stands before.
pub proof fn law_content_type(stem: Seq<char>, ext: Seq<char>)
    requires
        !ext.contains('.'),
    ensures
        ({
            let mime = mime_of(stem + "."@ + ext);
            let lower = text::ascii_lower(ext);
            &&& lower == "html"@ || lower == "htm"@ ==> mime == "text/html; charset=utf-8"@
            &&& lower == "css"@ ==> mime == "text/css; charset=utf-8"@
            &&& lower == "js"@ || lower == "mjs"@ ==> mime == "text/javascript; charset=utf-8"@
            &&& lower == "json"@ ==> mime == "application/json; charset=utf-8"@
            &&& lower == "svg"@ ==> mime == "image/svg+xml"@
            &&& lower == "md"@ ==> mime == "text/markdown; charset=utf-8"@
            &&& lower == "xml"@ ==> mime == "application/xml; charset=utf-8"@
            &&& lower == "txt"@ || lower == "rs"@ || lower == "png"@ || lower.len() == 0 ==> mime
                == "text/plain; charset=utf-8"@
        }),
{
    reveal_strlit(".");
    assert("."@ == seq!['.']);
    text::law_split_last(stem, '.', ext);
    lemma_extensions();
}

/// No two of the extensions are the same.
proof fn lemma_extensions()
    ensures
        "html"@.len() == 4 && "html"@[0] == 'h',
        "htm"@.len() == 3 && "htm"@[0] == 'h',
        "css"@.len() == 3 && "css"@[0] == 'c',
        "js"@.len() == 2 && "js"@[0] == 'j',
        "mjs"@.len() == 3 && "mjs"@[0] == 'm',
        "json"@.len() == 4 && "json"@[0] == 'j',
        "svg"@.len() == 3 && "svg"@[0] == 's',
        "md"@.len() == 2 && "md"@[0] == 'm',
        "xml"@.len() == 3 && "xml"@[0] == 'x',
        "txt"@.len() == 3 && "txt"@[0] == 't',
        "rs"@.len() == 2 && "rs"@[0] == 'r',
        "png"@.len() == 3 && "png"@[0] == 'p',
{
    reveal_strlit("html");
    reveal_strlit("htm");
    reveal_strlit("css");
    reveal_strlit("js");
    reveal_strlit("mjs");
    reveal_strlit("json");
    reveal_strlit("svg");
    reveal_strlit("md");
    reveal_strlit("xml");
    reveal_strlit("txt");
    reveal_strlit("rs");
    reveal_strlit("png");
}

} // verus!
