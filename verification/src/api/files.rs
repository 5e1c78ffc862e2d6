//! Files of a session on a server: uploads.

use vstd::prelude::*;

use crate::error::ApiError;
use crate::protocol::api::ErrorCode;
use crate::protocol::paths;
use crate::text;

verus! {

/// Bytes that an uploaded file may have.
pub const MAX_UPLOAD_BYTES: usize = 524_288;

/// The name of a file that comes without a usable one.
pub const DEFAULT_NAME: &'static str = "subido.txt";

/// Which file is asked for.
#[derive(Debug, PartialEq)]
pub struct RawQuery {
    pub path: String,
}

/// The error where files are not kept.
pub fn remote_only() -> (r: ApiError)
    ensures
        r.says(
            ErrorCode::ValidationFailed,
            "los archivos solo están disponibles en modo remoto"@,
        ),
        r.details is None,
{
    ApiError::validation("los archivos solo están disponibles en modo remoto".to_owned(), None)
}

/// The last entry of a path, without the path; a name is made up where there
/// is none.
pub open spec fn safe_name(raw: Option<String>) -> Seq<char> {
    match raw {
        Some(name) => {
            let parts = paths::entries(name@);
            if parts.len() > 0 && parts.last() != ".."@ {
                parts.last()
            } else {
                "subido.txt"@
            }
        },
        None => "subido.txt"@,
    }
}

/// The name under which an upload is kept: one entry, never a path.
pub fn upload_name(raw: &Option<String>) -> (r: String)
    ensures
        r@ == safe_name(*raw),
{
    let name = match raw {
        Some(name) => name,
        None => return DEFAULT_NAME.to_owned(),
    };
    let pieces = text::split_on(name.as_str(), '/');
    let ghost all = text::split(name@, '/');
    let ghost keep = paths::entry_test();
    let mut last = DEFAULT_NAME.to_owned();
    let mut i: usize = 0;
    proof {
        reveal(Seq::filter);
        assert(all.take(0).filter(keep) == Seq::<Seq<char>>::empty());
    }
    while i < pieces.len()
        invariant
            i <= pieces.len(),
            text::views(pieces@) == all,
            keep == paths::entry_test(),
            all.take(i as int).filter(keep).len() == 0 ==> last@ == "subido.txt"@,
            all.take(i as int).filter(keep).len() > 0 ==> last@ == all.take(i as int).filter(
                keep,
            ).last(),
        decreases pieces.len() - i,
    {
        let piece = &pieces[i];
        proof {
            reveal(Seq::filter);
            assert(text::views(pieces@)[i as int] == piece@);
            assert(all.take(i + 1).drop_last() == all.take(i as int));
        }
        if !piece.as_str().is_empty() && !text::same(piece.as_str(), ".") {
            last = piece.clone();
        }
        i += 1;
    }
    assert(all.take(i as int) == all);
    if text::same(last.as_str(), "..") {
        return DEFAULT_NAME.to_owned();
    }
    last
}

/// No piece of a split holds the character that splits it.
proof fn lemma_pieces_are_free(s: Seq<char>, sep: char)
    ensures
        forall|i: int|
            0 <= i < text::split(s, sep).len() ==> !(#[trigger] text::split(s, sep)[i]).contains(
                sep,
            ),
    decreases s.len(),
{
    let mark = text::is_char(sep);
    if s.len() > 0 {
        let before = text::split_by(s.drop_last(), mark);
        text::lemma_split_nonempty(s.drop_last(), mark);
        lemma_pieces_are_free(s.drop_last(), sep);
        assert(before == text::split(s.drop_last(), sep));
        assert forall|i: int| 0 <= i < text::split(s, sep).len() implies !(#[trigger] text::split(
            s,
            sep,
        )[i]).contains(sep) by {
            let piece = text::split(s, sep)[i];
            if piece.contains(sep) {
                let k = choose|k: int| 0 <= k < piece.len() && piece[k] == sep;
                if i < before.len() - 1 {
                    assert(piece == before[i]);
                } else if !mark(s.last()) {
                    assert(piece == before.last().push(s.last()));
                    assert(before.last()[k] == sep);
                    assert(before.last().contains(sep));
                    assert(before[before.len() - 1] == before.last());
                } else if i < before.len() {
                    assert(piece == before[i]);
                }
            }
        }
    }
}

/// Law: an upload is kept under the name of one entry: not empty, without a
/// slash, and neither the directory itself nor its parent.
pub proof fn law_upload_name_is_one_entry(raw: Option<String>)
    ensures
        safe_name(raw).len() > 0,
        !safe_name(raw).contains('/'),
        safe_name(raw) != "."@,
        safe_name(raw) != ".."@,
{
    reveal_strlit("subido.txt");
    reveal_strlit(".");
    reveal_strlit("..");
    assert("subido.txt"@.len() == 10);
    match raw {
        Some(name) => {
            let parts = paths::entries(name@);
            if parts.len() > 0 {
                let all = text::split(name@, '/');
                all.lemma_filter_contains_rev(paths::entry_test(), parts.last());
                all.lemma_filter_pred(paths::entry_test(), parts.len() - 1);
                lemma_pieces_are_free(name@, '/');
                let i = choose|i: int| 0 <= i < all.len() && all[i] == parts.last();
                assert(!all[i].contains('/'));
            }
        },
        None => {},
    }
}

/// Lets a file through if it is within the limit.
pub fn check_size(bytes: usize) -> (r: Result<(), ApiError>)
    ensures
        r is Ok <==> bytes <= MAX_UPLOAD_BYTES,
        r is Ok <==> bytes <= 512 * 1024,
        r matches Err(e) ==> e.status == 413 && e.code == ErrorCode::ValidationFailed && e.message@
            == "el archivo excede 512 KB"@ && e.details is None,
{
    if bytes > MAX_UPLOAD_BYTES {
        Err(ApiError::too_large("el archivo excede 512 KB"))
    } else {
        Ok(())
    }
}

/// Lets an upload through if it held a file.
pub fn upload(saved: &Vec<String>) -> (r: Result<(), ApiError>)
    ensures
        r is Ok <==> saved@.len() > 0,
        r matches Err(e) ==> e.says(ErrorCode::ValidationFailed, "falta el campo `file`"@)
            && e.details is None,
{
    if saved.len() == 0 {
        Err(ApiError::validation("falta el campo `file`".to_owned(), None))
    } else {
        Ok(())
    }
}

/// Law: an upload keeps the last entry of its name, whatever directories stand
/// before it, where that is the name of an entry; a name that ends in the
/// directory's parent, and a missing or empty one, gives way to `subido.txt`.
pub proof fn law_upload_keeps_its_name(raw: String, dirs: Seq<char>, leaf: Seq<char>)
    requires
        !leaf.contains('/'),
        leaf.len() > 0,
        leaf != "."@,
        raw@ == leaf || raw@ == dirs + "/"@ + leaf,
    ensures
        leaf != ".."@ ==> safe_name(Some(raw)) == leaf,
        leaf == ".."@ ==> safe_name(Some(raw)) == "subido.txt"@,
        safe_name(None) == "subido.txt"@,
{
    reveal_strlit("/");
    assert("/"@ == seq!['/']);
    let all = text::split(raw@, '/');
    let keep = paths::entry_test();
    if raw@ == leaf {
        text::law_split_whole(leaf, '/');
    } else {
        text::law_split_last(dirs, '/', leaf);
    }
    assert(all.last() == leaf);
    assert(keep(leaf));
    reveal(Seq::filter);
    assert(all.filter(keep) == all.drop_last().filter(keep).push(leaf));
}

} // verus!
