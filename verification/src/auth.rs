//! The local token: made on the first start, kept in the data directory, and
//! asked for on every route but the health check.

use vstd::prelude::*;
use vstd::utf8::*;

use crate::error::ApiError;
use crate::outside;
use crate::protocol::api::ErrorCode;
use crate::text;

verus! {

/// File of the token within the data directory.
pub const TOKEN_FILE: &'static str = "token";

/// A token, and whether it is fresh and so has to be written down.
#[derive(Debug, PartialEq)]
pub struct Token {
    pub text: String,
    pub fresh: bool,
}

/// Whether a text is one that 32 bytes are written as.
pub open spec fn is_random_text(t: Seq<char>) -> bool {
    exists|bytes: Seq<u8>| bytes.len() == 32 && t == #[trigger] outside::base64_url_text(bytes)
}

/// Whether a token is the one to use, given what its file holds: that, unless
/// there is no file or it is blank, in which case a fresh one is made. Either
/// way it has no white space around it.
pub open spec fn loads(contents: Option<String>, token: Token) -> bool {
    &&& token.text@.len() > 0
    &&& text::trim(token.text@) == token.text@
    &&& match contents {
        Some(c) if text::trim(c@).len() > 0 => token.text@ == text::trim(c@) && !token.fresh,
        _ => token.fresh && token.text@.len() == 43 && is_random_text(token.text@),
    }
}

/// The token to use, given what its file holds: that, unless there is no file
/// or it is blank, in which case a fresh one is made of 32 bytes of chance.
pub fn load_or_create_token(contents: Option<String>) -> (r: Token)
    ensures
        loads(contents, r),
{
    match contents {
        Some(c) => {
            let kept = text::trimmed(c.as_str());
            proof {
                text::lemma_trim_twice(c@);
            }
            if !kept.as_str().is_empty() {
                return Token { text: kept, fresh: false };
            }
        },
        None => {},
    }
    fresh_token(&outside::random_bytes())
}

/// The fresh token that some bytes make.
pub fn fresh_token(bytes: &[u8; 32]) -> (r: Token)
    ensures
        r.fresh,
        r.text@ == outside::base64_url_text(bytes@),
        r.text@.len() == 43,
        text::trim(r.text@) == r.text@,
{
    let text = outside::base64_url_encode(bytes);
    proof {
        crate::text::lemma_trim_solid(text@);
    }
    Token { text, fresh: true }
}

/// Law: a token that was written down is the token of every later start, and
/// is never replaced.
pub proof fn law_token_is_kept(
    contents: Option<String>,
    first: Token,
    written: String,
    second: Token,
)
    requires
        loads(contents, first),
        written@ == first.text@,
        loads(Some(written), second),
    ensures
        second.text@ == first.text@,
        !second.fresh,
{
}

/// Whether a presented token is the expected one. The comparison takes the
/// same time wherever the two differ.
pub fn token_matches(expected: &str, presented: &str) -> (r: bool)
    ensures
        r == (expected@ == presented@),
{
    let a = expected.as_bytes();
    let b = presented.as_bytes();
    proof {
        encode_utf8_decode_utf8(expected@);
        encode_utf8_decode_utf8(presented@);
    }
    if a.len() != b.len() {
        return false;
    }
    outside::bytes_equal(a, b)
}

/// The token that an `Authorization` header presents.
pub open spec fn presented(header: Seq<char>) -> Option<Seq<char>> {
    text::after_prefix(header, "Bearer "@)
}

/// The token that an `Authorization` header presents.
pub fn bearer(header: Option<&str>) -> (r: Option<String>)
    ensures
        match header {
            None => r is None,
            Some(h) => {
                &&& r is Some <==> presented(h@) is Some
                &&& r matches Some(t) ==> presented(h@) == Some(t@)
            },
        },
{
    match header {
        Some(h) => text::strip_prefix(h, "Bearer "),
        None => None,
    }
}

/// Lets a request through if its `Authorization` header presents the token.
pub fn require_bearer(token: &str, header: Option<&str>) -> (r: Result<(), ApiError>)
    ensures
        r is Ok <==> (header matches Some(h) && presented(h@) == Some(token@)),
        r is Ok <==> (header matches Some(h) && h@ == "Bearer "@ + token@),
        r matches Err(e) ==> e.says(ErrorCode::Unauthorized, "token ausente o inválido"@)
            && e.details is None,
{
    proof {
        law_header_presents_token(token@);
        match header {
            Some(h) => {
                let p = "Bearer "@;
                if p.is_prefix_of(h@) {
                    assert(h@ == p + h@.skip(p.len() as int));
                }
            },
            None => {},
        }
    }
    match bearer(header) {
        Some(t) => if token_matches(token, t.as_str()) {
            Ok(())
        } else {
            Err(ApiError::unauthorized())
        },
        None => Err(ApiError::unauthorized()),
    }
}

/// Law: the header that presents a token is `Bearer` and the token.
pub proof fn law_header_presents_token(token: Seq<char>)
    ensures
        presented("Bearer "@ + token) == Some(token),
{
    let p = "Bearer "@;
    assert((p + token).take(p.len() as int) == p);
    assert((p + token).skip(p.len() as int) == token);
}

/// Law: the token is what its file holds, without the white space around it,
/// wherever that is not blank; a fresh one is made exactly when it is, or when
/// there is no file.
pub proof fn law_token_is_what_the_file_holds(contents: Option<String>, token: Token)
    requires
        loads(contents, token),
    ensures
        token.fresh <==> contents is None || text::trim(contents->0@).len() == 0,
        !token.fresh ==> token.text@ == text::trim(contents->0@),
        token.fresh ==> token.text@.len() == 43,
        token.text@.len() > 0,
{
}

} // verus!
