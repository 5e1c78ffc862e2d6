//! Pairing with the relay, as the user asks for it.

use vstd::prelude::*;

use crate::error::ApiError;
use crate::protocol::api::ErrorCode;
use crate::text;

verus! {

/// A pairing code to claim.
#[derive(Debug, PartialEq)]
pub struct PairRequest {
    pub code: String,
}

/// What a request to pair comes to.
pub open spec fn takes(req: PairRequest, r: Result<String, ApiError>) -> bool {
    if text::trim(req.code@).len() == 0 {
        r matches Err(e) && e.says(ErrorCode::ValidationFailed, "code es obligatorio"@)
            && e.details is None
    } else {
        r matches Ok(code) && code@ == text::trim(req.code@)
    }
}

/// The code to claim, or why the request is refused.
pub fn pair(req: &PairRequest) -> (r: Result<String, ApiError>)
    ensures
        takes(*req, r),
{
    let code = text::trimmed(req.code.as_str());
    if code.as_str().is_empty() {
        return Err(ApiError::validation("code es obligatorio".to_owned(), None));
    }
    Ok(code)
}

/// Law: a code is claimed without the white space around it, and a blank one is
/// refused.
pub proof fn law_code(req: PairRequest, r: Result<String, ApiError>)
    requires
        takes(req, r),
    ensures
        r is Ok <==> text::trim(req.code@).len() > 0,
        r matches Ok(code) ==> code@ == text::trim(req.code@),
        r matches Err(e) ==> e.status == 422,
{
}

} // verus!
