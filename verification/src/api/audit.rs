//! Pages of the audit log.

use vstd::prelude::*;

use crate::api;
use crate::outside;
use crate::protocol::api::{AuditPage, AuditQuery};
use crate::store::audit::{self as stored, AuditRow};

verus! {

/// How many entries a page of the log has at most.
pub fn limit(q: &AuditQuery) -> (r: u32)
    ensures
        r == api::limit_of(q.limit, 50, 200),
        1 <= r <= 200,
{
    api::page_limit(q.limit, 50, 200)
}

/// A page of the log, from the rows that a query with one row more than the
/// limit gave.
pub fn query(rows: &Vec<AuditRow>, limit: u32) -> (r: AuditPage)
    ensures
        stored::is_page((r.entries, r.next_cursor), rows@, limit as int),
{
    let (entries, next_cursor) = stored::query(rows, limit as usize);
    AuditPage { entries, next_cursor }
}

} // verus!
