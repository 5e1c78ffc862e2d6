//! The audit log.

use vstd::prelude::*;

use crate::json;
use crate::outside;
use crate::protocol::api::AuditEntry;
use crate::protocol::ids::{AuditId, SessionId};
use crate::protocol::time::{self, Timestamp};

verus! {

/// An entry as it is stored; `detail` is JSON text.
#[derive(Debug, PartialEq)]
pub struct AuditRow {
    pub id: String,
    pub session_id: Option<String>,
    pub kind: String,
    pub detail: String,
    pub ts: String,
}

/// The session that an entry is of, if its text is one.
pub open spec fn text_session(s: Option<String>) -> Option<SessionId> {
    match s {
        Some(t) => match outside::ulid_number(t@) {
            Some(n) => Some(SessionId(n)),
            None => None,
        },
        None => None,
    }
}

impl AuditRow {
    /// Whether the row can be read.
    pub open spec fn readable(self) -> bool {
        &&& outside::ulid_number(self.id@) is Some
        &&& outside::json_compact(self.detail@) is Some
        &&& outside::rfc3339_instant(self.ts@) is Some
    }

    /// Whether an entry is what the row holds.
    pub open spec fn reads_as(self, entry: AuditEntry) -> bool {
        &&& outside::ulid_number(self.id@) == Some(entry.id.0)
        &&& entry.session_id == text_session(self.session_id)
        &&& entry.kind == self.kind
        &&& outside::json_compact(self.detail@) == Some(entry.detail@)
        &&& outside::rfc3339_instant(self.ts@) == Some((entry.ts.secs, entry.ts.nanos))
    }

    /// The entry that the row holds, if it can be read.
    pub fn to_dto(&self) -> (r: Option<AuditEntry>)
        ensures
            r is Some <==> self.readable(),
            r matches Some(entry) ==> self.reads_as(entry),
    {
        let id = match AuditId::from_text(self.id.as_str()) {
            Ok(id) => id,
            Err(_) => return None,
        };
        let session_id = match &self.session_id {
            Some(s) => match SessionId::from_text(s.as_str()) {
                Ok(id) => Some(id),
                Err(_) => None,
            },
            None => None,
        };
        let detail = match json::compact(self.detail.as_str()) {
            Some(detail) => detail,
            None => return None,
        };
        let ts = match time::parse_ts(self.ts.as_str()) {
            Some(ts) => ts,
            None => return None,
        };
        Some(AuditEntry { id, session_id, kind: self.kind.clone(), detail, ts })
    }
}

/// The row of a new entry.
pub fn insert(id: AuditId, session_id: Option<SessionId>, kind: &str, detail: &str, ts: Timestamp) -> (r:
    AuditRow)
    requires
        ts.in_range(),
    ensures
        r.id@ == outside::ulid_chars(id.0),
        r.session_id is Some <==> session_id is Some,
        text_session(r.session_id) == session_id,
        r.kind@ == kind@,
        r.detail@ == detail@,
        r.ts@ == outside::rfc3339_chars(ts.secs, ts.nanos),
        outside::json_compact(detail@) is Some ==> r.readable(),
        forall|entry: AuditEntry|
            #[trigger] r.reads_as(entry) ==> entry.id == id && entry.session_id == session_id
                && entry.ts == ts,
{
    AuditRow {
        id: id.text(),
        session_id: match session_id {
            Some(s) => Some(s.text()),
            None => None,
        },
        kind: kind.to_owned(),
        detail: detail.to_owned(),
        ts: ts.to_rfc3339(),
    }
}

/// The rows of a page that can be read: of the first ones, up to the limit.
pub open spec fn page_rows(rows: Seq<AuditRow>, limit: int) -> Seq<AuditRow> {
    let first = if rows.len() > limit {
        rows.take(limit)
    } else {
        rows
    };
    first.filter(|row: AuditRow| row.readable())
}

/// Whether this is a page of the log.
pub open spec fn is_page(
    r: (Vec<AuditEntry>, Option<String>),
    rows: Seq<AuditRow>,
    limit: int,
) -> bool {
    &&& r.0@.len() == page_rows(rows, limit).len()
    &&& forall|i: int|
        0 <= i < r.0@.len() ==> page_rows(rows, limit)[i].reads_as(#[trigger] r.0@[i])
    &&& r.1 is Some <==> rows.len() > limit && r.0@.len() > 0
    &&& r.1 matches Some(cursor) ==> cursor@ == outside::ulid_chars(r.0@.last().id.0)
}

/// A page of the log, from the rows that a query with one row more than the
/// limit gave: the entries, and the cursor to go on from if there is more.
pub fn query(rows: &Vec<AuditRow>, limit: usize) -> (r: (Vec<AuditEntry>, Option<String>))
    ensures
        is_page(r, rows@, limit as int),
{
    let has_more = rows.len() > limit;
    let end: usize = if has_more {
        limit
    } else {
        rows.len()
    };
    let mut entries: Vec<AuditEntry> = Vec::new();
    let ghost keep = |row: AuditRow| row.readable();
    let mut i: usize = 0;
    proof {
        reveal(Seq::filter);
        assert(rows@.take(0).filter(keep) == Seq::<AuditRow>::empty());
    }
    while i < end
        invariant
            i <= end <= rows.len(),
            keep == (|row: AuditRow| row.readable()),
            entries@.len() == rows@.take(i as int).filter(keep).len(),
            forall|k: int|
                0 <= k < entries@.len() ==> rows@.take(i as int).filter(keep)[k].reads_as(
                    #[trigger] entries@[k],
                ),
        decreases end - i,
    {
        proof {
            reveal(Seq::filter);
            assert(rows@.take(i + 1).drop_last() == rows@.take(i as int));
        }
        match rows[i].to_dto() {
            Some(entry) => {
                entries.push(entry);
            },
            None => {},
        }
        i += 1;
    }
    proof {
        if !has_more {
            assert(rows@.take(i as int) == rows@);
        }
    }
    let next_cursor = if has_more && entries.len() > 0 {
        Some(entries[entries.len() - 1].id.text())
    } else {
        None
    };
    (entries, next_cursor)
}

/// Law: a page of the log holds no more entries than the limit, each of one of
/// the first rows within it; where those can all be read, it holds exactly
/// them.
pub proof fn law_page_is_the_first_rows(rows: Seq<AuditRow>, limit: int)
    requires
        0 <= limit,
    ensures
        page_rows(rows, limit).len() <= limit,
        (forall|i: int| 0 <= i < rows.len() ==> (#[trigger] rows[i]).readable()) ==> page_rows(
            rows,
            limit,
        ) == (if rows.len() > limit {
            rows.take(limit)
        } else {
            rows
        }),
{
    let first = if rows.len() > limit {
        rows.take(limit)
    } else {
        rows
    };
    let keep = |row: AuditRow| row.readable();
    lemma_filter_all(first, keep);
    assert forall|i: int| 0 <= i < first.len() && (forall|j: int|
        0 <= j < rows.len() ==> (#[trigger] rows[j]).readable()) implies keep(
        #[trigger] first[i],
    ) by {
        assert(first[i] == rows[i]);
    }
}

proof fn lemma_filter_all(rows: Seq<AuditRow>, keep: spec_fn(AuditRow) -> bool)
    ensures
        rows.filter(keep).len() <= rows.len(),
        (forall|i: int| 0 <= i < rows.len() ==> keep(#[trigger] rows[i])) ==> rows.filter(keep)
            == rows,
    decreases rows.len(),
{
    reveal(Seq::filter);
    if rows.len() > 0 {
        let rest = rows.drop_last();
        lemma_filter_all(rest, keep);
        assert(rows == rest.push(rows.last()));
        if forall|i: int| 0 <= i < rows.len() ==> keep(#[trigger] rows[i]) {
            assert(keep(rows[rows.len() - 1]));
            assert forall|i: int| 0 <= i < rest.len() implies keep(#[trigger] rest[i]) by {
                assert(rows[i] == rest[i]);
            }
        }
    }
}

/// Law: an entry that is read is of the session, the kind and the detail that
/// its row holds.
pub proof fn law_entry_shows_its_row(row: AuditRow, entry: AuditEntry)
    requires
        row.reads_as(entry),
    ensures
        entry.kind@ == row.kind@,
        row.session_id is None ==> entry.session_id is None,
        entry.session_id matches Some(s) ==> (row.session_id matches Some(t)
            && outside::ulid_number(t@) == Some(s.0)),
        row.session_id matches Some(t) ==> (outside::ulid_number(t@) is Some
            ==> entry.session_id is Some),
        outside::json_compact(row.detail@) == Some(entry.detail@),
{
}

/// Law: a page goes on from its last entry exactly when there were more rows
/// than the limit; where every row can be read it shows the first ones, in
/// order, up to the limit.
pub proof fn law_page(r: (Vec<AuditEntry>, Option<String>), rows: Seq<AuditRow>, limit: int)
    requires
        is_page(r, rows, limit),
        limit > 0,
        forall|i: int| 0 <= i < rows.len() ==> (#[trigger] rows[i]).readable(),
    ensures
        r.0@.len() == (if rows.len() > limit {
            limit
        } else {
            rows.len() as int
        }),
        forall|i: int| 0 <= i < r.0@.len() ==> rows[i].reads_as(#[trigger] r.0@[i]),
        r.1 is Some <==> rows.len() > limit,
        r.1 matches Some(cursor) ==> cursor@ == outside::ulid_chars(r.0@[limit - 1].id.0),
{
    law_page_is_the_first_rows(rows, limit);
}

} // verus!
