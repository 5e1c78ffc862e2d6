//! Sessions as they are stored.

use vstd::prelude::*;

use crate::outside;
use crate::protocol::api::SessionDto;
use crate::protocol::events::SessionState;
use crate::protocol::ids::SessionId;
use crate::protocol::time::{self, Timestamp};
use crate::store;

verus! {

/// A session as it is stored.
#[derive(Debug, PartialEq)]
pub struct SessionRow {
    pub id: String,
    pub workspace_path: String,
    pub title: String,
    pub state: String,
    pub created_at: String,
    pub last_seq: i64,
}

impl SessionRow {
    /// Whether the row can be read.
    pub open spec fn readable(self) -> bool {
        &&& outside::ulid_number(self.id@) is Some
        &&& store::text_state(self.state@) is Some
        &&& outside::rfc3339_instant(self.created_at@) is Some
    }

    /// Whether a session is what the row holds.
    pub open spec fn reads_as(self, dto: SessionDto) -> bool {
        &&& outside::ulid_number(self.id@) == Some(dto.id.0)
        &&& dto.workspace_path == self.workspace_path
        &&& dto.title == self.title
        &&& store::text_state(self.state@) == Some(dto.state)
        &&& outside::rfc3339_instant(self.created_at@) == Some(
            (dto.created_at.secs, dto.created_at.nanos),
        )
        &&& dto.last_seq == self.last_seq as u64
    }

    /// The session that the row holds, if it can be read.
    pub fn to_dto(&self) -> (r: Option<SessionDto>)
        ensures
            r is Some <==> self.readable(),
            r matches Some(dto) ==> self.reads_as(dto),
    {
        let id = match SessionId::from_text(self.id.as_str()) {
            Ok(id) => id,
            Err(_) => return None,
        };
        let state = match store::state_from_str(self.state.as_str()) {
            Some(state) => state,
            None => return None,
        };
        let created_at = match time::parse_ts(self.created_at.as_str()) {
            Some(t) => t,
            None => return None,
        };
        Some(
            SessionDto {
                id,
                workspace_path: self.workspace_path.clone(),
                title: self.title.clone(),
                state,
                created_at,
                last_seq: self.last_seq as u64,
            },
        )
    }

    /// The state of the session, if it can be read.
    pub fn session_state(&self) -> (r: Option<SessionState>)
        ensures
            r == store::text_state(self.state@),
    {
        store::state_from_str(self.state.as_str())
    }
}

/// Whether a row is that of a new session: idle, and without events.
pub open spec fn is_new(
    row: SessionRow,
    id: SessionId,
    workspace_path: Seq<char>,
    title: Seq<char>,
    created_at: Timestamp,
) -> bool {
    &&& row.id@ == outside::ulid_chars(id.0)
    &&& row.workspace_path@ == workspace_path
    &&& row.title@ == title
    &&& row.state@ == "idle"@
    &&& row.created_at@ == outside::rfc3339_chars(created_at.secs, created_at.nanos)
    &&& row.last_seq == 0
}

/// The row of a new session: idle, and without events.
pub fn create(id: SessionId, workspace_path: &str, title: &str, created_at: Timestamp) -> (r:
    SessionRow)
    requires
        created_at.in_range(),
    ensures
        is_new(r, id, workspace_path@, title@, created_at),
        r.readable(),
        forall|dto: SessionDto|
            #[trigger] r.reads_as(dto) ==> dto.id == id && dto.state == SessionState::Idle
                && dto.created_at == created_at && dto.last_seq == 0,
{
    SessionRow {
        id: id.text(),
        workspace_path: workspace_path.to_owned(),
        title: title.to_owned(),
        state: "idle".to_owned(),
        created_at: created_at.to_rfc3339(),
        last_seq: 0,
    }
}

/// The rows that can be read.
pub open spec fn readable_rows(rows: Seq<SessionRow>) -> Seq<SessionRow> {
    rows.filter(|row: SessionRow| row.readable())
}

/// The sessions of the rows that can be read, in order.
pub fn list(rows: &Vec<SessionRow>) -> (r: Vec<SessionDto>)
    ensures
        r@.len() == readable_rows(rows@).len(),
        forall|i: int| 0 <= i < r@.len() ==> readable_rows(rows@)[i].reads_as(#[trigger] r@[i]),
{
    let mut out: Vec<SessionDto> = Vec::new();
    let ghost keep = |row: SessionRow| row.readable();
    let mut i: usize = 0;
    proof {
        reveal(Seq::filter);
        assert(rows@.take(0).filter(keep) == Seq::<SessionRow>::empty());
    }
    while i < rows.len()
        invariant
            i <= rows.len(),
            keep == (|row: SessionRow| row.readable()),
            out@.len() == rows@.take(i as int).filter(keep).len(),
            forall|k: int|
                0 <= k < out@.len() ==> rows@.take(i as int).filter(keep)[k].reads_as(
                    #[trigger] out@[k],
                ),
        decreases rows.len() - i,
    {
        proof {
            reveal(Seq::filter);
            assert(rows@.take(i + 1).drop_last() == rows@.take(i as int));
        }
        match rows[i].to_dto() {
            Some(dto) => {
                out.push(dto);
            },
            None => {},
        }
        i += 1;
    }
    assert(rows@.take(i as int) == rows@);
    out
}

/// Law: the rows that are read are those of all the rows that can be, and no
/// others; where every row can be read they are the rows themselves.
pub proof fn law_readable_rows(rows: Seq<SessionRow>, row: SessionRow)
    ensures
        readable_rows(rows).contains(row) <==> rows.contains(row) && row.readable(),
        (forall|i: int| 0 <= i < rows.len() ==> (#[trigger] rows[i]).readable()) ==> readable_rows(
            rows,
        ) == rows,
    decreases rows.len(),
{
    reveal(Seq::filter);
    if rows.len() > 0 {
        let rest = rows.drop_last();
        law_readable_rows(rest, row);
        assert(rows == rest.push(rows.last()));
        let kept = readable_rows(rest);
        if rows.last().readable() {
            assert(readable_rows(rows) == kept.push(rows.last()));
        } else {
            assert(readable_rows(rows) == kept);
        }
        assert(rows.contains(row) <==> rest.contains(row) || row == rows.last()) by {
            if rest.contains(row) {
                let i = choose|i: int| 0 <= i < rest.len() && rest[i] == row;
                assert(rows[i] == row);
            }
            if row == rows.last() {
                assert(rows[rows.len() - 1] == row);
            }
            if rows.contains(row) && row != rows.last() {
                let i = choose|i: int| 0 <= i < rows.len() && rows[i] == row;
                assert(rest[i] == row);
            }
        }
        assert(kept.push(rows.last()).contains(row) <==> kept.contains(row) || row
            == rows.last()) by {
            let grown = kept.push(rows.last());
            if kept.contains(row) {
                let i = choose|i: int| 0 <= i < kept.len() && kept[i] == row;
                assert(grown[i] == row);
            }
            assert(grown[kept.len() as int] == rows.last());
            if grown.contains(row) && row != rows.last() {
                let i = choose|i: int| 0 <= i < grown.len() && grown[i] == row;
                assert(kept[i] == row);
            }
        }
        assert forall|i: int| 0 <= i < rest.len() && (forall|j: int|
            0 <= j < rows.len() ==> (#[trigger] rows[j]).readable()) implies (
        #[trigger] rest[i]).readable() by {
            assert(rows[i] == rest[i]);
        }
        if forall|j: int| 0 <= j < rows.len() ==> (#[trigger] rows[j]).readable() {
            assert(rows[rows.len() - 1].readable());
        }
    }
}

/// Law: a session that is read is in the state that its row spells, under the
/// same title and workspace, and has the last number of its row.
pub proof fn law_session_shows_its_row(row: SessionRow, dto: SessionDto)
    requires
        row.reads_as(dto),
        row.last_seq >= 0,
    ensures
        outside::ulid_number(row.id@) == Some(dto.id.0),
        row.state@ == store::state_text(dto.state),
        dto.title@ == row.title@,
        dto.workspace_path@ == row.workspace_path@,
        dto.last_seq == row.last_seq,
{
    store::law_state_round_trip(dto.state, row.state@);
}

} // verus!
