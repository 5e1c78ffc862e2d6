//! Events of a session. This is the only door through which events are
//! written: each takes the next number of its session, in the step that
//! stores it, so the numbers grow by one and leave no gaps.

use vstd::prelude::*;

use crate::protocol::envelope::{Envelope, PROTOCOL_VERSION};
use crate::protocol::events::{Event, SessionState};
use crate::protocol::ids::SessionId;
use crate::protocol::time::Timestamp;
use crate::store;
use crate::store::sessions::SessionRow;

verus! {

/// Why an event was not written.
#[derive(Debug, Clone, Copy, PartialEq, Eq, Structural)]
pub enum AppendError {
    SessionNotFound,
    /// The store failed.
    Store,
}

impl AppendError {
    /// The message for the log.
    pub fn text(&self) -> (r: &'static str)
        ensures
            r@ == (match *self {
                AppendError::SessionNotFound => "sesión no encontrada"@,
                AppendError::Store => "fallo de la base de datos"@,
            }),
    {
        match self {
            AppendError::SessionNotFound => "sesión no encontrada",
            AppendError::Store => "fallo de la base de datos",
        }
    }
}

/// Whether a session is another one after an event: the next number is taken,
/// and the new state, if there is one, is set.
pub open spec fn advanced(after: SessionRow, before: SessionRow, new_state: Option<SessionState>) -> bool {
    &&& after.last_seq == before.last_seq + 1
    &&& after.id == before.id
    &&& after.workspace_path == before.workspace_path
    &&& after.title == before.title
    &&& after.created_at == before.created_at
    &&& match new_state {
        Some(state) => after.state@ == store::state_text(state),
        None => after.state == before.state,
    }
}

/// What writing an event comes to.
pub open spec fn appends(
    before: Option<SessionRow>,
    session_id: SessionId,
    event: Event,
    new_state: Option<SessionState>,
    now: Timestamp,
    r: Result<Envelope<Event>, AppendError>,
    after_row: Option<SessionRow>,
) -> bool {
    match before {
        None => r == Err::<Envelope<Event>, AppendError>(AppendError::SessionNotFound)
            && after_row == before,
        Some(earlier) => {
            &&& r matches Ok(env)
            &&& env.seq matches Some(seq)
            &&& seq == earlier.last_seq + 1
            &&& env.v == PROTOCOL_VERSION
            &&& env.body == event
            &&& env.session_id == Some(session_id)
            &&& env.ts == now
            &&& after_row matches Some(after)
            &&& advanced(after, earlier, new_state)
        },
    }
}

/// Gives an event the next number of its session, and sets the state that goes
/// with it.
pub fn append(
    row: &mut Option<SessionRow>,
    session_id: SessionId,
    event: Event,
    new_state: Option<SessionState>,
    now: Timestamp,
) -> (r: Result<Envelope<Event>, AppendError>)
    requires
        *old(row) matches Some(s) ==> 0 <= s.last_seq < i64::MAX,
    ensures
        appends(*old(row), session_id, event, new_state, now, r, *final(row)),
{
    match row {
        None => Err(AppendError::SessionNotFound),
        Some(session) => {
            match new_state {
                Some(state) => {
                    session.state = store::state_to_str(state).to_owned();
                },
                None => {},
            }
            session.last_seq = session.last_seq + 1;
            let seq = session.last_seq as u64;
            Ok(Envelope::event(event, Some(session_id), seq, now))
        },
    }
}

/// The sessions that a run of events goes through, each with the new state of
/// its event.
pub open spec fn is_history(rows: Seq<SessionRow>, states: Seq<Option<SessionState>>) -> bool {
    &&& rows.len() == states.len() + 1
    &&& forall|i: int|
        #![trigger states[i]]
        0 <= i < states.len() ==> advanced(rows[i + 1], rows[i], states[i])
}

/// Law: the numbers of a session's events grow by one from event to event,
/// without gaps or repeats.
pub proof fn law_numbers_have_no_gaps(
    rows: Seq<SessionRow>,
    states: Seq<Option<SessionState>>,
    n: int,
)
    requires
        is_history(rows, states),
        0 <= n < rows.len(),
    ensures
        rows[n].last_seq == rows[0].last_seq + n,
    decreases n,
{
    if n > 0 {
        law_numbers_have_no_gaps(rows, states, n - 1);
        assert(advanced(rows[n - 1 + 1], rows[n - 1], states[n - 1]));
    }
}

/// Law: the stored state of a session is that of its last event that set one.
pub proof fn law_state_is_the_last_one_set(
    rows: Seq<SessionRow>,
    states: Seq<Option<SessionState>>,
    k: int,
    state: SessionState,
    n: int,
)
    requires
        is_history(rows, states),
        0 <= k < n < rows.len(),
        states[k] == Some(state),
        forall|i: int| k < i < n ==> #[trigger] states[i] is None,
    ensures
        store::text_state(rows[n].state@) == Some(state),
    decreases n,
{
    store::law_state_round_trip(state, rows[n].state@);
    assert(advanced(rows[n - 1 + 1], rows[n - 1], states[n - 1]));
    if n - 1 > k {
        law_state_is_the_last_one_set(rows, states, k, state, n - 1);
    }
}

/// The numbers under which a run of events is stored.
pub open spec fn numbers(rows: Seq<SessionRow>) -> Seq<u64> {
    Seq::new((rows.len() - 1) as nat, |i: int| rows[i + 1].last_seq as u64)
}

/// Law: the stored numbers of a session are exactly those from one to its last
/// one, each once and in order.
pub proof fn law_stored_numbers(rows: Seq<SessionRow>, states: Seq<Option<SessionState>>)
    requires
        is_history(rows, states),
        rows[0].last_seq == 0,
    ensures
        numbers(rows).len() == rows.last().last_seq,
        forall|i: int| 0 <= i < numbers(rows).len() ==> #[trigger] numbers(rows)[i] == i + 1,
        forall|n: u64| #[trigger]
            numbers(rows).contains(n) <==> 1 <= n <= rows.last().last_seq,
{
    law_numbers_have_no_gaps(rows, states, rows.len() - 1);
    assert forall|i: int| 0 <= i < numbers(rows).len() implies #[trigger] numbers(rows)[i] == i
        + 1 by {
        law_numbers_have_no_gaps(rows, states, i + 1);
    }
    assert forall|n: u64| #[trigger] numbers(rows).contains(n) <==> 1 <= n
        <= rows.last().last_seq by {
        if 1 <= n <= rows.last().last_seq {
            assert(numbers(rows)[n - 1] == n);
        }
    }
}

/// The test for numbers after one.
pub open spec fn is_after(after: u64) -> spec_fn(u64) -> bool {
    |n: u64| n > after
}

/// What a replay gives of the stored numbers of a session: those after a
/// number, in order, up to a limit.
pub open spec fn replayed(stored: Seq<u64>, after: u64, limit: nat) -> Seq<u64> {
    let later = stored.filter(is_after(after));
    if later.len() <= limit {
        later
    } else {
        later.take(limit as int)
    }
}

/// The number to look for events after: numbers are stored with a sign, so
/// there are none after the largest of those.
pub fn replay_after(after_seq: u64) -> (r: i64)
    ensures
        r == (if after_seq <= i64::MAX {
            after_seq as int
        } else {
            i64::MAX as int
        }),
{
    if after_seq <= i64::MAX as u64 {
        after_seq as i64
    } else {
        i64::MAX
    }
}

/// What a replay gives grows strictly, as what is stored does, and lies after
/// its number.
pub proof fn lemma_replayed_ascends(stored: Seq<u64>, after: u64, limit: nat)
    requires
        forall|i: int, j: int| 0 <= i < j < stored.len() ==> stored[i] < stored[j],
    ensures
        replayed(stored, after, limit).len() <= limit,
        forall|i: int, j: int|
            0 <= i < j < replayed(stored, after, limit).len() ==> replayed(stored, after, limit)[i]
                < replayed(stored, after, limit)[j],
        forall|i: int|
            0 <= i < replayed(stored, after, limit).len() ==> #[trigger] replayed(
                stored,
                after,
                limit,
            )[i] > after,
{
    lemma_later_ascends(stored, after);
}

proof fn lemma_later_ascends(stored: Seq<u64>, after: u64)
    requires
        forall|i: int, j: int| 0 <= i < j < stored.len() ==> stored[i] < stored[j],
    ensures
        forall|i: int, j: int|
            0 <= i < j < stored.filter(is_after(after)).len() ==> stored.filter(is_after(after))[i]
                < stored.filter(is_after(after))[j],
        forall|i: int|
            0 <= i < stored.filter(is_after(after)).len() ==> #[trigger] stored.filter(
                is_after(after),
            )[i] > after,
        forall|i: int|
            0 <= i < stored.filter(is_after(after)).len() ==> #[trigger] stored.filter(
                is_after(after),
            )[i] <= stored.last(),
    decreases stored.len(),
{
    reveal(Seq::filter);
    if stored.len() > 0 {
        let rest = stored.drop_last();
        lemma_later_ascends(rest, after);
        assert forall|i: int| 0 <= i < rest.filter(is_after(after)).len() implies #[trigger]
            rest.filter(is_after(after))[i] < stored.last() by {
            assert(rest.filter(is_after(after))[i] <= rest.last());
            if rest.len() > 0 {
                assert(stored[stored.len() - 2] < stored[stored.len() - 1]);
            }
        }
    }
}

/// Law: a replay gives nothing but stored numbers after the one asked for, no
/// more than the limit; where it gives fewer than the limit it gives them all,
/// and else it gives the first ones.
pub proof fn law_replay_is_complete(stored: Seq<u64>, after: u64, limit: nat, n: u64)
    ensures
        replayed(stored, after, limit).len() <= limit,
        replayed(stored, after, limit).contains(n) ==> stored.contains(n) && n > after,
        stored.contains(n) && n > after && replayed(stored, after, limit).len() < limit
            ==> replayed(stored, after, limit).contains(n),
        replayed(stored, after, limit).is_prefix_of(stored.filter(is_after(after))),
{
    let keep = is_after(after);
    let later = stored.filter(keep);
    let given = replayed(stored, after, limit);
    assert(later.take(later.len() as int) == later);
    if given.contains(n) {
        let i = choose|i: int| 0 <= i < given.len() && given[i] == n;
        assert(later[i] == n);
        stored.lemma_filter_pred(keep, i);
        stored.lemma_filter_contains_rev(keep, n);
    }
    if stored.contains(n) && n > after && given.len() < limit {
        let i = choose|i: int| 0 <= i < stored.len() && stored[i] == n;
        assert(keep(stored[i]));
        stored.lemma_filter_contains(keep, i);
    }
}

/// Law: an event is written exactly when its session is there: under the number
/// after the last one, in the name of its session, as it is, and stamped with
/// its instant; that number is then the session's last. Nothing else of the
/// session changes but, where the event sets one, its state.
pub proof fn law_event_takes_the_next_number(
    before: SessionRow,
    session_id: SessionId,
    event: Event,
    new_state: Option<SessionState>,
    now: Timestamp,
    r: Result<Envelope<Event>, AppendError>,
    after: Option<SessionRow>,
)
    requires
        appends(Some(before), session_id, event, new_state, now, r, after),
        before.last_seq >= 0,
    ensures
        r matches Ok(env) && env.v == 1 && env.body == event && env.session_id == Some(session_id)
            && env.ts == now && (env.seq matches Some(seq) && seq == before.last_seq + 1),
        after matches Some(row) && row.last_seq == before.last_seq + 1 && row.id == before.id
            && row.title == before.title && row.workspace_path == before.workspace_path
            && row.created_at == before.created_at && (new_state is None ==> row.state
            == before.state) && (new_state matches Some(state) ==> store::text_state(row.state@)
            == Some(state)),
{
    match (new_state, after) {
        (Some(state), Some(row)) => store::law_state_round_trip(state, row.state@),
        _ => {},
    }
}

} // verus!
