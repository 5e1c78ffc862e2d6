//! The sessions that have a turn in progress: at most one turn each, while the
//! other sessions go on.

use std::collections::HashSet;
use vstd::prelude::*;
use vstd::std_specs::hash::*;

use crate::protocol::ids::SessionId;

verus! {

broadcast use group_hash_axioms;

/// The sessions with a turn in progress.
pub struct Running {
    sessions: HashSet<u128>,
}

/// Something that happens to the turns.
pub ghost enum TurnOp {
    /// A turn of a session is asked for.
    Asked(u128),
    /// The turn of a session ends.
    Ended(u128),
}

/// Whether a turn of a session may start: it has none in progress.
pub open spec fn may_start(s: Set<u128>, session: u128) -> bool {
    !s.contains(session)
}

/// The sessions with a turn in progress after an operation.
pub open spec fn after_op(s: Set<u128>, op: TurnOp) -> Set<u128> {
    match op {
        TurnOp::Asked(session) => s.insert(session),
        TurnOp::Ended(session) => s.remove(session),
    }
}

/// The sessions with a turn in progress after some operations.
pub open spec fn after_all(s: Set<u128>, ops: Seq<TurnOp>) -> Set<u128>
    decreases ops.len(),
{
    if ops.len() == 0 {
        s
    } else {
        after_op(after_all(s, ops.drop_last()), ops.last())
    }
}

impl View for Running {
    type V = Set<u128>;

    closed spec fn view(&self) -> Set<u128> {
        self.sessions@
    }
}

impl Running {
    /// No sessions.
    pub fn new() -> (r: Self)
        ensures
            r@ == Set::<u128>::empty(),
    {
        Running { sessions: HashSet::new() }
    }

    /// Whether a turn may start: a session that has one gets no second.
    pub fn ensure_running(&mut self, session_id: SessionId) -> (r: bool)
        ensures
            r == may_start(old(self)@, session_id.0),
            final(self)@ == after_op(old(self)@, TurnOp::Asked(session_id.0)),
    {
        self.sessions.insert(session_id.0)
    }

    /// The turn of a session is over.
    pub fn ended(&mut self, session_id: SessionId)
        ensures
            final(self)@ == after_op(old(self)@, TurnOp::Ended(session_id.0)),
    {
        self.sessions.remove(&session_id.0);
    }
}

/// Whether an operation starts a turn of its session.
pub open spec fn starts_at(s: Set<u128>, ops: Seq<TurnOp>, i: int) -> bool {
    ops[i] matches TurnOp::Asked(session) && may_start(after_all(s, ops.take(i)), session)
}

proof fn lemma_keeps_running(s: Set<u128>, ops: Seq<TurnOp>, session: u128, i: int, m: int)
    requires
        0 <= i < m <= ops.len(),
        ops[i] == TurnOp::Asked(session),
        forall|k: int| i < k < m ==> #[trigger] ops[k] != TurnOp::Ended(session),
    ensures
        after_all(s, ops.take(m)).contains(session),
    decreases m,
{
    assert(ops.take(m).drop_last() == ops.take(m - 1));
    if m > i + 1 {
        lemma_keeps_running(s, ops, session, i, m - 1);
        assert(ops[m - 1] != TurnOp::Ended(session));
    }
}

/// Law: between two turns of one session the first one ends, whatever other
/// sessions do; right after an end another one may start.
pub proof fn law_one_turn_per_session(
    s: Set<u128>,
    ops: Seq<TurnOp>,
    session: u128,
    i: int,
    j: int,
)
    requires
        0 <= i < j < ops.len(),
        ops[j] == TurnOp::Asked(session),
    ensures
        ops[i] == TurnOp::Asked(session) && starts_at(s, ops, j) ==> exists|k: int|
            i < k < j && #[trigger] ops[k] == TurnOp::Ended(session),
        ops[j - 1] == TurnOp::Ended(session) ==> starts_at(s, ops, j),
{
    if ops[i] == TurnOp::Asked(session) && starts_at(s, ops, j) {
        if forall|k: int| i < k < j ==> #[trigger] ops[k] != TurnOp::Ended(session) {
            lemma_keeps_running(s, ops, session, i, j);
        }
    }
    assert(ops.take(j).drop_last() == ops.take(j - 1));
}

/// Law: the turns of one session leave those of every other one as they are.
pub proof fn law_sessions_are_apart(s: Set<u128>, session: u128, other: u128)
    requires
        other != session,
    ensures
        after_op(s, TurnOp::Asked(session)).contains(session),
        !after_op(s, TurnOp::Ended(session)).contains(session),
        after_op(s, TurnOp::Asked(session)).contains(other) == s.contains(other),
        after_op(s, TurnOp::Ended(session)).contains(other) == s.contains(other),
{
}

} // verus!
