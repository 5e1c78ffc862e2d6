//! The permission gate: the requests whose sessions are suspended until
//! somebody decides.
//!
//! A session opens a slot before it tells the clients, and waits for it without
//! holding up other sessions. A slot is delivered to at most once.

use std::collections::HashSet;

use vstd::prelude::*;
use vstd::std_specs::hash::*;

use crate::protocol::ids::ApprovalId;

verus! {

broadcast use group_hash_axioms;

/// The open slots.
pub struct Gate {
    pending: HashSet<u128>,
}

/// Something that happens to the slots.
pub ghost enum GateOp {
    Register(u128),
    Resolve(u128),
    Discard(u128),
}

/// Whether anybody waits for the decision on a request.
pub open spec fn is_awaited(open: Set<u128>, id: u128) -> bool {
    open.contains(id)
}

/// The open slots after an operation.
pub open spec fn after_op(open: Set<u128>, op: GateOp) -> Set<u128> {
    match op {
        GateOp::Register(id) => open.insert(id),
        GateOp::Resolve(id) => open.remove(id),
        GateOp::Discard(id) => open.remove(id),
    }
}

/// The open slots after some operations.
pub open spec fn after_all(open: Set<u128>, ops: Seq<GateOp>) -> Set<u128>
    decreases ops.len(),
{
    if ops.len() == 0 {
        open
    } else {
        after_op(after_all(open, ops.drop_last()), ops.last())
    }
}

impl View for Gate {
    type V = Set<u128>;

    closed spec fn view(&self) -> Set<u128> {
        self.pending@
    }
}

impl Gate {
    /// No slots.
    pub fn new() -> (r: Self)
        ensures
            r@ == Set::<u128>::empty(),
    {
        Gate { pending: HashSet::new() }
    }

    /// Opens a slot.
    pub fn register(&mut self, id: ApprovalId)
        ensures
            final(self)@ == after_op(old(self)@, GateOp::Register(id.0)),
    {
        self.pending.insert(id.0);
    }

    /// Takes a slot for a decision; answers whether anybody waits on it.
    pub fn resolve(&mut self, id: ApprovalId) -> (r: bool)
        ensures
            r == is_awaited(old(self)@, id.0),
            final(self)@ == after_op(old(self)@, GateOp::Resolve(id.0)),
    {
        self.pending.remove(&id.0)
    }

    /// Drops a slot whose session no longer waits.
    pub fn discard(&mut self, id: ApprovalId)
        ensures
            final(self)@ == after_op(old(self)@, GateOp::Discard(id.0)),
    {
        self.pending.remove(&id.0);
    }
}

/// Whether an operation delivers a decision to a session that waits for it.
pub open spec fn delivers_at(open: Set<u128>, ops: Seq<GateOp>, i: int) -> bool {
    ops[i] matches GateOp::Resolve(id) && is_awaited(after_all(open, ops.take(i)), id)
}

proof fn lemma_stays_taken(
    open: Set<u128>,
    ops: Seq<GateOp>,
    id: u128,
    i: int,
    m: int,
)
    requires
        0 <= i < m <= ops.len(),
        ops[i] == GateOp::Resolve(id),
        forall|k: int| i < k < m ==> #[trigger] ops[k] != GateOp::Register(id),
    ensures
        !after_all(open, ops.take(m)).contains(id),
    decreases m,
{
    assert(ops.take(m).drop_last() == ops.take(m - 1));
    if m > i + 1 {
        lemma_stays_taken(open, ops, id, i, m - 1);
        assert(ops[m - 1] != GateOp::Register(id));
    }
}

/// Law: a slot is delivered to once: between two deliveries under one
/// identifier it is opened again. The first decision after it was opened is
/// delivered.
pub proof fn law_slot_is_taken_once(
    open: Set<u128>,
    ops: Seq<GateOp>,
    id: u128,
    i: int,
    j: int,
)
    requires
        0 <= i < j < ops.len(),
        ops[j] == GateOp::Resolve(id),
    ensures
        ops[i] == GateOp::Resolve(id) && delivers_at(open, ops, j) ==> exists|k: int|
            i < k < j && #[trigger] ops[k] == GateOp::Register(id),
        ops[i] == GateOp::Register(id) && (forall|k: int|
            i < k < j ==> #[trigger] ops[k] != GateOp::Resolve(id) && ops[k] != GateOp::Discard(id))
            ==> delivers_at(open, ops, j),
{
    if ops[i] == GateOp::Resolve(id) && delivers_at(open, ops, j) {
        if forall|k: int| i < k < j ==> #[trigger] ops[k] != GateOp::Register(id) {
            lemma_stays_taken(open, ops, id, i, j);
        }
    }
    if ops[i] == GateOp::Register(id) && (forall|k: int|
        i < k < j ==> #[trigger] ops[k] != GateOp::Resolve(id) && ops[k] != GateOp::Discard(id)) {
        lemma_stays_open(open, ops, id, i, j);
    }
}

proof fn lemma_stays_open(
    open: Set<u128>,
    ops: Seq<GateOp>,
    id: u128,
    i: int,
    m: int,
)
    requires
        0 <= i < m <= ops.len(),
        ops[i] == GateOp::Register(id),
        forall|k: int|
            i < k < m ==> #[trigger] ops[k] != GateOp::Resolve(id) && ops[k] != GateOp::Discard(id),
    ensures
        after_all(open, ops.take(m)).contains(id),
    decreases m,
{
    assert(ops.take(m).drop_last() == ops.take(m - 1));
    if m > i + 1 {
        lemma_stays_open(open, ops, id, i, m - 1);
        assert(ops[m - 1] != GateOp::Resolve(id));
    }
}

/// Law: what happens to one slot leaves every other one as it was; opening it
/// opens it, and a decision on it, or dropping it, closes it.
pub proof fn law_slots_are_apart(open: Set<u128>, id: u128, other: u128)
    requires
        other != id,
    ensures
        after_op(open, GateOp::Register(id)).contains(id),
        !after_op(open, GateOp::Resolve(id)).contains(id),
        !after_op(open, GateOp::Discard(id)).contains(id),
        after_op(open, GateOp::Register(id)).contains(other) == open.contains(other),
        after_op(open, GateOp::Resolve(id)).contains(other) == open.contains(other),
        after_op(open, GateOp::Discard(id)).contains(other) == open.contains(other),
{
}

} // verus!
