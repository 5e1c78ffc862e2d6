//! Single-use tickets that open a WebSocket from a browser, which cannot send
//! headers. They live in memory: 32 bytes of chance, a short life, and gone
//! once used. Instants are milliseconds of a monotonic clock.

use vstd::prelude::*;

use crate::auth;
use crate::outside;
use crate::text;

verus! {

/// Life of a ticket, in milliseconds.
pub const TICKET_TTL_MS: u64 = 60_000;

/// A ticket and when it expires.
#[derive(Debug, PartialEq)]
pub struct Pending {
    pub ticket: String,
    pub expiry: u64,
}

/// The tickets that were issued and not used.
#[derive(Debug, PartialEq)]
pub struct TicketStore {
    pending: Vec<Pending>,
}

/// Tickets by their text.
pub closed spec fn by_text(pending: Seq<Pending>) -> Map<Seq<char>, u64>
    decreases pending.len(),
{
    if pending.len() == 0 {
        Map::empty()
    } else {
        by_text(pending.drop_last()).insert(pending.last().ticket@, pending.last().expiry)
    }
}

/// Whether no ticket is listed twice.
pub closed spec fn distinct(pending: Seq<Pending>) -> bool
    decreases pending.len(),
{
    pending.len() > 0 ==> {
        &&& !by_text(pending.drop_last()).dom().contains(pending.last().ticket@)
        &&& distinct(pending.drop_last())
    }
}

/// The tickets that have not expired.
pub open spec fn unexpired(m: Map<Seq<char>, u64>, now: u64) -> Map<Seq<char>, u64> {
    Map::new(|t: Seq<char>| m.dom().contains(t) && m[t] > now, |t: Seq<char>| m[t])
}

/// Something that happens to the tickets.
pub ghost enum TicketOp {
    /// A ticket is issued; those that have expired by then are dropped.
    Enter { ticket: Seq<char>, expiry: u64, now: u64 },
    /// A ticket is used.
    Use { ticket: Seq<char>, now: u64 },
}

/// The tickets after an operation.
pub open spec fn after_op(m: Map<Seq<char>, u64>, op: TicketOp) -> Map<Seq<char>, u64> {
    match op {
        TicketOp::Enter { ticket, expiry, now } => unexpired(m, now).insert(ticket, expiry),
        TicketOp::Use { ticket, .. } => m.remove(ticket),
    }
}

/// The tickets after some operations.
pub open spec fn after_all(m: Map<Seq<char>, u64>, ops: Seq<TicketOp>) -> Map<Seq<char>, u64>
    decreases ops.len(),
{
    if ops.len() == 0 {
        m
    } else {
        after_op(after_all(m, ops.drop_last()), ops.last())
    }
}

/// Whether a ticket is good: it was issued, was not used, and has not expired.
pub open spec fn is_good(m: Map<Seq<char>, u64>, ticket: Seq<char>, now: u64) -> bool {
    m.dom().contains(ticket) && m[ticket] > now
}

/// The test for tickets other than one that expire after an instant, if one is
/// given.
spec fn stays(ticket: Seq<char>, now: Option<u64>) -> spec_fn(Pending) -> bool {
    |p: Pending| p.ticket@ != ticket && (now matches Some(n) ==> p.expiry > n)
}

/// The tickets that pass the test.
spec fn staying(m: Map<Seq<char>, u64>, ticket: Seq<char>, now: Option<u64>) -> Map<
    Seq<char>,
    u64,
> {
    Map::new(
        |t: Seq<char>|
            m.dom().contains(t) && t != ticket && (now matches Some(n) ==> m[t] > n),
        |t: Seq<char>| m[t],
    )
}

proof fn lemma_staying(pending: Seq<Pending>, ticket: Seq<char>, now: Option<u64>)
    requires
        distinct(pending),
    ensures
        distinct(pending.filter(stays(ticket, now))),
        by_text(pending.filter(stays(ticket, now))) == staying(by_text(pending), ticket, now),
    decreases pending.len(),
{
    reveal(Seq::filter);
    let keep = stays(ticket, now);
    if pending.len() > 0 {
        let rest = pending.drop_last();
        lemma_staying(rest, ticket, now);
        let last = pending.last();
        if keep(last) {
            assert(pending.filter(keep) == rest.filter(keep).push(last));
            assert(pending.filter(keep).drop_last() == rest.filter(keep));
        }
    }
    assert(by_text(pending.filter(keep)) =~= staying(by_text(pending), ticket, now));
}

impl View for TicketStore {
    type V = Map<Seq<char>, u64>;

    closed spec fn view(&self) -> Map<Seq<char>, u64> {
        by_text(self.pending@)
    }
}

impl TicketStore {
    /// No ticket is listed twice.
    #[verifier::type_invariant]
    spec fn well_formed(self) -> bool {
        distinct(self.pending@)
    }

    /// No tickets.
    pub fn new() -> (r: Self)
        ensures
            r@ == Map::<Seq<char>, u64>::empty(),
    {
        TicketStore { pending: Vec::new() }
    }

    /// Issues a ticket with the usual life; answers it and its life in
    /// seconds.
    pub fn issue(&mut self, now: u64) -> (r: (String, u32))
        requires
            now + TICKET_TTL_MS <= u64::MAX,
        ensures
            r.0@.len() == 43,
            auth::is_random_text(r.0@),
            r.1 == 60,
            final(self)@.dom().contains(r.0@),
            final(self)@[r.0@] == now + 60_000,
            final(self)@ == after_op(
                old(self)@,
                (TicketOp::Enter { ticket: r.0@, expiry: (now + TICKET_TTL_MS) as u64, now }),
            ),
    {
        self.issue_with_ttl(TICKET_TTL_MS, now)
    }

    /// Issues a ticket with a given life; answers it and its life in seconds.
    pub fn issue_with_ttl(&mut self, ttl_ms: u64, now: u64) -> (r: (String, u32))
        requires
            now + ttl_ms <= u64::MAX,
        ensures
            r.0@.len() == 43,
            auth::is_random_text(r.0@),
            r.1 == (ttl_ms / 1000) as u32,
            final(self)@ == after_op(
                old(self)@,
                (TicketOp::Enter { ticket: r.0@, expiry: (now + ttl_ms) as u64, now }),
            ),
    {
        self.issue_from(&outside::random_bytes(), ttl_ms, now)
    }

    /// Issues the ticket that some bytes make, with a given life; answers it
    /// and its life in seconds.
    pub fn issue_from(&mut self, bytes: &[u8; 32], ttl_ms: u64, now: u64) -> (r: (String, u32))
        requires
            now + ttl_ms <= u64::MAX,
        ensures
            r.0@ == outside::base64_url_text(bytes@),
            r.0@.len() == 43,
            r.1 == (ttl_ms / 1000) as u32,
            final(self)@ == after_op(
                old(self)@,
                (TicketOp::Enter { ticket: r.0@, expiry: (now + ttl_ms) as u64, now }),
            ),
    {
        let ticket = outside::base64_url_encode(bytes);
        self.enter(ticket.clone(), ttl_ms, now);
        (ticket, (ttl_ms / 1000) as u32)
    }

    /// Takes in a ticket with a given life. Expired ones are dropped, so that
    /// those nobody used do not pile up.
    pub fn enter(&mut self, ticket: String, ttl_ms: u64, now: u64)
        requires
            now + ttl_ms <= u64::MAX,
        ensures
            final(self)@ == after_op(
                old(self)@,
                (TicketOp::Enter { ticket: ticket@, expiry: (now + ttl_ms) as u64, now }),
            ),
    {
        let mut kept = self.others(ticket.as_str(), Some(now));
        let ghost key = ticket@;
        let ghost left = kept@;
        let expiry: u64 = now + ttl_ms;
        kept.push(Pending { ticket, expiry });
        proof {
            assert(kept@.drop_last() == left);
            assert(by_text(kept@) =~= unexpired(self@, now).insert(key, expiry));
        }
        self.pending = kept;
    }

    /// The tickets other than one and, if an instant is given, those that have
    /// expired by then.
    fn others(&self, ticket: &str, now: Option<u64>) -> (r: Vec<Pending>)
        ensures
            distinct(r@),
            by_text(r@) == staying(self@, ticket@, now),
    {
        let ghost before = self.pending@;
        let ghost keep = stays(ticket@, now);
        let mut kept: Vec<Pending> = Vec::new();
        let mut i: usize = 0;
        proof {
            use_type_invariant(self);
            reveal(Seq::filter);
            assert(before.take(0).filter(keep) == Seq::<Pending>::empty());
        }
        while i < self.pending.len()
            invariant
                i <= self.pending.len(),
                self.pending@ == before,
                keep == stays(ticket@, now),
                kept@ == before.take(i as int).filter(keep),
            decreases self.pending.len() - i,
        {
            let entry = &self.pending[i];
            proof {
                reveal(Seq::filter);
                assert(before.take(i + 1).drop_last() == before.take(i as int));
            }
            let alive = match now {
                Some(n) => entry.expiry > n,
                None => true,
            };
            if alive && !text::same(entry.ticket.as_str(), ticket) {
                kept.push(Pending { ticket: entry.ticket.clone(), expiry: entry.expiry });
            }
            i += 1;
        }
        proof {
            assert(before.take(i as int) == before);
            lemma_staying(before, ticket@, now);
        }
        kept
    }

    fn expiry_of(&self, ticket: &str) -> (r: Option<u64>)
        ensures
            r == (if self@.dom().contains(ticket@) {
                Some(self@[ticket@])
            } else {
                None
            }),
    {
        let mut found: Option<u64> = None;
        let mut i: usize = 0;
        assert(self.pending@.take(0) == Seq::<Pending>::empty());
        while i < self.pending.len()
            invariant
                i <= self.pending.len(),
                found == (if by_text(self.pending@.take(i as int)).dom().contains(ticket@) {
                    Some(by_text(self.pending@.take(i as int))[ticket@])
                } else {
                    None
                }),
            decreases self.pending.len() - i,
        {
            assert(self.pending@.take(i + 1).drop_last() == self.pending@.take(i as int));
            if text::same(self.pending[i].ticket.as_str(), ticket) {
                found = Some(self.pending[i].expiry);
            }
            i += 1;
        }
        assert(self.pending@.take(i as int) == self.pending@);
        found
    }

    /// Uses a ticket: it is good once, and only before it expires.
    pub fn consume(&mut self, ticket: &str, now: u64) -> (r: bool)
        ensures
            r == is_good(old(self)@, ticket@, now),
            final(self)@ == after_op(old(self)@, (TicketOp::Use { ticket: ticket@, now })),
    {
        let found = self.expiry_of(ticket);
        let kept = self.others(ticket, None);
        assert(staying(self@, ticket@, None) =~= self@.remove(ticket@));
        self.pending = kept;
        match found {
            Some(expiry) => expiry > now,
            None => false,
        }
    }
}

/// Whether an operation uses a ticket that is good.
pub open spec fn good_at(m: Map<Seq<char>, u64>, ops: Seq<TicketOp>, i: int) -> bool {
    ops[i] matches TicketOp::Use { ticket, now } && is_good(
        after_all(m, ops.take(i)),
        ticket,
        now,
    )
}

/// Whether an operation takes a ticket in.
pub open spec fn takes_in(op: TicketOp, ticket: Seq<char>) -> bool {
    op matches TicketOp::Enter { ticket: t, .. } && t == ticket
}

proof fn lemma_stays_used(
    m: Map<Seq<char>, u64>,
    ops: Seq<TicketOp>,
    ticket: Seq<char>,
    i: int,
    n: int,
)
    requires
        0 <= i < n <= ops.len(),
        ops[i] matches TicketOp::Use { ticket: t, .. } && t == ticket,
        forall|k: int| i < k < n ==> !takes_in(#[trigger] ops[k], ticket),
    ensures
        !after_all(m, ops.take(n)).dom().contains(ticket),
    decreases n,
{
    assert(ops.take(n).drop_last() == ops.take(n - 1));
    if n > i + 1 {
        lemma_stays_used(m, ops, ticket, i, n - 1);
        assert(!takes_in(ops[n - 1], ticket));
    }
}

proof fn lemma_keeps_expiry(
    m: Map<Seq<char>, u64>,
    ops: Seq<TicketOp>,
    ticket: Seq<char>,
    expiry: u64,
    i: int,
    n: int,
)
    requires
        0 <= i < n <= ops.len(),
        ops[i] matches TicketOp::Enter { ticket: t, expiry: e, .. } && t == ticket && e == expiry,
        forall|k: int| i < k < n ==> !takes_in(#[trigger] ops[k], ticket),
    ensures
        after_all(m, ops.take(n)).dom().contains(ticket) ==> after_all(m, ops.take(n))[ticket]
            == expiry,
    decreases n,
{
    assert(ops.take(n).drop_last() == ops.take(n - 1));
    if n > i + 1 {
        lemma_keeps_expiry(m, ops, ticket, expiry, i, n - 1);
        assert(!takes_in(ops[n - 1], ticket));
    }
}

/// Law: a ticket is good once: between two uses of it of which the second is
/// good, it is issued again.
pub proof fn law_ticket_is_good_once(
    m: Map<Seq<char>, u64>,
    ops: Seq<TicketOp>,
    ticket: Seq<char>,
    i: int,
    j: int,
)
    requires
        0 <= i < j < ops.len(),
        ops[i] matches TicketOp::Use { ticket: t, .. } && t == ticket,
        ops[j] matches TicketOp::Use { ticket: t, .. } && t == ticket,
        good_at(m, ops, j),
    ensures
        exists|k: int| i < k < j && takes_in(#[trigger] ops[k], ticket),
{
    if forall|k: int| i < k < j ==> !takes_in(#[trigger] ops[k], ticket) {
        lemma_stays_used(m, ops, ticket, i, j);
    }
}

/// Law: a ticket is never good once its life is over, counted from when it was
/// last issued.
pub proof fn law_ticket_expires(
    m: Map<Seq<char>, u64>,
    ops: Seq<TicketOp>,
    ticket: Seq<char>,
    expiry: u64,
    i: int,
    j: int,
)
    requires
        0 <= i < j < ops.len(),
        ops[i] matches TicketOp::Enter { ticket: t, expiry: e, .. } && t == ticket && e == expiry,
        forall|k: int| i < k < j ==> !takes_in(#[trigger] ops[k], ticket),
        ops[j] matches TicketOp::Use { ticket: t, .. } && t == ticket,
        good_at(m, ops, j),
    ensures
        ops[j] matches TicketOp::Use { now, .. } && now < expiry,
{
    lemma_keeps_expiry(m, ops, ticket, expiry, i, j);
}

/// Whether an operation uses a ticket.
pub open spec fn uses(op: TicketOp, ticket: Seq<char>) -> bool {
    op matches TicketOp::Use { ticket: t, .. } && t == ticket
}

/// The instant of an operation.
pub open spec fn instant_of(op: TicketOp) -> u64 {
    match op {
        TicketOp::Enter { now, .. } => now,
        TicketOp::Use { now, .. } => now,
    }
}

proof fn lemma_stays_listed(
    m: Map<Seq<char>, u64>,
    ops: Seq<TicketOp>,
    ticket: Seq<char>,
    expiry: u64,
    i: int,
    n: int,
)
    requires
        0 <= i < n <= ops.len(),
        ops[i] matches TicketOp::Enter { ticket: t, expiry: e, .. } && t == ticket && e == expiry,
        forall|k: int|
            i < k < n ==> !takes_in(#[trigger] ops[k], ticket) && !uses(ops[k], ticket)
                && instant_of(ops[k]) < expiry,
    ensures
        after_all(m, ops.take(n)).dom().contains(ticket),
        after_all(m, ops.take(n))[ticket] == expiry,
    decreases n,
{
    assert(ops.take(n).drop_last() == ops.take(n - 1));
    if n > i + 1 {
        lemma_stays_listed(m, ops, ticket, expiry, i, n - 1);
        assert(!takes_in(ops[n - 1], ticket));
    }
}

/// Law: a ticket that nobody used stays good until it expires, whatever happens
/// to other tickets.
pub proof fn law_unused_ticket_stays_good(
    m: Map<Seq<char>, u64>,
    ops: Seq<TicketOp>,
    ticket: Seq<char>,
    expiry: u64,
    i: int,
    j: int,
)
    requires
        0 <= i < j < ops.len(),
        ops[i] matches TicketOp::Enter { ticket: t, expiry: e, .. } && t == ticket && e == expiry,
        forall|k: int|
            i < k < j ==> !takes_in(#[trigger] ops[k], ticket) && !uses(ops[k], ticket)
                && instant_of(ops[k]) < expiry,
        uses(ops[j], ticket),
        instant_of(ops[j]) < expiry,
    ensures
        good_at(m, ops, j),
{
    lemma_stays_listed(m, ops, ticket, expiry, i, j);
}

/// Law: using a ticket leaves every other one as good as it was.
pub proof fn law_other_tickets_are_left_alone(
    m: Map<Seq<char>, u64>,
    ticket: Seq<char>,
    at: u64,
    other: Seq<char>,
    now: u64,
)
    requires
        other != ticket,
    ensures
        is_good(after_op(m, (TicketOp::Use { ticket, now: at })), other, now) == is_good(
            m,
            other,
            now,
        ),
{
}

/// Law: when a ticket is issued, those that have expired by then are dropped, so
/// that they do not pile up, and no other is.
pub proof fn law_expired_tickets_are_dropped(
    m: Map<Seq<char>, u64>,
    ticket: Seq<char>,
    expiry: u64,
    now: u64,
    other: Seq<char>,
)
    requires
        other != ticket,
    ensures
        ({
            let after = after_op(m, (TicketOp::Enter { ticket, expiry, now }));
            &&& after.dom().contains(ticket) && after[ticket] == expiry
            &&& after.dom().contains(other) <==> m.dom().contains(other) && m[other] > now
            &&& after.dom().contains(other) ==> after[other] == m[other]
        }),
{
}

} // verus!
