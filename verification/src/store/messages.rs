//! Messages of a conversation, each sent at most once per `client_msg_id`.

use vstd::prelude::*;

use crate::protocol::ids::MessageId;
use crate::text;

verus! {

/// An entry of the history of a session.
#[derive(Debug, PartialEq)]
pub struct MessageRow {
    pub role: String,
    pub content: String,
}

/// What came of storing a message of the user.
#[derive(Debug, Clone, Copy, PartialEq, Eq, Structural)]
pub enum InsertOutcome {
    /// It is stored; the turn must start.
    Inserted,
    /// A message of that key was there already; with its identifier.
    Duplicate(MessageId),
}

/// A stored message of the user: the key its client gave it, and its
/// identifier.
#[derive(Debug, PartialEq)]
pub struct Sent {
    pub client_msg_id: String,
    pub id: MessageId,
}

/// The messages of the user in a session; no key occurs twice.
#[derive(Debug, PartialEq)]
pub struct Outgoing {
    sent: Vec<Sent>,
}

impl View for Outgoing {
    type V = Map<Seq<char>, MessageId>;

    closed spec fn view(&self) -> Map<Seq<char>, MessageId> {
        keyed(self.sent@)
    }
}

/// Messages by their keys; the first of a key counts.
pub closed spec fn keyed(sent: Seq<Sent>) -> Map<Seq<char>, MessageId>
    decreases sent.len(),
{
    if sent.len() == 0 {
        Map::empty()
    } else {
        let before = keyed(sent.drop_last());
        if before.dom().contains(sent.last().client_msg_id@) {
            before
        } else {
            before.insert(sent.last().client_msg_id@, sent.last().id)
        }
    }
}

/// What storing a message under a key comes to.
pub open spec fn stores(
    before: Map<Seq<char>, MessageId>,
    key: Seq<char>,
    id: MessageId,
    r: InsertOutcome,
    after: Map<Seq<char>, MessageId>,
) -> bool {
    &&& before.dom().contains(key) ==> {
        &&& r == InsertOutcome::Duplicate(before[key])
        &&& after == before
    }
    &&& !before.dom().contains(key) ==> {
        &&& r == InsertOutcome::Inserted
        &&& after == before.insert(key, id)
    }
}

impl Outgoing {
    /// No messages.
    pub fn new() -> (r: Self)
        ensures
            r@ == Map::<Seq<char>, MessageId>::empty(),
    {
        Outgoing { sent: Vec::new() }
    }

    /// Stores a message under its key, unless the key is taken: then the
    /// message that has it is the answer, and nothing changes.
    pub fn insert_user(&mut self, client_msg_id: &str, id: MessageId) -> (r: InsertOutcome)
        ensures
            stores(old(self)@, client_msg_id@, id, r, final(self)@),
    {
        let mut i: usize = 0;
        assert(self.sent@.take(0) == Seq::<Sent>::empty());
        while i < self.sent.len()
            invariant
                i <= self.sent.len(),
                *self == *old(self),
                !keyed(self.sent@.take(i as int)).dom().contains(client_msg_id@),
            decreases self.sent.len() - i,
        {
            assert(self.sent@.take(i + 1).drop_last() == self.sent@.take(i as int));
            assert(self.sent@.take(i + 1).last() == self.sent@[i as int]);
            if text::same(self.sent[i].client_msg_id.as_str(), client_msg_id) {
                proof {
                    lemma_keyed_stays(self.sent@, i + 1, client_msg_id@);
                }
                return InsertOutcome::Duplicate(self.sent[i].id);
            }
            i += 1;
        }
        assert(self.sent@.take(i as int) == self.sent@);
        let ghost before = self.sent@;
        self.sent.push(Sent { client_msg_id: client_msg_id.to_owned(), id });
        assert(self.sent@.drop_last() == before);
        InsertOutcome::Inserted
    }
}

/// A key that a prefix holds keeps its message.
proof fn lemma_keyed_stays(sent: Seq<Sent>, i: int, key: Seq<char>)
    requires
        0 <= i <= sent.len(),
        keyed(sent.take(i)).dom().contains(key),
    ensures
        keyed(sent).dom().contains(key),
        keyed(sent)[key] == keyed(sent.take(i))[key],
    decreases sent.len() - i,
{
    if i == sent.len() {
        assert(sent.take(i) == sent);
    } else {
        assert(sent.take(i + 1).drop_last() == sent.take(i));
        lemma_keyed_stays(sent, i + 1, key);
    }
}

/// Law: sending again under a key that is taken gives the first message's
/// identifier and stores nothing, whatever was stored in between.
pub proof fn law_repeat_is_the_original(
    before: Map<Seq<char>, MessageId>,
    key: Seq<char>,
    id: MessageId,
    between: Seq<(Seq<char>, MessageId)>,
)
    requires
        !before.dom().contains(key),
    ensures
        insert_all(before.insert(key, id), between).dom().contains(key),
        insert_all(before.insert(key, id), between)[key] == id,
    decreases between.len(),
{
    if between.len() > 0 {
        law_repeat_is_the_original(before, key, id, between.drop_last());
    }
}

/// The messages after some were sent, one after the other.
pub open spec fn insert_all(
    m: Map<Seq<char>, MessageId>,
    sent: Seq<(Seq<char>, MessageId)>,
) -> Map<Seq<char>, MessageId>
    decreases sent.len(),
{
    if sent.len() == 0 {
        m
    } else {
        let before = insert_all(m, sent.drop_last());
        if before.dom().contains(sent.last().0) {
            before
        } else {
            before.insert(sent.last().0, sent.last().1)
        }
    }
}

/// Law: a message is stored exactly when its key is free, and then under its own
/// identifier; a key that is taken is answered with the message that has it,
/// and nothing changes. No other key is touched.
pub proof fn law_key_is_used_once(
    before: Map<Seq<char>, MessageId>,
    key: Seq<char>,
    id: MessageId,
    r: InsertOutcome,
    after: Map<Seq<char>, MessageId>,
    other: Seq<char>,
)
    requires
        stores(before, key, id, r, after),
        other != key,
    ensures
        r is Inserted <==> !before.dom().contains(key),
        r is Inserted ==> after.dom().contains(key) && after[key] == id,
        r matches InsertOutcome::Duplicate(first) ==> before.dom().contains(key) && before[key]
            == first && after == before,
        after.dom().contains(other) == before.dom().contains(other),
        before.dom().contains(other) ==> after[other] == before[other],
{
}

} // verus!
