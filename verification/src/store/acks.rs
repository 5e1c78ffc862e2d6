//! Tasks of the outbox that were taken. The relay delivers each task at least
//! once, so the daemon remembers the ones it took and skips repeats.

use vstd::prelude::*;

use crate::text;

verus! {

/// The tasks taken so far.
#[derive(Debug, PartialEq)]
pub struct Acks {
    taken: Vec<String>,
}

impl View for Acks {
    type V = Set<Seq<char>>;

    closed spec fn view(&self) -> Set<Seq<char>> {
        text::views(self.taken@).to_set()
    }
}

/// Whether a task was not taken yet.
pub open spec fn is_untaken(taken: Set<Seq<char>>, task: Seq<char>) -> bool {
    !taken.contains(task)
}

/// The tasks taken once one more was.
pub open spec fn after_taking(taken: Set<Seq<char>>, task: Seq<char>) -> Set<Seq<char>> {
    taken.insert(task)
}

impl Acks {
    /// No tasks.
    pub fn new() -> (r: Self)
        ensures
            r@ == Set::<Seq<char>>::empty(),
    {
        let r = Acks { taken: Vec::new() };
        assert(r@ =~= Set::<Seq<char>>::empty());
        r
    }

    /// Notes a task, and answers whether it is new and so has to be run.
    pub fn mark_new(&mut self, outbox_id: &str) -> (r: bool)
        ensures
            r == is_untaken(old(self)@, outbox_id@),
            final(self)@ == after_taking(old(self)@, outbox_id@),
    {
        let mut i: usize = 0;
        while i < self.taken.len()
            invariant
                i <= self.taken.len(),
                *self == *old(self),
                forall|k: int|
                    0 <= k < i ==> #[trigger] text::views(self.taken@)[k] != outbox_id@,
            decreases self.taken.len() - i,
        {
            if text::same(self.taken[i].as_str(), outbox_id) {
                proof {
                    assert(text::views(self.taken@)[i as int] == outbox_id@);
                    assert(self@.contains(outbox_id@));
                    assert(self@.insert(outbox_id@) =~= self@);
                }
                return false;
            }
            assert(text::views(self.taken@)[i as int] == self.taken@[i as int]@);
            i += 1;
        }
        let ghost before = text::views(self.taken@);
        self.taken.push(outbox_id.to_owned());
        proof {
            let after = text::views(self.taken@);
            assert(after == before.push(outbox_id@));
            assert forall|x: Seq<char>| after.to_set().contains(x) <==> before.to_set().insert(
                outbox_id@,
            ).contains(x) by {
                if before.contains(x) {
                    let j = choose|j: int| 0 <= j < before.len() && before[j] == x;
                    assert(after[j] == x);
                }
                assert(after[before.len() as int] == outbox_id@);
                if after.contains(x) && x != outbox_id@ {
                    let j = choose|j: int| 0 <= j < after.len() && after[j] == x;
                    assert(before[j] == x);
                }
            }
            assert(after.to_set() =~= before.to_set().insert(outbox_id@));
        }
        true
    }
}

/// The tasks taken after some deliveries.
pub open spec fn taken_after(deliveries: Seq<Seq<char>>) -> Set<Seq<char>>
    decreases deliveries.len(),
{
    if deliveries.len() == 0 {
        Set::empty()
    } else {
        after_taking(taken_after(deliveries.drop_last()), deliveries.last())
    }
}

/// Whether a delivery is new: its task was not taken by an earlier one.
pub open spec fn is_new(deliveries: Seq<Seq<char>>, i: int) -> bool {
    is_untaken(taken_after(deliveries.take(i)), deliveries[i])
}

/// Law: of the deliveries of one task, the first is new and no other is.
pub proof fn law_task_is_new_once(deliveries: Seq<Seq<char>>, i: int)
    requires
        0 <= i < deliveries.len(),
    ensures
        is_new(deliveries, i) <==> forall|k: int|
            0 <= k < i ==> #[trigger] deliveries[k] != deliveries[i],
{
    lemma_taken(deliveries.take(i), deliveries[i]);
    if !is_new(deliveries, i) {
        let k = choose|k: int| 0 <= k < i && deliveries.take(i)[k] == deliveries[i];
        assert(deliveries[k] == deliveries[i]);
    }
    assert forall|k: int| 0 <= k < i && is_new(deliveries, i) implies #[trigger] deliveries[k]
        != deliveries[i] by {
        assert(deliveries.take(i)[k] == deliveries[k]);
    }
}

proof fn lemma_taken(deliveries: Seq<Seq<char>>, task: Seq<char>)
    ensures
        taken_after(deliveries).contains(task) <==> deliveries.contains(task),
    decreases deliveries.len(),
{
    if deliveries.len() > 0 {
        lemma_taken(deliveries.drop_last(), task);
        if deliveries.drop_last().contains(task) {
            let k = choose|k: int|
                0 <= k < deliveries.drop_last().len() && deliveries.drop_last()[k] == task;
            assert(deliveries[k] == task);
        }
        if deliveries.contains(task) && task != deliveries.last() {
            let k = choose|k: int| 0 <= k < deliveries.len() && deliveries[k] == task;
            assert(deliveries.drop_last()[k] == task);
        }
    }
}

} // verus!
