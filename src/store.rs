use vstd::prelude::*;

use crate::record::{Entity, Record};

verus! {

/// An append-only, insertion-ordered collection of records of one kind.
/// Every sequence of records is a valid state: nothing is validated or deduplicated.
pub struct Store<R> {
    records: Vec<R>,
}

impl<R> View for Store<R> {
    type V = Seq<R>;

    closed spec fn view(&self) -> Seq<R> {
        self.records@
    }
}

/// What a store that held `start` holds once each record of `granted` has been
/// appended to it, one after the other in that order.
pub open spec fn after_appends<R>(start: Seq<R>, granted: Seq<R>) -> Seq<R>
    decreases granted.len(),
{
    if granted.len() == 0 {
        start
    } else {
        after_appends(start, granted.drop_last()).push(granted.last())
    }
}

impl<R: Record> Store<R> {
    /// A store with no records.
    pub fn new() -> (s: Store<R>)
        ensures
            s@ == Seq::<R>::empty(),
    {
        Store { records: Vec::new() }
    }

    /// Adds `record` after every record already held. Never fails.
    pub fn append(&mut self, record: R)
        ensures
            final(self)@ == old(self)@.push(record),
    {
        self.records.push(record);
    }

    /// A copy of every record held, in the order they were appended.
    pub fn enumerate(&self) -> (r: Vec<R>)
        ensures
            r@ == self@,
    {
        let mut out: Vec<R> = Vec::new();
        let mut i: usize = 0;
        while i < self.records.len()
            invariant
                i <= self.records@.len(),
                out@ == self.records@.subrange(0, i as int),
            decreases self.records@.len() - i,
        {
            out.push(self.records[i].duplicate());
            i = i + 1;
        }
        assert(self.records@.subrange(0, i as int) =~= self.records@);
        out
    }

    /// The number of records held.
    pub fn len(&self) -> (r: usize)
        ensures
            r == self@.len(),
    {
        self.records.len()
    }
}

/// After `e` is appended, the store holds it last, keeps everything it held before,
/// and holds one more copy of `e` than before: exactly one where it had none.
pub proof fn lemma_append_then_list<R>(before: Seq<R>, e: R)
    ensures
        before.push(e).len() == before.len() + 1,
        before.push(e)[before.len() as int] == e,
        before.push(e).subrange(0, before.len() as int) == before,
        before.push(e).to_multiset().count(e) == before.to_multiset().count(e) + 1,
        !before.contains(e) ==> before.push(e).to_multiset().count(e) == 1,
{
    broadcast use vstd::seq_lib::group_to_multiset_ensures;
    broadcast use vstd::multiset::group_multiset_axioms;

    assert(before.push(e).subrange(0, before.len() as int) =~= before);
}

/// A record appended before another is listed before it.
pub proof fn lemma_order_kept<R>(before: Seq<R>, e1: R, e2: R)
    ensures
        ({
            let after = before.push(e1).push(e2);
            &&& after.len() == before.len() + 2
            &&& after[before.len() as int] == e1
            &&& after[before.len() + 1int] == e2
        }),
{
}

/// Two entities with the same id are both kept, each as it was given.
pub proof fn lemma_duplicate_ids_kept(before: Seq<Entity>, e1: Entity, e2: Entity)
    requires
        e1.id == e2.id,
    ensures
        ({
            let after = before.push(e1).push(e2);
            &&& after.len() == before.len() + 2
            &&& after[before.len() as int] == e1
            &&& after[before.len() + 1int] == e2
            &&& after.contains(e1) && after.contains(e2)
        }),
{
    let after = before.push(e1).push(e2);
    assert(after[before.len() as int] == e1);
    assert(after[before.len() + 1int] == e2);
}

/// Appending records one after the other adds them at the end, in that order.
pub proof fn lemma_after_appends_is_concat<R>(start: Seq<R>, granted: Seq<R>)
    ensures
        after_appends(start, granted) == start + granted,
    decreases granted.len(),
{
    if granted.len() == 0 {
        assert(start + granted =~= start);
    } else {
        lemma_after_appends_is_concat(start, granted.drop_last());
        assert(start + granted =~= (start + granted.drop_last()).push(granted.last()));
    }
}

/// Whatever order appends of `inputs` are granted in (`granted`, any rearrangement of
/// them), the store ends with exactly as many new records as inputs, keeps what it held,
/// and holds each input as often as it was given: exactly once where inputs are distinct.
pub proof fn lemma_no_loss<R>(start: Seq<R>, inputs: Seq<R>, granted: Seq<R>)
    requires
        granted.to_multiset() == inputs.to_multiset(),
    ensures
        ({
            let after = after_appends(start, granted);
            let added = after.subrange(start.len() as int, after.len() as int);
            &&& after.len() == start.len() + inputs.len()
            &&& after.subrange(0, start.len() as int) == start
            &&& added.to_multiset() == inputs.to_multiset()
            &&& inputs.no_duplicates() ==> forall|i: int|
                0 <= i < inputs.len() ==> #[trigger] added.to_multiset().count(inputs[i]) == 1
        }),
{
    broadcast use vstd::seq_lib::group_to_multiset_ensures;

    lemma_after_appends_is_concat(start, granted);
    let after = after_appends(start, granted);
    let added = after.subrange(start.len() as int, after.len() as int);
    assert(granted.len() == granted.to_multiset().len());
    assert(inputs.len() == inputs.to_multiset().len());
    assert(added =~= granted);
    assert(after.subrange(0, start.len() as int) =~= start);
    if inputs.no_duplicates() {
        inputs.lemma_multiset_has_no_duplicates();
        assert forall|i: int| 0 <= i < inputs.len() implies #[trigger] added.to_multiset().count(
            inputs[i],
        ) == 1 by {
            assert(inputs.contains(inputs[i]));
        }
    }
}

} // verus!
