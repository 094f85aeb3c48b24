//! A bounded ring of recently selected file paths.
//!
//! The ring is `circular_queue::CircularQueue<String>`; its contents are
//! modelled as a sequence of path views, oldest first. Once the ring is
//! full, pushing a path evicts the oldest one; a ring of capacity zero
//! keeps nothing.

use vstd::prelude::*;
use circular_queue::CircularQueue;

verus! {

#[verifier::external_type_specification]
#[verifier::external_body]
#[verifier::reject_recursive_types(T)]
pub struct ExCircularQueue<T>(CircularQueue<T>);

/// The paths the queue holds, oldest first.
pub uninterp spec fn cq_contents(q: CircularQueue<String>) -> Seq<Seq<char>>;

/// The fixed capacity the queue was created with.
pub uninterp spec fn cq_capacity(q: CircularQueue<String>) -> nat;

/// One push into a ring of capacity `cap`: appended at the newest end,
/// evicting the oldest entry once the ring is full, kept out entirely when
/// the capacity is zero.
pub open spec fn ring_push(s: Seq<Seq<char>>, cap: nat, x: Seq<char>) -> Seq<Seq<char>> {
    if cap == 0 {
        s
    } else if s.len() < cap {
        s.push(x)
    } else {
        s.drop_first().push(x)
    }
}

/// What survives of a path history in a ring of capacity `cap`: the most
/// recent `cap` entries, the oldest discarded first.
pub open spec fn spec_retained(items: Seq<Seq<char>>, cap: nat) -> Seq<Seq<char>> {
    if items.len() <= cap {
        items
    } else {
        items.skip(items.len() - cap)
    }
}

/// Pushing one more path into a ring that holds what was retained of a
/// history retains exactly the extended history.
pub proof fn lemma_ring_push_retained(items: Seq<Seq<char>>, cap: nat, x: Seq<char>)
    ensures
        ring_push(spec_retained(items, cap), cap, x) == spec_retained(items.push(x), cap),
{
    if cap == 0 {
        assert(spec_retained(items, 0) =~= items.skip(items.len() as int));
        assert(spec_retained(items.push(x), 0) =~= Seq::<Seq<char>>::empty());
        assert(spec_retained(items, 0) =~= Seq::<Seq<char>>::empty());
    } else if items.len() < cap {
        assert(spec_retained(items, cap).push(x) =~= spec_retained(items.push(x), cap));
    } else {
        assert(spec_retained(items, cap).drop_first().push(x) =~= items.push(x).skip(
            items.len() + 1 - cap,
        ));
    }
}

/// Snapshot round-trip: replaying saved ring contents into a ring of the
/// same capacity reproduces them identically, in order; replaying them
/// into a smaller ring keeps exactly the most recent entries that fit,
/// the oldest discarded first.
pub proof fn lemma_snapshot_roundtrip(items: Seq<Seq<char>>, cap: nat, new_cap: nat)
    requires
        items.len() <= cap,
    ensures
        spec_retained(items, cap) == items,
        new_cap >= items.len() ==> spec_retained(items, new_cap) == items,
        new_cap < items.len() ==> {
            &&& spec_retained(items, new_cap).len() == new_cap
            &&& forall|k: int| 0 <= k < new_cap ==> #[trigger] spec_retained(items, new_cap)[k]
                == items[items.len() - new_cap + k]
        },
{
}

/// Relies on circular_queue::CircularQueue::with_capacity: a new empty
/// queue that will hold at most `capacity` items.
#[verifier::external_body]
fn cq_with_capacity(capacity: usize) -> (q: CircularQueue<String>)
    ensures
        cq_contents(q) == Seq::<Seq<char>>::empty(),
        cq_capacity(q) == capacity,
{
    CircularQueue::with_capacity(capacity)
}

/// Relies on circular_queue::CircularQueue::push: appends the item; once
/// the queue is full the oldest item is overwritten and returned; a queue
/// of capacity zero is left unchanged.
#[verifier::external_body]
fn cq_push(q: &mut CircularQueue<String>, x: String) -> (popped: Option<String>)
    ensures
        cq_contents(*final(q)) == ring_push(cq_contents(*old(q)), cq_capacity(*old(q)), x@),
        cq_capacity(*final(q)) == cq_capacity(*old(q)),
        popped matches Some(p) ==> cq_contents(*old(q)).len() >= cq_capacity(*old(q)) > 0
            && p@ == cq_contents(*old(q))[0],
        popped is None ==> cq_capacity(*old(q)) == 0 || cq_contents(*old(q)).len() < cq_capacity(
            *old(q),
        ),
{
    q.push(x)
}

/// Relies on circular_queue::CircularQueue::len: the number of items held.
#[verifier::external_body]
fn cq_len(q: &CircularQueue<String>) -> (n: usize)
    ensures
        n == cq_contents(*q).len(),
{
    q.len()
}

/// Relies on circular_queue::CircularQueue::capacity.
#[verifier::external_body]
fn cq_capacity_of(q: &CircularQueue<String>) -> (n: usize)
    ensures
        n == cq_capacity(*q),
{
    q.capacity()
}

/// Relies on circular_queue::CircularQueue::asc_iter: the items from the
/// oldest to the newest.
#[verifier::external_body]
fn cq_to_vec(q: &CircularQueue<String>) -> (v: Vec<String>)
    ensures
        v.deep_view() == cq_contents(*q),
{
    q.asc_iter().cloned().collect()
}

/// A fixed-capacity ring of the most recently selected paths, oldest first.
pub struct RecencyBuffer {
    queue: CircularQueue<String>,
}

impl RecencyBuffer {
    /// The paths held, oldest first.
    pub closed spec fn contents(&self) -> Seq<Seq<char>> {
        cq_contents(self.queue)
    }

    /// The capacity the buffer was created with.
    pub closed spec fn cap(&self) -> nat {
        cq_capacity(self.queue)
    }

    /// The buffer never holds more paths than its capacity.
    pub open spec fn wf(&self) -> bool {
        self.contents().len() <= self.cap()
    }

    /// An empty buffer that will remember at most `capacity` paths.
    pub fn with_capacity(capacity: usize) -> (r: RecencyBuffer)
        ensures
            r.contents() == Seq::<Seq<char>>::empty(),
            r.cap() == capacity,
            r.wf(),
    {
        RecencyBuffer { queue: cq_with_capacity(capacity) }
    }

    /// Remember `x` as the most recent path, forgetting the oldest one if
    /// the buffer is full.
    pub fn push(&mut self, x: String)
        requires
            old(self).wf(),
        ensures
            final(self).contents() == ring_push(old(self).contents(), old(self).cap(), x@),
            final(self).cap() == old(self).cap(),
            final(self).wf(),
    {
        let _ = cq_push(&mut self.queue, x);
    }

    /// Whether `x` is one of the remembered paths.
    pub fn contains(&self, x: &String) -> (r: bool)
        ensures
            r == self.contents().contains(x@),
    {
        let items = cq_to_vec(&self.queue);
        let mut i: usize = 0;
        while i < items.len()
            invariant
                i <= items.len(),
                items.deep_view() == self.contents(),
                forall|j: int| 0 <= j < i ==> self.contents()[j] != x@,
            decreases items.len() - i,
        {
            assert(items.deep_view()[i as int] == items@[i as int]@);
            if items[i].eq(x) {
                assert(self.contents().contains(x@)) by {
                    assert(self.contents()[i as int] == x@);
                }
                return true;
            }
            i += 1;
        }
        false
    }

    /// How many paths are remembered.
    pub fn len(&self) -> (n: usize)
        ensures
            n == self.contents().len(),
    {
        cq_len(&self.queue)
    }

    /// The capacity the buffer was created with.
    pub fn capacity(&self) -> (n: usize)
        ensures
            n == self.cap(),
    {
        cq_capacity_of(&self.queue)
    }

    /// The remembered paths, oldest first.
    pub fn to_vec(&self) -> (v: Vec<String>)
        ensures
            v.deep_view() == self.contents(),
    {
        cq_to_vec(&self.queue)
    }
}

} // verus!
