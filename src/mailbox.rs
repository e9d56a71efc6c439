//! A single-slot hand-off from a background worker to the render loop.

use vstd::prelude::*;

verus! {

/// The slot after `value` is offered: filled if it was empty, unchanged if
/// it was full.
pub open spec fn offered<T>(slot: Option<T>, value: T) -> Option<T> {
    match slot {
        Some(v) => Some(v),
        None => Some(value),
    }
}

/// Holds at most one pending outcome. A full slot refuses a second value;
/// taking empties it.
pub struct Mailbox<T> {
    slot: Option<T>,
}

impl<T> Mailbox<T> {
    pub closed spec fn contents(&self) -> Option<T> {
        self.slot
    }

    pub fn new() -> (r: Self)
        ensures
            r.contents() is None,
    {
        Mailbox { slot: None }
    }

    pub fn is_full(&self) -> (r: bool)
        ensures
            r == self.contents() is Some,
    {
        self.slot.is_some()
    }

    /// Stores `value` if the slot is empty; hands it back if it is full.
    pub fn offer(&mut self, value: T) -> (r: Result<(), T>)
        ensures
            final(self).contents() == step(old(self).contents(), MailOp::Offer(value)).0,
            old(self).contents() is None ==> r is Ok,
            old(self).contents() is Some ==> r == Err::<(), T>(value),
    {
        if self.slot.is_some() {
            Err(value)
        } else {
            self.slot = Some(value);
            Ok(())
        }
    }

    /// Takes the pending value, if any, leaving the slot empty.
    pub fn take(&mut self) -> (r: Option<T>)
        ensures
            (final(self).contents(), r) == step(old(self).contents(), MailOp::Take),
    {
        self.slot.take()
    }
}

/// One use of a mailbox.
pub enum MailOp<T> {
    Offer(T),
    Take,
}

/// The slot after one operation, and what a take returns (`None` for an
/// offer).
pub open spec fn step<T>(slot: Option<T>, op: MailOp<T>) -> (Option<T>, Option<T>) {
    match op {
        MailOp::Offer(v) => (offered(slot, v), None),
        MailOp::Take => (None, slot),
    }
}

/// The slot after a run of operations from `start`.
pub open spec fn slot_after<T>(start: Option<T>, ops: Seq<MailOp<T>>) -> Option<T>
    decreases ops.len(),
{
    if ops.len() == 0 {
        start
    } else {
        step(slot_after(start, ops.drop_last()), ops.last()).0
    }
}

/// What the operation at index `i` of the run returns.
pub open spec fn returned_at<T>(start: Option<T>, ops: Seq<MailOp<T>>, i: int) -> Option<T> {
    step(slot_after(start, ops.take(i)), ops[i]).1
}

proof fn lemma_held_until_taken<T>(start: Option<T>, ops: Seq<MailOp<T>>, i: int, k: int, v: T)
    requires
        0 <= i < k <= ops.len(),
        ops[i] == MailOp::Offer(v),
        slot_after(start, ops.take(i)) is None,
        forall|m: int| i < m < k ==> #[trigger] ops[m] is Offer,
    ensures
        slot_after(start, ops.take(k)) == Some(v),
    decreases k - i,
{
    assert(ops.take(k).drop_last() =~= ops.take(k - 1));
    assert(ops.take(k).last() == ops[k - 1]);
    if k - 1 > i {
        lemma_held_until_taken(start, ops, i, k - 1, v);
    }
}

proof fn lemma_empty_after_take<T>(start: Option<T>, ops: Seq<MailOp<T>>, t: int, k: int)
    requires
        0 <= t < k <= ops.len(),
        ops[t] is Take,
        forall|m: int| t < m < k ==> #[trigger] ops[m] is Take,
    ensures
        slot_after(start, ops.take(k)) is None,
    decreases k - t,
{
    assert(ops.take(k).drop_last() =~= ops.take(k - 1));
    assert(ops.take(k).last() == ops[k - 1]);
    if k - 1 > t {
        lemma_empty_after_take(start, ops, t, k - 1);
    }
}

/// A value offered to an empty slot is returned by the first take after it,
/// and every further take finds the slot empty until the next offer: no
/// duplicate delivery and no loss.
pub proof fn lemma_delivered_once<T>(start: Option<T>, ops: Seq<MailOp<T>>, i: int, t: int, u: int, v: T)
    requires
        0 <= i < t < u < ops.len(),
        ops[i] == MailOp::Offer(v),
        slot_after(start, ops.take(i)) is None,
        ops[t] is Take,
        forall|m: int| i < m < t ==> #[trigger] ops[m] is Offer,
        forall|m: int| t < m <= u ==> #[trigger] ops[m] is Take,
    ensures
        returned_at(start, ops, t) == Some(v),
        returned_at(start, ops, u) is None,
{
    lemma_held_until_taken(start, ops, i, t, v);
    lemma_empty_after_take(start, ops, t, u);
}

} // verus!
