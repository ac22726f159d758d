//! The single-assignment cell that carries the outcome of a creation from the
//! window's thread to the thread that asked for it.
//!
//! The cell is held under a mutex and watched through a condition variable;
//! these methods are what each side does while it holds the lock.

use vstd::prelude::*;
use crate::error::Error;
use crate::sync::cvar_notify_one;

verus! {

/// A slot's state: whether it was ever written, and what it holds now.
pub type SlotState<T> = (bool, Option<T>);

/// The effect of a write of `v` on a slot in state `s`: the new state, and
/// whether the write was accepted.
pub open spec fn publish_step<T>(s: SlotState<T>, v: T) -> (SlotState<T>, bool) {
    if s.0 {
        (s, false)
    } else {
        ((true, Some(v)), true)
    }
}

/// The effect of taking the value out of a slot in state `s`.
pub open spec fn take_step<T>(s: SlotState<T>) -> SlotState<T> {
    (s.0, None)
}

/// The state after a run of operations on a slot: `Some(v)` writes `v`,
/// `None` takes the value out.
pub open spec fn run_slot<T>(s: SlotState<T>, ops: Seq<Option<T>>) -> SlotState<T>
    decreases ops.len(),
{
    if ops.len() == 0 {
        s
    } else {
        let before = run_slot(s, ops.drop_last());
        match ops.last() {
            Some(v) => publish_step(before, v).0,
            None => take_step(before),
        }
    }
}

/// Whether the `i`-th operation of a run is a write that is accepted.
pub open spec fn accepted_at<T>(s: SlotState<T>, ops: Seq<Option<T>>, i: int) -> bool {
    match ops[i] {
        Some(v) => publish_step(run_slot(s, ops.subrange(0, i)), v).1,
        None => false,
    }
}

/// What the waiting side finds when it looks at the slot.
pub enum SlotPoll<T> {
    /// The outcome was there and has been taken.
    Ready(T),
    /// The slot is empty and the writer is gone: it will never be written.
    Abandoned(Error),
    /// The slot is empty and the writer still runs: wait for a signal.
    Pending,
}

/// The single-assignment cell of the creation handshake.
pub struct ResponseSlot<T> {
    written: bool,
    value: Option<T>,
}

impl<T> View for ResponseSlot<T> {
    type V = SlotState<T>;

    closed spec fn view(&self) -> SlotState<T> {
        (self.written, self.value)
    }
}

impl<T> ResponseSlot<T> {
    /// The slot's invariant: it holds a value only once it was written.
    pub closed spec fn wf(&self) -> bool {
        self.value is Some ==> self.written
    }

    /// An empty slot that was never written.
    pub fn new() -> (r: ResponseSlot<T>)
        ensures
            r.wf(),
            r@ == (false, None::<T>),
    {
        ResponseSlot { written: false, value: None }
    }

    /// Whether a value was ever written.
    pub fn is_written(&self) -> (r: bool)
        ensures
            r == self@.0,
    {
        self.written
    }

    /// Writes `v` unless the slot was written before; a second write is
    /// rejected and hands its value back.
    pub fn publish(&mut self, v: T) -> (r: Result<(), T>)
        requires
            old(self).wf(),
        ensures
            final(self).wf(),
            (final(self)@, r is Ok) == publish_step(old(self)@, v),
            r is Err ==> r == Err::<(), T>(v),
    {
        if self.written {
            Err(v)
        } else {
            self.written = true;
            self.value = Some(v);
            Ok(())
        }
    }

    /// Takes the value out; the slot stays written.
    pub fn take(&mut self) -> (r: Option<T>)
        requires
            old(self).wf(),
        ensures
            final(self).wf(),
            r == old(self)@.1,
            final(self)@ == take_step(old(self)@),
    {
        self.value.take()
    }

    /// One look of the waiting side. `writer_done` tells whether the writing
    /// thread had ended before the lock was taken.
    pub fn poll(&mut self, writer_done: bool) -> (r: SlotPoll<T>)
        requires
            old(self).wf(),
        ensures
            final(self).wf(),
            final(self)@ == take_step(old(self)@),
            match old(self)@.1 {
                Some(v) => r == SlotPoll::Ready(v),
                None => if writer_done {
                    r == SlotPoll::<T>::Abandoned(Error::CoordinationFailure)
                } else {
                    r == SlotPoll::<T>::Pending
                },
            },
    {
        match self.value.take() {
            Some(v) => SlotPoll::Ready(v),
            None => if writer_done {
                SlotPoll::Abandoned(Error::CoordinationFailure)
            } else {
                SlotPoll::Pending
            },
        }
    }
}

/// The writing side of the handshake, with the slot's lock held: writes `v`
/// and, when the write is accepted, wakes the waiting requester.
pub fn publish_and_notify<T>(slot: &mut ResponseSlot<T>, cvar: &parking_lot::Condvar, v: T) -> (r: Result<(), T>)
    requires
        old(slot).wf(),
    ensures
        final(slot).wf(),
        (final(slot)@, r is Ok) == publish_step(old(slot)@, v),
        r is Err ==> r == Err::<(), T>(v),
{
    let r = slot.publish(v);
    if r.is_ok() {
        cvar_notify_one(cvar);
    }
    r
}

proof fn lemma_stays_written<T>(s: SlotState<T>, ops: Seq<Option<T>>)
    requires
        s.0,
    ensures
        run_slot(s, ops).0,
    decreases ops.len(),
{
    if ops.len() > 0 {
        lemma_stays_written(s, ops.drop_last());
    }
}

/// A slot is written at most once: of any run of writes and takes, at most
/// one write is accepted, and none once the slot was written before the run.
pub proof fn lemma_written_at_most_once<T>(s: SlotState<T>, ops: Seq<Option<T>>, i: int, j: int)
    requires
        0 <= i < j < ops.len(),
    ensures
        !(accepted_at(s, ops, i) && accepted_at(s, ops, j)),
        s.0 ==> !accepted_at(s, ops, i),
{
    if accepted_at(s, ops, i) {
        let prefix = ops.subrange(0, j);
        let rest = ops.subrange(i + 1, j);
        assert(run_slot(s, ops.subrange(0, i + 1)).0) by {
            assert(ops.subrange(0, i + 1).drop_last() =~= ops.subrange(0, i));
        }
        lemma_run_split(s, ops.subrange(0, i + 1), rest);
        assert(ops.subrange(0, i + 1) + rest =~= prefix);
        lemma_stays_written(run_slot(s, ops.subrange(0, i + 1)), rest);
    }
    if s.0 {
        lemma_stays_written(s, ops.subrange(0, i));
    }
}

proof fn lemma_run_split<T>(s: SlotState<T>, a: Seq<Option<T>>, b: Seq<Option<T>>)
    ensures
        run_slot(s, a + b) == run_slot(run_slot(s, a), b),
    decreases b.len(),
{
    if b.len() == 0 {
        assert(a + b =~= a);
    } else {
        assert((a + b).drop_last() =~= a + b.drop_last());
        lemma_run_split(s, a, b.drop_last());
    }
}

} // verus!
