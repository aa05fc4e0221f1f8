//! The pending promise binding: the one-shot channel through which a settled
//! host promise reaches the task awaiting it.
use vstd::prelude::*;

verus! {

/// What happened to a settlement handed to a binding.
#[derive(Clone, Copy, Debug, PartialEq, Eq, Structural)]
pub enum SettleAck {
    /// Stored: the waiting task is to be woken.
    Wake,
    /// The binding was settled before: the later settlement is dropped.
    AlreadySettled,
    /// The waiting task was dropped: the settlement is dropped, nothing is woken.
    Abandoned,
}

/// One awaited host promise: its settled value or rejection, once it arrives,
/// until the waiting task reads it.
pub struct PendingPromiseBinding<V> {
    slot: Option<Result<V, String>>,
    settled: bool,
    taken: bool,
    abandoned: bool,
}

impl<V> PendingPromiseBinding<V> {
    /// The settlement waiting to be read, if any.
    pub closed spec fn stored(&self) -> Option<Result<V, String>> {
        self.slot
    }

    /// Whether a settlement has arrived.
    pub closed spec fn is_settled(&self) -> bool {
        self.settled
    }

    /// Whether the task has read the settlement.
    pub closed spec fn is_taken(&self) -> bool {
        self.taken
    }

    /// Whether the waiting task was dropped.
    pub closed spec fn is_abandoned(&self) -> bool {
        self.abandoned
    }

    /// A value is stored exactly while it has arrived and is still owed to a
    /// live task.
    pub closed spec fn wf(&self) -> bool {
        &&& self.slot is Some <==> (self.settled && !self.taken && !self.abandoned)
        &&& self.taken ==> self.settled
    }

    /// What a settlement does: what is stored afterwards, and the answer.
    pub open spec fn settle_effect(&self, result: Result<V, String>) -> (Option<Result<V, String>>, SettleAck) {
        if self.is_abandoned() {
            (None, SettleAck::Abandoned)
        } else if self.is_settled() {
            (self.stored(), SettleAck::AlreadySettled)
        } else {
            (Some(result), SettleAck::Wake)
        }
    }

    /// A binding for a promise that has not settled yet.
    pub fn new() -> (r: PendingPromiseBinding<V>)
        ensures
            r.wf(),
            r.stored() is None,
            !r.is_settled(),
            !r.is_taken(),
            !r.is_abandoned(),
    {
        PendingPromiseBinding { slot: None, settled: false, taken: false, abandoned: false }
    }

    /// Called by the promise's fulfilment or rejection continuation.
    pub fn settle(&mut self, result: Result<V, String>) -> (r: SettleAck)
        requires
            old(self).wf(),
        ensures
            final(self).wf(),
            final(self).is_taken() == old(self).is_taken(),
            final(self).is_abandoned() == old(self).is_abandoned(),
            final(self).is_settled(),
            (final(self).stored(), r) == old(self).settle_effect(result),
    {
        if self.abandoned {
            self.settled = true;
            SettleAck::Abandoned
        } else if self.settled {
            SettleAck::AlreadySettled
        } else {
            self.slot = Some(result);
            self.settled = true;
            SettleAck::Wake
        }
    }

    /// Read by the waiting task: the settlement, the first time it is asked
    /// for after it arrived; `None` before that and ever after.
    pub fn take(&mut self) -> (r: Option<Result<V, String>>)
        requires
            old(self).wf(),
        ensures
            final(self).wf(),
            r == old(self).stored(),
            final(self).stored() is None,
            final(self).is_settled() == old(self).is_settled(),
            final(self).is_abandoned() == old(self).is_abandoned(),
            final(self).is_taken() == (old(self).is_taken() || r is Some),
    {
        let r = self.slot.take();
        if r.is_some() {
            self.taken = true;
        }
        r
    }

    /// The waiting task was dropped: what is stored is released, and a later
    /// settlement is ignored.
    pub fn abandon(&mut self)
        requires
            old(self).wf(),
        ensures
            final(self).wf(),
            final(self).is_abandoned(),
            final(self).stored() is None,
            final(self).is_settled() == old(self).is_settled(),
            final(self).is_taken() == old(self).is_taken(),
    {
        self.slot = None;
        self.abandoned = true;
    }
}

/// Once the waiting task is dropped, a promise that settles later is ignored:
/// nothing is stored and nothing is woken.
pub proof fn lemma_settle_after_drop_is_ignored<V>(binding: PendingPromiseBinding<V>, result: Result<V, String>)
    requires
        binding.wf(),
        binding.is_abandoned(),
    ensures
        binding.settle_effect(result) == (None::<Result<V, String>>, SettleAck::Abandoned),
{
}

/// A binding settles once: a second settlement leaves the first in place.
pub proof fn lemma_second_settlement_is_dropped<V>(binding: PendingPromiseBinding<V>, result: Result<V, String>)
    requires
        binding.wf(),
        binding.is_settled(),
        !binding.is_abandoned(),
    ensures
        binding.settle_effect(result) == (binding.stored(), SettleAck::AlreadySettled),
{
}

} // verus!
