//! The tri-state result of a bridged operation and what the host sees of it.
use vstd::prelude::*;
use vstd::string::*;
use crate::store::{error_message, error_text, rejection_message, rejected_text};

verus! {

/// What one crossing of the bridge produced: a value, an exception raised by
/// host code (rendered as its message), or a native panic (its payload).
pub enum Outcome<V> {
    Value(V),
    HostException(String),
    NativePanic(String),
}

impl<V> Outcome<V> {
    pub open spec fn is_failure(&self) -> bool {
        !(self is Value)
    }

    pub open spec fn is_panic(&self) -> bool {
        self is NativePanic
    }
}

/// The state of a promise handed back to the host.
pub enum Settlement<W> {
    Pending,
    Fulfilled(W),
    Rejected(String),
}

/// What the host observes once a promise-producing entry point is done:
/// how its promise settled, and the panic payload re-thrown to the host, if any.
pub struct HostReport<W> {
    pub settlement: Settlement<W>,
    pub rethrown: Option<String>,
}

/// What a callback-based entry point does once its task is done.
pub enum CallbackAction<V> {
    /// Call the completion callback with the value.
    CallWithValue(V),
    /// Call the completion callback with an encoded error message.
    CallWithError(String),
    /// Throw the panic payload synchronously across the host boundary.
    Throw(String),
}

/// The failure of a crossing point, carried to an outcome of another type.
pub open spec fn carry<W>(f: Outcome<()>) -> Outcome<W> {
    match f {
        Outcome::HostException(e) => Outcome::HostException(e),
        Outcome::NativePanic(p) => Outcome::NativePanic(p),
        Outcome::Value(_) => arbitrary(),
    }
}

/// The outcome of an operation whose crossing points before the final
/// fulfilment produced `stages`, in order: the first failure ends the
/// operation, and the later points never run.
pub open spec fn combined<W>(stages: Seq<Outcome<()>>, fulfil: Outcome<W>) -> Outcome<W>
    decreases stages.len(),
{
    if stages.len() == 0 {
        fulfil
    } else if stages[0].is_failure() {
        carry(stages[0])
    } else {
        combined(stages.drop_first(), fulfil)
    }
}

/// What the host observes of an operation's outcome.
pub open spec fn report_of<W>(o: Outcome<W>) -> HostReport<W> {
    match o {
        Outcome::Value(w) => HostReport { settlement: Settlement::Fulfilled(w), rethrown: None },
        Outcome::HostException(e) => HostReport { settlement: Settlement::Rejected(e), rethrown: None },
        Outcome::NativePanic(p) => HostReport { settlement: Settlement::Rejected(p), rethrown: Some(p) },
    }
}

fn carry_failure<W>(f: &Outcome<()>) -> (r: Outcome<W>)
    requires
        f.is_failure(),
    ensures
        r == carry::<W>(*f),
{
    match f {
        Outcome::HostException(e) => Outcome::HostException(e.clone()),
        Outcome::NativePanic(p) => Outcome::NativePanic(p.clone()),
        Outcome::Value(_) => Outcome::HostException(String::new()),
    }
}

/// Runs the failure channel over the crossing points of one operation.
pub fn combine_stages<W>(stages: &Vec<Outcome<()>>, fulfil: Outcome<W>) -> (r: Outcome<W>)
    ensures
        r == combined(stages@, fulfil),
{
    let n = stages.len();
    let mut i: usize = 0;
    assert(stages@.subrange(0, n as int) =~= stages@);
    while i < n
        invariant
            n == stages@.len(),
            i <= n,
            combined(stages@, fulfil) == combined(stages@.subrange(i as int, n as int), fulfil),
        decreases n - i,
    {
        let rest = Ghost(stages@.subrange(i as int, n as int));
        assert(rest@.drop_first() =~= stages@.subrange(i + 1, n as int));
        if !matches!(stages[i], Outcome::Value(_)) {
            return carry_failure(&stages[i]);
        }
        i = i + 1;
    }
    assert(stages@.subrange(n as int, n as int) =~= Seq::<Outcome<()>>::empty());
    fulfil
}

/// Settles the promise returned to the host: a value fulfils it, an exception
/// rejects it with the thrown value, and a panic rejects it and is re-thrown
/// to the host.
pub fn conclude<W>(o: Outcome<W>) -> (r: HostReport<W>)
    ensures
        r == report_of(o),
{
    match o {
        Outcome::Value(w) => HostReport { settlement: Settlement::Fulfilled(w), rethrown: None },
        Outcome::HostException(e) => HostReport { settlement: Settlement::Rejected(e), rethrown: None },
        Outcome::NativePanic(p) => {
            let q = p.clone();
            HostReport { settlement: Settlement::Rejected(p), rethrown: Some(q) }
        },
    }
}

/// The host's view of a promise-producing entry point, from the outcomes of
/// its crossing points and of its final fulfilment.
pub fn settle_entry<W>(stages: &Vec<Outcome<()>>, fulfil: Outcome<W>) -> (r: HostReport<W>)
    ensures
        r == report_of(combined(stages@, fulfil)),
{
    conclude(combine_stages(stages, fulfil))
}

/// A value goes to the completion callback, an exception goes to it as
/// `error: ` and its message, and a panic is thrown across the host boundary.
pub fn callback_action<V>(o: Outcome<V>) -> (r: CallbackAction<V>)
    ensures
        match o {
            Outcome::Value(v) => r == CallbackAction::CallWithValue(v),
            Outcome::HostException(m) => r matches CallbackAction::CallWithError(t) && t@ == error_text(m@),
            Outcome::NativePanic(p) => r == CallbackAction::<V>::Throw(p),
        },
{
    match o {
        Outcome::Value(v) => CallbackAction::CallWithValue(v),
        Outcome::HostException(m) => CallbackAction::CallWithError(error_message(m.as_str())),
        Outcome::NativePanic(p) => CallbackAction::Throw(p),
    }
}

/// How a promise-producing entry point settles for a task result: `Ok`
/// fulfils, `Err` rejects with `rejected: ` and the message.
pub fn promise_settlement<V>(r: Result<V, String>) -> (s: Settlement<V>)
    ensures
        match r {
            Ok(v) => s == Settlement::Fulfilled(v),
            Err(m) => s matches Settlement::Rejected(t) && t@ == rejected_text(m@),
        },
{
    match r {
        Ok(v) => Settlement::Fulfilled(v),
        Err(m) => Settlement::Rejected(rejection_message(m.as_str())),
    }
}

/// The first failing crossing point decides the outcome.
pub proof fn lemma_first_failure_decides<W>(stages: Seq<Outcome<()>>, fulfil: Outcome<W>, i: int)
    requires
        0 <= i < stages.len(),
        forall|j: int| 0 <= j < i ==> !(#[trigger] stages[j]).is_failure(),
        stages[i].is_failure(),
    ensures
        combined(stages, fulfil) == carry::<W>(stages[i]),
    decreases i,
{
    if i > 0 {
        assert(!stages[0].is_failure());
        let rest = stages.drop_first();
        assert forall|j: int| 0 <= j < i - 1 implies !(#[trigger] rest[j]).is_failure() by {
            assert(rest[j] == stages[j + 1]);
        }
        lemma_first_failure_decides(rest, fulfil, i - 1);
    }
}

/// With no failing crossing point, the fulfilment decides the outcome.
pub proof fn lemma_no_failure_fulfils<W>(stages: Seq<Outcome<()>>, fulfil: Outcome<W>)
    requires
        forall|j: int| 0 <= j < stages.len() ==> !(#[trigger] stages[j]).is_failure(),
    ensures
        combined(stages, fulfil) == fulfil,
    decreases stages.len(),
{
    if stages.len() > 0 {
        let rest = stages.drop_first();
        assert forall|j: int| 0 <= j < rest.len() implies !(#[trigger] rest[j]).is_failure() by {
            assert(rest[j] == stages[j + 1]);
        }
        lemma_no_failure_fulfils(rest, fulfil);
    }
}

/// A panic at any crossing point, or during the final fulfilment, reaches the
/// host exactly once as a re-throw, and the returned promise never stays pending.
pub proof fn lemma_panic_surfaces_once<W>(stages: Seq<Outcome<()>>, fulfil: Outcome<W>, i: int, p: String)
    requires
        0 <= i <= stages.len(),
        forall|j: int| 0 <= j < i ==> !(#[trigger] stages[j]).is_failure(),
        i < stages.len() ==> stages[i] == Outcome::<()>::NativePanic(p),
        i == stages.len() ==> fulfil == Outcome::<W>::NativePanic(p),
    ensures
        report_of(combined(stages, fulfil)).rethrown == Some(p),
        report_of(combined(stages, fulfil)).settlement == Settlement::<W>::Rejected(p),
{
    if i < stages.len() {
        lemma_first_failure_decides(stages, fulfil, i);
    } else {
        lemma_no_failure_fulfils(stages, fulfil);
    }
}

/// An exception thrown at any crossing point, or during the final fulfilment,
/// rejects the returned promise with the thrown value, once, and nothing is
/// re-thrown.
pub proof fn lemma_exception_rejects_once<W>(stages: Seq<Outcome<()>>, fulfil: Outcome<W>, i: int, e: String)
    requires
        0 <= i <= stages.len(),
        forall|j: int| 0 <= j < i ==> !(#[trigger] stages[j]).is_failure(),
        i < stages.len() ==> stages[i] == Outcome::<()>::HostException(e),
        i == stages.len() ==> fulfil == Outcome::<W>::HostException(e),
    ensures
        report_of(combined(stages, fulfil)).rethrown is None,
        report_of(combined(stages, fulfil)).settlement == Settlement::<W>::Rejected(e),
{
    if i < stages.len() {
        lemma_first_failure_decides(stages, fulfil, i);
    } else {
        lemma_no_failure_fulfils(stages, fulfil);
    }
}

/// Whatever the outcome, the returned promise does not stay pending.
pub proof fn lemma_never_pending<W>(o: Outcome<W>)
    ensures
        !(report_of(o).settlement is Pending),
{
}

} // verus!
