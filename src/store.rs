//! Decisions of the name-store entry points: turning a store's reply into a
//! name, doubling it one request after the other or with both requests at
//! once, and how the promise handed back to the host settles.
use vstd::prelude::*;
use vstd::string::*;
use crate::outcome::{conclude, HostReport, Outcome, Settlement};

verus! {

/// The text handed to a completion callback for a rejected promise.
pub open spec fn error_text(m: Seq<char>) -> Seq<char> {
    "error: "@ + m
}

/// The message a promise-producing entry point rejects with.
pub open spec fn rejected_text(m: Seq<char>) -> Seq<char> {
    "rejected: "@ + m
}

/// The message for a store whose name is not a string.
pub open spec fn not_a_string_text() -> Seq<char> {
    "name must be a string"@
}

/// Two names joined by one space.
pub open spec fn doubled(a: Seq<char>, b: Seq<char>) -> Seq<char> {
    a + " "@ + b
}

/// `error: m`.
pub fn error_message(m: &str) -> (r: String)
    ensures
        r@ == error_text(m@),
{
    String::from_str("error: ").concat(m)
}

/// `rejected: m`.
pub fn rejection_message(m: &str) -> (r: String)
    ensures
        r@ == rejected_text(m@),
{
    String::from_str("rejected: ").concat(m)
}

/// What a store's `getName` promise settled with, as the task sees it.
pub enum NameReply {
    /// The promise fulfilled with a string.
    Text(String),
    /// The promise fulfilled with a value that is not a string.
    NotText,
}

/// An outcome of text, seen through the strings' views.
pub enum Told {
    Value(Seq<char>),
    Exception(Seq<char>),
    Panic(Seq<char>),
}

pub open spec fn told(o: Outcome<String>) -> Told {
    match o {
        Outcome::Value(s) => Told::Value(s@),
        Outcome::HostException(e) => Told::Exception(e@),
        Outcome::NativePanic(p) => Told::Panic(p@),
    }
}

/// What one `getName` request gives the task: the name, an error (the
/// rejection's message, or that the value is not a string), or a panic of
/// the promise's continuation.
pub open spec fn name_told(reply: Outcome<NameReply>) -> Told {
    match reply {
        Outcome::Value(NameReply::Text(s)) => Told::Value(s@),
        Outcome::Value(NameReply::NotText) => Told::Exception(not_a_string_text()),
        Outcome::HostException(e) => Told::Exception(e@),
        Outcome::NativePanic(p) => Told::Panic(p@),
    }
}

/// Whether the host sees `t` in a report: a value fulfils the promise, an
/// exception rejects it, and a panic rejects it and is re-thrown once.
pub open spec fn shows(r: HostReport<String>, t: Told) -> bool {
    match t {
        Told::Value(w) => r.settlement matches Settlement::Fulfilled(s) && s@ == w && r.rethrown is None,
        Told::Exception(e) => r.settlement matches Settlement::Rejected(s) && s@ == e && r.rethrown is None,
        Told::Panic(p) => (r.settlement matches Settlement::Rejected(s) && s@ == p)
            && (r.rethrown matches Some(q) && q@ == p),
    }
}

/// Converts the settled `getName` promise into the name or the error.
pub fn name_from_reply(reply: Outcome<NameReply>) -> (r: Outcome<String>)
    ensures
        told(r) == name_told(reply),
{
    match reply {
        Outcome::Value(NameReply::Text(s)) => Outcome::Value(s),
        Outcome::Value(NameReply::NotText) => Outcome::HostException(String::from_str("name must be a string")),
        Outcome::HostException(e) => Outcome::HostException(e),
        Outcome::NativePanic(p) => Outcome::NativePanic(p),
    }
}

/// Asking for the name twice in a row: the second request is made only once
/// the first has given a name, so the first failure is the one returned.
pub open spec fn sequential_told(first: Told, second: Told) -> Told {
    match first {
        Told::Value(a) => match second {
            Told::Value(b) => Told::Value(doubled(a, b)),
            other => other,
        },
        other => other,
    }
}

/// Asking for the name twice at once: when both requests fail, the failure
/// that arrived first is returned.
pub open spec fn joined_told(first: Told, second: Told, second_settled_first: bool) -> Told {
    match (first, second) {
        (Told::Value(a), Told::Value(b)) => Told::Value(doubled(a, b)),
        (Told::Value(_), f) => f,
        (f, Told::Value(_)) => f,
        (f1, f2) => if second_settled_first {
            f2
        } else {
            f1
        },
    }
}

/// What to do once the first `getName` request has settled.
pub enum FirstNameStep {
    /// The first name is known: ask the store for the second one.
    RequestSecond(String),
    /// The task is over, with this outcome: no second request is made.
    Finished(Outcome<String>),
}

/// The decision after the first request: a name leads to the second request;
/// an error or a panic ends the task with it, and no second request is made.
pub fn double_name_first_step(reply: Outcome<NameReply>) -> (r: FirstNameStep)
    ensures
        (r is RequestSecond) <==> (name_told(reply) is Value),
        r matches FirstNameStep::RequestSecond(a) ==> name_told(reply) == Told::Value(a@),
        r matches FirstNameStep::Finished(o) ==> told(o) == name_told(reply),
{
    match name_from_reply(reply) {
        Outcome::Value(a) => FirstNameStep::RequestSecond(a),
        other => FirstNameStep::Finished(other),
    }
}

fn join_names(a: String, b: String) -> (r: String)
    ensures
        r@ == doubled(a@, b@),
{
    a.concat(" ").concat(b.as_str())
}

/// The decision after the second request, given the first name.
pub fn double_name_second_step(first: String, reply: Outcome<NameReply>) -> (r: Outcome<String>)
    ensures
        told(r) == sequential_told(Told::Value(first@), name_told(reply)),
{
    match name_from_reply(reply) {
        Outcome::Value(b) => Outcome::Value(join_names(first, b)),
        other => other,
    }
}

/// The doubled name from two `getName` requests made at once.
pub fn double_name_from_store_using_join_impl(
    first: Outcome<NameReply>,
    second: Outcome<NameReply>,
    second_settled_first: bool,
) -> (r: Outcome<String>)
    ensures
        told(r) == joined_told(name_told(first), name_told(second), second_settled_first),
{
    let a = name_from_reply(first);
    let b = name_from_reply(second);
    match (a, b) {
        (Outcome::Value(x), Outcome::Value(y)) => Outcome::Value(join_names(x, y)),
        (Outcome::Value(_), f) => f,
        (f, Outcome::Value(_)) => f,
        (f1, f2) => if second_settled_first {
            f2
        } else {
            f1
        },
    }
}

/// A failure of the fulfilment closure, or `t` when it ran normally.
pub open spec fn fulfilment_or(fulfil: Outcome<()>, t: Told) -> Told {
    match fulfil {
        Outcome::Value(_) => t,
        Outcome::HostException(e) => Told::Exception(e@),
        Outcome::NativePanic(p) => Told::Panic(p@),
    }
}

/// How an entry point ends, from its task's outcome and that of its
/// fulfilment closure: a panic of the task ends it and the closure never
/// runs; a name fulfils; an error rejects with `rejected: ` and the message;
/// a failure of the closure itself takes the place of either.
pub open spec fn entry_told(task: Told, fulfil: Outcome<()>) -> Told {
    match task {
        Told::Panic(p) => Told::Panic(p),
        Told::Value(d) => fulfilment_or(fulfil, Told::Value(d)),
        Told::Exception(m) => fulfilment_or(fulfil, Told::Exception(rejected_text(m))),
    }
}

fn fulfil_doubled(task: Outcome<String>, fulfil: Outcome<()>) -> (r: Outcome<String>)
    ensures
        told(r) == entry_told(told(task), fulfil),
{
    match task {
        Outcome::NativePanic(p) => Outcome::NativePanic(p),
        Outcome::Value(d) => match fulfil {
            Outcome::Value(_) => Outcome::Value(d),
            Outcome::HostException(e) => Outcome::HostException(e),
            Outcome::NativePanic(p) => Outcome::NativePanic(p),
        },
        Outcome::HostException(m) => match fulfil {
            Outcome::Value(_) => Outcome::HostException(rejection_message(m.as_str())),
            Outcome::HostException(e) => Outcome::HostException(e),
            Outcome::NativePanic(p) => Outcome::NativePanic(p),
        },
    }
}

fn report(o: Outcome<String>) -> (r: HostReport<String>)
    ensures
        shows(r, told(o)),
{
    conclude(o)
}

/// What the host sees of `doubleNameFromStore`, given the outcome of its task
/// (reached through `double_name_first_step` and `double_name_second_step`)
/// and that of its fulfilment closure.
pub fn double_name_from_store(task: Outcome<String>, fulfil: Outcome<()>) -> (r: HostReport<String>)
    ensures
        shows(r, entry_told(told(task), fulfil)),
{
    report(fulfil_doubled(task, fulfil))
}

/// What the host sees of `doubleNameFromStoreUsingJoin`, given the store's
/// two replies, whether the second settled first, and the outcome of the
/// fulfilment closure.
pub fn double_name_from_store_using_join(
    first: Outcome<NameReply>,
    second: Outcome<NameReply>,
    second_settled_first: bool,
    fulfil: Outcome<()>,
) -> (r: HostReport<String>)
    ensures
        shows(r, entry_told(joined_told(name_told(first), name_told(second), second_settled_first), fulfil)),
{
    let task = double_name_from_store_using_join_impl(first, second, second_settled_first);
    report(fulfil_doubled(task, fulfil))
}

/// Asking for the name twice in a row and asking for it twice at once end the
/// same way, whatever the order of arrival, unless both requests fail.
pub proof fn lemma_join_agrees_with_sequence(
    first: Outcome<NameReply>,
    second: Outcome<NameReply>,
    second_settled_first: bool,
    fulfil: Outcome<()>,
)
    requires
        name_told(first) is Value || name_told(second) is Value,
    ensures
        entry_told(joined_told(name_told(first), name_told(second), second_settled_first), fulfil)
            == entry_told(sequential_told(name_told(first), name_told(second)), fulfil),
{
}

/// A store whose name is `name` gives `name name`, in a row and at once alike.
pub proof fn lemma_store_doubles_its_name(name: String, second_settled_first: bool)
    ensures
        entry_told(
            sequential_told(name_told(Outcome::Value(NameReply::Text(name))), name_told(Outcome::Value(NameReply::Text(name)))),
            Outcome::Value(()),
        ) == Told::Value(doubled(name@, name@)),
        entry_told(
            joined_told(
                name_told(Outcome::Value(NameReply::Text(name))),
                name_told(Outcome::Value(NameReply::Text(name))),
                second_settled_first,
            ),
            Outcome::Value(()),
        ) == Told::Value(doubled(name@, name@)),
{
}

/// A panic in a `getName` continuation or in the fulfilment closure reaches
/// the host once as a re-throw, with the promise rejected, never pending.
pub proof fn lemma_store_panic_surfaces_once(task: Told, fulfil: Outcome<()>, r: HostReport<String>)
    requires
        task is Panic || fulfil is NativePanic,
        shows(r, entry_told(task, fulfil)),
    ensures
        r.rethrown is Some,
        r.settlement is Rejected,
{
}

} // verus!
