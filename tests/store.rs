use future_bridge::outcome::{HostReport, Outcome, Settlement};
use future_bridge::store::{
    double_name_first_step, double_name_from_store, double_name_from_store_using_join,
    double_name_from_store_using_join_impl, double_name_second_step, error_message,
    name_from_reply, rejection_message, FirstNameStep, NameReply,
};

fn text(s: &str) -> Outcome<NameReply> {
    Outcome::Value(NameReply::Text(s.to_string()))
}

fn thrown(s: &str) -> Outcome<NameReply> {
    Outcome::HostException(s.to_string())
}

fn fulfilled(r: &HostReport<String>) -> Option<String> {
    match &r.settlement {
        Settlement::Fulfilled(s) if r.rethrown.is_none() => Some(s.clone()),
        _ => None,
    }
}

fn rejected(r: &HostReport<String>) -> Option<String> {
    match &r.settlement {
        Settlement::Rejected(s) => Some(s.clone()),
        _ => None,
    }
}

/// Runs the sequential entry point, counting the requests it makes.
fn sequential(first: Outcome<NameReply>, second: Outcome<NameReply>, fulfil: Outcome<()>) -> (HostReport<String>, u32) {
    match double_name_first_step(first) {
        FirstNameStep::RequestSecond(a) => {
            let task = double_name_second_step(a, second);
            (double_name_from_store(task, fulfil), 2)
        }
        FirstNameStep::Finished(task) => (double_name_from_store(task, fulfil), 1),
    }
}

#[test]
fn doubles_name_sequentially() {
    let (r, requests) = sequential(text("Moxie"), text("Moxie"), Outcome::Value(()));
    assert_eq!(fulfilled(&r), Some("Moxie Moxie".to_string()));
    assert_eq!(requests, 2);
}

#[test]
fn doubles_name_with_join() {
    for order in [false, true] {
        let r = double_name_from_store_using_join(text("Moxie"), text("Moxie"), order, Outcome::Value(()));
        assert_eq!(fulfilled(&r), Some("Moxie Moxie".to_string()));
    }
}

#[test]
fn first_failure_skips_second_request() {
    assert!(matches!(double_name_first_step(thrown("boom")), FirstNameStep::Finished(Outcome::HostException(e)) if e == "boom"));
    assert!(matches!(double_name_first_step(text("a")), FirstNameStep::RequestSecond(a) if a == "a"));
    let (r, requests) = sequential(thrown("boom"), text("unused"), Outcome::Value(()));
    assert_eq!(requests, 1);
    assert_eq!(rejected(&r), Some("rejected: boom".to_string()));
    assert!(r.rethrown.is_none());
}

#[test]
fn sequential_and_join_agree_when_one_fails() {
    let (seq, _) = sequential(text("a"), thrown("boom"), Outcome::Value(()));
    let joined = double_name_from_store_using_join(text("a"), thrown("boom"), true, Outcome::Value(()));
    assert_eq!(rejected(&seq), Some("rejected: boom".to_string()));
    assert_eq!(rejected(&joined), rejected(&seq));
}

#[test]
fn join_reports_failure_that_arrived_first() {
    let first = double_name_from_store_using_join(thrown("first"), thrown("second"), false, Outcome::Value(()));
    let second = double_name_from_store_using_join(thrown("first"), thrown("second"), true, Outcome::Value(()));
    assert_eq!(rejected(&first), Some("rejected: first".to_string()));
    assert_eq!(rejected(&second), Some("rejected: second".to_string()));
}

#[test]
fn non_string_name_is_rejected() {
    let (r, requests) = sequential(Outcome::Value(NameReply::NotText), text("x"), Outcome::Value(()));
    assert_eq!(requests, 1);
    assert_eq!(rejected(&r), Some("rejected: name must be a string".to_string()));
    assert!(matches!(name_from_reply(Outcome::Value(NameReply::NotText)), Outcome::HostException(e) if e == "name must be a string"));
}

#[test]
fn panic_in_continuation_surfaces_once() {
    let (r, requests) = sequential(Outcome::NativePanic("p".to_string()), text("x"), Outcome::Value(()));
    assert_eq!(requests, 1);
    assert_eq!(rejected(&r), Some("p".to_string()));
    assert_eq!(r.rethrown, Some("p".to_string()));
    let j = double_name_from_store_using_join(text("a"), Outcome::NativePanic("q".to_string()), false, Outcome::Value(()));
    assert_eq!(j.rethrown, Some("q".to_string()));
    assert_eq!(rejected(&j), Some("q".to_string()));
}

#[test]
fn panic_during_fulfil_surfaces_once() {
    let (r, _) = sequential(text("a"), text("b"), Outcome::NativePanic("late".to_string()));
    assert_eq!(r.rethrown, Some("late".to_string()));
    assert_eq!(rejected(&r), Some("late".to_string()));
}

#[test]
fn exception_during_fulfil_rejects() {
    let (r, _) = sequential(text("a"), text("b"), Outcome::HostException("oops".to_string()));
    assert!(r.rethrown.is_none());
    assert_eq!(rejected(&r), Some("oops".to_string()));
}

#[test]
fn second_step_joins_with_one_space() {
    assert!(matches!(double_name_second_step("a".into(), text("b")), Outcome::Value(s) if s == "a b"));
    assert!(matches!(double_name_second_step("".into(), text("")), Outcome::Value(s) if s == " "));
    assert!(matches!(
        double_name_from_store_using_join_impl(text("x"), thrown("e"), false),
        Outcome::HostException(e) if e == "e"
    ));
}

#[test]
fn messages() {
    assert_eq!(error_message("bad"), "error: bad");
    assert_eq!(rejection_message("bad"), "rejected: bad");
    assert_eq!(error_message(""), "error: ");
}
