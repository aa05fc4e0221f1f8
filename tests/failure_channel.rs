use future_bridge::outcome::{
    callback_action, combine_stages, conclude, promise_settlement, settle_entry, CallbackAction,
    Outcome, Settlement,
};

fn ok() -> Outcome<()> {
    Outcome::Value(())
}

fn is_rejected_with(s: &Settlement<i32>, m: &str) -> bool {
    matches!(s, Settlement::Rejected(t) if t == m)
}

#[test]
fn all_stages_succeed_fulfils() {
    let r = settle_entry(&vec![ok(), ok(), ok()], Outcome::Value(7));
    assert!(matches!(r.settlement, Settlement::Fulfilled(7)));
    assert!(r.rethrown.is_none());
}

#[test]
fn panic_at_each_point_surfaces_once() {
    for i in 0..4 {
        let mut stages = vec![ok(), ok(), ok()];
        let fulfil = if i < 3 {
            stages[i] = Outcome::NativePanic("p".to_string());
            Outcome::Value(1)
        } else {
            Outcome::NativePanic("p".to_string())
        };
        let r = settle_entry(&stages, fulfil);
        assert_eq!(r.rethrown, Some("p".to_string()));
        assert!(is_rejected_with(&r.settlement, "p"));
    }
}

#[test]
fn exception_at_each_point_rejects_once() {
    for i in 0..4 {
        let mut stages = vec![ok(), ok(), ok()];
        let fulfil = if i < 3 {
            stages[i] = Outcome::HostException("thrown".to_string());
            Outcome::Value(1)
        } else {
            Outcome::HostException("thrown".to_string())
        };
        let r = settle_entry(&stages, fulfil);
        assert!(r.rethrown.is_none());
        assert!(is_rejected_with(&r.settlement, "thrown"));
    }
}

#[test]
fn first_failure_wins_over_later_panic() {
    let stages = vec![ok(), Outcome::HostException("e".to_string()), Outcome::NativePanic("p".to_string())];
    let r = settle_entry(&stages, Outcome::Value(1));
    assert!(r.rethrown.is_none());
    assert!(is_rejected_with(&r.settlement, "e"));
}

#[test]
fn no_stages_uses_fulfilment() {
    let r = combine_stages::<i32>(&vec![], Outcome::Value(3));
    assert!(matches!(r, Outcome::Value(3)));
    let c = conclude::<i32>(Outcome::HostException("x".to_string()));
    assert!(is_rejected_with(&c.settlement, "x"));
}

#[test]
fn callback_variant() {
    assert!(matches!(callback_action(Outcome::Value(42)), CallbackAction::CallWithValue(42)));
    assert!(matches!(
        callback_action::<i32>(Outcome::HostException("boom".to_string())),
        CallbackAction::CallWithError(t) if t == "error: boom"
    ));
    assert!(matches!(
        callback_action::<i32>(Outcome::NativePanic("p".to_string())),
        CallbackAction::Throw(t) if t == "p"
    ));
}

#[test]
fn promise_variant() {
    assert!(matches!(promise_settlement(Ok::<i32, String>(5)), Settlement::Fulfilled(5)));
    assert!(is_rejected_with(&promise_settlement(Err("boom".to_string())), "rejected: boom"));
}
