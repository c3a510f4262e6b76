//! Behavioral tests of the dispatch state machine: routing, the one-shot
//! transition, predicate retirement, readiness idempotence and the error
//! policy of a failed realization.

use std::cell::Cell;
use std::rc::Rc;

use condition_middleware::Condition;
use condition_middleware::ConditionError;

/// A never-enabled instance routes every request to the base stage and
/// never transitions: N requests, N base calls, zero transformed calls.
#[test]
fn never_enabled_routes_to_base() {
    let base_calls = Rc::new(Cell::new(0u32));
    let trans_calls = Rc::new(Cell::new(0u32));
    let realizations = Rc::new(Cell::new(0u32));

    let bc = base_calls.clone();
    let base = move |q: u8| {
        bc.set(bc.get() + 1);
        Ok::<u8, u8>(q)
    };
    let tc = trans_calls.clone();
    let rz = realizations.clone();
    let c = Condition::new(
        |_r: &u8| false,
        move |s| {
            rz.set(rz.get() + 1);
            let tc = tc.clone();
            let s: Box<dyn Fn(u8) -> Result<u8, u8>> = Box::new(s);
            Ok::<_, u8>(move |q: u8| {
                tc.set(tc.get() + 1);
                s(q)
            })
        },
    );
    let mut m = c.new_transform(base);
    for i in 0..5u8 {
        assert_eq!(m.dispatch(i), Ok(i));
    }
    assert_eq!(base_calls.get(), 5);
    assert_eq!(trans_calls.get(), 0);
    assert_eq!(realizations.get(), 0);
    assert!(m.get_verified().is_none());
}

/// Once one request is enabled, the transform template is invoked exactly
/// once, however many requests follow.
#[test]
fn realizes_exactly_once() {
    let realizations = Rc::new(Cell::new(0u32));
    let base_calls = Rc::new(Cell::new(0u32));
    let trans_calls = Rc::new(Cell::new(0u32));

    let bc = base_calls.clone();
    let base = move |q: u8| {
        bc.set(bc.get() + 1);
        Ok::<u8, u8>(q)
    };
    let rz = realizations.clone();
    let tc = trans_calls.clone();
    let c = Condition::new(
        |r: &u8| *r >= 3,
        move |s| {
            rz.set(rz.get() + 1);
            let _ = s;
            let tc = tc.clone();
            Ok::<_, u8>(move |q: u8| {
                tc.set(tc.get() + 1);
                Ok::<u8, u8>(q)
            })
        },
    );
    let mut m = c.new_transform(base);
    for i in 1..=5u8 {
        assert_eq!(m.dispatch(i), Ok(i));
    }
    assert_eq!(realizations.get(), 1);
    assert_eq!(base_calls.get(), 2);
    assert_eq!(trans_calls.get(), 3);
    assert!(m.get_verified().is_some());
}

/// After the transition the predicate is never evaluated again: its call
/// count stops increasing.
#[test]
fn predicate_retired_after_transition() {
    let pred_calls = Rc::new(Cell::new(0u32));
    let pc = pred_calls.clone();
    let c = Condition::new(
        move |r: &u8| {
            pc.set(pc.get() + 1);
            *r == 3
        },
        |s: fn(u8) -> Result<u8, u8>| Ok::<_, u8>(s),
    );
    let mut m = c.new_transform((|q: u8| Ok::<u8, u8>(q)) as fn(u8) -> Result<u8, u8>);
    let _ = m.dispatch(1);
    let _ = m.dispatch(2);
    assert_eq!(pred_calls.get(), 2);
    let _ = m.dispatch(3);
    assert_eq!(pred_calls.get(), 3);
    let _ = m.dispatch(4);
    let _ = m.dispatch(3);
    let _ = m.dispatch(9);
    assert_eq!(pred_calls.get(), 3);
}

/// Readiness checks are idempotent: repeated checks without an intervening
/// dispatch cause no transition and change nothing observable.
#[test]
fn readiness_check_is_idempotent() {
    let pred_calls = Rc::new(Cell::new(0u32));
    let pc = pred_calls.clone();
    let c = Condition::new(
        move |_r: &u8| {
            pc.set(pc.get() + 1);
            true
        },
        |s: fn(u8) -> Result<u8, u8>| Ok::<_, u8>(s),
    );
    let mut m = c.new_transform((|q: u8| Ok::<u8, u8>(q)) as fn(u8) -> Result<u8, u8>);
    for _ in 0..10 {
        assert!(m.readiness_check());
    }
    assert!(m.get_verified().is_none());
    assert_eq!(pred_calls.get(), 0);
    assert_eq!(m.dispatch(1), Ok(1));
    assert!(m.get_verified().is_some());
}

/// Two enabled requests against one instance yield a single realization and
/// both requests reach the transformed stage (dispatches on one instance are
/// serialized by exclusive access to it).
#[test]
fn two_enabled_requests_single_realization() {
    let realizations = Rc::new(Cell::new(0u32));
    let trans_calls = Rc::new(Cell::new(0u32));
    let rz = realizations.clone();
    let tc = trans_calls.clone();
    let c = Condition::new(
        |_r: &u8| true,
        move |s| {
            rz.set(rz.get() + 1);
            let tc = tc.clone();
            let s: Box<dyn Fn(u8) -> Result<u8, u8>> = Box::new(s);
            Ok::<_, u8>(move |q: u8| {
                tc.set(tc.get() + 1);
                s(q)
            })
        },
    );
    let mut m = c.new_transform(|q: u8| Ok::<u8, u8>(q));
    assert_eq!(m.dispatch(1), Ok(1));
    assert_eq!(m.dispatch(2), Ok(2));
    assert_eq!(realizations.get(), 1);
    assert_eq!(trans_calls.get(), 2);
}

/// The latch is per wrapped instance: transforming one instance leaves a
/// sibling built from the same builder untouched.
#[test]
fn latch_is_per_instance() {
    let c = Condition::new(
        |r: &u8| *r == 7,
        |s: fn(u8) -> Result<u8, u8>| Ok::<_, u8>(s),
    );
    let mut a = c.new_transform((|q: u8| Ok::<u8, u8>(q)) as fn(u8) -> Result<u8, u8>);
    let mut b = c.new_transform((|q: u8| Ok::<u8, u8>(q)) as fn(u8) -> Result<u8, u8>);
    let _ = a.dispatch(7);
    assert!(a.get_verified().is_some());
    assert!(b.get_verified().is_none());
    let _ = b.dispatch(1);
    assert!(b.get_verified().is_none());
}

/// An error of the base stage surfaces unchanged as `Inner`.
#[test]
fn base_stage_error_is_inner() {
    let c = Condition::new(
        |_r: &u8| false,
        |s: fn(u8) -> Result<u8, &'static str>| Ok::<_, &'static str>(s),
    );
    let mut m = c.new_transform(
        (|_q: u8| Err::<u8, &'static str>("base failed")) as fn(u8) -> Result<u8, &'static str>,
    );
    assert_eq!(m.dispatch(1), Err(ConditionError::Inner("base failed")));
    assert!(m.get_verified().is_none());
}

/// An error of the transformed stage surfaces unchanged as `Inner`.
#[test]
fn transformed_stage_error_is_inner() {
    let c = Condition::new(
        |_r: &u8| true,
        |_s: fn(u8) -> Result<u8, &'static str>| {
            Ok::<_, &'static str>(
                (|_q: u8| Err::<u8, &'static str>("transformed failed"))
                    as fn(u8) -> Result<u8, &'static str>,
            )
        },
    );
    let mut m = c.new_transform(
        (|q: u8| Ok::<u8, &'static str>(q)) as fn(u8) -> Result<u8, &'static str>,
    );
    assert_eq!(m.dispatch(1), Err(ConditionError::Inner("transformed failed")));
}

/// A failed realization surfaces the template's error on the triggering
/// dispatch, and every later dispatch fails fast: the instance is
/// permanently failed, with no second realization attempt.
#[test]
fn realization_failure_fails_fast() {
    let realizations = Rc::new(Cell::new(0u32));
    let rz = realizations.clone();
    let c = Condition::new(
        |r: &u8| *r == 7,
        move |_s: fn(u8) -> Result<u8, u8>| {
            rz.set(rz.get() + 1);
            Err::<fn(u8) -> Result<u8, u8>, &'static str>("factory broke")
        },
    );
    let mut m = c.new_transform((|q: u8| Ok::<u8, u8>(q)) as fn(u8) -> Result<u8, u8>);
    assert_eq!(m.dispatch(1), Ok(1));
    assert_eq!(m.dispatch(7), Err(ConditionError::Realization("factory broke")));
    assert_eq!(m.dispatch(1), Err(ConditionError::Failed));
    assert_eq!(m.dispatch(7), Err(ConditionError::Failed));
    assert_eq!(realizations.get(), 1);
    assert!(m.get_verified().is_none());
}
