//! The lazily-materialized state owned by a wrapped stage.
//!
//! A wrapped stage starts out holding the untransformed ("base") stage and
//! performs at most one irreversible transition to the transformed stage.
//! The base stage sits inside an `Option` so that it can be moved out during
//! the transition without ever leaving the enum in an invalid intermediate
//! state; an empty slot that is never refilled marks the instance as
//! permanently failed (a realization error consumed the base stage).

use vstd::prelude::*;

use crate::transitions::Phase;

verus! {

/// Runtime state of a wrapped stage: not yet transformed (`Unverified`,
/// holding the base stage, or empty after a failed realization) or
/// transformed (`Verified`, terminal).
pub enum ServiceState<U, V> {
    /// Not yet transformed. `Some` holds the base stage; `None` records that a
    /// realization attempt consumed the base stage and failed, so the instance
    /// is permanently failed.
    Unverified(Option<U>),
    /// Transformed; terminal. Holds the stage the transform template produced.
    Verified(V),
}

/// Abstract picture of a [`ServiceState`]: the three phases a wrapped stage
/// can be in, each with the stage it would route requests to (none when
/// permanently failed).
pub enum StateView<U, V> {
    /// Untransformed; requests for which the predicate is false go here.
    Base(U),
    /// Transformed; every remaining request goes here.
    Transformed(V),
    /// A realization attempt failed; every remaining request is rejected.
    Failed,
}

impl<U, V> StateView<U, V> {
    /// The phase of the abstract machine this state sits in.
    pub open spec fn phase(&self) -> Phase {
        match self {
            StateView::Base(_) => Phase::Base,
            StateView::Transformed(_) => Phase::Transformed,
            StateView::Failed => Phase::Failed,
        }
    }
}

impl<U, V> View for ServiceState<U, V> {
    type V = StateView<U, V>;

    open spec fn view(&self) -> StateView<U, V> {
        match self {
            ServiceState::Unverified(Some(s)) => StateView::Base(*s),
            ServiceState::Unverified(None) => StateView::Failed,
            ServiceState::Verified(s) => StateView::Transformed(*s),
        }
    }
}

impl<U, V> ServiceState<U, V> {
    /// Hands out the transformed stage if the transition has already
    /// happened, and `None` (leaving the state untouched) otherwise.
    pub fn get_verified(&mut self) -> (r: Option<&mut V>)
        ensures
            match r {
                Some(v) => {
                    &&& old(self)@ matches StateView::Transformed(t) && *v == t
                    &&& *final(self) == ServiceState::<U, V>::Verified(*final(v))
                },
                None => {
                    &&& !(old(self)@ is Transformed)
                    &&& *final(self) == *old(self)
                },
            },
    {
        match self {
            ServiceState::Unverified(_) => None,
            ServiceState::Verified(x) => Some(x),
        }
    }
}

} // verus!
